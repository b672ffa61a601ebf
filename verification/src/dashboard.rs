use vstd::prelude::*;
use crate::status::{LeakStatus, overall_of, overall_safe_iff_all_safe};

verus! {

/// Colour and text of a sensor's validity indicator.
pub fn validity_badge(is_valid: bool) -> (r: (&'static str, &'static str))
    ensures
        r.0@ == (if is_valid { "#16a34a"@ } else { "#dc2626"@ }),
        r.1@ == (if is_valid { "Valid"@ } else { "ERROR"@ }),
{
    if is_valid {
        ("#16a34a", "Valid")
    } else {
        ("#dc2626", "ERROR")
    }
}

/// `r` lists, in increasing order, exactly the branches of `s` that are not safe.
pub open spec fn lists_alarms(s: Seq<LeakStatus>, r: Seq<usize>) -> bool {
    &&& forall|k: int| 0 <= k < r.len() ==> #[trigger] r[k] < s.len() && s[r[k] as int] != LeakStatus::Aman
    &&& forall|k: int, l: int| 0 <= k < l < r.len() ==> #[trigger] r[k] < #[trigger] r[l]
    &&& forall|i: int| 0 <= i < s.len() && #[trigger] s[i] != LeakStatus::Aman ==> r.contains(i as usize)
}

/// The branches that the alarm table lists: those not safe, in order.
pub fn alarm_branches(statuses: &Vec<LeakStatus>) -> (r: Vec<usize>)
    ensures
        lists_alarms(statuses@, r@),
        forall|k: int| 0 <= k < r@.len() ==> #[trigger] r@[k] < statuses@.len() && statuses@[r@[k] as int] != LeakStatus::Aman,
        forall|k: int, l: int| 0 <= k < l < r@.len() ==> #[trigger] r@[k] < #[trigger] r@[l],
        forall|i: int| 0 <= i < statuses@.len() && #[trigger] statuses@[i] != LeakStatus::Aman ==> r@.contains(i as usize),
{
    let n = statuses.len();
    let mut r: Vec<usize> = Vec::new();
    let mut i: usize = 0;
    while i < n
        invariant
            n == statuses@.len(),
            i <= n,
            forall|k: int| 0 <= k < r@.len() ==> #[trigger] r@[k] < i && statuses@[r@[k] as int] != LeakStatus::Aman,
            forall|k: int, l: int| 0 <= k < l < r@.len() ==> #[trigger] r@[k] < #[trigger] r@[l],
            forall|j: int| 0 <= j < i && #[trigger] statuses@[j] != LeakStatus::Aman ==> r@.contains(j as usize),
        decreases n - i,
    {
        if statuses[i] != LeakStatus::Aman {
            let ghost old_r = r@;
            r.push(i);
            assert forall|j: int| 0 <= j < i + 1 && #[trigger] statuses@[j] != LeakStatus::Aman implies r@.contains(j as usize) by {
                if j < i {
                    let k = choose|k: int| 0 <= k < old_r.len() && old_r[k] == j as usize;
                    assert(r@[k] == j as usize);
                } else {
                    assert(r@[r@.len() - 1] == j as usize);
                }
            }
        }
        i = i + 1;
    }
    r
}

/// The dashboard shows alarm rows exactly when the aggregate status is not safe.
pub proof fn alarm_rows_iff_alert(s: Seq<LeakStatus>, r: Seq<usize>)
    requires
        lists_alarms(s, r),
    ensures
        r.len() > 0 <==> overall_of(s) != LeakStatus::Aman,
{
    overall_safe_iff_all_safe(s);
    if r.len() > 0 {
        assert(s[r[0] as int] != LeakStatus::Aman);
    }
    if overall_of(s) != LeakStatus::Aman {
        let i = choose|i: int| 0 <= i < s.len() && s[i] != LeakStatus::Aman;
        assert(r.contains(i as usize));
    }
}

} // verus!
