use vstd::prelude::*;

verus! {

/// Leakage level of one branch circuit, in increasing severity.
#[derive(PartialEq, Eq, Structural, Clone, Copy, Debug)]
pub enum LeakStatus {
    Aman,
    Waspada,
    Bahaya,
}

/// Severity rank of a status: `Aman` < `Waspada` < `Bahaya`.
pub open spec fn severity(s: LeakStatus) -> int {
    match s {
        LeakStatus::Aman => 0,
        LeakStatus::Waspada => 1,
        LeakStatus::Bahaya => 2,
    }
}

/// Text shown for a status.
pub open spec fn label_text(s: LeakStatus) -> Seq<char> {
    match s {
        LeakStatus::Aman => "AMAN"@,
        LeakStatus::Waspada => "WASPADA"@,
        LeakStatus::Bahaya => "BAHAYA"@,
    }
}

/// Display colour of a status.
pub open spec fn color_text(s: LeakStatus) -> Seq<char> {
    match s {
        LeakStatus::Aman => "#16a34a"@,
        LeakStatus::Waspada => "#d97706"@,
        LeakStatus::Bahaya => "#dc2626"@,
    }
}

impl LeakStatus {
    /// The status label: "AMAN", "WASPADA" or "BAHAYA".
    pub fn label(&self) -> (r: &'static str)
        ensures
            r@ == label_text(*self),
            *self == LeakStatus::Aman ==> r@ == "AMAN"@,
            *self == LeakStatus::Waspada ==> r@ == "WASPADA"@,
            *self == LeakStatus::Bahaya ==> r@ == "BAHAYA"@,
    {
        match self {
            LeakStatus::Aman => "AMAN",
            LeakStatus::Waspada => "WASPADA",
            LeakStatus::Bahaya => "BAHAYA",
        }
    }

    /// The status colour: green, amber or red.
    pub fn color(&self) -> (r: &'static str)
        ensures
            r@ == color_text(*self),
            *self == LeakStatus::Aman ==> r@ == "#16a34a"@,
            *self == LeakStatus::Waspada ==> r@ == "#d97706"@,
            *self == LeakStatus::Bahaya ==> r@ == "#dc2626"@,
    {
        match self {
            LeakStatus::Aman => "#16a34a",
            LeakStatus::Waspada => "#d97706",
            LeakStatus::Bahaya => "#dc2626",
        }
    }

    /// Status of a sensor: invalid data is treated as danger, otherwise the
    /// status is the one that its leakage current classifies to.
    pub fn for_sensor(is_valid: bool, leak_status: LeakStatus) -> (r: LeakStatus)
        ensures
            r == (if is_valid { leak_status } else { LeakStatus::Bahaya }),
    {
        if !is_valid {
            return LeakStatus::Bahaya;
        }
        leak_status
    }

    /// Style class of the overall badge: it pulses only in danger.
    pub fn badge_class(&self) -> (r: &'static str)
        ensures
            r@ == (if *self == LeakStatus::Bahaya { "pulse-badge"@ } else { ""@ }),
    {
        if *self == LeakStatus::Bahaya {
            "pulse-badge"
        } else {
            ""
        }
    }
}

/// Whether some status of `s` equals `t`.
pub open spec fn has_status(s: Seq<LeakStatus>, t: LeakStatus) -> bool {
    exists|i: int| 0 <= i < s.len() && s[i] == t
}

/// Aggregate status of all branches: danger if any branch is in danger,
/// else warning if any branch warns, else safe.
pub open spec fn overall_of(s: Seq<LeakStatus>) -> LeakStatus {
    if has_status(s, LeakStatus::Bahaya) {
        LeakStatus::Bahaya
    } else if has_status(s, LeakStatus::Waspada) {
        LeakStatus::Waspada
    } else {
        LeakStatus::Aman
    }
}

fn any_is(statuses: &Vec<LeakStatus>, t: LeakStatus) -> (r: bool)
    ensures
        r == has_status(statuses@, t),
{
    let n = statuses.len();
    let mut i: usize = 0;
    while i < n
        invariant
            n == statuses@.len(),
            i <= n,
            forall|j: int| 0 <= j < i ==> statuses@[j] != t,
        decreases n - i,
    {
        if statuses[i] == t {
            return true;
        }
        i = i + 1;
    }
    false
}

/// Aggregate status of the branch statuses `statuses`.
pub fn overall_status(statuses: &Vec<LeakStatus>) -> (r: LeakStatus)
    ensures
        r == overall_of(statuses@),
        r == LeakStatus::Bahaya <==> (exists|i: int|
            0 <= i < statuses@.len() && #[trigger] statuses@[i] == LeakStatus::Bahaya),
        r == LeakStatus::Waspada <==> ((exists|i: int|
            0 <= i < statuses@.len() && #[trigger] statuses@[i] == LeakStatus::Waspada) && (forall|i: int|
            0 <= i < statuses@.len() ==> #[trigger] statuses@[i] != LeakStatus::Bahaya)),
        r == LeakStatus::Aman <==> (forall|i: int|
            0 <= i < statuses@.len() ==> #[trigger] statuses@[i] == LeakStatus::Aman),
{
    if any_is(statuses, LeakStatus::Bahaya) {
        LeakStatus::Bahaya
    } else if any_is(statuses, LeakStatus::Waspada) {
        LeakStatus::Waspada
    } else {
        LeakStatus::Aman
    }
}

/// The aggregate status is the most severe status of any branch: no
/// branch is more severe than it, and, where there is a branch, some branch
/// has exactly the aggregate status.
pub proof fn overall_is_most_severe(s: Seq<LeakStatus>)
    ensures
        forall|i: int| 0 <= i < s.len() ==> severity(#[trigger] s[i]) <= severity(overall_of(s)),
        overall_of(s) == LeakStatus::Aman ==> forall|i: int| 0 <= i < s.len() ==> #[trigger] s[i] == LeakStatus::Aman,
        overall_of(s) == LeakStatus::Waspada ==> forall|i: int| 0 <= i < s.len() ==> #[trigger] s[i] != LeakStatus::Bahaya,
        s.len() > 0 ==> exists|i: int| 0 <= i < s.len() && #[trigger] s[i] == overall_of(s),
{
    if s.len() > 0 && !has_status(s, LeakStatus::Bahaya) && !has_status(s, LeakStatus::Waspada) {
        assert(s[0] == LeakStatus::Aman);
    }
    if overall_of(s) == LeakStatus::Aman {
        assert forall|i: int| 0 <= i < s.len() implies #[trigger] s[i] == LeakStatus::Aman by {
            if s[i] == LeakStatus::Bahaya {
                assert(has_status(s, LeakStatus::Bahaya));
            }
            if s[i] == LeakStatus::Waspada {
                assert(has_status(s, LeakStatus::Waspada));
            }
        }
    }
    if overall_of(s) == LeakStatus::Waspada {
        assert forall|i: int| 0 <= i < s.len() implies #[trigger] s[i] != LeakStatus::Bahaya by {
            if s[i] == LeakStatus::Bahaya {
                assert(has_status(s, LeakStatus::Bahaya));
            }
        }
    }
}

/// A branch in danger makes the aggregate dangerous; a warning branch makes
/// it at least a warning; only all-safe branches give a safe aggregate.
pub proof fn overall_reacts_to_each_branch(s: Seq<LeakStatus>, i: int)
    requires
        0 <= i < s.len(),
    ensures
        s[i] == LeakStatus::Bahaya ==> overall_of(s) == LeakStatus::Bahaya,
        s[i] == LeakStatus::Waspada ==> overall_of(s) != LeakStatus::Aman,
        s[i] != LeakStatus::Aman ==> overall_of(s) != LeakStatus::Aman,
{
    if s[i] == LeakStatus::Bahaya {
        assert(has_status(s, LeakStatus::Bahaya));
    }
    if s[i] == LeakStatus::Waspada {
        assert(has_status(s, LeakStatus::Waspada));
    }
}

/// The aggregate is safe exactly when every branch is safe.
pub proof fn overall_safe_iff_all_safe(s: Seq<LeakStatus>)
    ensures
        (overall_of(s) == LeakStatus::Aman) <==> (forall|i: int|
            0 <= i < s.len() ==> #[trigger] s[i] == LeakStatus::Aman),
{
    if overall_of(s) == LeakStatus::Aman {
        assert forall|i: int| 0 <= i < s.len() implies #[trigger] s[i] == LeakStatus::Aman by {
            if s[i] == LeakStatus::Bahaya {
                assert(has_status(s, LeakStatus::Bahaya));
            }
            if s[i] == LeakStatus::Waspada {
                assert(has_status(s, LeakStatus::Waspada));
            }
        }
    }
}

/// Distinct statuses have distinct labels and distinct colours.
pub proof fn labels_and_colors_distinct(a: LeakStatus, b: LeakStatus)
    requires
        a != b,
    ensures
        label_text(a) != label_text(b),
        color_text(a) != color_text(b),
{
    reveal_strlit("AMAN");
    reveal_strlit("WASPADA");
    reveal_strlit("BAHAYA");
    reveal_strlit("#16a34a");
    reveal_strlit("#d97706");
    reveal_strlit("#dc2626");
    assert("AMAN"@.len() != "WASPADA"@.len());
    assert("AMAN"@.len() != "BAHAYA"@.len());
    assert("WASPADA"@.len() != "BAHAYA"@.len());
    assert("#16a34a"@[1] != "#d97706"@[1]);
    assert("#16a34a"@[1] != "#dc2626"@[1]);
    assert("#d97706"@[2] != "#dc2626"@[2]);
}

} // verus!
