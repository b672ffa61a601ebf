use vstd::prelude::*;
use crate::status::LeakStatus;

verus! {

/// Decision log of one branch circuit: its name and how many readings were
/// a warning and how many were a danger.
pub struct Controller {
    pub name: String,
    pub total_warnings: u32,
    pub total_dangers: u32,
}

/// Whether recording status `s` would overflow a counter of `c`.
pub open spec fn can_process(c: Controller, s: LeakStatus) -> bool {
    &&& s == LeakStatus::Waspada ==> c.total_warnings < u32::MAX
    &&& s == LeakStatus::Bahaya ==> c.total_dangers < u32::MAX
}

/// The controller after recording status `s`: a warning or a danger adds
/// one to its counter; a safe reading changes nothing.
pub open spec fn processed(c: Controller, s: LeakStatus) -> Controller {
    Controller {
        name: c.name,
        total_warnings: if s == LeakStatus::Waspada { (c.total_warnings + 1) as u32 } else { c.total_warnings },
        total_dangers: if s == LeakStatus::Bahaya { (c.total_dangers + 1) as u32 } else { c.total_dangers },
    }
}

/// The operator instruction shown for branch `name` in status `s`.
pub open spec fn message_text(name: Seq<char>, s: LeakStatus) -> Seq<char> {
    match s {
        LeakStatus::Aman => "MCB "@ + name + " normal."@,
        LeakStatus::Waspada => "Pantau MCB "@ + name + "! Ada indikasi kebocoran."@,
        LeakStatus::Bahaya => "SEGERA MATIKAN MCB "@ + name + "! Cek instalasi!"@,
    }
}

impl Controller {
    /// A controller for branch `name` with no event recorded.
    pub fn new(name: &str) -> (r: Controller)
        ensures
            r.name@ == name@,
            r.total_warnings == 0,
            r.total_dangers == 0,
    {
        Controller { name: String::from_str(name), total_warnings: 0, total_dangers: 0 }
    }

    /// Records one reading's status.
    pub fn process(&mut self, status: &LeakStatus)
        requires
            can_process(*old(self), *status),
        ensures
            *final(self) == processed(*old(self), *status),
            final(self).name == old(self).name,
            final(self).total_warnings == old(self).total_warnings + (if *status == LeakStatus::Waspada { 1int } else { 0int }),
            final(self).total_dangers == old(self).total_dangers + (if *status == LeakStatus::Bahaya { 1int } else { 0int }),
    {
        match status {
            LeakStatus::Waspada => self.total_warnings = self.total_warnings + 1,
            LeakStatus::Bahaya => self.total_dangers = self.total_dangers + 1,
            _ => {},
        }
    }

    /// The instruction for the operator in status `status`.
    pub fn action_message(&self, status: &LeakStatus) -> (r: String)
        ensures
            r@ == message_text(self.name@, *status),
            *status == LeakStatus::Aman ==> r@ == "MCB "@ + self.name@ + " normal."@,
            *status == LeakStatus::Waspada ==> r@ == "Pantau MCB "@ + self.name@ + "! Ada indikasi kebocoran."@,
            *status == LeakStatus::Bahaya ==> r@ == "SEGERA MATIKAN MCB "@ + self.name@ + "! Cek instalasi!"@,
    {
        match status {
            LeakStatus::Aman => {
                let mut m = String::from_str("MCB ");
                m.append(self.name.as_str());
                m.append(" normal.");
                m
            },
            LeakStatus::Waspada => {
                let mut m = String::from_str("Pantau MCB ");
                m.append(self.name.as_str());
                m.append("! Ada indikasi kebocoran.");
                m
            },
            LeakStatus::Bahaya => {
                let mut m = String::from_str("SEGERA MATIKAN MCB ");
                m.append(self.name.as_str());
                m.append("! Cek instalasi!");
                m
            },
        }
    }
}

/// The controllers of the three monitored branches, kitchen, bedroom and
/// living room, in that order, with no event recorded.
pub fn branch_controllers() -> (r: Vec<Controller>)
    ensures
        r@.len() == 3,
        r@[0].name@ == "DAPUR"@,
        r@[1].name@ == "KAMAR"@,
        r@[2].name@ == "R.TAMU"@,
        forall|i: int| 0 <= i < 3 ==> #[trigger] r@[i].total_warnings == 0 && r@[i].total_dangers == 0,
{
    let mut r: Vec<Controller> = Vec::new();
    r.push(Controller::new("DAPUR"));
    r.push(Controller::new("KAMAR"));
    r.push(Controller::new("R.TAMU"));
    r
}

/// Records `statuses[i]` on `controllers[i]` for every branch `i` that has a
/// status; controllers beyond the statuses are left as they are.
pub fn process_statuses(controllers: &mut Vec<Controller>, statuses: &Vec<LeakStatus>)
    requires
        statuses@.len() <= old(controllers)@.len(),
        forall|i: int| 0 <= i < statuses@.len() ==> can_process(#[trigger] old(controllers)@[i], statuses@[i]),
    ensures
        final(controllers)@.len() == old(controllers)@.len(),
        forall|i: int| 0 <= i < statuses@.len() ==>
            #[trigger] final(controllers)@[i] == processed(old(controllers)@[i], statuses@[i]),
        forall|i: int| statuses@.len() <= i < old(controllers)@.len() ==>
            #[trigger] final(controllers)@[i] == old(controllers)@[i],
{
    let n = statuses.len();
    let ghost start = controllers@;
    let mut i: usize = 0;
    while i < n
        invariant
            n == statuses@.len(),
            n <= start.len(),
            i <= n,
            controllers@.len() == start.len(),
            forall|j: int| 0 <= j < n ==> can_process(#[trigger] start[j], statuses@[j]),
            forall|j: int| 0 <= j < i ==> #[trigger] controllers@[j] == processed(start[j], statuses@[j]),
            forall|j: int| i <= j < start.len() ==> #[trigger] controllers@[j] == start[j],
        decreases n - i,
    {
        let st = statuses[i];
        controllers[i].process(&st);
        i = i + 1;
    }
}

/// Number of entries of `s` equal to `t`.
pub open spec fn count_of(s: Seq<LeakStatus>, t: LeakStatus) -> nat
    decreases s.len(),
{
    if s.len() == 0 {
        0
    } else {
        count_of(s.drop_last(), t) + if s.last() == t { 1nat } else { 0nat }
    }
}

/// The controller after recording each status of `s`, in order.
pub open spec fn processed_all(c: Controller, s: Seq<LeakStatus>) -> Controller
    decreases s.len(),
{
    if s.len() == 0 {
        c
    } else {
        processed(processed_all(c, s.drop_last()), s.last())
    }
}

/// The counters count the events: after recording the statuses `s`, where
/// no counter overflows, the warning counter has grown by the number of
/// warnings in `s`, the danger counter by the number of dangers, and the
/// name is unchanged.
pub proof fn counters_count_events(c: Controller, s: Seq<LeakStatus>)
    requires
        c.total_warnings + count_of(s, LeakStatus::Waspada) <= u32::MAX,
        c.total_dangers + count_of(s, LeakStatus::Bahaya) <= u32::MAX,
    ensures
        processed_all(c, s).total_warnings == c.total_warnings + count_of(s, LeakStatus::Waspada),
        processed_all(c, s).total_dangers == c.total_dangers + count_of(s, LeakStatus::Bahaya),
        processed_all(c, s).name == c.name,
    decreases s.len(),
{
    if s.len() > 0 {
        counters_count_events(c, s.drop_last());
    }
}

/// The instruction's wording depends on the status alone; the branch name
/// is only inserted: for every name, safe reads "MCB <name> normal.", a
/// warning reads "Pantau MCB <name>! Ada indikasi kebocoran." and danger
/// reads "SEGERA MATIKAN MCB <name>! Cek instalasi!".
pub proof fn message_template(name: Seq<char>)
    ensures
        message_text(name, LeakStatus::Aman) == "MCB "@ + name + " normal."@,
        message_text(name, LeakStatus::Waspada) == "Pantau MCB "@ + name + "! Ada indikasi kebocoran."@,
        message_text(name, LeakStatus::Bahaya) == "SEGERA MATIKAN MCB "@ + name + "! Cek instalasi!"@,
{
}

/// Two branches in the same status get the same instruction around their
/// names: the text before the name and the text after it agree.
pub proof fn message_same_for_every_name(a: Seq<char>, b: Seq<char>, s: LeakStatus)
    ensures
        exists|pre: Seq<char>, post: Seq<char>|
            message_text(a, s) == pre + a + post && message_text(b, s) == pre + b + post,
{
    message_template(a);
    message_template(b);
    match s {
        LeakStatus::Aman => {
            assert(message_text(a, s) == "MCB "@ + a + " normal."@);
        },
        LeakStatus::Waspada => {
            assert(message_text(a, s) == "Pantau MCB "@ + a + "! Ada indikasi kebocoran."@);
        },
        LeakStatus::Bahaya => {
            assert(message_text(a, s) == "SEGERA MATIKAN MCB "@ + a + "! Cek instalasi!"@);
        },
    }
}

/// Recording a safe reading changes nothing.
pub proof fn safe_reading_changes_nothing(c: Controller)
    ensures
        processed(c, LeakStatus::Aman) == c,
{
}

/// There are no more warnings and dangers in `s` than entries.
pub proof fn events_at_most_entries(s: Seq<LeakStatus>)
    ensures
        count_of(s, LeakStatus::Waspada) + count_of(s, LeakStatus::Bahaya) <= s.len(),
    decreases s.len(),
{
    if s.len() > 0 {
        events_at_most_entries(s.drop_last());
    }
}

/// One more recorded status is one more step of the run: recording the
/// statuses `s` and then `x` is recording `s.push(x)`.
pub proof fn run_extends_by_one_call(c: Controller, s: Seq<LeakStatus>, x: LeakStatus)
    ensures
        processed(processed_all(c, s), x) == processed_all(c, s.push(x)),
{
    assert(s.push(x).drop_last() =~= s);
}

/// A controller created by `Controller::new` and then given the statuses
/// `s` (fewer than `u32::MAX` of them), one call of `process` each, has
/// counted exactly the warnings and the dangers of `s`, no more events
/// than calls, and still has its name.
pub proof fn fresh_controller_counts_run(c: Controller, s: Seq<LeakStatus>)
    requires
        c.total_warnings == 0,
        c.total_dangers == 0,
        s.len() < u32::MAX,
    ensures
        processed_all(c, s).total_warnings == count_of(s, LeakStatus::Waspada),
        processed_all(c, s).total_dangers == count_of(s, LeakStatus::Bahaya),
        processed_all(c, s).total_warnings + processed_all(c, s).total_dangers <= s.len(),
        processed_all(c, s).name == c.name,
{
    events_at_most_entries(s);
    counters_count_events(c, s);
}

/// The counters never decrease: after a run `s` and a further run `t`,
/// where no counter overflows, each counter is at least what it was after `s`.
pub proof fn counters_never_decrease(c: Controller, s: Seq<LeakStatus>, t: Seq<LeakStatus>)
    requires
        c.total_warnings + count_of(s + t, LeakStatus::Waspada) <= u32::MAX,
        c.total_dangers + count_of(s + t, LeakStatus::Bahaya) <= u32::MAX,
    ensures
        processed_all(c, s).total_warnings <= processed_all(c, s + t).total_warnings,
        processed_all(c, s).total_dangers <= processed_all(c, s + t).total_dangers,
    decreases t.len(),
{
    if t.len() == 0 {
        assert(s + t =~= s);
    } else {
        let t0 = t.drop_last();
        assert((s + t).drop_last() =~= s + t0);
        assert((s + t).last() == t.last());
        count_monotone(s + t0, t.last(), LeakStatus::Waspada);
        count_monotone(s + t0, t.last(), LeakStatus::Bahaya);
        counters_never_decrease(c, s, t0);
        counters_count_events(c, s + t0);
        counters_count_events(c, s + t);
    }
}

proof fn count_monotone(s: Seq<LeakStatus>, x: LeakStatus, k: LeakStatus)
    ensures
        count_of(s, k) <= count_of(s.push(x), k),
{
    assert(s.push(x).drop_last() =~= s);
}

} // verus!
