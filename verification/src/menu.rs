use vstd::prelude::*;
use crate::simulation::class_of_tenths;
use crate::status::LeakStatus;

verus! {

/// Entry of the operator's main menu.
#[derive(PartialEq, Eq, Structural, Clone, Copy, Debug)]
pub enum MenuChoice {
    Manual,
    Simulate,
    Inject,
    Quit,
    Invalid,
}

/// The main-menu entry that number `n` selects: 1 manual input,
/// 2 simulation, 3 leak injection, 4 quit; anything else is refused.
pub fn menu_choice(n: usize) -> (r: MenuChoice)
    ensures
        r == (if n == 1 {
            MenuChoice::Manual
        } else if n == 2 {
            MenuChoice::Simulate
        } else if n == 3 {
            MenuChoice::Inject
        } else if n == 4 {
            MenuChoice::Quit
        } else {
            MenuChoice::Invalid
        }),
{
    match n {
        1 => MenuChoice::Manual,
        2 => MenuChoice::Simulate,
        3 => MenuChoice::Inject,
        4 => MenuChoice::Quit,
        _ => MenuChoice::Invalid,
    }
}

/// Leakage, in mA, that a warning injection sets on a branch.
pub const WARNING_LEAK_MA: u32 = 18;

/// Leakage, in mA, that a danger injection sets on a branch.
pub const DANGER_LEAK_MA: u32 = 30;

/// Leakage, in mA, that a reset leaves on a branch.
pub const RESET_LEAK_MA: u32 = 1;

/// What a leak injection does to the chosen branch.
#[derive(PartialEq, Eq, Structural, Clone, Copy, Debug)]
pub enum InjectKind {
    Warning,
    Danger,
    Reset,
}

/// Leakage, in mA, that an injection of kind `k` sets.
pub open spec fn leak_of_kind(k: InjectKind) -> u32 {
    match k {
        InjectKind::Warning => WARNING_LEAK_MA,
        InjectKind::Danger => DANGER_LEAK_MA,
        InjectKind::Reset => RESET_LEAK_MA,
    }
}

impl InjectKind {
    /// Leakage, in mA, that this injection sets: 18, 30 or 1.
    pub fn leak_ma(&self) -> (r: u32)
        ensures
            r == leak_of_kind(*self),
            *self == InjectKind::Warning ==> r == 18,
            *self == InjectKind::Danger ==> r == 30,
            *self == InjectKind::Reset ==> r == 1,
    {
        match self {
            InjectKind::Warning => WARNING_LEAK_MA,
            InjectKind::Danger => DANGER_LEAK_MA,
            InjectKind::Reset => RESET_LEAK_MA,
        }
    }
}

/// First decision of a leak injection, on the chosen scenario.
#[derive(PartialEq, Eq, Structural, Clone, Copy, Debug)]
pub enum InjectRequest {
    /// Reset every branch to `RESET_LEAK_MA`; no branch is asked for.
    ResetAll,
    /// Ask the operator for a branch number.
    ChooseBranch,
}

/// Scenario 4 resets all branches at once; every other scenario goes on to
/// ask for a branch.
pub fn inject_request(scenario: usize) -> (r: InjectRequest)
    ensures
        r == (if scenario == 4 { InjectRequest::ResetAll } else { InjectRequest::ChooseBranch }),
{
    if scenario == 4 {
        InjectRequest::ResetAll
    } else {
        InjectRequest::ChooseBranch
    }
}

/// Final decision of a leak injection on one branch.
#[derive(PartialEq, Eq, Structural, Clone, Copy, Debug)]
pub enum InjectAction {
    /// Set the leakage of branch `branch` (counted from 0).
    Apply { branch: usize, kind: InjectKind },
    /// The branch number is not one of the branches; nothing changes.
    InvalidBranch,
    /// The scenario is not 1, 2 or 3; nothing changes.
    InvalidScenario,
}

/// The action for scenario `scenario` on branch number `number` (counted
/// from 1) among `n_branches` branches: the branch number is checked
/// first, then scenario 1 warns, 2 endangers and 3 resets the branch.
pub open spec fn planned_action(scenario: usize, number: usize, n_branches: usize) -> InjectAction {
    if number < 1 || number > n_branches {
        InjectAction::InvalidBranch
    } else if scenario == 1 {
        InjectAction::Apply { branch: (number - 1) as usize, kind: InjectKind::Warning }
    } else if scenario == 2 {
        InjectAction::Apply { branch: (number - 1) as usize, kind: InjectKind::Danger }
    } else if scenario == 3 {
        InjectAction::Apply { branch: (number - 1) as usize, kind: InjectKind::Reset }
    } else {
        InjectAction::InvalidScenario
    }
}

/// Decides what a leak injection does once the operator has named a branch.
pub fn inject_action(scenario: usize, number: usize, n_branches: usize) -> (r: InjectAction)
    ensures
        r == planned_action(scenario, number, n_branches),
        (number < 1 || number > n_branches) <==> r == InjectAction::InvalidBranch,
        1 <= number <= n_branches && scenario == 1 ==> r == (InjectAction::Apply {
            branch: (number - 1) as usize,
            kind: InjectKind::Warning,
        }),
        1 <= number <= n_branches && scenario == 2 ==> r == (InjectAction::Apply {
            branch: (number - 1) as usize,
            kind: InjectKind::Danger,
        }),
        1 <= number <= n_branches && scenario == 3 ==> r == (InjectAction::Apply {
            branch: (number - 1) as usize,
            kind: InjectKind::Reset,
        }),
        1 <= number <= n_branches && !(1 <= scenario <= 3) ==> r == InjectAction::InvalidScenario,
{
    if number < 1 || number > n_branches {
        return InjectAction::InvalidBranch;
    }
    let branch = number - 1;
    match scenario {
        1 => InjectAction::Apply { branch, kind: InjectKind::Warning },
        2 => InjectAction::Apply { branch, kind: InjectKind::Danger },
        3 => InjectAction::Apply { branch, kind: InjectKind::Reset },
        _ => InjectAction::InvalidScenario,
    }
}

/// The kind of an injection depends on the scenario alone and its target on
/// the branch number alone: for any two valid branch numbers, scenario 1
/// warns, 2 endangers and 3 resets, and the target is the number less one.
pub proof fn injection_kind_by_scenario(scenario: usize, a: usize, b: usize, n_branches: usize)
    requires
        1 <= a <= n_branches,
        1 <= b <= n_branches,
        1 <= scenario <= 3,
    ensures
        planned_action(scenario, a, n_branches) is Apply,
        planned_action(scenario, b, n_branches) is Apply,
        planned_action(scenario, a, n_branches)->kind == planned_action(scenario, b, n_branches)->kind,
        planned_action(scenario, a, n_branches)->branch == a - 1,
        scenario == 1 ==> planned_action(scenario, a, n_branches)->kind == InjectKind::Warning,
        scenario == 2 ==> planned_action(scenario, a, n_branches)->kind == InjectKind::Danger,
        scenario == 3 ==> planned_action(scenario, a, n_branches)->kind == InjectKind::Reset,
{
}

/// A danger injection on any branch sets a leakage in the danger band, a
/// warning injection one in the warning band, and a reset one in the safe band.
pub proof fn injection_band_on_every_branch(scenario: usize, number: usize, n_branches: usize)
    requires
        1 <= number <= n_branches,
        1 <= scenario <= 3,
    ensures
        planned_action(scenario, number, n_branches) is Apply,
        scenario == 1 ==> class_of_tenths(10 * leak_of_kind(planned_action(scenario, number, n_branches)->kind))
            == LeakStatus::Waspada,
        scenario == 2 ==> class_of_tenths(10 * leak_of_kind(planned_action(scenario, number, n_branches)->kind))
            == LeakStatus::Bahaya,
        scenario == 3 ==> class_of_tenths(10 * leak_of_kind(planned_action(scenario, number, n_branches)->kind))
            == LeakStatus::Aman,
{
}

/// An injection only ever touches an existing branch.
pub proof fn injection_targets_existing_branch(scenario: usize, number: usize, n_branches: usize)
    ensures
        (match planned_action(scenario, number, n_branches) {
            InjectAction::Apply { branch, .. } => branch < n_branches,
            _ => true,
        }),
{
}

/// Each injected leakage, on a branch whose phase current is at least that
/// large, lands in the band its scenario names: the warning leakage warns,
/// the danger leakage is dangerous, the reset leakage is safe.
pub proof fn injected_leak_in_band()
    ensures
        class_of_tenths(10 * leak_of_kind(InjectKind::Warning)) == LeakStatus::Waspada,
        class_of_tenths(10 * leak_of_kind(InjectKind::Danger)) == LeakStatus::Bahaya,
        class_of_tenths(10 * leak_of_kind(InjectKind::Reset)) == LeakStatus::Aman,
{
}

} // verus!
