use vstd::prelude::*;
use crate::status::LeakStatus;

verus! {

/// Simulated leakage of one branch, as a variant and a step count:
/// `Safe(k)` leaks `k × 0.8` mA, `Warning(k)` leaks `15 + k` mA and
/// `Danger(k)` leaks `23 + k` mA.
#[derive(PartialEq, Eq, Structural, Clone, Copy, Debug)]
pub enum SimLeak {
    Safe(u32),
    Warning(u32),
    Danger(u32),
}

/// One branch's simulated reading: the voltage noise is
/// `voltage_step × 2 − 10` V and the current noise `current_step × 5 − 50` mA
/// around the branch's load profile.
#[derive(PartialEq, Eq, Structural, Clone, Copy, Debug)]
pub struct SimStep {
    pub voltage_step: u32,
    pub current_step: u32,
    pub leak: SimLeak,
}

/// Whether the schedule's arithmetic for round `idx` and branch `branch`
/// stays within `u32`.
pub open spec fn step_fits(idx: int, branch: int) -> bool {
    &&& idx * 7 + branch * 13 <= u32::MAX
    &&& idx * 3 + branch * 17 <= u32::MAX
    &&& idx * 31 + branch * 17 + idx * branch * 7 <= u32::MAX
}

/// Pseudo-random seed, in `0..100`, of round `idx` and branch `branch`.
pub open spec fn seed_of(idx: int, branch: int) -> int {
    (idx * 31 + branch * 17 + idx * branch * 7) % 100
}

/// The leakage chosen by a seed: half of the seeds are safe, a quarter
/// warn and a quarter are dangerous.
pub open spec fn leak_of_seed(seed: int) -> SimLeak {
    if seed < 50 {
        SimLeak::Safe((seed % 14) as u32)
    } else if seed < 75 {
        SimLeak::Warning((seed % 7) as u32)
    } else {
        SimLeak::Danger((seed % 15) as u32)
    }
}

/// The simulated leakage in tenths of a milliampere.
pub open spec fn leak_tenths_ma(l: SimLeak) -> int {
    match l {
        SimLeak::Safe(k) => 8 * k,
        SimLeak::Warning(k) => 150 + 10 * k,
        SimLeak::Danger(k) => 230 + 10 * k,
    }
}

/// The status that the leakage classifies to: below 15 mA is safe, from
/// 15 mA up to and including 22 mA warns, above 22 mA is dangerous.
pub open spec fn class_of_tenths(t: int) -> LeakStatus {
    if t > 220 {
        LeakStatus::Bahaya
    } else if t >= 150 {
        LeakStatus::Waspada
    } else {
        LeakStatus::Aman
    }
}

/// The deterministic reading of branch `branch` in simulation round `idx`.
pub fn simulation_step(idx: u32, branch: u32) -> (r: SimStep)
    requires
        step_fits(idx as int, branch as int),
    ensures
        r.voltage_step == (idx * 7 + branch * 13) % 10,
        r.current_step == (idx * 3 + branch * 17) % 20,
        r.leak == leak_of_seed(seed_of(idx as int, branch as int)),
        ({
            let seed = (idx * 31 + branch * 17 + idx * branch * 7) % 100;
            &&& seed < 50 ==> r.leak == SimLeak::Safe((seed % 14) as u32)
            &&& 50 <= seed < 75 ==> r.leak == SimLeak::Warning((seed % 7) as u32)
            &&& seed >= 75 ==> r.leak == SimLeak::Danger((seed % 15) as u32)
        }),
{
    proof {
        let a = idx as int;
        let b = branch as int;
        assert(0 <= a * b * 7 && 0 <= a * b) by (nonlinear_arith)
            requires
                0 <= a,
                0 <= b,
        ;
        assert(a * b <= a * b * 7) by (nonlinear_arith)
            requires
                0 <= a * b,
        ;
    }
    let voltage_step = (idx * 7 + branch * 13) % 10;
    let current_step = (idx * 3 + branch * 17) % 20;
    let seed = (idx * 31 + branch * 17 + idx * branch * 7) % 100;
    let leak = if seed < 50 {
        SimLeak::Safe(seed % 14)
    } else if seed < 75 {
        SimLeak::Warning(seed % 7)
    } else {
        SimLeak::Danger(seed % 15)
    };
    SimStep { voltage_step, current_step, leak }
}

/// The seed bands: seeds 0 to 49 are safe with `seed % 14` steps, seeds 50
/// to 74 warn with `seed % 7` steps, seeds 75 to 99 are dangerous with
/// `seed % 15` steps; for every round and branch.
pub proof fn seed_bands(idx: int, branch: int)
    requires
        0 <= idx,
        0 <= branch,
    ensures
        ({
            let seed = (31 * idx + 17 * branch + 7 * idx * branch) % 100;
            &&& 0 <= seed < 100
            &&& seed < 50 ==> leak_of_seed(seed_of(idx, branch)) == SimLeak::Safe((seed % 14) as u32)
            &&& 50 <= seed < 75 ==> leak_of_seed(seed_of(idx, branch)) == SimLeak::Warning((seed % 7) as u32)
            &&& 75 <= seed ==> leak_of_seed(seed_of(idx, branch)) == SimLeak::Danger((seed % 15) as u32)
        }),
{
    assert(31 * idx + 17 * branch + 7 * idx * branch == idx * 31 + branch * 17 + idx * branch * 7)
        by (nonlinear_arith);
}

/// Half of the seeds give a safe reading, a quarter a warning and a quarter
/// danger: the category of a seed is fixed by the band it lies in.
pub proof fn seed_categories(seed: int)
    requires
        0 <= seed < 100,
    ensures
        (leak_of_seed(seed) is Safe) <==> seed < 50,
        (leak_of_seed(seed) is Warning) <==> 50 <= seed < 75,
        (leak_of_seed(seed) is Danger) <==> 75 <= seed,
{
}

/// Every simulated leakage lands in the band its variant names: safe
/// leakage stays below the warning threshold, a warning stays below the
/// danger threshold, and danger is at or above it; the noise steps stay
/// within their ranges.
pub proof fn simulated_leak_in_band(idx: int, branch: int)
    requires
        0 <= idx,
        0 <= branch,
    ensures
        0 <= seed_of(idx, branch) < 100,
        class_of_tenths(leak_tenths_ma(leak_of_seed(seed_of(idx, branch)))) == (match leak_of_seed(
            seed_of(idx, branch),
        ) {
            SimLeak::Safe(_) => LeakStatus::Aman,
            SimLeak::Warning(_) => LeakStatus::Waspada,
            SimLeak::Danger(_) => LeakStatus::Bahaya,
        }),
{
}

} // verus!
