use vstd::prelude::*;

verus! {

/// Divisor applied to the remaining distance on every smoothing step.
pub const TARGET_DIVISOR: i64 = 1000;

/// One smoothing step from `current` toward `target`: the remaining distance
/// divided by the divisor, rounded away from zero, so that a step of at least
/// one unit is taken while the two differ (the divisor is `TARGET_DIVISOR`).
pub open spec fn step_toward(current: int, target: int) -> int {
    if current == target {
        current
    } else if current < target {
        current + (target - current + 999) / 1000
    } else {
        current - (current - target + 999) / 1000
    }
}

/// The current value after `n` smoothing steps toward a fixed target.
pub open spec fn smoothed_after(current: int, target: int, n: nat) -> int
    decreases n,
{
    if n == 0 {
        current
    } else {
        smoothed_after(step_toward(current, target), target, (n - 1) as nat)
    }
}

pub open spec fn distance(a: int, b: int) -> int {
    if a <= b { b - a } else { a - b }
}

/// A value that follows its target a little on every sample, so that a
/// parameter change ramps instead of stepping.
pub struct TargetCurrentPair<T> where T: Copy {
    target: T,
    current: T,
}

impl<T: Copy> TargetCurrentPair<T> {
    pub closed spec fn spec_target(&self) -> T {
        self.target
    }

    pub closed spec fn spec_current(&self) -> T {
        self.current
    }

    pub fn get(&self) -> (r: T)
        ensures
            r == self.spec_current(),
    {
        self.current
    }

    pub fn set_target(&mut self, target: T)
        ensures
            final(self).spec_target() == target,
            final(self).spec_current() == old(self).spec_current(),
    {
        self.target = target;
    }
}

impl TargetCurrentPair<i32> {
    /// A pair that starts at rest on `value`.
    pub fn new(value: i32) -> (r: Self)
        ensures
            r.spec_target() == value,
            r.spec_current() == value,
    {
        TargetCurrentPair { target: value, current: value }
    }

    /// Moves the current value one step toward the target.
    pub fn update_to_target(&mut self)
        ensures
            final(self).spec_target() == old(self).spec_target(),
            final(self).spec_current() as int == step_toward(
                old(self).spec_current() as int,
                old(self).spec_target() as int,
            ),
    {
        let c = self.current as i64;
        let t = self.target as i64;
        if c < t {
            let step = (t - c + TARGET_DIVISOR - 1) / TARGET_DIVISOR;
            assert(1 <= step <= t - c);
            self.current = (c + step) as i32;
        } else if c > t {
            let step = (c - t + TARGET_DIVISOR - 1) / TARGET_DIVISOR;
            assert(1 <= step <= c - t);
            self.current = (c - step) as i32;
        }
    }
}

impl Default for TargetCurrentPair<i32> {
    fn default() -> (r: Self)
        ensures
            r.spec_target() == 0,
            r.spec_current() == 0,
    {
        TargetCurrentPair { target: 0, current: 0 }
    }
}

/// A single step never passes the target and, while the two differ, closes
/// the distance by at least one unit.
pub proof fn lemma_step_toward(current: int, target: int)
    ensures
        distance(step_toward(current, target), target) <= distance(current, target),
        current != target ==> distance(step_toward(current, target), target) < distance(
            current,
            target,
        ),
        current <= target ==> current <= step_toward(current, target) <= target,
        target <= current ==> target <= step_toward(current, target) <= current,
{
}

/// Smoothing toward a fixed target never overshoots it: every intermediate
/// value lies between the starting value and the target, and moves toward the
/// target monotonically.
pub proof fn lemma_smoothing_never_overshoots(current: int, target: int, n: nat)
    ensures
        current <= target ==> current <= smoothed_after(current, target, n) <= smoothed_after(
            current,
            target,
            n + 1,
        ) <= target,
        target <= current ==> target <= smoothed_after(current, target, n + 1) <= smoothed_after(
            current,
            target,
            n,
        ) <= current,
    decreases n,
{
    lemma_step_toward(current, target);
    let next = step_toward(current, target);
    assert(smoothed_after(current, target, n + 1) == smoothed_after(next, target, n));
    if n > 0 {
        lemma_smoothing_never_overshoots(next, target, (n - 1) as nat);
        assert(smoothed_after(current, target, n) == smoothed_after(next, target, (n - 1) as nat));
    } else {
        lemma_step_toward(next, target);
    }
}

/// Smoothing reaches the target exactly after at most as many steps as the
/// distance it has to cover, and stays there.
pub proof fn lemma_smoothing_reaches_target(current: int, target: int, n: nat)
    requires
        n >= distance(current, target),
    ensures
        smoothed_after(current, target, n) == target,
    decreases n,
{
    if n > 0 {
        lemma_step_toward(current, target);
        lemma_smoothing_reaches_target(step_toward(current, target), target, (n - 1) as nat);
    }
}

} // verus!
