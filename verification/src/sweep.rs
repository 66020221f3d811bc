use vstd::prelude::*;

verus! {

/// Duty step between two measurements of the sweep (percent).
pub const STEP_DUTY: i32 = 1;

/// Consecutive readings past the threshold that confirm a boundary.
pub const STABLE_COUNT: u8 = 2;

/// A duty sweep that looks for the dead-zone boundary of the motor: the
/// duty moves one step at a time from `start` toward `end` (inclusive);
/// at each duty the caller measures the speed and reports whether it is
/// past the threshold; two such readings in a row end the sweep at the
/// duty of the second.
pub struct DutySweep {
    duty: i32,
    end: i32,
    step: i32,
    stable: u8,
}

/// Whether `duty` has not yet passed `end` in the direction of `step`.
pub open spec fn sweep_in_range(duty: int, end: int, step: int) -> bool {
    (step > 0 && duty <= end) || (step < 0 && duty >= end)
}

/// What reporting one reading does to the sweep: the new (duty, stable
/// count), and the boundary when the reading confirms one.
pub open spec fn sweep_observe(duty: i32, step: i32, stable: u8, crossed: bool) -> (i32, u8, Option<i32>) {
    if crossed {
        if stable + 1 >= STABLE_COUNT {
            (duty, (stable + 1) as u8, Some(duty))
        } else {
            ((duty + step) as i32, (stable + 1) as u8, None)
        }
    } else {
        ((duty + step) as i32, 0u8, None)
    }
}

impl DutySweep {
    /// Current duty, end duty, step, and consecutive readings past the
    /// threshold.
    pub closed spec fn state(&self) -> (i32, i32, i32, u8) {
        (self.duty, self.end, self.step, self.stable)
    }

    /// The sweep still expects a reading: its duty has not passed `end`
    /// and no boundary has been found.
    pub open spec fn searching(&self) -> bool {
        &&& sweep_in_range(self.state().0 as int, self.state().1 as int, self.state().2 as int)
        &&& self.state().3 < STABLE_COUNT
    }

    /// The sweep's invariant: a unit step toward `end`, the duty at most
    /// one step past `end`, at most `STABLE_COUNT` readings counted, and
    /// room in `i32` for the step past `end`.
    #[verifier::type_invariant]
    spec fn inv(&self) -> bool {
        &&& (self.step == STEP_DUTY || self.step == -STEP_DUTY)
        &&& (self.step > 0 ==> self.duty <= self.end + 1 && self.end < i32::MAX)
        &&& (self.step < 0 ==> self.duty >= self.end - 1 && self.end > i32::MIN)
        &&& self.stable <= STABLE_COUNT
    }

    /// A sweep from `start` to `end`, upward when `end >= start`.
    pub fn new(start: i32, end: i32) -> (s: Self)
        requires
            end >= start ==> end < i32::MAX,
            end < start ==> end > i32::MIN,
        ensures
            s.state() == (start, end, if end >= start { 1i32 } else { -1i32 }, 0u8),
    {
        let step: i32 = if end >= start {
            STEP_DUTY
        } else {
            -STEP_DUTY
        };
        DutySweep { duty: start, end, step, stable: 0 }
    }

    /// The duty to apply and measure next, or `None` once the sweep has
    /// passed `end`.
    pub fn current(&self) -> (d: Option<i32>)
        ensures
            d == (if sweep_in_range(self.state().0 as int, self.state().1 as int, self.state().2 as int) {
                Some(self.state().0)
            } else {
                None::<i32>
            }),
    {
        if (self.step > 0 && self.duty <= self.end) || (self.step < 0 && self.duty >= self.end) {
            Some(self.duty)
        } else {
            None
        }
    }

    /// Reports the reading taken at the current duty; returns the boundary
    /// duty when this reading confirms it, otherwise moves to the next duty.
    pub fn observe(&mut self, crossed: bool) -> (found: Option<i32>)
        requires
            old(self).searching(),
        ensures
            ({
                let o = old(self).state();
                let r = sweep_observe(o.0, o.2, o.3, crossed);
                &&& final(self).state() == (r.0, o.1, o.2, r.1)
                &&& found == r.2
            }),
            found is None ==> final(self).state().3 < STABLE_COUNT,
            old(self).state().2 == STEP_DUTY || old(self).state().2 == -STEP_DUTY,
    {
        proof {
            use_type_invariant(&*self);
        }
        let mut stable = self.stable;
        let mut duty = self.duty;
        let mut found: Option<i32> = None;
        if crossed {
            stable = stable + 1;
            if stable >= STABLE_COUNT {
                found = Some(duty);
            }
        } else {
            stable = 0;
        }
        if found.is_none() {
            duty = duty + self.step;
        }
        *self = DutySweep { duty, end: self.end, step: self.step, stable };
        found
    }

    /// The stop boundary to report when the sweep has run past `end`
    /// without finding one: `end` itself, the conservative estimate.
    pub fn exhausted_boundary(&self) -> (d: i32)
        requires
            !sweep_in_range(self.state().0 as int, self.state().1 as int, self.state().2 as int),
        ensures
            d == self.state().1,
    {
        self.end
    }
}

/// A boundary needs two readings in a row: one reading past the threshold
/// after one that was not never ends the sweep, and a second consecutive
/// one always does, at its own duty.
pub proof fn law_boundary_needs_two_consecutive_readings(duty: i32, step: i32)
    requires
        step == STEP_DUTY || step == -STEP_DUTY,
        i32::MIN < duty < i32::MAX,
    ensures
        sweep_observe(duty, step, 0, true).2 is None,
        ({
            let a = sweep_observe(duty, step, 0, true);
            sweep_observe(a.0, step, a.1, true).2 == Some((duty + step) as i32)
        }),
        sweep_observe(duty, step, 1, false) == ((duty + step) as i32, 0u8, None::<i32>),
{
}

/// The duty moves monotonically by one step per reading until a boundary
/// is found.
pub proof fn law_sweep_moves_one_step(duty: i32, step: i32, stable: u8, crossed: bool)
    requires
        step == STEP_DUTY || step == -STEP_DUTY,
        stable < STABLE_COUNT,
        i32::MIN < duty < i32::MAX,
    ensures
        sweep_observe(duty, step, stable, crossed).2 is None ==> sweep_observe(duty, step, stable, crossed).0
            == duty + step,
        sweep_observe(duty, step, stable, crossed).2 is Some ==> sweep_observe(duty, step, stable, crossed).2
            == Some(duty),
{
}

/// The midpoint of a start and a stop boundary (hysteresis average),
/// rounded toward zero as integer division does.
pub open spec fn midpoint_spec(a: i32, b: i32) -> int {
    let s = a + b;
    if s >= 0 {
        s / 2
    } else {
        -((-s) / 2)
    }
}

/// The midpoint of the start and stop duties of one sweep round.
pub fn hysteresis_midpoint(start: i32, stop: i32) -> (m: i32)
    requires
        i32::MIN <= start + stop <= i32::MAX,
    ensures
        m == midpoint_spec(start, stop),
{
    let s: i32 = start + stop;
    if s >= 0 {
        s / 2
    } else {
        -((-(s as i64)) / 2) as i32
    }
}

/// Sum of the first `n` values.
pub open spec fn sum_prefix(xs: Seq<i32>, n: int) -> int
    decreases n,
{
    if n <= 0 {
        0
    } else {
        sum_prefix(xs, n - 1) + xs[n - 1]
    }
}

/// Every running sum of `xs` fits in `i32`.
pub open spec fn running_sums_fit(xs: Seq<i32>) -> bool {
    forall|n: int| 0 <= n <= xs.len() ==> i32::MIN <= #[trigger] sum_prefix(xs, n) <= i32::MAX
}

/// The mean of the duties, rounded toward zero; 0 for no duties.
pub open spec fn mean_duty_spec(xs: Seq<i32>) -> int {
    if xs.len() == 0 {
        0
    } else {
        let s = sum_prefix(xs, xs.len() as int);
        if s >= 0 {
            s / (xs.len() as int)
        } else {
            -((-s) / (xs.len() as int))
        }
    }
}

/// The mean of the boundary duties of all rounds.
pub fn mean_duty(duties: &[i32]) -> (m: i32)
    requires
        running_sums_fit(duties@),
        duties@.len() <= i32::MAX,
    ensures
        m == mean_duty_spec(duties@),
{
    let n = duties.len();
    if n == 0 {
        return 0;
    }
    let mut sum: i32 = 0;
    let mut i: usize = 0;
    while i < n
        invariant
            0 <= i <= n,
            n == duties@.len(),
            running_sums_fit(duties@),
            sum == sum_prefix(duties@, i as int),
        decreases n - i,
    {
        assert(i32::MIN <= sum_prefix(duties@, i + 1) <= i32::MAX);
        sum = sum + duties[i];
        i = i + 1;
    }
    let count: i32 = n as i32;
    if sum >= 0 {
        sum / count
    } else {
        let q: i64 = (-(sum as i64)) / (count as i64);
        assert(q <= 2147483648) by (nonlinear_arith)
            requires
                q == (-(sum as int)) / (count as int),
                count >= 1,
                -(sum as int) <= 2147483648,
        ;
        assert(-q >= i32::MIN);
        (-q) as i32
    }
}

} // verus!
