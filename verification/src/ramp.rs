use vstd::prelude::*;

verus! {

/// Update period of the trapezoid (ms).
pub const UPDATE_INTERVAL_MS: u64 = 50;

/// Duty change per update (percent).
pub const RAMP_STEP: i32 = 2;

/// How long each plateau is held (ms).
pub const PLATEAU_MS: u64 = 2000;

/// Phase of the trapezoidal duty test pattern.
#[derive(Clone, Copy, Debug, PartialEq, Eq, Structural)]
pub enum RampPhase {
    /// 0% up to +100%.
    RiseToForward,
    /// Holding +100%.
    HoldForward,
    /// +100% down to -100%.
    FallToReverse,
    /// Holding -100%.
    HoldReverse,
    /// -100% back up to 0%.
    RiseToStop,
}

/// Generator of the trapezoidal duty pattern used to exercise the H-bridge:
/// 0 -> +100 -> hold -> -100 -> hold -> 0, repeated.
pub struct Trapezoid {
    duty: i32,
    phase: RampPhase,
    plateau_ms: u64,
}

/// The pattern's invariant over duty, phase and time spent on the last
/// plateau: the duty stays within [-100, 100] and on the side of the
/// phase's target; a plateau has not yet run its time, which is counted in whole update
/// periods.
pub open spec fn trapezoid_wf(duty: i32, phase: RampPhase, plateau_ms: u64) -> bool {
    &&& -100 <= duty <= 100
    &&& plateau_ms <= PLATEAU_MS
    &&& plateau_ms % UPDATE_INTERVAL_MS == 0
    &&& match phase {
        RampPhase::RiseToForward => 0 <= duty < 100,
        RampPhase::HoldForward => duty == 100 && plateau_ms < PLATEAU_MS,
        RampPhase::FallToReverse => -100 < duty <= 100,
        RampPhase::HoldReverse => duty == -100 && plateau_ms < PLATEAU_MS,
        RampPhase::RiseToStop => -100 <= duty < 0,
    }
}

/// One update of the pattern: ramps move the duty by `RAMP_STEP` and stop
/// at their target, starting the next phase; plateaus count time and end
/// after `PLATEAU_MS`.
pub open spec fn trapezoid_step(duty: i32, phase: RampPhase, plateau_ms: u64) -> (i32, RampPhase, u64) {
    match phase {
        RampPhase::RiseToForward => if duty + RAMP_STEP >= 100 {
            (100i32, RampPhase::HoldForward, 0u64)
        } else {
            ((duty + RAMP_STEP) as i32, phase, plateau_ms)
        },
        RampPhase::HoldForward => if plateau_ms + UPDATE_INTERVAL_MS >= PLATEAU_MS {
            (duty, RampPhase::FallToReverse, (plateau_ms + UPDATE_INTERVAL_MS) as u64)
        } else {
            (duty, phase, (plateau_ms + UPDATE_INTERVAL_MS) as u64)
        },
        RampPhase::FallToReverse => if duty - RAMP_STEP <= -100 {
            (-100i32, RampPhase::HoldReverse, 0u64)
        } else {
            ((duty - RAMP_STEP) as i32, phase, plateau_ms)
        },
        RampPhase::HoldReverse => if plateau_ms + UPDATE_INTERVAL_MS >= PLATEAU_MS {
            (duty, RampPhase::RiseToStop, (plateau_ms + UPDATE_INTERVAL_MS) as u64)
        } else {
            (duty, phase, (plateau_ms + UPDATE_INTERVAL_MS) as u64)
        },
        RampPhase::RiseToStop => if duty + RAMP_STEP >= 0 {
            (0i32, RampPhase::RiseToForward, plateau_ms)
        } else {
            ((duty + RAMP_STEP) as i32, phase, plateau_ms)
        },
    }
}

/// The duty never leaves [-100, 100] and changes by at most `RAMP_STEP`
/// per update: the slope of the pattern is bounded.
pub proof fn law_duty_bounded_and_slew_limited(duty: i32, phase: RampPhase, plateau_ms: u64)
    requires
        trapezoid_wf(duty, phase, plateau_ms),
    ensures
        ({
            let n = trapezoid_step(duty, phase, plateau_ms);
            &&& trapezoid_wf(n.0, n.1, n.2)
            &&& -100 <= n.0 <= 100
            &&& -RAMP_STEP <= n.0 - duty <= RAMP_STEP
        }),
{
}

/// A plateau is held for exactly `PLATEAU_MS / UPDATE_INTERVAL_MS` updates:
/// the duty stays put while the plateau time is below `PLATEAU_MS`, and
/// the update that reaches it starts the next ramp.
pub proof fn law_plateau_ends_after_its_time(duty: i32, phase: RampPhase, plateau_ms: u64)
    requires
        trapezoid_wf(duty, phase, plateau_ms),
        phase == RampPhase::HoldForward || phase == RampPhase::HoldReverse,
    ensures
        ({
            let n = trapezoid_step(duty, phase, plateau_ms);
            &&& n.0 == duty
            &&& n.2 == plateau_ms + UPDATE_INTERVAL_MS
            &&& (n.1 == phase <==> plateau_ms + UPDATE_INTERVAL_MS < PLATEAU_MS)
        }),
{
}

/// The pattern's state after `n` updates from `s`.
pub open spec fn trapezoid_run(s: (i32, RampPhase, u64), n: nat) -> (i32, RampPhase, u64)
    decreases n,
{
    if n == 0 {
        s
    } else {
        trapezoid_run(trapezoid_step(s.0, s.1, s.2), (n - 1) as nat)
    }
}

/// Updates compose: `a + b` updates are `a` updates followed by `b`.
proof fn lemma_run_compose(s: (i32, RampPhase, u64), a: nat, b: nat)
    ensures
        trapezoid_run(s, a + b) == trapezoid_run(trapezoid_run(s, a), b),
    decreases a,
{
    if a > 0 {
        lemma_run_compose(trapezoid_step(s.0, s.1, s.2), (a - 1) as nat, b);
        assert(a + b - 1 == (a - 1) + b);
    }
}

/// Rising forward from an even duty `d`: `(100 - d) / 2` updates reach
/// +100% and start the forward plateau.
proof fn lemma_rise_forward(d: i32, p: u64)
    requires
        0 <= d <= 98,
        d % 2 == 0,
    ensures
        trapezoid_run((d, RampPhase::RiseToForward, p), ((100 - d) / 2) as nat) == (
            100i32,
            RampPhase::HoldForward,
            0u64,
        ),
    decreases 100 - d,
{
    let n = ((100 - d) / 2) as nat;
    assert(n >= 1);
    let s = (d, RampPhase::RiseToForward, p);
    let t = trapezoid_step(s.0, s.1, s.2);
    assert(trapezoid_run(s, n) == trapezoid_run(t, (n - 1) as nat));
    if d < 98 {
        assert(t == ((d + 2) as i32, RampPhase::RiseToForward, p));
        lemma_rise_forward((d + 2) as i32, p);
        assert(((100 - (d + 2)) / 2) as nat == n - 1);
    } else {
        assert(n == 1);
        assert(trapezoid_run(t, 0) == t);
    }
}

/// The first `n < 50` updates from duty 0 rise by 2% each, whatever the
/// plateau time left from before.
proof fn lemma_rise_prefix(p: u64, n: nat)
    requires
        n < 50,
    ensures
        trapezoid_run((0i32, RampPhase::RiseToForward, p), n) == ((2 * n) as i32, RampPhase::RiseToForward, p),
    decreases n,
{
    if n > 0 {
        lemma_rise_prefix(p, (n - 1) as nat);
        lemma_run_compose((0i32, RampPhase::RiseToForward, p), (n - 1) as nat, 1);
        let m = trapezoid_run((0i32, RampPhase::RiseToForward, p), (n - 1) as nat);
        let t = trapezoid_step(m.0, m.1, m.2);
        assert(trapezoid_run(m, 1) == trapezoid_run(t, 0));
        assert(((n - 1) + 1) as nat == n);
    }
}

/// Holding forward from plateau time `p`: `(2000 - p) / 50` updates end the
/// plateau and start the fall.
proof fn lemma_hold_forward(p: u64)
    requires
        p < PLATEAU_MS,
        p % UPDATE_INTERVAL_MS == 0,
    ensures
        trapezoid_run((100i32, RampPhase::HoldForward, p), ((2000 - p) / 50) as nat) == (
            100i32,
            RampPhase::FallToReverse,
            2000u64,
        ),
    decreases 2000 - p,
{
    let n = ((2000 - p) / 50) as nat;
    let s = (100i32, RampPhase::HoldForward, p);
    let t = trapezoid_step(s.0, s.1, s.2);
    assert(n >= 1);
    assert(trapezoid_run(s, n) == trapezoid_run(t, (n - 1) as nat));
    if p + 50 < 2000 {
        assert(t == (100i32, RampPhase::HoldForward, (p + 50) as u64));
        lemma_hold_forward((p + 50) as u64);
        assert(((2000 - (p + 50)) / 50) as nat == n - 1);
    } else {
        assert(n == 1);
        assert(trapezoid_run(t, 0) == t);
    }
}

/// Falling from an even duty `d`: `(d + 100) / 2` updates reach -100% and
/// start the reverse plateau.
proof fn lemma_fall(d: i32, q: u64)
    requires
        -98 <= d <= 100,
        d % 2 == 0,
    ensures
        trapezoid_run((d, RampPhase::FallToReverse, q), ((d + 100) / 2) as nat) == (
            -100i32,
            RampPhase::HoldReverse,
            0u64,
        ),
    decreases d + 100,
{
    let n = ((d + 100) / 2) as nat;
    let s = (d, RampPhase::FallToReverse, q);
    let t = trapezoid_step(s.0, s.1, s.2);
    assert(n >= 1);
    assert(trapezoid_run(s, n) == trapezoid_run(t, (n - 1) as nat));
    if d > -98 {
        assert(t == ((d - 2) as i32, RampPhase::FallToReverse, q));
        lemma_fall((d - 2) as i32, q);
        assert((((d - 2) + 100) / 2) as nat == n - 1);
    } else {
        assert(n == 1);
        assert(trapezoid_run(t, 0) == t);
    }
}

/// Holding reverse from plateau time `p`: `(2000 - p) / 50` updates end the
/// plateau and start the rise back to 0.
proof fn lemma_hold_reverse(p: u64)
    requires
        p < PLATEAU_MS,
        p % UPDATE_INTERVAL_MS == 0,
    ensures
        trapezoid_run((-100i32, RampPhase::HoldReverse, p), ((2000 - p) / 50) as nat) == (
            -100i32,
            RampPhase::RiseToStop,
            2000u64,
        ),
    decreases 2000 - p,
{
    let n = ((2000 - p) / 50) as nat;
    let s = (-100i32, RampPhase::HoldReverse, p);
    let t = trapezoid_step(s.0, s.1, s.2);
    assert(n >= 1);
    assert(trapezoid_run(s, n) == trapezoid_run(t, (n - 1) as nat));
    if p + 50 < 2000 {
        assert(t == (-100i32, RampPhase::HoldReverse, (p + 50) as u64));
        lemma_hold_reverse((p + 50) as u64);
        assert(((2000 - (p + 50)) / 50) as nat == n - 1);
    } else {
        assert(n == 1);
        assert(trapezoid_run(t, 0) == t);
    }
}

/// Rising back from an even negative duty `d`: `-d / 2` updates reach 0%
/// and restart the cycle.
proof fn lemma_rise_stop(d: i32, q: u64)
    requires
        -100 <= d <= -2,
        d % 2 == 0,
    ensures
        trapezoid_run((d, RampPhase::RiseToStop, q), ((-d) / 2) as nat) == (0i32, RampPhase::RiseToForward, q),
    decreases -d,
{
    let n = ((-d) / 2) as nat;
    let s = (d, RampPhase::RiseToStop, q);
    let t = trapezoid_step(s.0, s.1, s.2);
    assert(n >= 1);
    assert(trapezoid_run(s, n) == trapezoid_run(t, (n - 1) as nat));
    if d < -2 {
        assert(t == ((d + 2) as i32, RampPhase::RiseToStop, q));
        lemma_rise_stop((d + 2) as i32, q);
        assert(((-(d + 2)) / 2) as nat == n - 1);
    } else {
        assert(n == 1);
        assert(trapezoid_run(t, 0) == t);
    }
}

/// One full cycle from duty 0 at the start of the rise: 50 updates up to
/// +100%, 40 on the plateau, 100 down to -100%, 40 on the plateau and 50
/// back to 0%, where the rise starts again.
pub proof fn law_full_cycle_returns_to_start(p: u64)
    ensures
        trapezoid_run((0i32, RampPhase::RiseToForward, p), 280) == (0i32, RampPhase::RiseToForward, 2000u64),
{
    let s0 = (0i32, RampPhase::RiseToForward, p);
    lemma_rise_forward(0, p);
    lemma_hold_forward(0);
    lemma_fall(100, 2000);
    lemma_hold_reverse(0);
    lemma_rise_stop(-100i32, 2000);
    let s1 = trapezoid_run(s0, 50);
    let s2 = trapezoid_run(s1, 40);
    let s3 = trapezoid_run(s2, 100);
    let s4 = trapezoid_run(s3, 40);
    lemma_run_compose(s0, 50, 40);
    lemma_run_compose(s0, 90, 100);
    lemma_run_compose(s0, 190, 40);
    lemma_run_compose(s0, 230, 50);
}

/// The rise from duty 0 does not depend on the plateau time left over:
/// the two runs give the same duties at every update.
proof fn lemma_start_ignores_plateau(p: u64, q: u64, n: nat)
    ensures
        trapezoid_run((0i32, RampPhase::RiseToForward, p), n).0 == trapezoid_run(
            (0i32, RampPhase::RiseToForward, q),
            n,
        ).0,
{
    if n < 50 {
        lemma_rise_prefix(p, n);
        lemma_rise_prefix(q, n);
    } else {
        lemma_rise_forward(0, p);
        lemma_rise_forward(0, q);
        lemma_run_compose((0i32, RampPhase::RiseToForward, p), 50, (n - 50) as nat);
        lemma_run_compose((0i32, RampPhase::RiseToForward, q), 50, (n - 50) as nat);
    }
}

/// The pattern repeats for ever: from the state `Trapezoid::new` makes,
/// the duty `n` updates into any later cycle equals the duty `n` updates
/// into the first, and the first update of every cycle raises the duty
/// by `RAMP_STEP`.
pub proof fn law_pattern_is_periodic(n: nat, cycles: nat)
    ensures
        trapezoid_run((0i32, RampPhase::RiseToForward, 0u64), 280 * cycles + n).0 == trapezoid_run(
            (0i32, RampPhase::RiseToForward, 0u64),
            n,
        ).0,
        trapezoid_run((0i32, RampPhase::RiseToForward, 0u64), 280 * cycles + 1).0 == RAMP_STEP,
    decreases cycles,
{
    let s0 = (0i32, RampPhase::RiseToForward, 0u64);
    if cycles > 0 {
        law_pattern_is_periodic(n, (cycles - 1) as nat);
        law_pattern_is_periodic(0, (cycles - 1) as nat);
        law_full_cycle_returns_to_start(0);
        law_full_cycle_returns_to_start(2000);
        assert(280 * cycles + n == 280 + (280 * (cycles - 1) + n)) by (nonlinear_arith)
            requires
                cycles > 0,
        ;
        lemma_run_compose(s0, 280, (280 * (cycles - 1) + n) as nat);
        let s1 = (0i32, RampPhase::RiseToForward, 2000u64);
        lemma_cycles_from_end((cycles - 1) as nat, n);
        assert(280 * cycles + 1 == 280 + (280 * (cycles - 1) + 1)) by (nonlinear_arith)
            requires
                cycles > 0,
        ;
        lemma_run_compose(s0, 280, (280 * (cycles - 1) + 1) as nat);
        lemma_cycles_from_end((cycles - 1) as nat, 1);
    }
    lemma_rise_prefix(0, 1);
}

/// From the start of a later cycle (plateau time 2000 left over), the run
/// gives the same duties as from the very start.
proof fn lemma_cycles_from_end(k: nat, n: nat)
    ensures
        trapezoid_run((0i32, RampPhase::RiseToForward, 2000u64), 280 * k + n).0 == trapezoid_run(
            (0i32, RampPhase::RiseToForward, 0u64),
            280 * k + n,
        ).0,
    decreases k,
{
    let a = (0i32, RampPhase::RiseToForward, 2000u64);
    let b = (0i32, RampPhase::RiseToForward, 0u64);
    if k == 0 {
        lemma_start_ignores_plateau(2000, 0, n);
    } else {
        law_full_cycle_returns_to_start(2000);
        law_full_cycle_returns_to_start(0);
        assert(280 * k + n == 280 + (280 * (k - 1) + n)) by (nonlinear_arith)
            requires
                k > 0,
        ;
        lemma_run_compose(a, 280, (280 * (k - 1) + n) as nat);
        lemma_run_compose(b, 280, (280 * (k - 1) + n) as nat);
    }
}

/// Whatever plateau time is left from before, the rise from duty 0 steps
/// to `RAMP_STEP`, and any rise step moves the duty by `RAMP_STEP` toward
/// +100% (stopping there).
pub proof fn law_rise_ignores_plateau_time(d: i32, p: u64)
    requires
        0 <= d < 100,
    ensures
        trapezoid_step(0, RampPhase::RiseToForward, p).0 == RAMP_STEP,
        trapezoid_step(d, RampPhase::RiseToForward, p).0 == (if d + RAMP_STEP >= 100 {
            100
        } else {
            d + RAMP_STEP
        }),
{
}

impl Trapezoid {
    /// Duty, phase and time on the last plateau.
    pub closed spec fn state(&self) -> (i32, RampPhase, u64) {
        (self.duty, self.phase, self.plateau_ms)
    }

    #[verifier::type_invariant]
    spec fn inv(&self) -> bool {
        trapezoid_wf(self.duty, self.phase, self.plateau_ms)
    }

    /// The pattern at rest, about to ramp forward.
    pub fn new() -> (t: Self)
        ensures
            t.state() == (0i32, RampPhase::RiseToForward, 0u64),
    {
        Trapezoid { duty: 0, phase: RampPhase::RiseToForward, plateau_ms: 0 }
    }

    /// The current duty (percent).
    pub fn duty(&self) -> (d: i32)
        ensures
            d == self.state().0,
    {
        self.duty
    }

    /// The current phase.
    pub fn phase(&self) -> (p: RampPhase)
        ensures
            p == self.state().1,
    {
        self.phase
    }

    /// Advances the pattern by one update period; returns the new duty.
    pub fn step(&mut self) -> (duty: i32)
        ensures
            trapezoid_wf(old(self).state().0, old(self).state().1, old(self).state().2),
            final(self).state() == trapezoid_step(old(self).state().0, old(self).state().1, old(self).state().2),
            trapezoid_wf(final(self).state().0, final(self).state().1, final(self).state().2),
            duty == final(self).state().0,
    {
        proof {
            use_type_invariant(&*self);
        }
        let mut duty = self.duty;
        let mut phase = self.phase;
        let mut plateau_ms = self.plateau_ms;
        match phase {
            RampPhase::RiseToForward => {
                duty = duty + RAMP_STEP;
                if duty >= 100 {
                    duty = 100;
                    phase = RampPhase::HoldForward;
                    plateau_ms = 0;
                }
            },
            RampPhase::HoldForward => {
                plateau_ms = plateau_ms + UPDATE_INTERVAL_MS;
                if plateau_ms >= PLATEAU_MS {
                    phase = RampPhase::FallToReverse;
                }
            },
            RampPhase::FallToReverse => {
                duty = duty - RAMP_STEP;
                if duty <= -100 {
                    duty = -100;
                    phase = RampPhase::HoldReverse;
                    plateau_ms = 0;
                }
            },
            RampPhase::HoldReverse => {
                plateau_ms = plateau_ms + UPDATE_INTERVAL_MS;
                if plateau_ms >= PLATEAU_MS {
                    phase = RampPhase::RiseToStop;
                }
            },
            RampPhase::RiseToStop => {
                duty = duty + RAMP_STEP;
                if duty >= 0 {
                    duty = 0;
                    phase = RampPhase::RiseToForward;
                }
            },
        }
        *self = Trapezoid { duty, phase, plateau_ms };
        duty
    }
}

} // verus!
