use vstd::prelude::*;

verus! {

/// Speed sampling period (ms).
pub const SAMPLE_PERIOD_MS: u64 = 10;

/// Control period (ms).
pub const CONTROL_PERIOD_MS: u64 = 50;

/// Samples per control period.
pub const SAMPLES_PER_CONTROL: u64 = 5;

/// Time at rest before the step is applied (ms).
pub const PRE_SETTLE_MS: u64 = 300;

/// Time the step is held (ms).
pub const STEP_HOLD_MS: u64 = 1200;

/// Length of a disturbance run (ms).
pub const DISTURB_TOTAL_MS: u64 = 2000;

/// Start of the load disturbance (ms).
pub const DISTURB_START_MS: u64 = 500;

/// End of the load disturbance (ms).
pub const DISTURB_END_MS: u64 = 1000;

/// Kind of closed-loop experiment.
#[derive(Clone, Copy, Debug, PartialEq, Eq, Structural)]
pub enum ExpType {
    /// Response to a step of the set speed.
    Step,
    /// Response to a step load disturbance at constant set speed.
    Disturbance,
}

/// What the experiment asks for at one sample.
#[derive(Clone, Copy, Debug, PartialEq, Eq, Structural)]
pub struct SamplePlan {
    /// The set speed is applied (otherwise the set speed is 0).
    pub setpoint_on: bool,
    /// The disturbance duty is added to the output.
    pub disturbance_on: bool,
    /// The controller runs at this sample.
    pub control_now: bool,
}

/// Total length of one run (ms).
pub open spec fn run_length_ms(kind: ExpType) -> u64 {
    match kind {
        ExpType::Step => (PRE_SETTLE_MS + STEP_HOLD_MS) as u64,
        ExpType::Disturbance => DISTURB_TOTAL_MS,
    }
}

/// Samples taken in one run.
pub fn sample_count(kind: ExpType) -> (n: u64)
    ensures
        n == run_length_ms(kind) / SAMPLE_PERIOD_MS,
{
    let total: u64 = match kind {
        ExpType::Step => PRE_SETTLE_MS + STEP_HOLD_MS,
        ExpType::Disturbance => DISTURB_TOTAL_MS,
    };
    total / SAMPLE_PERIOD_MS
}

/// The plan at sample `tick`, `elapsed_ms` after the start of the run: a
/// step run rests until `PRE_SETTLE_MS` and then applies the set speed; a
/// disturbance run always applies it and adds the disturbance on
/// [`DISTURB_START_MS`, `DISTURB_END_MS`); the controller runs on every
/// `SAMPLES_PER_CONTROL`-th sample.
pub open spec fn sample_plan_spec(kind: ExpType, elapsed_ms: u64, tick: u64) -> SamplePlan {
    SamplePlan {
        setpoint_on: match kind {
            ExpType::Step => elapsed_ms >= PRE_SETTLE_MS,
            ExpType::Disturbance => true,
        },
        disturbance_on: kind == ExpType::Disturbance && DISTURB_START_MS <= elapsed_ms
            < DISTURB_END_MS,
        control_now: tick % SAMPLES_PER_CONTROL == 0,
    }
}

pub fn sample_plan(kind: ExpType, elapsed_ms: u64, tick: u64) -> (p: SamplePlan)
    ensures
        p == sample_plan_spec(kind, elapsed_ms, tick),
{
    let (setpoint_on, disturbance_on) = match kind {
        ExpType::Step => (elapsed_ms >= PRE_SETTLE_MS, false),
        ExpType::Disturbance => (true, elapsed_ms >= DISTURB_START_MS && elapsed_ms < DISTURB_END_MS),
    };
    SamplePlan { setpoint_on, disturbance_on, control_now: tick % SAMPLES_PER_CONTROL == 0 }
}

/// A step run never adds a disturbance, and a disturbance lasts exactly
/// [`DISTURB_START_MS`, `DISTURB_END_MS`).
pub proof fn law_disturbance_window(kind: ExpType, elapsed_ms: u64, tick: u64)
    ensures
        kind == ExpType::Step ==> !sample_plan_spec(kind, elapsed_ms, tick).disturbance_on,
        kind == ExpType::Disturbance ==> (sample_plan_spec(kind, elapsed_ms, tick).disturbance_on
            <==> DISTURB_START_MS <= elapsed_ms < DISTURB_END_MS),
{
}

/// The set speed: a disturbance run applies it at every sample, from the
/// start; a step run rests (set speed 0) for exactly the first
/// `PRE_SETTLE_MS` and applies it from then on.
pub proof fn law_setpoint_schedule(elapsed_ms: u64, tick: u64)
    ensures
        sample_plan_spec(ExpType::Disturbance, elapsed_ms, tick).setpoint_on,
        sample_plan_spec(ExpType::Step, elapsed_ms, tick).setpoint_on <==> elapsed_ms >= 300,
        sample_plan_spec(ExpType::Step, 0, tick).setpoint_on == false,
{
}

/// The controller tick depends on the sample count alone: it is the same
/// for both kinds of run and at every elapsed time, and it falls on sample
/// 0 and on every fifth sample after it.
pub proof fn law_control_tick_ignores_kind_and_time(
    k1: ExpType,
    k2: ExpType,
    e1: u64,
    e2: u64,
    tick: u64,
)
    ensures
        sample_plan_spec(k1, e1, tick).control_now == sample_plan_spec(k2, e2, tick).control_now,
        sample_plan_spec(k1, e1, 0).control_now,
        sample_plan_spec(k1, e1, tick).control_now <==> tick % 5 == 0,
{
}

/// The controller runs once per control period: control samples are
/// exactly `SAMPLES_PER_CONTROL` samples apart, which is
/// `CONTROL_PERIOD_MS` of sampling.
pub proof fn law_one_control_per_period(kind: ExpType, elapsed_ms: u64, tick: u64, j: u64)
    requires
        sample_plan_spec(kind, elapsed_ms, tick).control_now,
        0 < j < SAMPLES_PER_CONTROL,
        tick + SAMPLES_PER_CONTROL <= u64::MAX,
    ensures
        !sample_plan_spec(kind, elapsed_ms, (tick + j) as u64).control_now,
        sample_plan_spec(kind, elapsed_ms, (tick + SAMPLES_PER_CONTROL) as u64).control_now,
        SAMPLES_PER_CONTROL * SAMPLE_PERIOD_MS == CONTROL_PERIOD_MS,
{
}

} // verus!
