use vstd::prelude::*;

verus! {

/// Compare values for the two PWM channels that drive the H-bridge inputs:
/// `ch3` drives the motor forward, `ch4` in reverse.
#[derive(Clone, Copy, Debug, PartialEq, Eq, Structural)]
pub struct BridgeCompare {
    pub ch3: u32,
    pub ch4: u32,
}

/// |duty| as a mathematical integer.
pub open spec fn duty_magnitude(duty: i32) -> int {
    if duty < 0 {
        -duty
    } else {
        duty as int
    }
}

/// The timer compare value for `duty_abs` percent of `max_duty`: the
/// product saturates at `u32::MAX` before the division by 100.
pub open spec fn compare_for(duty_abs: int, max_duty: u32) -> u32 {
    let p = duty_abs * max_duty;
    (if p > u32::MAX {
        u32::MAX as int
    } else {
        p
    } / 100) as u32
}

/// The compare values for a signed duty in percent: positive drives
/// channel 3, negative drives channel 4, zero leaves both off.
pub open spec fn bridge_compare_spec(duty: i32, max_duty: u32) -> BridgeCompare {
    let c = compare_for(duty_magnitude(duty), max_duty);
    if duty > 0 {
        BridgeCompare { ch3: c, ch4: 0 }
    } else if duty < 0 {
        BridgeCompare { ch3: 0, ch4: c }
    } else {
        BridgeCompare { ch3: 0, ch4: 0 }
    }
}

/// `duty_abs * max_duty / 100`, the product saturating at `u32::MAX`.
fn scaled_compare(duty_abs: u32, max_duty: u32) -> (c: u32)
    ensures
        c == compare_for(duty_abs as int, max_duty),
{
    assert((duty_abs as int) * (max_duty as int) <= (u32::MAX as int) * (u32::MAX as int)) by (nonlinear_arith)
        requires
            duty_abs <= u32::MAX,
            max_duty <= u32::MAX,
    ;
    let p: u64 = duty_abs as u64 * max_duty as u64;
    let s: u32 = if p > u32::MAX as u64 {
        u32::MAX
    } else {
        p as u32
    };
    s / 100
}

/// Splits a signed duty (percent of `max_duty`) onto the two bridge
/// channels.
pub fn bridge_compare(duty: i32, max_duty: u32) -> (r: BridgeCompare)
    ensures
        r == bridge_compare_spec(duty, max_duty),
{
    let duty_abs: u32 = if duty < 0 {
        (0i64 - duty as i64) as u32
    } else {
        duty as u32
    };
    let compare = scaled_compare(duty_abs, max_duty);
    if duty > 0 {
        BridgeCompare { ch3: compare, ch4: 0 }
    } else if duty < 0 {
        BridgeCompare { ch3: 0, ch4: compare }
    } else {
        BridgeCompare { ch3: 0, ch4: 0 }
    }
}

/// Forward-only variant: a positive duty drives channel 3; anything else
/// leaves both channels off.
pub fn forward_compare(duty: i32, max_duty: u32) -> (r: BridgeCompare)
    ensures
        r == (if duty > 0 {
            BridgeCompare { ch3: compare_for(duty as int, max_duty), ch4: 0 }
        } else {
            BridgeCompare { ch3: 0, ch4: 0 }
        }),
{
    if duty > 0 {
        BridgeCompare { ch3: scaled_compare(duty as u32, max_duty), ch4: 0 }
    } else {
        BridgeCompare { ch3: 0, ch4: 0 }
    }
}

/// The signed encoder movement between two readings of the 16-bit
/// counter: the difference modulo 2^16, read in [-32768, 32767].
pub open spec fn count_delta_spec(count: u16, last: u16) -> int {
    let d = (count - last) % 65536;
    if d < 32768 {
        d
    } else {
        d - 65536
    }
}

/// The time between two readings of the 64-bit microsecond clock, modulo
/// 2^64.
pub open spec fn time_delta_spec(time: u64, last: u64) -> int {
    (time - last) % 0x1_0000_0000_0000_0000
}

/// Counter and clock differences between two encoder samples; both
/// tolerate wrap-around of the hardware counter and the clock.
pub fn encoder_deltas(count: u16, time: u64, last_count: u16, last_time: u64) -> (r: (i32, u64))
    ensures
        r.0 == count_delta_spec(count, last_count),
        r.1 == time_delta_spec(time, last_time),
{
    let d: u16 = count.wrapping_sub(last_count);
    let delta_count: i32 = d as i16 as i32;
    assert(d as i16 as int == (if d < 32768 { d as int } else { d - 65536 })) by (bit_vector);
    let delta_time: u64 = time.wrapping_sub(last_time);
    (delta_count, delta_time)
}

/// The wrap-around of the 16-bit counter is undone: whenever the true
/// movement between two samples lies in [-32768, 32767], the counter
/// difference equals it.
pub proof fn law_count_delta_recovers_motion(last: u16, moved: int)
    requires
        -32768 <= moved < 32768,
    ensures
        count_delta_spec(((last + moved) % 65536) as u16, last) == moved,
{
    let now = (last + moved) % 65536;
    assert(0 <= now < 65536);
    if moved >= 0 {
        if last + moved < 65536 {
            assert(now == last + moved);
        } else {
            assert(now == last + moved - 65536);
        }
    } else {
        if last + moved >= 0 {
            assert(now == last + moved);
        } else {
            assert(now == last + moved + 65536);
        }
    }
}

} // verus!
