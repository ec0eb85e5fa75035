//! Pulse-width extraction from two capture timestamps.
//!
//! The capture counter is a free-running ring counter, not a linear clock:
//! when the second edge is latched after the counter wrapped, the raw
//! difference of the two timestamps overstates the elapsed time. The width
//! of a pulse is therefore the smaller of the raw absolute difference and
//! its ring complement.

use vstd::prelude::*;

verus! {

/// Modulus of the free-running capture counter (a 16-bit counter).
pub const TICKS_MODULUS: u32 = 65536;

/// Half the counter's range; a raw difference above this means the counter
/// wrapped between the two edges.
pub const TICKS_HALF: u32 = 32768;

/// The wraparound-corrected width: the absolute difference of the two
/// timestamps, replaced by its ring complement when it exceeds half the
/// counter's range.
pub open spec fn spec_pulse_width(time1: u32, time2: u32) -> u32 {
    let diff = if time2 >= time1 {
        (time2 - time1) as u32
    } else {
        (time1 - time2) as u32
    };
    if diff > TICKS_HALF {
        (TICKS_MODULUS - diff) as u32
    } else {
        diff
    }
}

/// Computes the wraparound-corrected pulse width, in ticks, between two
/// timestamps of the capture counter.
pub fn pulse_width(time1: u32, time2: u32) -> (width: u32)
    requires
        time1 < TICKS_MODULUS,
        time2 < TICKS_MODULUS,
    ensures
        width == spec_pulse_width(time1, time2),
        width <= TICKS_HALF,
{
    let diff: u32 = if time2 >= time1 {
        time2 - time1
    } else {
        time1 - time2
    };
    if diff > TICKS_HALF {
        TICKS_MODULUS - diff
    } else {
        diff
    }
}

/// Wraparound correctness: when the second timestamp is the first advanced
/// by `elapsed` ticks on the ring counter, the extracted width is the true
/// elapsed time whenever that time is at most half the counter's range, and
/// the ring complement of the true elapsed time otherwise.
pub proof fn lemma_wraparound(time1: u32, elapsed: u32)
    requires
        time1 < TICKS_MODULUS,
        elapsed < TICKS_MODULUS,
    ensures
        spec_pulse_width(time1, (((time1 + elapsed) % (TICKS_MODULUS as int)) as u32)) == (if elapsed
            <= TICKS_HALF {
            elapsed
        } else {
            (TICKS_MODULUS - elapsed) as u32
        }),
{
    let m = TICKS_MODULUS as int;
    if time1 + elapsed < m {
        assert((time1 + elapsed) % m == time1 + elapsed);
    } else {
        assert((time1 + elapsed) % m == time1 + elapsed - m) by {
            assert(0 <= time1 + elapsed - m < m);
            assert((time1 + elapsed) % m == (time1 + elapsed - m) % m) by (nonlinear_arith);
            assert((time1 + elapsed - m) % m == time1 + elapsed - m);
        };
    }
}

} // verus!
