//! A minimal cooperative task runtime for a single-threaded,
//! fixed-memory target, together with the small pieces of application
//! logic that ride on it.
//!
//! The crate is split in three:
//! - [`time`]: the monotonic clock model (instants and durations on a
//!   wrapping 32-bit millisecond counter);
//! - [`rt`]: the fixed-capacity executor and its two suspension
//!   primitives, a timer wait and a button-release wait, all polled
//!   against explicit clock and input-level observations;
//! - [`hal`]: the names and pure decision rules of the pin layer whose
//!   actual register reads and writes live outside this crate.
//!
//! This file also holds the shared counter logic that the demo
//! routines communicate through.

use vstd::prelude::*;

pub mod hal;
pub mod rt;
pub mod time;

verus! {

use crate::time::Duration;

/// A process-wide counter shared by the demo routines, made explicit:
/// a two-bit display value together with a saturating tally of how far
/// the display has been pushed past its range.
pub struct CounterState {
    /// The displayed value; always kept in `0..4`.
    pub count: u32,
    /// Saturating total of the overflowing increments.
    pub overflows: u32,
}

/// What `saturating_add_signed` leaves in the overflow tally.
pub open spec fn spec_saturating_add_signed(a: u32, v: i32) -> u32 {
    if a + v > u32::MAX {
        u32::MAX
    } else if a + v < 0 {
        0u32
    } else {
        (a + v) as u32
    }
}

impl CounterState {
    /// A fresh counter: display at zero, no overflows recorded.
    pub fn new() -> (r: CounterState)
        ensures
            r.count == 0,
            r.overflows == 0,
    {
        CounterState { count: 0, overflows: 0 }
    }
}

/// Adds a signed step to the two-bit display counter. The sum wraps on
/// the 32-bit carrier and is then masked to the display range `0..4`.
/// When the masked value differs from the raw sum the step has pushed
/// the display out of range: the overflow tally saturatingly absorbs
/// the step and is reported as the error value.
pub fn counter_add(state: &mut CounterState, value: i32) -> (r: Result<(), u32>)
    ensures
        final(state).count == (old(state).count + value) % 4,
        r is Ok <==> old(state).count.wrapping_add_signed(value) < 4,
        r is Ok ==> final(state).overflows == old(state).overflows,
        r matches Err(o) ==> o == spec_saturating_add_signed(old(state).overflows, value)
            && final(state).overflows == o,
{
    let wrapped: u32 = state.count.wrapping_add_signed(value);
    let masked: u32 = wrapped & 0b11;
    proof {
        assert(masked == wrapped % 4) by (bit_vector)
            requires
                masked == (wrapped & 0b11),
        ;
        assert(0x1_0000_0000int == 4 * 0x4000_0000int);
        vstd::arithmetic::div_mod::lemma_mod_mod(
            old(state).count + value,
            4,
            0x4000_0000,
        );
    }
    state.count = masked;
    if masked != wrapped {
        let step: u32 = if value >= 0 {
            value as u32
        } else {
            (-(value as i64)) as u32
        };
        state.overflows = if value >= 0 {
            state.overflows.saturating_add(step)
        } else {
            state.overflows.saturating_sub(step)
        };
        Err(state.overflows)
    } else {
        Ok(())
    }
}

/// Decision rule of the button routine: a short press (under half a
/// second) steps the counter up, a long press steps it down.
pub fn press_increment(held: Duration) -> (r: i32)
    ensures
        r == if held.millis < 500 { 1int } else { -1int },
{
    if held.as_millis() < 500 {
        1
    } else {
        -1
    }
}

} // verus!
