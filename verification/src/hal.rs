//! Names and decision rules of the pin layer.
//!
//! The actual register reads and writes (tick counter, GPIO level,
//! debug output) belong to the environment outside this crate; the
//! runtime only ever sees their results as plain values. What stands
//! here is the vocabulary those values are expressed in, and the pure
//! rules that pick which pin a logical LED maps to and which level it
//! should be driven to.

use vstd::prelude::*;

verus! {

/// Electrical level of a digital pin.
#[derive(Clone, Copy, PartialEq, Eq, Structural, Debug)]
pub enum PinState {
    Low,
    High,
}

/// The GPIO banks the board wires the demo to.
#[derive(Clone, Copy, Debug)]
#[non_exhaustive]
pub enum GpioBase {
    C,
    D,
}

/// The pins of those banks the demo drives or samples.
#[derive(Clone, Copy, PartialEq, Eq, Structural, Debug)]
#[non_exhaustive]
pub enum GpioPin {
    Pin13,
    Pin15,
}

/// Which pin a logical LED index drives: LED 0 is the yellow pin, LED 1
/// the green one. Indices outside the two wired LEDs are a programming
/// error and are ruled out rather than mapped arbitrarily.
pub fn led_pin(led: u8) -> (p: GpioPin)
    requires
        led < 2,
    ensures
        led == 0 ==> p is Pin15,
        led == 1 ==> p is Pin13,
{
    if led == 0 {
        GpioPin::Pin15
    } else {
        GpioPin::Pin13
    }
}

/// Whether a bit mask over the logical LEDs selects a given LED.
pub fn led_selected(mask: u8, led: u8) -> (b: bool)
    requires
        led < 8,
    ensures
        b == ((mask & (1u8 << led)) != 0),
{
    (mask & (1u8 << led)) != 0
}

/// Level a LED should show for the current display counter: LED `led`
/// mirrors bit `led` of the counter.
pub fn led_state_for(count: u32, led: u8) -> (s: PinState)
    requires
        led < 2,
    ensures
        s is High <==> ((count & (1u32 << led)) != 0),
{
    if (count & (1u32 << led)) != 0 {
        PinState::High
    } else {
        PinState::Low
    }
}

} // verus!
