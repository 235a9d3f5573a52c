use coop_rt::hal::{led_pin, led_selected, led_state_for, GpioPin, PinState};
use coop_rt::time::Duration;
use coop_rt::{counter_add, press_increment, CounterState};

#[test]
fn counter_steps_within_range_are_ok() {
    let mut s = CounterState::new();
    assert_eq!(counter_add(&mut s, 1), Ok(()));
    assert_eq!(s.count, 1);
    assert_eq!(counter_add(&mut s, 2), Ok(()));
    assert_eq!(s.count, 3);
    assert_eq!(s.overflows, 0);
}

#[test]
fn counter_wrap_up_reports_overflow_tally() {
    let mut s = CounterState::new();
    for _ in 0..3 {
        counter_add(&mut s, 1).unwrap();
    }
    assert_eq!(s.count, 3);
    assert_eq!(counter_add(&mut s, 1), Err(1));
    assert_eq!(s.count, 0);
    assert_eq!(s.overflows, 1);
    assert_eq!(counter_add(&mut s, 6), Err(7));
    assert_eq!(s.count, 2);
    assert_eq!(s.overflows, 7);
}

#[test]
fn counter_wrap_down_saturates_tally_at_zero() {
    let mut s = CounterState::new();
    assert_eq!(counter_add(&mut s, -1), Err(0));
    assert_eq!(s.count, 3);
    assert_eq!(s.overflows, 0);
}

#[test]
fn counter_tally_saturates_at_max() {
    let mut s = CounterState::new();
    s.overflows = u32::MAX - 1;
    s.count = 3;
    // Raw sum 8 leaves the two-bit range; the tally absorbs the step
    // of 5 but saturates at the top.
    assert_eq!(counter_add(&mut s, 5), Err(u32::MAX));
    assert_eq!(s.count, 0);
    assert_eq!(s.overflows, u32::MAX);
    assert_eq!(counter_add(&mut s, 5), Err(u32::MAX));
    assert_eq!(s.overflows, u32::MAX);
}

#[test]
fn press_increment_short_up_long_down() {
    assert_eq!(press_increment(Duration::from_millis(0)), 1);
    assert_eq!(press_increment(Duration::from_millis(499)), 1);
    assert_eq!(press_increment(Duration::from_millis(500)), -1);
    assert_eq!(press_increment(Duration::from_millis(10_000)), -1);
}

#[test]
fn led_pin_mapping_is_fixed() {
    assert_eq!(led_pin(0), GpioPin::Pin15);
    assert_eq!(led_pin(1), GpioPin::Pin13);
}

#[test]
fn led_selection_follows_mask_bits() {
    assert!(led_selected(0b01, 0));
    assert!(!led_selected(0b01, 1));
    assert!(led_selected(0b11, 0));
    assert!(led_selected(0b11, 1));
    assert!(!led_selected(0b00, 0));
}

#[test]
fn led_level_mirrors_counter_bits() {
    assert_eq!(led_state_for(0b10, 1), PinState::High);
    assert_eq!(led_state_for(0b10, 0), PinState::Low);
    assert_eq!(led_state_for(0b01, 0), PinState::High);
    assert_eq!(led_state_for(0b00, 1), PinState::Low);
}
