use minimum_hw_project::{ButtonStats, HoldTimer, Timestamp};

#[test]
fn presses_are_counted_per_switch() {
    let mut stats = ButtonStats::new();
    assert_eq!(stats.on_press(1), 1);
    assert_eq!(stats.on_press(1), 2);
    assert_eq!(stats.on_press(2), 1);
    assert_eq!(stats.on_press(7), 2);
    assert_eq!(stats.sw1_presses, 2);
    assert_eq!(stats.sw2_presses, 2);
}

#[test]
fn hold_is_measured_from_press_to_release() {
    let mut timer = HoldTimer::new();
    let t0 = Timestamp::from_nanos(1_000_000_000);
    timer.on_press_edge(t0);
    assert_eq!(timer.on_release_edge(t0.add_millis(420)), 420);
    assert_eq!(timer.press_start, None);
    assert_eq!(timer.on_release_edge(t0.add_millis(900)), 0);
}
