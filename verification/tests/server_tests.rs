use minimum_hw_project::server::{
    log_entry, log_entry_at, passes_min_level, subscriber_name, PulseSimulator, TelemetryCounters,
};
use minimum_hw_project::{now_millis, LogLevel, SwitchId, SwitchState, PIN_SWITCH_1, PIN_SWITCH_2};

#[test]
fn counters_start_released_at_sequence_one() {
    let c = TelemetryCounters::new();
    assert_eq!(c.switch_1_state, SwitchState::Released);
    assert_eq!(c.switch_2_state, SwitchState::Released);
    assert_eq!(c.switch_1_presses, 0);
    assert_eq!(c.switch_2_presses, 0);
    assert_eq!(c.seq_counter, 1);
}

#[test]
fn record_event_updates_state_and_counters() {
    let mut c = TelemetryCounters::new();

    let ev1 = c.record_event(SwitchId::Switch1, SwitchState::Pressed, PIN_SWITCH_1, 0);
    assert_eq!(ev1.sequence_number, 1);
    assert_eq!(ev1.switch_id, SwitchId::Switch1 as i32);
    assert_eq!(ev1.state, SwitchState::Pressed as i32);
    assert_eq!(c.switch_1_state, SwitchState::Pressed);
    assert_eq!(c.switch_1_presses, 1);

    let ev2 = c.record_event(SwitchId::Switch1, SwitchState::Released, PIN_SWITCH_1, 150);
    assert_eq!(ev2.sequence_number, 2);
    assert_eq!(ev2.duration_pressed_millis, 150);
    assert_eq!(c.switch_1_state, SwitchState::Released);
    assert_eq!(c.switch_1_presses, 1);

    let ev3 = c.record_event(SwitchId::Switch2, SwitchState::Pressed, PIN_SWITCH_2, 0);
    assert_eq!(ev3.sequence_number, 3);
    assert_eq!(ev3.raw_gpio_pin, PIN_SWITCH_2);
    assert_eq!(c.switch_2_state, SwitchState::Pressed);
    assert_eq!(c.switch_2_presses, 1);
}

#[test]
fn status_after_presses_and_releases() {
    let mut c = TelemetryCounters::new();
    let initial = c.status_at(10, 0);
    assert_eq!(initial.switch_1_state, SwitchState::Released as i32);
    assert_eq!(initial.switch_2_state, SwitchState::Released as i32);
    assert_eq!(initial.total_switch_1_presses, 0);
    assert_eq!(initial.total_switch_2_presses, 0);

    c.record_event_at(SwitchId::Switch1, SwitchState::Pressed, PIN_SWITCH_1, 0, 11);
    c.record_event_at(SwitchId::Switch1, SwitchState::Released, PIN_SWITCH_1, 200, 12);
    c.record_event_at(SwitchId::Switch1, SwitchState::Pressed, PIN_SWITCH_1, 0, 13);
    c.record_event_at(SwitchId::Switch2, SwitchState::Pressed, PIN_SWITCH_2, 0, 14);

    let updated = c.status_at(15, 42);
    assert_eq!(updated.switch_1_state, SwitchState::Pressed as i32);
    assert_eq!(updated.switch_2_state, SwitchState::Pressed as i32);
    assert_eq!(updated.total_switch_1_presses, 2);
    assert_eq!(updated.total_switch_2_presses, 1);
    assert_eq!(updated.timestamp_unix_millis, 15);
    assert_eq!(updated.uptime_seconds, 42);
}

#[test]
fn events_carry_consecutive_numbers_and_their_fields() {
    let mut c = TelemetryCounters::new();
    let ev1 = c.record_event_at(SwitchId::Switch1, SwitchState::Pressed, PIN_SWITCH_1, 0, 100);
    let ev2 = c.record_event_at(SwitchId::Switch1, SwitchState::Released, PIN_SWITCH_1, 320, 101);
    let ev3 = c.record_event_at(SwitchId::Switch2, SwitchState::Pressed, PIN_SWITCH_2, 0, 102);
    let ev4 = c.record_event_at(SwitchId::Switch2, SwitchState::Released, PIN_SWITCH_2, 180, 103);
    assert_eq!(
        (ev1.sequence_number, ev2.sequence_number, ev3.sequence_number, ev4.sequence_number),
        (1, 2, 3, 4)
    );
    assert_eq!(ev1.raw_gpio_pin, PIN_SWITCH_1);
    assert_eq!(ev1.duration_pressed_millis, 0);
    assert_eq!(ev2.state, SwitchState::Released as i32);
    assert_eq!(ev2.duration_pressed_millis, 320);
    assert_eq!(ev3.switch_id, SwitchId::Switch2 as i32);
    assert_eq!(ev4.duration_pressed_millis, 180);
    assert_eq!(ev4.timestamp_unix_millis, 103);
}

#[test]
fn unspecified_switch_only_advances_the_sequence() {
    let mut c = TelemetryCounters::new();
    let ev = c.record_event_at(SwitchId::Unspecified, SwitchState::Pressed, 7, 0, 1);
    assert_eq!(ev.switch_id, 0);
    assert_eq!(c.seq_counter, 2);
    assert_eq!(c.switch_1_presses, 0);
    assert_eq!(c.switch_2_presses, 0);
    assert_eq!(c.switch_1_state, SwitchState::Released);
}

#[test]
fn counters_wrap_like_atomics() {
    let mut c = TelemetryCounters::new();
    c.seq_counter = i64::MAX;
    c.switch_2_presses = u64::MAX;
    let ev = c.record_event_at(SwitchId::Switch2, SwitchState::Pressed, PIN_SWITCH_2, 0, 0);
    assert_eq!(ev.sequence_number, i64::MAX);
    assert_eq!(c.seq_counter, i64::MIN);
    assert_eq!(c.switch_2_presses, 0);
}

#[test]
fn log_entry_carries_level_component_and_message() {
    let entry = log_entry(LogLevel::Warn, "test_comp", "Warning alert".to_string());
    assert_eq!(entry.level, LogLevel::Warn as i32);
    assert_eq!(entry.component, "test_comp");
    assert_eq!(entry.message, "Warning alert");
    assert!(entry.timestamp_unix_millis > 0);

    let stamped = log_entry_at(LogLevel::Error, "sensor", "Sensor fault detected".to_string(), 77);
    assert_eq!(stamped.timestamp_unix_millis, 77);
    assert_eq!(stamped.level, 3);
}

#[test]
fn log_filter_keeps_entries_at_or_above_the_minimum() {
    let levels = [LogLevel::Debug, LogLevel::Info, LogLevel::Warn, LogLevel::Error];
    let warn_only: Vec<LogLevel> = levels
        .iter()
        .copied()
        .filter(|l| passes_min_level(*l as i32, LogLevel::Warn as i32))
        .collect();
    assert_eq!(warn_only, vec![LogLevel::Warn, LogLevel::Error]);
    assert!(levels.iter().all(|l| passes_min_level(*l as i32, LogLevel::Debug as i32)));
}

#[test]
fn anonymous_subscribers_are_named() {
    assert_eq!(subscriber_name(String::new()), "anonymous");
    assert_eq!(subscriber_name("client-all".to_string()), "client-all");
}

#[test]
fn clock_reads_after_2020() {
    assert!(now_millis() > 1_577_836_800_000);
}

#[test]
fn simulation_presses_and_releases_each_switch_in_turn() {
    let mut sim = PulseSimulator::new();
    let p1 = sim.step();
    assert_eq!((p1.delay_millis, p1.switch_id, p1.raw_pin, p1.state, p1.duration_pressed_millis),
        (4000, SwitchId::Switch1, PIN_SWITCH_1, SwitchState::Pressed, 0));
    let p2 = sim.step();
    assert_eq!((p2.delay_millis, p2.switch_id, p2.raw_pin, p2.state, p2.duration_pressed_millis),
        (350, SwitchId::Switch1, PIN_SWITCH_1, SwitchState::Released, 350));
    let p3 = sim.step();
    assert_eq!((p3.switch_id, p3.raw_pin, p3.state), (SwitchId::Switch2, PIN_SWITCH_2, SwitchState::Pressed));
    let p4 = sim.step();
    assert_eq!((p4.switch_id, p4.state, p4.duration_pressed_millis), (SwitchId::Switch2, SwitchState::Released, 350));
    assert_eq!(sim, PulseSimulator::new());
}
