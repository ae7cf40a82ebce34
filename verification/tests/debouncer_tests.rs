use std::time::Duration;

use minimum_hw_project::debouncer::{switch_state_from_line, verify_sample_stability};
use minimum_hw_project::{DebounceConfig, DebounceFilter, DebounceOutput, SwitchState, Timestamp};

#[test]
fn test_debounce_filter_initial_state() {
    let filter = DebounceFilter::new(SwitchState::Released, DebounceConfig::default());
    assert_eq!(filter.confirmed_state, SwitchState::Released);
    assert!(filter.press_start_time.is_none());

    let filter_pressed = DebounceFilter::new(SwitchState::Pressed, DebounceConfig::default());
    assert_eq!(filter_pressed.confirmed_state, SwitchState::Pressed);
    assert!(filter_pressed.press_start_time.is_some());
}

#[test]
fn test_debounce_clean_press_and_release() {
    let mut filter = DebounceFilter::new(SwitchState::Released, DebounceConfig::default());
    let t0 = Timestamp::now();

    // 1. Confirm press
    let out1 = filter.confirm_transition(SwitchState::Pressed, t0);
    assert_eq!(out1, DebounceOutput::Pressed);
    assert_eq!(filter.confirmed_state, SwitchState::Pressed);

    // 2. Duplicate press should be ignored
    let out_dup = filter.confirm_transition(SwitchState::Pressed, t0.add_millis(50));
    assert_eq!(out_dup, DebounceOutput::NoChange);

    // 3. Confirm release after 250ms
    let t1 = t0.add_millis(250);
    let out2 = filter.confirm_transition(SwitchState::Released, t1);
    assert_eq!(
        out2,
        DebounceOutput::Released {
            duration_millis: 250
        }
    );
    assert_eq!(filter.confirmed_state, SwitchState::Released);

    // 4. Duplicate release should be ignored
    let out_dup2 = filter.confirm_transition(SwitchState::Released, t1.add_millis(50));
    assert_eq!(out_dup2, DebounceOutput::NoChange);
}

#[test]
fn test_simulated_bounce_stream() {
    let config = DebounceConfig {
        sample_interval: Duration::from_millis(5),
        required_stable_samples: 5,
    };
    let mut filter = DebounceFilter::new(SwitchState::Released, config);
    let start = Timestamp::now();

    let bounce_series = [
        SwitchState::Pressed,
        SwitchState::Released, // bounce
        SwitchState::Pressed,
        SwitchState::Pressed,
        SwitchState::Released, // bounce
        SwitchState::Pressed,
        SwitchState::Pressed,
        SwitchState::Pressed,
        SwitchState::Pressed,
        SwitchState::Pressed, // 5th consecutive -> stable!
    ];

    let mut confirmed_press = false;
    let mut consecutive = 0;
    let mut last_candidate = SwitchState::Released;

    for s in bounce_series {
        if s != filter.confirmed_state {
            if s == last_candidate {
                consecutive += 1;
            } else {
                last_candidate = s;
                consecutive = 1;
            }

            if consecutive >= config.required_stable_samples {
                let out = filter.confirm_transition(s, start.add_millis(50));
                if out == DebounceOutput::Pressed {
                    confirmed_press = true;
                }
            }
        }
    }

    assert!(confirmed_press);
    assert_eq!(filter.confirmed_state, SwitchState::Pressed);
}

#[test]
fn default_config_is_five_samples_five_ms_apart() {
    let config = DebounceConfig::default();
    assert_eq!(config.sample_interval, Duration::from_millis(5));
    assert_eq!(config.required_stable_samples, 5);
}

#[test]
fn unspecified_state_is_never_confirmed() {
    let mut filter = DebounceFilter::new(SwitchState::Pressed, DebounceConfig::default());
    let out = filter.confirm_transition(SwitchState::Unspecified, Timestamp::from_nanos(10));
    assert_eq!(out, DebounceOutput::NoChange);
    assert_eq!(filter.confirmed_state, SwitchState::Pressed);
    assert!(filter.press_start_time.is_some());
}

#[test]
fn release_without_recorded_press_reports_zero() {
    let mut filter = DebounceFilter::new(SwitchState::Unspecified, DebounceConfig::default());
    let out = filter.confirm_transition(SwitchState::Released, Timestamp::from_nanos(5_000_000_000));
    assert_eq!(out, DebounceOutput::Released { duration_millis: 0 });
    assert_eq!(filter.confirmed_state, SwitchState::Released);
}

#[test]
fn release_duration_truncates_sub_millisecond_and_clock_going_back() {
    let mut filter = DebounceFilter::new(SwitchState::Released, DebounceConfig::default());
    let t0 = Timestamp::from_nanos(2_000_900_000);
    assert_eq!(filter.confirm_transition(SwitchState::Pressed, t0), DebounceOutput::Pressed);
    assert_eq!(filter.press_start_time, Some(t0));
    let out = filter.confirm_transition(SwitchState::Released, Timestamp::from_nanos(2_002_800_000));
    assert_eq!(out, DebounceOutput::Released { duration_millis: 1 });
    assert!(filter.press_start_time.is_none());

    filter.confirm_transition(SwitchState::Pressed, Timestamp::from_nanos(9_000_000_000));
    let out = filter.confirm_transition(SwitchState::Released, Timestamp::from_nanos(8_000_000_000));
    assert_eq!(out, DebounceOutput::Released { duration_millis: 0 });
}

#[test]
fn release_duration_wraps_at_32_bits() {
    let mut filter = DebounceFilter::new(SwitchState::Released, DebounceConfig::default());
    let t0 = Timestamp::from_nanos(0);
    filter.confirm_transition(SwitchState::Pressed, t0);
    let later = t0.add_millis(4_294_967_296 + 7);
    let out = filter.confirm_transition(SwitchState::Released, later);
    assert_eq!(out, DebounceOutput::Released { duration_millis: 7 });
}

#[test]
fn stability_needs_the_leading_run() {
    let (pressed, released) = (SwitchState::Pressed, SwitchState::Released);
    assert!(verify_sample_stability([pressed, pressed, pressed].into_iter(), pressed, 3));
    assert!(verify_sample_stability([pressed, pressed, released].into_iter(), pressed, 2));
    assert!(!verify_sample_stability([pressed, released, pressed].into_iter(), pressed, 2));
    assert!(!verify_sample_stability([pressed, pressed].into_iter(), pressed, 3));
    assert!(verify_sample_stability([].into_iter(), pressed, 0));
    assert!(!verify_sample_stability([released].into_iter(), pressed, 0));
    assert!(verify_sample_stability([pressed, released].into_iter(), pressed, 0));
    assert!(!verify_sample_stability([].into_iter(), pressed, 1));
}

#[test]
fn stability_draws_only_what_it_needs_from_an_endless_sampler() {
    assert!(verify_sample_stability(std::iter::repeat(SwitchState::Pressed), SwitchState::Pressed, 5));
    assert!(!verify_sample_stability(std::iter::repeat(SwitchState::Released), SwitchState::Pressed, 5));
    let mut drawn = 0;
    let sampler = std::iter::from_fn(|| {
        drawn += 1;
        Some(SwitchState::Pressed)
    });
    assert!(verify_sample_stability(sampler, SwitchState::Pressed, 3));
    assert_eq!(drawn, 3);
}

#[test]
fn active_low_line_means_pressed() {
    assert_eq!(switch_state_from_line(true), SwitchState::Pressed);
    assert_eq!(switch_state_from_line(false), SwitchState::Released);
}

#[test]
fn filter_started_at_a_given_moment() {
    let t = Timestamp::from_nanos(42_000_000);
    let pressed = DebounceFilter::new_at(SwitchState::Pressed, DebounceConfig::default(), t);
    assert_eq!(pressed.press_start_time, Some(t));
    let released = DebounceFilter::new_at(SwitchState::Released, DebounceConfig::default(), t);
    assert_eq!(released.press_start_time, None);
    assert_eq!(released.confirmed_state, SwitchState::Released);
}
