//! Debouncing of a hardware switch: the confirmed state of the switch, the
//! moment it was last pressed, and the stability check on raw samples.

use std::time::Duration;
use vstd::prelude::*;

use crate::clock::{duration_from_millis, Timestamp};
use crate::proto::SwitchState;
use vstd::std_specs::iter::IteratorSpec;

verus! {

/// Configuration parameters for switch debouncing.
#[derive(Debug, Clone, Copy, PartialEq, Eq)]
pub struct DebounceConfig {
    /// Time delay between consecutive samples during stabilization verification
    pub sample_interval: Duration,
    /// Number of consecutive identical samples required to confirm a state change
    pub required_stable_samples: usize,
}

impl Default for DebounceConfig {
    /// Five samples five milliseconds apart: a 25 ms stable window.
    fn default() -> (config: Self)
        ensures
            config.sample_interval == duration_from_millis(5),
            config.required_stable_samples == 5,
    {
        DebounceConfig { sample_interval: Duration::from_millis(5), required_stable_samples: 5 }
    }
}

/// Output action resulting from a confirmed state change.
#[derive(Debug, Clone, Copy, PartialEq, Eq, Structural)]
pub enum DebounceOutput {
    /// No state transition confirmed
    NoChange,
    /// Transitioned to Pressed (Active LOW)
    Pressed,
    /// Transitioned to Released with total held duration in milliseconds
    Released { duration_millis: u32 },
}

/// State machine for debouncing hardware switches with hold-duration tracking.
#[derive(Debug)]
pub struct DebounceFilter {
    pub confirmed_state: SwitchState,
    pub press_start_time: Option<Timestamp>,
    pub config: DebounceConfig,
}

/// A count of milliseconds cut to 32 bits, as an `as u32` cast cuts it.
pub open spec fn truncate_millis(ms: nat) -> u32 {
    (ms % 0x1_0000_0000) as u32
}

/// The hold duration reported on release: the milliseconds since the press,
/// cut to 32 bits, or 0 when no press was recorded.
pub open spec fn hold_duration(press_start: Option<Timestamp>, now: Timestamp) -> u32 {
    match press_start {
        Some(start) => truncate_millis(now.millis_since(start)),
        None => 0,
    }
}

impl DebounceFilter {
    /// A press start is recorded exactly while the switch is confirmed pressed.
    pub open spec fn well_formed(&self) -> bool {
        self.press_start_time.is_some() <==> self.confirmed_state == SwitchState::Pressed
    }

    /// Whether confirming `new_state` changes the confirmed state: it differs
    /// from the current one and is not `Unspecified`.
    pub open spec fn is_transition(&self, new_state: SwitchState) -> bool {
        new_state != self.confirmed_state && new_state != SwitchState::Unspecified
    }

    /// The filter after `new_state` has been confirmed at `now`.
    pub open spec fn after_confirm(self, new_state: SwitchState, now: Timestamp) -> DebounceFilter {
        if !self.is_transition(new_state) {
            self
        } else if new_state == SwitchState::Pressed {
            DebounceFilter {
                confirmed_state: SwitchState::Pressed,
                press_start_time: Some(now),
                config: self.config,
            }
        } else {
            DebounceFilter {
                confirmed_state: SwitchState::Released,
                press_start_time: None,
                config: self.config,
            }
        }
    }

    /// The action reported when `new_state` is confirmed at `now`.
    pub open spec fn confirm_output(self, new_state: SwitchState, now: Timestamp) -> DebounceOutput {
        if !self.is_transition(new_state) {
            DebounceOutput::NoChange
        } else if new_state == SwitchState::Pressed {
            DebounceOutput::Pressed
        } else {
            DebounceOutput::Released {
                duration_millis: hold_duration(self.press_start_time, now),
            }
        }
    }

    /// A filter that starts in `initial_state`; a switch that starts pressed
    /// counts its press from the moment of construction.
    pub fn new(initial_state: SwitchState, config: DebounceConfig) -> (filter: Self)
        ensures
            filter.confirmed_state == initial_state,
            filter.config == config,
            filter.press_start_time.is_some() <==> initial_state == SwitchState::Pressed,
            filter.well_formed(),
            initial_state == SwitchState::Pressed ==> call_ensures(Timestamp::now, (), filter.press_start_time.unwrap()),
    {
        if initial_state == SwitchState::Pressed {
            DebounceFilter::new_at(initial_state, config, Timestamp::now())
        } else {
            DebounceFilter::new_at(initial_state, config, Timestamp::from_nanos(0))
        }
    }

    /// A filter that starts in `initial_state` at `now`: a switch that starts
    /// pressed counts its press from `now`; otherwise no press is pending.
    pub fn new_at(initial_state: SwitchState, config: DebounceConfig, now: Timestamp) -> (filter: Self)
        ensures
            filter.confirmed_state == initial_state,
            filter.config == config,
            filter.press_start_time == (if initial_state == SwitchState::Pressed {
                Some(now)
            } else {
                None
            }),
            filter.well_formed(),
    {
        let press_start_time = if initial_state == SwitchState::Pressed {
            Some(now)
        } else {
            None
        };

        DebounceFilter { confirmed_state: initial_state, press_start_time, config }
    }

    /// Confirm a verified state transition and produce the corresponding DebounceOutput.
    pub fn confirm_transition(&mut self, new_state: SwitchState, now: Timestamp) -> (out:
        DebounceOutput)
        ensures
            *final(self) == old(self).after_confirm(new_state, now),
            out == old(self).confirm_output(new_state, now),
            old(self).well_formed() ==> final(self).well_formed(),
    {
        if new_state == self.confirmed_state || new_state == SwitchState::Unspecified {
            return DebounceOutput::NoChange;
        }
        self.confirmed_state = new_state;

        match new_state {
            SwitchState::Pressed => {
                self.press_start_time = Some(now);
                DebounceOutput::Pressed
            },
            SwitchState::Released => {
                let duration = match self.press_start_time.take() {
                    Some(start) => {
                        let ms = now.saturating_millis_since(&start);
                        (ms % 0x1_0000_0000u64) as u32
                    },
                    None => 0,
                };
                DebounceOutput::Released { duration_millis: duration }
            },
            SwitchState::Unspecified => DebounceOutput::NoChange,
        }
    }
}

/// The state of a switch wired active low against a pull-up: a line held low
/// means the contact is closed, so the switch is pressed.
pub fn switch_state_from_line(line_low: bool) -> (state: SwitchState)
    ensures
        state == (if line_low {
            SwitchState::Pressed
        } else {
            SwitchState::Released
        }),
{
    if line_low {
        SwitchState::Pressed
    } else {
        SwitchState::Released
    }
}

/// Whether `samples` confirm `candidate`: the first `required` samples all
/// equal it (so there are at least that many), and, when none are required,
/// the first sample, if there is one, equals it.
pub open spec fn is_stable_run(samples: Seq<SwitchState>, candidate: SwitchState, required: int) -> bool {
    &&& required <= samples.len()
    &&& forall|i: int| 0 <= i < required ==> samples[i] == candidate
    &&& (required == 0 && samples.len() > 0 ==> samples[0] == candidate)
}

/// Evaluates a sequence of samples to determine if a candidate state has stabilized.
/// Samples are drawn one at a time and no more are drawn than needed: the
/// call stops at the first sample that differs from the candidate, or once
/// `required_count` samples (at least one) have matched, so it also returns on
/// an endless sampler. For a sampler that follows the iterator laws, the
/// verdict is `is_stable_run` of the samples it would produce.
pub fn verify_sample_stability<I: Iterator<Item = SwitchState>>(mut samples: I, candidate: SwitchState, required_count: usize) -> (stable: bool)
    ensures
        samples.obeys_prophetic_iter_laws() ==> stable == is_stable_run(samples.remaining(), candidate, required_count as int),
{
    let ghost start = samples;
    let ghost all = start.remaining();
    let ghost obeys = start.obeys_prophetic_iter_laws();
    let mut matching: usize = 0;
    #[verifier::loop_isolation(false)]
    loop
        invariant
            samples.obeys_prophetic_iter_laws() == obeys,
            obeys ==> samples.remaining() == all.skip(matching as int),
            obeys ==> matching <= all.len(),
            obeys ==> forall|j: int| 0 <= j < matching ==> all[j] == candidate,
            matching == 0 || matching < required_count,
        decreases required_count + 1 - matching,
    {
        let ghost before = samples.remaining();
        let next = samples.next();
        assert(obeys && before.len() > 0 ==> before[0] == all[matching as int]);
        match next {
            Some(s) => {
                if s == candidate {
                    matching += 1;
                    if matching >= required_count {
                        return true;
                    }
                } else {
                    return false;
                }
            },
            None => {
                assert(obeys ==> all.len() == matching);
                return matching >= required_count;
            },
        }
    }
}

/// Confirming the state the filter already holds, or `Unspecified`, changes
/// nothing and reports no change, at any moment.
pub proof fn lemma_repeat_is_no_change(f: DebounceFilter, s: SwitchState, t1: Timestamp, t2: Timestamp)
    ensures
        f.after_confirm(s, t1).after_confirm(s, t2) == f.after_confirm(s, t1),
        f.after_confirm(s, t1).confirm_output(s, t2) == DebounceOutput::NoChange,
        f.confirm_output(SwitchState::Unspecified, t1) == DebounceOutput::NoChange,
        f.after_confirm(SwitchState::Unspecified, t1) == f,
{
}

/// A press confirmed at `t0` followed by a release confirmed at `t1` reports
/// the whole milliseconds from `t0` to `t1`, cut to 32 bits.
pub proof fn lemma_press_then_release(f: DebounceFilter, t0: Timestamp, t1: Timestamp)
    requires
        f.confirmed_state != SwitchState::Pressed,
    ensures
        f.confirm_output(SwitchState::Pressed, t0) == DebounceOutput::Pressed,
        f.after_confirm(SwitchState::Pressed, t0).confirm_output(SwitchState::Released, t1)
            == (DebounceOutput::Released { duration_millis: truncate_millis(t1.millis_since(t0)) }),
        f.after_confirm(SwitchState::Pressed, t0).after_confirm(SwitchState::Released, t1).confirmed_state
            == SwitchState::Released,
        f.after_confirm(SwitchState::Pressed, t0).after_confirm(SwitchState::Released, t1).press_start_time
            is None,
{
}

/// A filter built pressed times the hold from the clock reading taken while
/// it was built: releasing it at `now` reports the whole milliseconds from
/// that reading to `now`, cut to 32 bits, and leaves it released with no
/// press pending.
pub proof fn lemma_new_pressed_times_from_construction(config: DebounceConfig, f: DebounceFilter, now: Timestamp)
    requires
        call_ensures(DebounceFilter::new, (SwitchState::Pressed, config), f),
    ensures
        f.press_start_time is Some,
        call_ensures(Timestamp::now, (), f.press_start_time.unwrap()),
        f.confirm_output(SwitchState::Released, now) == (DebounceOutput::Released {
            duration_millis: truncate_millis(now.millis_since(f.press_start_time.unwrap())),
        }),
        f.after_confirm(SwitchState::Released, now).confirmed_state == SwitchState::Released,
        f.after_confirm(SwitchState::Released, now).press_start_time is None,
{
}

/// The confirmed state is never `Unspecified` after a change, and the
/// configuration never changes.
pub proof fn lemma_confirm_keeps_config(f: DebounceFilter, s: SwitchState, t: Timestamp)
    ensures
        f.after_confirm(s, t).config == f.config,
        f.is_transition(s) ==> f.after_confirm(s, t).confirmed_state == s,
        f.is_transition(s) ==> f.after_confirm(s, t).confirmed_state != SwitchState::Unspecified,
{
}

/// Once samples confirm a candidate, further samples do not undo it.
pub proof fn lemma_stable_run_extends(samples: Seq<SwitchState>, more: Seq<SwitchState>, candidate: SwitchState, required: int)
    requires
        is_stable_run(samples, candidate, required),
        samples.len() > 0,
    ensures
        is_stable_run(samples + more, candidate, required),
{
    assert forall|i: int| 0 <= i < required implies (samples + more)[i] == candidate by {
        assert((samples + more)[i] == samples[i]);
    }
    assert((samples + more)[0] == samples[0]);
}

/// Requiring fewer matching samples never turns a stable verdict unstable.
pub proof fn lemma_fewer_required_stays_stable(samples: Seq<SwitchState>, candidate: SwitchState, more: int, fewer: int)
    requires
        0 <= fewer <= more,
        is_stable_run(samples, candidate, more),
    ensures
        is_stable_run(samples, candidate, fewer),
{
    if fewer == 0 && samples.len() > 0 && more > 0 {
        assert(samples[0] == candidate);
    }
}

/// The filter after confirming the first `n` readings of a run, in order.
pub open spec fn filter_after(f: DebounceFilter, readings: Seq<(SwitchState, Timestamp)>, n: int) -> DebounceFilter
    decreases n,
{
    if n <= 0 {
        f
    } else {
        filter_after(f, readings, n - 1).after_confirm(readings[n - 1].0, readings[n - 1].1)
    }
}

/// The action reported for reading `i` of a run.
pub open spec fn output_at(f: DebounceFilter, readings: Seq<(SwitchState, Timestamp)>, i: int) -> DebounceOutput {
    filter_after(f, readings, i).confirm_output(readings[i].0, readings[i].1)
}

/// The line state before reading `i`: the state the filter started in, then
/// the previous reading.
pub open spec fn previous_reading(f: DebounceFilter, readings: Seq<(SwitchState, Timestamp)>, i: int) -> SwitchState {
    if i <= 0 {
        f.confirmed_state
    } else {
        readings[i - 1].0
    }
}

/// The press pending before reading `n`, from the readings alone: the time of
/// the last change to pressed, unless a change to released came after it.
pub open spec fn pending_press(f: DebounceFilter, readings: Seq<(SwitchState, Timestamp)>, n: int) -> Option<Timestamp>
    decreases n,
{
    if n <= 0 {
        f.press_start_time
    } else if readings[n - 1].0 == previous_reading(f, readings, n - 1) {
        pending_press(f, readings, n - 1)
    } else if readings[n - 1].0 == SwitchState::Pressed {
        Some(readings[n - 1].1)
    } else {
        None
    }
}

/// Whether every reading of a run is a line level: pressed or released.
pub open spec fn all_levels(readings: Seq<(SwitchState, Timestamp)>) -> bool {
    forall|i: int| 0 <= i < readings.len() ==> #[trigger] readings[i].0 != SwitchState::Unspecified
}

/// After the first `n` readings, the filter holds the last reading and the
/// press pending from the readings alone.
pub proof fn lemma_filter_tracks_readings(f: DebounceFilter, readings: Seq<(SwitchState, Timestamp)>, n: int)
    requires
        0 <= n <= readings.len(),
        all_levels(readings),
        f.confirmed_state != SwitchState::Unspecified,
    ensures
        filter_after(f, readings, n).confirmed_state == previous_reading(f, readings, n),
        filter_after(f, readings, n).press_start_time == pending_press(f, readings, n),
        filter_after(f, readings, n).config == f.config,
    decreases n,
{
    if n > 0 {
        lemma_filter_tracks_readings(f, readings, n - 1);
        assert(readings[n - 1].0 != SwitchState::Unspecified);
    }
}

/// A switch monitor that confirms each line level it reads reports exactly the
/// level changes: a reading equal to the previous one reports nothing, a change
/// to pressed reports `Pressed`, and a change to released reports `Released`
/// with the milliseconds since the pending press (cut to 32 bits), or 0 when
/// none is pending; after each reading the filter holds that reading.
pub proof fn lemma_monitor_reports_level_changes(f: DebounceFilter, readings: Seq<(SwitchState, Timestamp)>)
    requires
        all_levels(readings),
        f.confirmed_state != SwitchState::Unspecified,
    ensures
        forall|i: int| 0 <= i < readings.len() ==> (#[trigger] filter_after(f, readings, i + 1)).confirmed_state == readings[i].0,
        forall|i: int| 0 <= i < readings.len() ==> (#[trigger] output_at(f, readings, i) == DebounceOutput::NoChange
            <==> readings[i].0 == previous_reading(f, readings, i)),
        forall|i: int| 0 <= i < readings.len() ==> (#[trigger] output_at(f, readings, i) == DebounceOutput::Pressed
            <==> (readings[i].0 != previous_reading(f, readings, i) && readings[i].0 == SwitchState::Pressed)),
        forall|i: int| 0 <= i < readings.len() && readings[i].0 != previous_reading(f, readings, i)
            && readings[i].0 == SwitchState::Released ==> #[trigger] output_at(f, readings, i) == (DebounceOutput::Released {
                duration_millis: hold_duration(pending_press(f, readings, i), readings[i].1),
            }),
{
    assert forall|i: int| 0 <= i < readings.len() implies (#[trigger] filter_after(f, readings, i + 1)).confirmed_state == readings[i].0 by {
        lemma_filter_tracks_readings(f, readings, i + 1);
    }
    assert forall|i: int| 0 <= i < readings.len() implies (#[trigger] output_at(f, readings, i) == DebounceOutput::NoChange
        <==> readings[i].0 == previous_reading(f, readings, i)) by {
        lemma_filter_tracks_readings(f, readings, i);
        assert(readings[i].0 != SwitchState::Unspecified);
    }
    assert forall|i: int| 0 <= i < readings.len() implies (#[trigger] output_at(f, readings, i) == DebounceOutput::Pressed
        <==> (readings[i].0 != previous_reading(f, readings, i) && readings[i].0 == SwitchState::Pressed)) by {
        lemma_filter_tracks_readings(f, readings, i);
        assert(readings[i].0 != SwitchState::Unspecified);
    }
    assert forall|i: int| 0 <= i < readings.len() && readings[i].0 != previous_reading(f, readings, i)
        && readings[i].0 == SwitchState::Released implies #[trigger] output_at(f, readings, i) == (DebounceOutput::Released {
            duration_millis: hold_duration(pending_press(f, readings, i), readings[i].1),
        }) by {
        lemma_filter_tracks_readings(f, readings, i);
    }
}

} // verus!
