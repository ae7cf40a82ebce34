//! The bookkeeping behind the telemetry service: sequence numbers, the last
//! known state and press count of each switch, status snapshots, log entries
//! and the per-subscriber log filter.

pub use crate::clock::now_millis;

use crate::clock::{clock_reads_elapsed_millis, lemma_now_millis_is_elapsed_millis};

use vstd::prelude::*;

use crate::proto::{LogEntry, LogLevel, StatusResponse, SwitchEvent, SwitchId, SwitchState};

verus! {

/// GPIO line of switch 1.
pub const PIN_SWITCH_1: u32 = 23;

/// GPIO line of switch 2.
pub const PIN_SWITCH_2: u32 = 24;

/// Debounce window of the GPIO lines, in milliseconds.
pub const DEBOUNCE_MS: u64 = 20;

/// The sequence number after `seq`, wrapping from the largest `i64` to the
/// smallest as an atomic fetch-and-add does.
pub open spec fn next_sequence(seq: i64) -> i64 {
    if seq == i64::MAX {
        i64::MIN
    } else {
        (seq + 1) as i64
    }
}

/// A press count plus one, wrapping to 0 as an atomic fetch-and-add does.
pub open spec fn next_count(count: u64) -> u64 {
    if count == u64::MAX {
        0
    } else {
        (count + 1) as u64
    }
}

/// Sequence numbering and per-switch state of the telemetry node.
#[derive(Debug, Clone, Copy, PartialEq, Eq, Structural)]
pub struct TelemetryCounters {
    /// The sequence number of the next event.
    pub seq_counter: i64,
    pub switch_1_state: SwitchState,
    pub switch_2_state: SwitchState,
    pub switch_1_presses: u64,
    pub switch_2_presses: u64,
}

impl TelemetryCounters {
    /// The counters after an event of `state` on `switch_id`: the sequence
    /// advances; a numbered switch takes the state, and counts a press when
    /// the state is `Pressed`; an unnumbered switch changes nothing else.
    pub open spec fn after_record(self, switch_id: SwitchId, state: SwitchState) -> TelemetryCounters {
        let seq = next_sequence(self.seq_counter);
        let pressed = state == SwitchState::Pressed;
        match switch_id {
            SwitchId::Switch1 => TelemetryCounters {
                seq_counter: seq,
                switch_1_state: state,
                switch_1_presses: if pressed {
                    next_count(self.switch_1_presses)
                } else {
                    self.switch_1_presses
                },
                ..self
            },
            SwitchId::Switch2 => TelemetryCounters {
                seq_counter: seq,
                switch_2_state: state,
                switch_2_presses: if pressed {
                    next_count(self.switch_2_presses)
                } else {
                    self.switch_2_presses
                },
                ..self
            },
            SwitchId::Unspecified => TelemetryCounters { seq_counter: seq, ..self },
        }
    }

    /// The event that recording `state` on `switch_id` produces: it carries
    /// the current sequence number and the wire codes of switch and state.
    pub open spec fn event_for(
        self,
        switch_id: SwitchId,
        state: SwitchState,
        raw_pin: u32,
        duration_pressed_millis: u32,
        timestamp_unix_millis: i64,
    ) -> SwitchEvent {
        SwitchEvent {
            sequence_number: self.seq_counter,
            timestamp_unix_millis,
            switch_id: switch_id.code(),
            state: state.code(),
            raw_gpio_pin: raw_pin,
            duration_pressed_millis,
        }
    }

    /// The status snapshot of these counters.
    pub open spec fn status_for(self, timestamp_unix_millis: i64, uptime_seconds: u64) -> StatusResponse {
        StatusResponse {
            timestamp_unix_millis,
            switch_1_state: self.switch_1_state.code(),
            switch_2_state: self.switch_2_state.code(),
            total_switch_1_presses: self.switch_1_presses,
            total_switch_2_presses: self.switch_2_presses,
            uptime_seconds,
        }
    }

    /// Fresh counters: the first event gets sequence number 1, both switches
    /// are released and nothing has been pressed.
    pub fn new() -> (c: Self)
        ensures
            c.seq_counter == 1,
            c.switch_1_state == SwitchState::Released,
            c.switch_2_state == SwitchState::Released,
            c.switch_1_presses == 0,
            c.switch_2_presses == 0,
    {
        TelemetryCounters {
            seq_counter: 1,
            switch_1_state: SwitchState::Released,
            switch_2_state: SwitchState::Released,
            switch_1_presses: 0,
            switch_2_presses: 0,
        }
    }

    /// Records an event stamped with the given time and returns it.
    pub fn record_event_at(
        &mut self,
        switch_id: SwitchId,
        state: SwitchState,
        raw_pin: u32,
        duration_pressed_millis: u32,
        timestamp_unix_millis: i64,
    ) -> (event: SwitchEvent)
        ensures
            *final(self) == old(self).after_record(switch_id, state),
            event == old(self).event_for(
                switch_id,
                state,
                raw_pin,
                duration_pressed_millis,
                timestamp_unix_millis,
            ),
    {
        let seq = self.seq_counter;
        self.seq_counter = if seq == i64::MAX {
            i64::MIN
        } else {
            seq + 1
        };
        let event = SwitchEvent {
            sequence_number: seq,
            timestamp_unix_millis,
            switch_id: switch_id.to_i32(),
            state: state.to_i32(),
            raw_gpio_pin: raw_pin,
            duration_pressed_millis,
        };

        match switch_id {
            SwitchId::Switch1 => {
                self.switch_1_state = state;
                if state == SwitchState::Pressed {
                    self.switch_1_presses = if self.switch_1_presses == u64::MAX {
                        0
                    } else {
                        self.switch_1_presses + 1
                    };
                }
            },
            SwitchId::Switch2 => {
                self.switch_2_state = state;
                if state == SwitchState::Pressed {
                    self.switch_2_presses = if self.switch_2_presses == u64::MAX {
                        0
                    } else {
                        self.switch_2_presses + 1
                    };
                }
            },
            SwitchId::Unspecified => {},
        }
        event
    }

    /// Records an event stamped with the system clock and returns it. The
    /// stamp is what `now_millis` returns, the clock's milliseconds since the
    /// UNIX epoch; everything else is as in `record_event_at`.
    pub fn record_event(
        &mut self,
        switch_id: SwitchId,
        state: SwitchState,
        raw_pin: u32,
        duration_pressed_millis: u32,
    ) -> (event: SwitchEvent)
        ensures
            *final(self) == old(self).after_record(switch_id, state),
            event == old(self).event_for(
                switch_id,
                state,
                raw_pin,
                duration_pressed_millis,
                event.timestamp_unix_millis,
            ),
            call_ensures(now_millis, (), event.timestamp_unix_millis),
    {
        let now = now_millis();
        self.record_event_at(switch_id, state, raw_pin, duration_pressed_millis, now)
    }

    /// The status snapshot, stamped with the given time.
    pub fn status_at(&self, timestamp_unix_millis: i64, uptime_seconds: u64) -> (status: StatusResponse)
        ensures
            status == self.status_for(timestamp_unix_millis, uptime_seconds),
    {
        StatusResponse {
            timestamp_unix_millis,
            switch_1_state: self.switch_1_state.to_i32(),
            switch_2_state: self.switch_2_state.to_i32(),
            total_switch_1_presses: self.switch_1_presses,
            total_switch_2_presses: self.switch_2_presses,
            uptime_seconds,
        }
    }

    /// The status snapshot, stamped with the system clock (what `now_millis`
    /// returns); everything but the stamp is as in `status_at`.
    pub fn status(&self, uptime_seconds: u64) -> (status: StatusResponse)
        ensures
            status == self.status_for(status.timestamp_unix_millis, uptime_seconds),
            call_ensures(now_millis, (), status.timestamp_unix_millis),
    {
        let now = now_millis();
        self.status_at(now, uptime_seconds)
    }
}

/// A log entry of `level` from `component`, stamped with the given time.
pub fn log_entry_at(level: LogLevel, component: &str, message: String, timestamp_unix_millis: i64) -> (entry: LogEntry)
    ensures
        entry.timestamp_unix_millis == timestamp_unix_millis,
        entry.level == level.code(),
        entry.component@ == component@,
        entry.message@ == message@,
{
    LogEntry {
        timestamp_unix_millis,
        level: level.to_i32(),
        component: component.to_owned(),
        message,
    }
}

/// A log entry of `level` from `component`, stamped with the system clock
/// (what `now_millis` returns).
pub fn log_entry(level: LogLevel, component: &str, message: String) -> (entry: LogEntry)
    ensures
        entry.level == level.code(),
        entry.component@ == component@,
        entry.message@ == message@,
        call_ensures(now_millis, (), entry.timestamp_unix_millis),
{
    let now = now_millis();
    log_entry_at(level, component, message, now)
}

/// Whether a log subscriber that asked for `min_level` receives an entry of
/// `entry_level` (both as wire codes): only entries at least as severe.
pub fn passes_min_level(entry_level: i32, min_level: i32) -> (pass: bool)
    ensures
        pass == (entry_level >= min_level),
{
    entry_level >= min_level
}

/// The name a subscriber is logged under: its client id, or `anonymous` when
/// it gave none.
pub fn subscriber_name(client_id: String) -> (name: String)
    ensures
        name@ == (if client_id@.len() == 0 {
            "anonymous"@
        } else {
            client_id@
        }),
{
    if client_id.as_str().is_empty() {
        String::from_str("anonymous")
    } else {
        client_id
    }
}

/// One event of the simulated switches: how long to wait before it, and the
/// event to record.
#[derive(Debug, Clone, Copy, PartialEq, Eq, Structural)]
pub struct SimulatedPulse {
    pub delay_millis: u64,
    pub switch_id: SwitchId,
    pub raw_pin: u32,
    pub state: SwitchState,
    pub duration_pressed_millis: u32,
}

/// Milliseconds a simulated switch rests between presses.
pub const SIMULATED_REST_MILLIS: u64 = 4000;

/// Milliseconds a simulated switch is held down.
pub const SIMULATED_HOLD_MILLIS: u64 = 350;

/// The simulated switches off the Raspberry Pi: each switch in turn is
/// pressed after a rest and released after a hold.
#[derive(Debug, Clone, Copy, PartialEq, Eq, Structural)]
pub struct PulseSimulator {
    /// Which switch comes next: 0 for switch 1, anything else for switch 2.
    pub next_switch: usize,
    /// Whether that switch is currently held down.
    pub holding: bool,
}

/// The switch and GPIO line at a place in the simulation cycle.
pub open spec fn simulated_switch(index: usize) -> (SwitchId, u32) {
    if index == 0 {
        (SwitchId::Switch1, PIN_SWITCH_1)
    } else {
        (SwitchId::Switch2, PIN_SWITCH_2)
    }
}

impl PulseSimulator {
    /// The event the next step produces.
    pub open spec fn next_pulse(self) -> SimulatedPulse {
        let (id, pin) = simulated_switch(self.next_switch);
        if !self.holding {
            SimulatedPulse {
                delay_millis: SIMULATED_REST_MILLIS,
                switch_id: id,
                raw_pin: pin,
                state: SwitchState::Pressed,
                duration_pressed_millis: 0,
            }
        } else {
            SimulatedPulse {
                delay_millis: SIMULATED_HOLD_MILLIS,
                switch_id: id,
                raw_pin: pin,
                state: SwitchState::Released,
                duration_pressed_millis: SIMULATED_HOLD_MILLIS as u32,
            }
        }
    }

    /// The simulator after its next step: a press holds the switch, a release
    /// moves on to the other switch.
    pub open spec fn after_step(self) -> PulseSimulator {
        if !self.holding {
            PulseSimulator { next_switch: self.next_switch, holding: true }
        } else {
            PulseSimulator { next_switch: if self.next_switch == 0 { 1 } else { 0 }, holding: false }
        }
    }

    /// Starts with switch 1 at rest.
    pub fn new() -> (sim: Self)
        ensures
            sim.next_switch == 0,
            !sim.holding,
    {
        PulseSimulator { next_switch: 0, holding: false }
    }

    /// Produces the next simulated event and advances.
    pub fn step(&mut self) -> (pulse: SimulatedPulse)
        ensures
            pulse == old(self).next_pulse(),
            *final(self) == old(self).after_step(),
    {
        let (switch_id, raw_pin) = if self.next_switch == 0 {
            (SwitchId::Switch1, PIN_SWITCH_1)
        } else {
            (SwitchId::Switch2, PIN_SWITCH_2)
        };
        if !self.holding {
            self.holding = true;
            SimulatedPulse {
                delay_millis: SIMULATED_REST_MILLIS,
                switch_id,
                raw_pin,
                state: SwitchState::Pressed,
                duration_pressed_millis: 0,
            }
        } else {
            self.next_switch = if self.next_switch == 0 {
                1
            } else {
                0
            };
            self.holding = false;
            SimulatedPulse {
                delay_millis: SIMULATED_HOLD_MILLIS,
                switch_id,
                raw_pin,
                state: SwitchState::Released,
                duration_pressed_millis: SIMULATED_HOLD_MILLIS as u32,
            }
        }
    }
}

/// From rest, the simulation presses a switch after the rest, releases the
/// same switch after the hold reporting the hold, and does the same for the
/// other switch; after those four events it is back where it began.
pub proof fn lemma_simulation_cycle(sim: PulseSimulator)
    requires
        !sim.holding,
        sim.next_switch <= 1,
    ensures
        sim.next_pulse().state == SwitchState::Pressed,
        sim.next_pulse().delay_millis == SIMULATED_REST_MILLIS,
        sim.after_step().next_pulse().state == SwitchState::Released,
        sim.after_step().next_pulse().switch_id == sim.next_pulse().switch_id,
        sim.after_step().next_pulse().delay_millis == SIMULATED_HOLD_MILLIS,
        sim.after_step().next_pulse().duration_pressed_millis == SIMULATED_HOLD_MILLIS,
        sim.after_step().after_step().next_pulse().switch_id != sim.next_pulse().switch_id,
        sim.after_step().after_step().after_step().after_step() == sim,
{
}

/// Consecutive events carry consecutive sequence numbers, wrapping at the
/// end of the `i64` range.
pub proof fn lemma_sequence_numbers_consecutive(
    c: TelemetryCounters,
    id1: SwitchId,
    s1: SwitchState,
    id2: SwitchId,
    s2: SwitchState,
    pin1: u32,
    pin2: u32,
    d1: u32,
    d2: u32,
    t1: i64,
    t2: i64,
)
    ensures
        c.after_record(id1, s1).event_for(id2, s2, pin2, d2, t2).sequence_number == next_sequence(
            c.event_for(id1, s1, pin1, d1, t1).sequence_number,
        ),
{
}

/// After an event on a numbered switch, the status reports that switch in
/// the event's state, and reports the other switch as before.
pub proof fn lemma_status_reflects_last_event(c: TelemetryCounters, id: SwitchId, s: SwitchState, t: i64, up: u64)
    ensures
        id == SwitchId::Switch1 ==> c.after_record(id, s).status_for(t, up).switch_1_state == s.code(),
        id == SwitchId::Switch1 ==> c.after_record(id, s).status_for(t, up).switch_2_state == c.status_for(t, up).switch_2_state,
        id == SwitchId::Switch1 ==> c.after_record(id, s).status_for(t, up).total_switch_2_presses == c.switch_2_presses,
        id == SwitchId::Switch2 ==> c.after_record(id, s).status_for(t, up).switch_2_state == s.code(),
        id == SwitchId::Switch2 ==> c.after_record(id, s).status_for(t, up).switch_1_state == c.status_for(t, up).switch_1_state,
        id == SwitchId::Switch2 ==> c.after_record(id, s).status_for(t, up).total_switch_1_presses == c.switch_1_presses,
        id == SwitchId::Unspecified ==> c.after_record(id, s).status_for(t, up) == c.status_for(t, up),
{
}

/// A status snapshot reports the counters as they stand, stamped with the
/// clock's whole milliseconds since the UNIX epoch: unchanged while they fit
/// in `i64`, and 0 for a clock that reads earlier than the epoch.
pub proof fn lemma_status_stamped_in_clock_millis(c: TelemetryCounters, uptime_seconds: u64, status: StatusResponse)
    requires
        call_ensures(TelemetryCounters::status, (&c, uptime_seconds), status),
    ensures
        status == c.status_for(status.timestamp_unix_millis, uptime_seconds),
        exists|elapsed: Option<u128>| #[trigger] clock_reads_elapsed_millis(elapsed)
            && (elapsed is None ==> status.timestamp_unix_millis == 0)
            && (elapsed is Some && elapsed.unwrap() < 0x8000_0000_0000_0000
                ==> status.timestamp_unix_millis == elapsed.unwrap()),
{
    lemma_now_millis_is_elapsed_millis(status.timestamp_unix_millis);
}

/// A log entry carries its level, component and message, stamped with the
/// clock's whole milliseconds since the UNIX epoch: unchanged while they fit
/// in `i64`, and 0 for a clock that reads earlier than the epoch.
pub proof fn lemma_log_entry_stamped_in_clock_millis(level: LogLevel, component: &str, message: String, entry: LogEntry)
    requires
        call_ensures(log_entry, (level, component, message), entry),
    ensures
        entry.level == level.code(),
        entry.component@ == component@,
        entry.message@ == message@,
        exists|elapsed: Option<u128>| #[trigger] clock_reads_elapsed_millis(elapsed)
            && (elapsed is None ==> entry.timestamp_unix_millis == 0)
            && (elapsed is Some && elapsed.unwrap() < 0x8000_0000_0000_0000
                ==> entry.timestamp_unix_millis == elapsed.unwrap()),
{
    lemma_now_millis_is_elapsed_millis(entry.timestamp_unix_millis);
}

/// A subscriber asking for a less severe minimum receives everything a
/// subscriber asking for a more severe one receives.
pub proof fn lemma_log_filter_monotone(entry_level: i32, strict_min: i32, lax_min: i32)
    requires
        lax_min <= strict_min,
    ensures
        entry_level >= strict_min ==> entry_level >= lax_min,
{
}

/// The events of a run: which switch and which state, in order.
pub open spec fn replay(c: TelemetryCounters, events: Seq<(SwitchId, SwitchState)>) -> TelemetryCounters
    decreases events.len(),
{
    if events.len() == 0 {
        c
    } else {
        replay(c, events.drop_last()).after_record(events.last().0, events.last().1)
    }
}

/// The number of press events on `id` in a run.
pub open spec fn presses_in(events: Seq<(SwitchId, SwitchState)>, id: SwitchId) -> nat
    decreases events.len(),
{
    if events.len() == 0 {
        0
    } else {
        presses_in(events.drop_last(), id) + if events.last().0 == id && events.last().1
            == SwitchState::Pressed {
            1nat
        } else {
            0nat
        }
    }
}

/// After any run of events, each switch's press count is its count before
/// plus the number of press events on it in the run (modulo 2^64), and the
/// sequence counter has advanced by the length of the run (modulo 2^64).
pub proof fn lemma_replay_counts_presses(c: TelemetryCounters, events: Seq<(SwitchId, SwitchState)>)
    ensures
        replay(c, events).switch_1_presses as int == (c.switch_1_presses + presses_in(
            events,
            SwitchId::Switch1,
        )) % 0x1_0000_0000_0000_0000,
        replay(c, events).switch_2_presses as int == (c.switch_2_presses + presses_in(
            events,
            SwitchId::Switch2,
        )) % 0x1_0000_0000_0000_0000,
        (replay(c, events).seq_counter - c.seq_counter - events.len()) % 0x1_0000_0000_0000_0000 == 0,
    decreases events.len(),
{
    if events.len() > 0 {
        lemma_replay_counts_presses(c, events.drop_last());
        let prev = replay(c, events.drop_last());
        let n1 = presses_in(events.drop_last(), SwitchId::Switch1);
        let n2 = presses_in(events.drop_last(), SwitchId::Switch2);
        let k = events.len() - 1;
        assert(prev.switch_1_presses as int == (c.switch_1_presses + n1) % 0x1_0000_0000_0000_0000);
        assert(prev.switch_2_presses as int == (c.switch_2_presses + n2) % 0x1_0000_0000_0000_0000);
        assert((prev.seq_counter - c.seq_counter - k) % 0x1_0000_0000_0000_0000 == 0);
        lemma_mod_step(c.switch_1_presses + n1, prev.switch_1_presses as int);
        lemma_mod_step(c.switch_2_presses + n2, prev.switch_2_presses as int);
        lemma_seq_step(prev.seq_counter as int, c.seq_counter + k);
    }
}

/// The state of the last event on `id` in a run, or `initial` when the run has
/// none on it.
pub open spec fn last_state_in(events: Seq<(SwitchId, SwitchState)>, id: SwitchId, initial: SwitchState) -> SwitchState
    decreases events.len(),
{
    if events.len() == 0 {
        initial
    } else if events.last().0 == id {
        events.last().1
    } else {
        last_state_in(events.drop_last(), id, initial)
    }
}

/// After any run of events, each switch shows the state of its last event in
/// the run, or the state it had before when the run has none on it.
pub proof fn lemma_replay_shows_last_states(c: TelemetryCounters, events: Seq<(SwitchId, SwitchState)>)
    ensures
        replay(c, events).switch_1_state == last_state_in(events, SwitchId::Switch1, c.switch_1_state),
        replay(c, events).switch_2_state == last_state_in(events, SwitchId::Switch2, c.switch_2_state),
    decreases events.len(),
{
    if events.len() > 0 {
        lemma_replay_shows_last_states(c, events.drop_last());
    }
}

/// A run holds no more press events on a switch than it holds events.
pub proof fn lemma_presses_bounded(events: Seq<(SwitchId, SwitchState)>, id: SwitchId)
    ensures
        presses_in(events, id) <= events.len(),
    decreases events.len(),
{
    if events.len() > 0 {
        lemma_presses_bounded(events.drop_last(), id);
    }
}

/// From fresh counters, a run shorter than the sequence range numbers its
/// events from 1 on, counts exactly its press events on each switch, and
/// leaves each switch in the state of its last event on it (released when
/// there was none).
pub proof fn lemma_run_from_fresh_counters(c: TelemetryCounters, events: Seq<(SwitchId, SwitchState)>)
    requires
        c == (TelemetryCounters {
            seq_counter: 1,
            switch_1_state: SwitchState::Released,
            switch_2_state: SwitchState::Released,
            switch_1_presses: 0,
            switch_2_presses: 0,
        }),
        events.len() < i64::MAX,
    ensures
        replay(c, events).seq_counter == 1 + events.len(),
        replay(c, events).switch_1_presses == presses_in(events, SwitchId::Switch1),
        replay(c, events).switch_2_presses == presses_in(events, SwitchId::Switch2),
        replay(c, events).switch_1_state == last_state_in(events, SwitchId::Switch1, SwitchState::Released),
        replay(c, events).switch_2_state == last_state_in(events, SwitchId::Switch2, SwitchState::Released),
{
    lemma_replay_counts_presses(c, events);
    lemma_replay_shows_last_states(c, events);
    lemma_presses_bounded(events, SwitchId::Switch1);
    lemma_presses_bounded(events, SwitchId::Switch2);
    let r = replay(c, events);
    let n = events.len() as int;
    vstd::arithmetic::div_mod::lemma_small_mod(presses_in(events, SwitchId::Switch1), 0x1_0000_0000_0000_0000);
    vstd::arithmetic::div_mod::lemma_small_mod(presses_in(events, SwitchId::Switch2), 0x1_0000_0000_0000_0000);
    let d = r.seq_counter - 1 - n;
    assert(d % 0x1_0000_0000_0000_0000 == 0);
    assert(-0x1_0000_0000_0000_0000 < d < 0x1_0000_0000_0000_0000);
    vstd::arithmetic::div_mod::lemma_fundamental_div_mod(d, 0x1_0000_0000_0000_0000);
    assert(d / 0x1_0000_0000_0000_0000 == 0 || d / 0x1_0000_0000_0000_0000 == -1) by (nonlinear_arith)
        requires
            -0x1_0000_0000_0000_0000 < d < 0x1_0000_0000_0000_0000,
            d == 0x1_0000_0000_0000_0000 * (d / 0x1_0000_0000_0000_0000) + d % 0x1_0000_0000_0000_0000,
            d % 0x1_0000_0000_0000_0000 == 0,
    ;
}

/// Adding one to a value keeps it congruent to a stored count plus one.
proof fn lemma_mod_step(total: int, stored: int)
    requires
        0 <= stored < 0x1_0000_0000_0000_0000,
        total >= 0,
        stored == total % 0x1_0000_0000_0000_0000,
    ensures
        (if stored == u64::MAX { 0 } else { stored + 1 }) == (total + 1) % 0x1_0000_0000_0000_0000,
{
    vstd::arithmetic::div_mod::lemma_add_mod_noop(total, 1, 0x1_0000_0000_0000_0000);
}

/// A wrapped successor stays congruent to its counterpart plus one.
proof fn lemma_seq_step(seq: int, base: int)
    requires
        i64::MIN <= seq <= i64::MAX,
        (seq - base) % 0x1_0000_0000_0000_0000 == 0,
    ensures
        ((if seq == i64::MAX { i64::MIN as int } else { seq + 1 }) - (base + 1)) % 0x1_0000_0000_0000_0000 == 0,
{
    if seq == i64::MAX {
        assert((i64::MIN as int) - (base + 1) == (seq - base) - 0x1_0000_0000_0000_0000);
        vstd::arithmetic::div_mod::lemma_mod_sub_multiples_vanish(seq - base, 0x1_0000_0000_0000_0000);
    }
}

} // verus!
