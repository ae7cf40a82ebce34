//! Bookkeeping of the button checker: press counts per switch and the hold
//! time between a press edge and the release edge that follows it.

use vstd::prelude::*;

use crate::clock::{clock_reads_elapsed_nanos, lemma_now_readings_measure_elapsed, Timestamp};

verus! {

/// Presses counted per switch since the checker started.
#[derive(Debug, Clone, Copy, PartialEq, Eq, Structural, Default)]
pub struct ButtonStats {
    pub sw1_presses: u32,
    pub sw2_presses: u32,
}

impl ButtonStats {
    /// The press count of a switch: switch 1, or switch 2 for any other id.
    pub open spec fn presses_of(self, sw_id: u8) -> u32 {
        if sw_id == 1 {
            self.sw1_presses
        } else {
            self.sw2_presses
        }
    }

    /// No presses yet.
    pub fn new() -> (stats: Self)
        ensures
            stats.sw1_presses == 0,
            stats.sw2_presses == 0,
    {
        ButtonStats { sw1_presses: 0, sw2_presses: 0 }
    }

    /// Counts a press of switch `sw_id` (1, or 2 for any other id) and returns
    /// that switch's new total.
    pub fn on_press(&mut self, sw_id: u8) -> (count: u32)
        requires
            old(self).presses_of(sw_id) < u32::MAX,
        ensures
            count == old(self).presses_of(sw_id) + 1,
            final(self).presses_of(sw_id) == count,
            sw_id == 1 ==> final(self).sw2_presses == old(self).sw2_presses,
            sw_id != 1 ==> final(self).sw1_presses == old(self).sw1_presses,
    {
        if sw_id == 1 {
            self.sw1_presses = self.sw1_presses + 1;
            self.sw1_presses
        } else {
            self.sw2_presses = self.sw2_presses + 1;
            self.sw2_presses
        }
    }
}

/// The moment a switch was last pressed, if it has not been released since.
#[derive(Debug, Clone, Copy, PartialEq, Eq, Structural, Default)]
pub struct HoldTimer {
    pub press_start: Option<Timestamp>,
}

impl HoldTimer {
    /// Whole milliseconds from the pending press to `now`, or 0 when no press
    /// is pending.
    pub open spec fn pending_hold_millis(self, now: Timestamp) -> nat {
        match self.press_start {
            Some(start) => now.millis_since(start),
            None => 0,
        }
    }

    /// No press pending.
    pub fn new() -> (timer: Self)
        ensures
            timer.press_start is None,
    {
        HoldTimer { press_start: None }
    }

    /// A press edge at `now` starts the hold.
    pub fn on_press_edge(&mut self, now: Timestamp)
        ensures
            final(self).press_start == Some(now),
    {
        self.press_start = Some(now);
    }

    /// A release edge at `now` ends the hold and returns how long it lasted in
    /// whole milliseconds, or 0 when no press edge came before it.
    pub fn on_release_edge(&mut self, now: Timestamp) -> (held_millis: u64)
        ensures
            final(self).press_start is None,
            held_millis == old(self).pending_hold_millis(now),
    {
        match self.press_start.take() {
            Some(start) => now.saturating_millis_since(&start),
            None => 0,
        }
    }
}

/// A release edge reports the whole milliseconds since the press edge that
/// came before it, and nothing when no press is pending.
pub proof fn lemma_release_measures_from_press(t0: Timestamp, t1: Timestamp)
    ensures
        (HoldTimer { press_start: Some(t0) }).pending_hold_millis(t1) == t1.millis_since(t0),
        (HoldTimer { press_start: None }).pending_hold_millis(t1) == 0,
        t0.nanos_since_epoch <= t1.nanos_since_epoch ==> (HoldTimer { press_start: Some(t0) }).pending_hold_millis(t1) == (t1.nanos_since_epoch - t0.nanos_since_epoch) / 1_000_000,
{
}

/// A hold timed between two readings of `Timestamp::now` is the time between
/// them to the whole millisecond: when the clock counted `a` and then
/// `b >= a` nanoseconds since the epoch, both within 64 bits, a press edge at
/// the first reading and a release edge at the second report
/// `(b - a) / 1_000_000` milliseconds.
pub proof fn lemma_hold_between_clock_readings(pressed_at: Timestamp, released_at: Timestamp)
    requires
        call_ensures(Timestamp::now, (), pressed_at),
        call_ensures(Timestamp::now, (), released_at),
    ensures
        exists|a: Option<u128>, b: Option<u128>|
            #![trigger clock_reads_elapsed_nanos(a), clock_reads_elapsed_nanos(b)]
            clock_reads_elapsed_nanos(a) && clock_reads_elapsed_nanos(b)
            && (a is Some && b is Some && a.unwrap() <= b.unwrap() && b.unwrap() <= u64::MAX
                ==> (HoldTimer { press_start: Some(pressed_at) }).pending_hold_millis(released_at)
                    == (b.unwrap() - a.unwrap()) / 1_000_000),
{
    lemma_now_readings_measure_elapsed(pressed_at, released_at);
}

} // verus!
