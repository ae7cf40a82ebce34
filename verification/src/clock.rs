//! Reading the system clock, and the points in time that the debouncer and
//! the button tracker measure hold durations between.

use std::time::{Duration, SystemTime, SystemTimeError};
use vstd::prelude::*;

verus! {

#[verifier::external_type_specification]
#[verifier::external_body]
pub struct ExSystemTime(SystemTime);

#[verifier::external_type_specification]
#[verifier::external_body]
pub struct ExSystemTimeError(SystemTimeError);

/// The duration that `Duration::from_millis` builds from a count of milliseconds.
pub uninterp spec fn duration_from_millis(millis: u64) -> Duration;

/// `Duration::from_millis` is a pure function of its argument: the same count of
/// milliseconds always gives the same duration. Nothing more is said of the value.
pub assume_specification[ core::time::Duration::from_millis ](millis: u64) -> (d: Duration)
    ensures
        d == duration_from_millis(millis),
;

/// Reads the system clock with `SystemTime::now`. The reading depends on the
/// machine and the moment, so nothing is promised of it.
#[verifier::external_body]
fn system_time_now() -> (t: SystemTime) {
    SystemTime::now()
}

/// Calls `SystemTime::duration_since` with `UNIX_EPOCH`: the time elapsed since
/// the epoch, or an error when the clock reads earlier than the epoch. The
/// duration is opaque here, so nothing is said of it.
#[verifier::external_body]
fn elapsed_since_unix_epoch(t: &SystemTime) -> (r: Result<Duration, SystemTimeError>) {
    t.duration_since(std::time::UNIX_EPOCH)
}

/// Calls `Duration::as_millis`: the whole milliseconds of the duration.
/// Durations are opaque here, so nothing is said of the count.
#[verifier::external_body]
fn duration_as_millis(d: &Duration) -> (ms: u128) {
    d.as_millis()
}

/// Calls `Duration::as_nanos`: the whole nanoseconds of the duration.
/// Durations are opaque here, so nothing is said of the count.
#[verifier::external_body]
fn duration_as_nanos(d: &Duration) -> (ns: u128) {
    d.as_nanos()
}

/// Whether `elapsed` is what one reading of the system clock reports in whole
/// milliseconds: `SystemTime::now`, then the time since the UNIX epoch
/// counted by `Duration::as_millis`, or `None` when the clock reads earlier
/// than the epoch.
pub closed spec fn clock_reads_elapsed_millis(elapsed: Option<u128>) -> bool {
    exists|reading: SystemTime, since_epoch: Result<Duration, SystemTimeError>|
        #![trigger call_ensures(system_time_now, (), reading), call_ensures(elapsed_since_unix_epoch, (&reading,), since_epoch)]
        call_ensures(system_time_now, (), reading)
        && call_ensures(elapsed_since_unix_epoch, (&reading,), since_epoch)
        && match since_epoch {
            Ok(d) => elapsed is Some && call_ensures(duration_as_millis, (&d,), elapsed.unwrap()),
            Err(_) => elapsed is None,
        }
}

/// Whether `elapsed` is what one reading of the system clock reports in whole
/// nanoseconds: `SystemTime::now`, then the time since the UNIX epoch counted
/// by `Duration::as_nanos`, or `None` when the clock reads earlier than the
/// epoch.
pub closed spec fn clock_reads_elapsed_nanos(elapsed: Option<u128>) -> bool {
    exists|reading: SystemTime, since_epoch: Result<Duration, SystemTimeError>|
        #![trigger call_ensures(system_time_now, (), reading), call_ensures(elapsed_since_unix_epoch, (&reading,), since_epoch)]
        call_ensures(system_time_now, (), reading)
        && call_ensures(elapsed_since_unix_epoch, (&reading,), since_epoch)
        && match since_epoch {
            Ok(d) => elapsed is Some && call_ensures(duration_as_nanos, (&d,), elapsed.unwrap()),
            Err(_) => elapsed is None,
        }
}

/// The value of `v as i64` for a `u128`: its low 64 bits read as a two's
/// complement number.
pub open spec fn u128_as_i64(v: u128) -> i64 {
    let low = v as int % 0x1_0000_0000_0000_0000;
    if low < 0x8000_0000_0000_0000 {
        low as i64
    } else {
        (low - 0x1_0000_0000_0000_0000) as i64
    }
}

/// Converts a `u128` to `i64` as the `as` cast does, keeping the low 64 bits.
pub fn truncate_to_i64(v: u128) -> (r: i64)
    ensures
        r == u128_as_i64(v),
{
    let low = (v % 0x1_0000_0000_0000_0000u128) as u64;
    if low < 0x8000_0000_0000_0000u64 {
        low as i64
    } else {
        let above: u64 = low - 0x8000_0000_0000_0000u64;
        (above as i64) + i64::MIN
    }
}

/// The millisecond stamp of a clock reading: the milliseconds elapsed since
/// the UNIX epoch cut to `i64` as an `as` cast cuts them, or 0 for a reading
/// before the epoch (`None`).
pub open spec fn epoch_millis_stamp(elapsed_millis: Option<u128>) -> i64 {
    match elapsed_millis {
        Some(v) => u128_as_i64(v),
        None => 0,
    }
}

/// The millisecond stamp of a clock reading given as the milliseconds elapsed
/// since the UNIX epoch, or `None` for a reading before the epoch.
pub fn millis_since_epoch(elapsed_millis: Option<u128>) -> (ms: i64)
    ensures
        ms == epoch_millis_stamp(elapsed_millis),
        elapsed_millis is None ==> ms == 0,
        elapsed_millis is Some && elapsed_millis.unwrap() < 0x8000_0000_0000_0000 ==> ms == elapsed_millis.unwrap(),
{
    match elapsed_millis {
        Some(v) => truncate_to_i64(v),
        None => 0,
    }
}

/// Milliseconds since the UNIX epoch on the system clock, or 0 when the clock
/// reads earlier than the epoch: the stamp of the clock's reading in whole
/// milliseconds.
pub fn now_millis() -> (ms: i64)
    ensures
        exists|elapsed: Option<u128>| clock_reads_elapsed_millis(elapsed) && ms == epoch_millis_stamp(elapsed),
{
    let now = system_time_now();
    let since_epoch = elapsed_since_unix_epoch(&now);
    let elapsed = match since_epoch {
        Ok(d) => Some(duration_as_millis(&d)),
        Err(_) => None,
    };
    proof {
        assert(call_ensures(system_time_now, (), now));
        assert(call_ensures(elapsed_since_unix_epoch, (&now,), since_epoch));
        assert(clock_reads_elapsed_millis(elapsed));
    }
    millis_since_epoch(elapsed)
}

/// The stamp `now_millis` returns is the clock's count of whole milliseconds
/// since the UNIX epoch, unchanged while it fits in `i64`, and 0 when the
/// clock reads earlier than the epoch.
pub proof fn lemma_now_millis_is_elapsed_millis(ms: i64)
    requires
        call_ensures(now_millis, (), ms),
    ensures
        exists|elapsed: Option<u128>| #[trigger] clock_reads_elapsed_millis(elapsed)
            && (elapsed is None ==> ms == 0)
            && (elapsed is Some && elapsed.unwrap() < 0x8000_0000_0000_0000 ==> ms == elapsed.unwrap()),
{
    let elapsed = choose|elapsed: Option<u128>| clock_reads_elapsed_millis(elapsed) && ms == epoch_millis_stamp(elapsed);
    if elapsed is Some && elapsed.unwrap() < 0x8000_0000_0000_0000 {
        let v = elapsed.unwrap();
        assert(v as int % 0x1_0000_0000_0000_0000 == v);
    }
    assert(clock_reads_elapsed_millis(elapsed));
}

/// A point in time: nanoseconds since the UNIX epoch on the system clock.
#[derive(Debug, Clone, Copy, PartialEq, Eq, Structural, Hash, PartialOrd, Ord)]
pub struct Timestamp {
    pub nanos_since_epoch: u64,
}

/// Nanoseconds in a millisecond.
pub const NANOS_PER_MILLI: u64 = 1_000_000;

impl Timestamp {
    /// Whole milliseconds from `earlier` to `self`, or 0 when `earlier` is not
    /// before `self`.
    pub open spec fn millis_since(self, earlier: Timestamp) -> nat {
        if self.nanos_since_epoch >= earlier.nanos_since_epoch {
            ((self.nanos_since_epoch - earlier.nanos_since_epoch) / 1_000_000) as nat
        } else {
            0
        }
    }

    /// Reads the system clock. A clock earlier than the epoch reads as the
    /// epoch, and one too far in the future for 64 bits of nanoseconds reads as
    /// the latest representable point.
    /// The point is the one `from_epoch_reading` gives for the clock's
    /// reading in whole nanoseconds.
    pub fn now() -> (t: Timestamp)
        ensures
            exists|elapsed: Option<u128>| clock_reads_elapsed_nanos(elapsed)
                && call_ensures(Timestamp::from_epoch_reading, (elapsed,), t),
    {
        let now = system_time_now();
        let since_epoch = elapsed_since_unix_epoch(&now);
        let elapsed = match since_epoch {
            Ok(d) => Some(duration_as_nanos(&d)),
            Err(_) => None,
        };
        proof {
            assert(call_ensures(system_time_now, (), now));
            assert(call_ensures(elapsed_since_unix_epoch, (&now,), since_epoch));
            assert(clock_reads_elapsed_nanos(elapsed));
        }
        Timestamp::from_epoch_reading(elapsed)
    }

    /// The point of a clock reading given as the nanoseconds elapsed since the
    /// UNIX epoch, or `None` for a reading before the epoch: the epoch itself
    /// for `None`, and the latest representable point past 64 bits.
    pub fn from_epoch_reading(elapsed_nanos: Option<u128>) -> (t: Timestamp)
        ensures
            t.nanos_since_epoch == match elapsed_nanos {
                Some(ns) => if ns <= u64::MAX {
                    ns as u64
                } else {
                    u64::MAX
                },
                None => 0,
            },
    {
        let nanos = match elapsed_nanos {
            Some(ns) => {
                if ns <= u64::MAX as u128 {
                    ns as u64
                } else {
                    u64::MAX
                }
            },
            None => 0,
        };
        Timestamp { nanos_since_epoch: nanos }
    }

    /// The point `nanos` nanoseconds after the epoch.
    pub fn from_nanos(nanos: u64) -> (t: Timestamp)
        ensures
            t.nanos_since_epoch == nanos,
    {
        Timestamp { nanos_since_epoch: nanos }
    }

    /// The point `millis` milliseconds after `self`.
    pub fn add_millis(&self, millis: u64) -> (t: Timestamp)
        requires
            self.nanos_since_epoch + millis * 1_000_000 <= u64::MAX,
        ensures
            t.nanos_since_epoch == self.nanos_since_epoch + millis * 1_000_000,
    {
        assert(millis * 1_000_000 <= u64::MAX) by (nonlinear_arith)
            requires
                self.nanos_since_epoch + millis * 1_000_000 <= u64::MAX,
        ;
        Timestamp { nanos_since_epoch: self.nanos_since_epoch + millis * NANOS_PER_MILLI }
    }

    /// Whole milliseconds from `earlier` to `self`, saturating at 0 when
    /// `earlier` is not before `self`.
    pub fn saturating_millis_since(&self, earlier: &Timestamp) -> (ms: u64)
        ensures
            ms == self.millis_since(*earlier),
    {
        if self.nanos_since_epoch >= earlier.nanos_since_epoch {
            (self.nanos_since_epoch - earlier.nanos_since_epoch) / NANOS_PER_MILLI
        } else {
            0
        }
    }
}

/// Measuring from a point to itself gives no time at all; a point `m`
/// milliseconds later is exactly `m` milliseconds away, and measuring back
/// from it to the earlier point gives no time.
pub proof fn lemma_millis_since_add(t: Timestamp, m: u64)
    requires
        t.nanos_since_epoch + m * 1_000_000 <= u64::MAX,
    ensures
        t.millis_since(t) == 0,
        (Timestamp { nanos_since_epoch: (t.nanos_since_epoch + m * 1_000_000) as u64 }).millis_since(t) == m,
        t.millis_since(Timestamp { nanos_since_epoch: (t.nanos_since_epoch + m * 1_000_000) as u64 }) == 0,
{
    assert((m * 1_000_000) / 1_000_000 == m) by (nonlinear_arith);
    assert(m * 1_000_000 >= 0) by (nonlinear_arith);
    if m > 0 {
        assert(m * 1_000_000 > 0) by (nonlinear_arith)
            requires
                m > 0,
        ;
    }
}

/// A point read with `Timestamp::now` is the clock's count of nanoseconds
/// since the UNIX epoch: exactly that count while it fits in 64 bits, the
/// latest representable point beyond, and the epoch itself for a clock that
/// reads earlier than the epoch.
pub proof fn lemma_now_is_elapsed_nanos(t: Timestamp)
    requires
        call_ensures(Timestamp::now, (), t),
    ensures
        exists|elapsed: Option<u128>| #[trigger] clock_reads_elapsed_nanos(elapsed)
            && (elapsed is None ==> t.nanos_since_epoch == 0)
            && (elapsed is Some && elapsed.unwrap() <= u64::MAX ==> t.nanos_since_epoch == elapsed.unwrap())
            && (elapsed is Some && elapsed.unwrap() > u64::MAX ==> t.nanos_since_epoch == u64::MAX),
{
    let elapsed = choose|elapsed: Option<u128>| clock_reads_elapsed_nanos(elapsed)
        && call_ensures(Timestamp::from_epoch_reading, (elapsed,), t);
    assert(clock_reads_elapsed_nanos(elapsed));
}

/// Two points read with `Timestamp::now` measure the time between them to
/// the whole millisecond: when the clock counted `a` and then `b >= a`
/// nanoseconds since the epoch, both within 64 bits, the later point is
/// `(b - a) / 1_000_000` milliseconds after the earlier one.
pub proof fn lemma_now_readings_measure_elapsed(first: Timestamp, second: Timestamp)
    requires
        call_ensures(Timestamp::now, (), first),
        call_ensures(Timestamp::now, (), second),
    ensures
        exists|a: Option<u128>, b: Option<u128>|
            #![trigger clock_reads_elapsed_nanos(a), clock_reads_elapsed_nanos(b)]
            clock_reads_elapsed_nanos(a) && clock_reads_elapsed_nanos(b)
            && (a is Some && b is Some && a.unwrap() <= b.unwrap() && b.unwrap() <= u64::MAX
                ==> second.millis_since(first) == (b.unwrap() - a.unwrap()) / 1_000_000),
{
    let a = choose|elapsed: Option<u128>| clock_reads_elapsed_nanos(elapsed)
        && call_ensures(Timestamp::from_epoch_reading, (elapsed,), first);
    let b = choose|elapsed: Option<u128>| clock_reads_elapsed_nanos(elapsed)
        && call_ensures(Timestamp::from_epoch_reading, (elapsed,), second);
    assert(clock_reads_elapsed_nanos(a) && clock_reads_elapsed_nanos(b));
}

} // verus!
