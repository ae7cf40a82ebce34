//! Text the node and its clients produce and read: decimal numbers, switch
//! labels, log-level keywords, and local-time renderings of timestamps.

use chrono::Local;
use vstd::prelude::*;

use crate::proto::{LogLevel, SwitchId, SwitchState};

verus! {

/// The character of a decimal digit.
pub open spec fn digit_char(d: int) -> char {
    (d + 48) as char
}

/// The decimal digits of a natural number, most significant first, without
/// leading zeros (0 is the single digit `0`).
pub open spec fn decimal_digits(n: nat) -> Seq<char>
    decreases n,
{
    if n < 10 {
        seq![digit_char(n as int)]
    } else {
        decimal_digits(n / 10).push(digit_char((n % 10) as int))
    }
}

/// The decimal rendering of an integer, with a leading `-` when negative.
pub open spec fn decimal_text(v: int) -> Seq<char> {
    if v < 0 {
        seq!['-'] + decimal_digits((-v) as nat)
    } else {
        decimal_digits(v as nat)
    }
}

/// Renders an integer with `ToString`, which for integers writes the decimal
/// digits with a leading `-` when negative, as std documents for `Display`.
#[verifier::external_body]
fn decimal_string(v: i64) -> (s: String)
    ensures
        s@ == decimal_text(v as int),
{
    v.to_string()
}

/// What `str::to_lowercase` makes of a string (Unicode lowercase mapping).
pub uninterp spec fn lowercase_of(s: Seq<char>) -> Seq<char>;

/// Calls `str::to_lowercase`. Its result is a function of the text alone;
/// the Unicode mapping itself is not spelled out here.
#[verifier::external_body]
fn to_lowercase(s: &str) -> (lower: String)
    ensures
        lower@ == lowercase_of(s@),
{
    s.to_lowercase()
}

/// Whether position `i` of a rendered timestamp holds a digit (all but the
/// separators of `YYYY-MM-DD HH:MM:SS.mmm`).
pub open spec fn is_digit_position(i: int) -> bool {
    0 <= i < 23 && i != 4 && i != 7 && i != 10 && i != 13 && i != 16 && i != 19
}

/// Whether a character is a decimal digit.
pub open spec fn is_digit(c: char) -> bool {
    '0' <= c && c <= '9'
}

/// The three decimal digits of a count below 1000, zero-padded.
pub open spec fn three_digits(n: int) -> Seq<char> {
    seq![digit_char(n / 100), digit_char((n / 10) % 10), digit_char(n % 10)]
}

/// The shape of a timestamp rendered with `TIMESTAMP_PATTERN` for a year of
/// four digits: `YYYY-MM-DD HH:MM:SS.mmm`, ending with the given milliseconds.
pub open spec fn rendered_shape(text: Seq<char>, millis_of_second: int) -> bool {
    &&& text.len() == 23
    &&& text[4] == '-' && text[7] == '-' && text[10] == ' '
    &&& text[13] == ':' && text[16] == ':' && text[19] == '.'
    &&& forall|i: int| is_digit_position(i) ==> is_digit(#[trigger] text[i])
    &&& text.subrange(20, 23) == three_digits(millis_of_second)
}

/// Two decimal digits of a count below 100, zero-padded.
pub open spec fn two_digits(n: int) -> Seq<char> {
    seq![digit_char(n / 10), digit_char(n % 10)]
}

/// Four decimal digits of a count below 10000, zero-padded.
pub open spec fn four_digits(n: int) -> Seq<char> {
    seq![digit_char(n / 1000), digit_char((n / 100) % 10), digit_char((n / 10) % 10), digit_char(n % 10)]
}

/// The proleptic Gregorian date `(year, month, day)` of a count of days from
/// 1970-01-01 (negative before it).
pub open spec fn civil_date(days: int) -> (int, int, int) {
    let z = days + 719_468;
    let era = z / 146_097;
    let doe = z - era * 146_097;
    let yoe = (doe - doe / 1460 + doe / 36_524 - doe / 146_096) / 365;
    let doy = doe - (365 * yoe + yoe / 4 - yoe / 100);
    let mp = (5 * doy + 2) / 153;
    let day = doy - (153 * mp + 2) / 5 + 1;
    let month = if mp < 10 { mp + 3 } else { mp - 9 };
    let year = yoe + era * 400 + if month <= 2 { 1int } else { 0int };
    (year, month, day)
}

/// `YYYY-MM-DD HH:MM:SS.mmm` for the moment `secs` seconds after
/// 1970-01-01 00:00:00 on a clock, with the given milliseconds.
pub open spec fn moment_text(secs: int, millis_of_second: int) -> Seq<char> {
    let (year, month, day) = civil_date(secs / 86_400);
    let second_of_day = secs % 86_400;
    four_digits(year) + seq!['-'] + two_digits(month) + seq!['-'] + two_digits(day) + seq![' ']
        + two_digits(second_of_day / 3600) + seq![':'] + two_digits((second_of_day / 60) % 60)
        + seq![':'] + two_digits(second_of_day % 60) + seq!['.'] + three_digits(millis_of_second)
}

/// `moment_text` of the moment `secs` shifted by `offset` seconds.
pub open spec fn shifted_moment_text(secs: int, offset: int, millis_of_second: int) -> Seq<char> {
    moment_text(secs + offset, millis_of_second)
}

/// Whether `text` renders the UTC moment `secs` (with the given milliseconds)
/// as a local clock shows it: shifted by some whole-second zone offset of less
/// than a day.
pub open spec fn renders_local_moment(text: Seq<char>, secs: int, millis_of_second: int) -> bool {
    exists|offset: int| -86_400 < offset < 86_400 && text == #[trigger] shifted_moment_text(secs, offset, millis_of_second)
}

/// Renders `secs` and `nsecs` since the UNIX epoch as a date and time in the
/// machine's time zone: `TimeZone::timestamp_opt` on `Local`, its single
/// result (`single`), then `DateTime::format` with `pattern` and `to_string`.
/// chrono's `DateTime` cannot be declared here (its parameter is bound by an
/// outside trait), so the date stays inside this item. chrono documents no
/// date exactly for seconds out of its range (years -262144 to 262143) or an
/// invalid nanosecond count (at least 2e9, or at least 1e9 outside a leap
/// second); the contract states bounds well inside and well outside that
/// range. For instants from 0001-01-02 to 9999-12-29 UTC the local year has
/// four digits whatever the zone (offsets stay under a day), and chrono's
/// formatting writes each field zero-padded to its width and the fraction as
/// three digits of the millisecond (`%.3f`): that shape is stated. The local
/// time is the UTC moment shifted by the zone's offset, a whole number of
/// seconds of less than a day (`FixedOffset`), and the fields are those of the
/// proleptic Gregorian calendar: that is stated too. Which offset applies
/// depends on the machine's time zone and is not stated. Only this library's pattern is admitted, since rendering panics on
/// an invalid one; chrono also panics if the zone data yields no offset.
#[verifier::external_body]
fn local_time_text(secs: i64, nsecs: u32, pattern: &str) -> (text: Option<String>)
    requires
        pattern@ == TIMESTAMP_PATTERN@,
    ensures
        nsecs >= 2_000_000_000 ==> text is None,
        secs > 8_300_000_000_000 || secs < -8_400_000_000_000 ==> text is None,
        nsecs < 1_000_000_000 && -8_000_000_000_000 <= secs <= 8_000_000_000_000 ==> text is Some,
        nsecs < 1_000_000_000 && -62_135_510_400 <= secs <= 253_402_128_000 ==> text is Some && rendered_shape(text.unwrap()@, (nsecs / 1_000_000) as int),
        nsecs < 1_000_000_000 && -62_135_510_400 <= secs <= 253_402_128_000 ==> text is Some && renders_local_moment(text.unwrap()@, secs as int, (nsecs / 1_000_000) as int),
{
    match chrono::TimeZone::timestamp_opt(&Local, secs, nsecs).single() {
        Some(dt) => Some(dt.format(pattern).to_string()),
        None => None,
    }
}

/// The pattern of a rendered timestamp: date, time and milliseconds.
pub const TIMESTAMP_PATTERN: &'static str = "%Y-%m-%d %H:%M:%S%.3f";

/// The whole seconds of a timestamp in milliseconds, rounded down (so the
/// milliseconds within the second are never negative).
pub open spec fn whole_seconds(millis: int) -> int {
    millis / 1000
}

/// The nanoseconds within the second of a timestamp in milliseconds.
pub open spec fn sub_second_nanos(millis: int) -> int {
    (millis % 1000) * 1_000_000
}

/// The text shown for a timestamp that has no local date: the milliseconds
/// followed by `ms`.
pub open spec fn fallback_timestamp_text(millis: int) -> Seq<char> {
    decimal_text(millis) + "ms"@
}

/// Whether chrono is documented to refuse the seconds of a timestamp in
/// milliseconds (its nanoseconds are always valid).
pub open spec fn timestamp_refused(millis: int) -> bool {
    ||| whole_seconds(millis) > 8_300_000_000_000
    ||| whole_seconds(millis) < -8_400_000_000_000
}

/// Whether a timestamp in milliseconds falls from 0001-01-02 to 9999-12-29
/// UTC, where its local rendering has a four-digit year in every zone.
pub open spec fn timestamp_rendered(millis: int) -> bool {
    -62_135_510_400 <= whole_seconds(millis) <= 253_402_128_000
}

/// Splits a timestamp in milliseconds into the whole seconds, rounded down,
/// and the nanoseconds within that second.
pub fn timestamp_parts(millis: i64) -> (parts: (i64, u32))
    ensures
        parts.0 == whole_seconds(millis as int),
        parts.1 == sub_second_nanos(millis as int),
{
    let secs: i64 = if millis >= 0 {
        millis / 1000
    } else {
        let below: i128 = -(millis as i128);
        let up: i128 = (below + 999) / 1000;
        assert(up * 1000 >= below && up * 1000 < below + 1000) by (nonlinear_arith)
            requires
                up == (below + 999) / 1000,
                below > 0,
        ;
        (-up) as i64
    };
    assert(secs == millis / 1000) by (nonlinear_arith)
        requires
            secs * 1000 <= millis < secs * 1000 + 1000,
    ;
    let rem: i128 = (millis as i128) - (secs as i128) * 1000;
    assert(rem == millis % 1000);
    (secs, (rem * 1_000_000) as u32)
}

/// Helper to convert unix timestamp in millis to formatted local string.
/// A timestamp from 0001-01-02 to 9999-12-29 UTC renders as
/// `YYYY-MM-DD HH:MM:SS.mmm`: the date and time of that moment on the
/// machine's local clock (shifted from UTC by less than a day), ending with its
/// own milliseconds; one that chrono cannot place renders as its milliseconds
/// followed by `ms`.
pub fn format_timestamp(millis: i64) -> (text: String)
    ensures
        timestamp_refused(millis as int) ==> text@ == fallback_timestamp_text(millis as int),
        timestamp_rendered(millis as int) ==> renders_local_moment(text@, whole_seconds(millis as int), millis as int % 1000),
        timestamp_rendered(millis as int) ==> rendered_shape(text@, millis as int % 1000),
        timestamp_rendered(millis as int) ==> text@ != fallback_timestamp_text(millis as int),
{
    let (secs, nsecs) = timestamp_parts(millis);
    match local_time_text(secs, nsecs, TIMESTAMP_PATTERN) {
        Some(text) => {
            proof {
                if timestamp_rendered(millis as int) {
                    assert(nsecs / 1_000_000 == millis % 1000);
                    reveal_strlit("ms");
                    let fb = fallback_timestamp_text(millis as int);
                    assert(fb[fb.len() - 1] == 's');
                    assert(text@[22] == text@.subrange(20, 23)[2]);
                }
            }
            text
        },
        None => {
            let mut text = decimal_string(millis);
            text.append("ms");
            text
        },
    }
}

/// The plain label of a switch: `SW<id> (GPIO <pin>)`.
pub open spec fn switch_label_text(sw_id: u8, pin: u8) -> Seq<char> {
    "SW"@ + decimal_text(sw_id as int) + " (GPIO "@ + decimal_text(pin as int) + ")"@
}

/// The label of a switch and the GPIO line it is wired to, as the button
/// checker prints it.
pub fn switch_label(sw_id: u8, pin: u8) -> (label: String)
    ensures
        label@ == switch_label_text(sw_id, pin),
{
    let mut label = String::from_str("SW");
    let id_text = decimal_string(sw_id as i64);
    label.append(id_text.as_str());
    label.append(" (GPIO ");
    let pin_text = decimal_string(pin as i64);
    label.append(pin_text.as_str());
    label.append(")");
    label
}

/// The log level that a lowercase keyword names; anything unrecognised means
/// `Debug`.
pub open spec fn log_level_for_keyword(keyword: Seq<char>) -> LogLevel {
    if keyword == "debug"@ {
        LogLevel::Debug
    } else if keyword == "info"@ {
        LogLevel::Info
    } else if keyword == "warn"@ || keyword == "warning"@ {
        LogLevel::Warn
    } else if keyword == "error"@ {
        LogLevel::Error
    } else {
        LogLevel::Debug
    }
}

/// The log level that an already lowercase keyword names: `debug`, `info`,
/// `warn` or `warning`, `error`; anything else means `Debug`.
pub fn log_level_from_keyword(keyword: &str) -> (level: LogLevel)
    ensures
        level == log_level_for_keyword(keyword@),
{
    let k = keyword.to_owned();
    if k == String::from_str("debug") {
        LogLevel::Debug
    } else if k == String::from_str("info") {
        LogLevel::Info
    } else if k == String::from_str("warn") || k == String::from_str("warning") {
        LogLevel::Warn
    } else if k == String::from_str("error") {
        LogLevel::Error
    } else {
        LogLevel::Debug
    }
}

/// The minimum log level named on the command line, in any letter case;
/// anything unrecognised means `Debug`.
pub fn parse_log_level(level_str: &str) -> (level: LogLevel)
    ensures
        level == log_level_for_keyword(lowercase_of(level_str@)),
{
    let lower = to_lowercase(level_str);
    log_level_from_keyword(lower.as_str())
}

/// The tag a log line starts with, padded to one width.
pub open spec fn level_tag_text(level: LogLevel) -> Seq<char> {
    match level {
        LogLevel::Debug => "[DEBUG]"@,
        LogLevel::Info => "[INFO ]"@,
        LogLevel::Warn => "[WARN ]"@,
        LogLevel::Error => "[ERROR]"@,
    }
}

/// The tag a log line of `level` starts with.
pub fn level_tag(level: LogLevel) -> (tag: &'static str)
    ensures
        tag@ == level_tag_text(level),
{
    match level {
        LogLevel::Debug => "[DEBUG]",
        LogLevel::Info => "[INFO ]",
        LogLevel::Warn => "[WARN ]",
        LogLevel::Error => "[ERROR]",
    }
}

/// The name of a switch state in the node's event lines.
pub open spec fn state_name_text(state: SwitchState) -> Seq<char> {
    match state {
        SwitchState::Pressed => "PRESSED"@,
        SwitchState::Released => "RELEASED"@,
        SwitchState::Unspecified => "UNSPECIFIED"@,
    }
}

/// The name of a switch state in the node's event lines.
pub fn state_name(state: SwitchState) -> (name: &'static str)
    ensures
        name@ == state_name_text(state),
{
    match state {
        SwitchState::Pressed => "PRESSED",
        SwitchState::Released => "RELEASED",
        SwitchState::Unspecified => "UNSPECIFIED",
    }
}

/// The name the log receiver gives a switch, with the GPIO line it is wired to.
pub open spec fn switch_name_text(id: SwitchId) -> Seq<char> {
    match id {
        SwitchId::Switch1 => "SW1 (GPIO 23)"@,
        SwitchId::Switch2 => "SW2 (GPIO 24)"@,
        SwitchId::Unspecified => "UNKNOWN SW"@,
    }
}

/// The name the log receiver gives a switch.
pub fn switch_name(id: SwitchId) -> (name: &'static str)
    ensures
        name@ == switch_name_text(id),
{
    match id {
        SwitchId::Switch1 => "SW1 (GPIO 23)",
        SwitchId::Switch2 => "SW2 (GPIO 24)",
        SwitchId::Unspecified => "UNKNOWN SW",
    }
}

/// The badge the log receiver shows for a switch state.
pub open spec fn state_badge_text(state: SwitchState) -> Seq<char> {
    match state {
        SwitchState::Pressed => " \u{25bc} PRESSED "@,
        SwitchState::Released => " \u{25b2} RELEASED"@,
        SwitchState::Unspecified => " ? UNKNOWN "@,
    }
}

/// The badge the log receiver shows for a switch state.
pub fn state_badge(state: SwitchState) -> (badge: &'static str)
    ensures
        badge@ == state_badge_text(state),
{
    match state {
        SwitchState::Pressed => " \u{25bc} PRESSED ",
        SwitchState::Released => " \u{25b2} RELEASED",
        SwitchState::Unspecified => " ? UNKNOWN ",
    }
}

/// The note appended to an event line for a hold of `duration_millis`:
/// ` (held for <n><unit>)`, or nothing when no hold was measured.
pub open spec fn hold_note_text(duration_millis: u32, unit: Seq<char>) -> Seq<char> {
    if duration_millis > 0 {
        " (held for "@ + decimal_text(duration_millis as int) + unit + ")"@
    } else {
        Seq::empty()
    }
}

/// The note appended to an event line for a hold of `duration_millis`, with
/// `unit` after the number (the node writes `ms`, the receiver ` ms`).
pub fn hold_note(duration_millis: u32, unit: &str) -> (note: String)
    ensures
        note@ == hold_note_text(duration_millis, unit@),
{
    if duration_millis > 0 {
        let mut note = String::from_str(" (held for ");
        let digits = decimal_string(duration_millis as i64);
        note.append(digits.as_str());
        note.append(unit);
        note.append(")");
        note
    } else {
        String::new()
    }
}

} // verus!
