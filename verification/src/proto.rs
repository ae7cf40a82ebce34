//! The telemetry wire types: three enumerations carried on the wire as `i32`
//! codes, and the plain messages exchanged between the node and its clients.

use vstd::prelude::*;
use vstd::std_specs::convert::{FromSpecImpl, TryFromSpecImpl};

verus! {

/// A wire code that names no variant of the enumeration it was decoded for.
#[derive(Debug, Clone, Copy, PartialEq, Eq)]
pub struct UnknownEnumValue(pub i32);

/// Logical state of a push switch.
#[derive(Debug, Clone, Copy, PartialEq, Eq, Structural, Hash, PartialOrd, Ord)]
pub enum SwitchState {
    Unspecified,
    Released,
    Pressed,
}

/// Which of the node's two switches an event concerns.
#[derive(Debug, Clone, Copy, PartialEq, Eq, Structural, Hash, PartialOrd, Ord)]
pub enum SwitchId {
    Unspecified,
    Switch1,
    Switch2,
}

/// Severity of a log entry, from least to most severe.
#[derive(Debug, Clone, Copy, PartialEq, Eq, Structural, Hash, PartialOrd, Ord)]
pub enum LogLevel {
    Debug,
    Info,
    Warn,
    Error,
}

impl SwitchState {
    /// The wire code of a switch state.
    pub open spec fn code(self) -> i32 {
        match self {
            SwitchState::Unspecified => 0,
            SwitchState::Released => 1,
            SwitchState::Pressed => 2,
        }
    }

    /// The switch state that a wire code names, if any.
    pub open spec fn decode(value: i32) -> Result<SwitchState, UnknownEnumValue> {
        if value == 0 {
            Ok(SwitchState::Unspecified)
        } else if value == 1 {
            Ok(SwitchState::Released)
        } else if value == 2 {
            Ok(SwitchState::Pressed)
        } else {
            Err(UnknownEnumValue(value))
        }
    }

    /// Returns the wire code of this state.
    pub fn to_i32(&self) -> (code: i32)
        ensures
            code == self.code(),
    {
        match self {
            SwitchState::Unspecified => 0,
            SwitchState::Released => 1,
            SwitchState::Pressed => 2,
        }
    }
}

impl SwitchId {
    /// The wire code of a switch identifier.
    pub open spec fn code(self) -> i32 {
        match self {
            SwitchId::Unspecified => 0,
            SwitchId::Switch1 => 1,
            SwitchId::Switch2 => 2,
        }
    }

    /// The switch identifier that a wire code names, if any.
    pub open spec fn decode(value: i32) -> Result<SwitchId, UnknownEnumValue> {
        if value == 0 {
            Ok(SwitchId::Unspecified)
        } else if value == 1 {
            Ok(SwitchId::Switch1)
        } else if value == 2 {
            Ok(SwitchId::Switch2)
        } else {
            Err(UnknownEnumValue(value))
        }
    }

    /// Returns the wire code of this identifier.
    pub fn to_i32(&self) -> (code: i32)
        ensures
            code == self.code(),
    {
        match self {
            SwitchId::Unspecified => 0,
            SwitchId::Switch1 => 1,
            SwitchId::Switch2 => 2,
        }
    }
}

impl LogLevel {
    /// The wire code of a log level; higher codes are more severe.
    pub open spec fn code(self) -> i32 {
        match self {
            LogLevel::Debug => 0,
            LogLevel::Info => 1,
            LogLevel::Warn => 2,
            LogLevel::Error => 3,
        }
    }

    /// The log level that a wire code names, if any.
    pub open spec fn decode(value: i32) -> Result<LogLevel, UnknownEnumValue> {
        if value == 0 {
            Ok(LogLevel::Debug)
        } else if value == 1 {
            Ok(LogLevel::Info)
        } else if value == 2 {
            Ok(LogLevel::Warn)
        } else if value == 3 {
            Ok(LogLevel::Error)
        } else {
            Err(UnknownEnumValue(value))
        }
    }

    /// Returns the wire code of this level.
    pub fn to_i32(&self) -> (code: i32)
        ensures
            code == self.code(),
    {
        match self {
            LogLevel::Debug => 0,
            LogLevel::Info => 1,
            LogLevel::Warn => 2,
            LogLevel::Error => 3,
        }
    }
}

impl TryFrom<i32> for SwitchState {
    type Error = UnknownEnumValue;

    fn try_from(value: i32) -> (res: Result<SwitchState, UnknownEnumValue>) {
        if value == 0 {
            Ok(SwitchState::Unspecified)
        } else if value == 1 {
            Ok(SwitchState::Released)
        } else if value == 2 {
            Ok(SwitchState::Pressed)
        } else {
            Err(UnknownEnumValue(value))
        }
    }
}

impl TryFromSpecImpl<i32> for SwitchState {
    open spec fn obeys_try_from_spec() -> bool {
        true
    }

    open spec fn try_from_spec(value: i32) -> Result<SwitchState, UnknownEnumValue> {
        SwitchState::decode(value)
    }
}

impl TryFrom<i32> for SwitchId {
    type Error = UnknownEnumValue;

    fn try_from(value: i32) -> (res: Result<SwitchId, UnknownEnumValue>) {
        if value == 0 {
            Ok(SwitchId::Unspecified)
        } else if value == 1 {
            Ok(SwitchId::Switch1)
        } else if value == 2 {
            Ok(SwitchId::Switch2)
        } else {
            Err(UnknownEnumValue(value))
        }
    }
}

impl TryFromSpecImpl<i32> for SwitchId {
    open spec fn obeys_try_from_spec() -> bool {
        true
    }

    open spec fn try_from_spec(value: i32) -> Result<SwitchId, UnknownEnumValue> {
        SwitchId::decode(value)
    }
}

impl TryFrom<i32> for LogLevel {
    type Error = UnknownEnumValue;

    fn try_from(value: i32) -> (res: Result<LogLevel, UnknownEnumValue>) {
        if value == 0 {
            Ok(LogLevel::Debug)
        } else if value == 1 {
            Ok(LogLevel::Info)
        } else if value == 2 {
            Ok(LogLevel::Warn)
        } else if value == 3 {
            Ok(LogLevel::Error)
        } else {
            Err(UnknownEnumValue(value))
        }
    }
}

impl TryFromSpecImpl<i32> for LogLevel {
    open spec fn obeys_try_from_spec() -> bool {
        true
    }

    open spec fn try_from_spec(value: i32) -> Result<LogLevel, UnknownEnumValue> {
        LogLevel::decode(value)
    }
}

impl From<SwitchState> for i32 {
    fn from(state: SwitchState) -> (code: i32) {
        state.to_i32()
    }
}

impl FromSpecImpl<SwitchState> for i32 {
    open spec fn obeys_from_spec() -> bool {
        true
    }

    open spec fn from_spec(state: SwitchState) -> i32 {
        state.code()
    }
}

impl From<SwitchId> for i32 {
    fn from(id: SwitchId) -> (code: i32) {
        id.to_i32()
    }
}

impl FromSpecImpl<SwitchId> for i32 {
    open spec fn obeys_from_spec() -> bool {
        true
    }

    open spec fn from_spec(id: SwitchId) -> i32 {
        id.code()
    }
}

impl From<LogLevel> for i32 {
    fn from(level: LogLevel) -> (code: i32) {
        level.to_i32()
    }
}

impl FromSpecImpl<LogLevel> for i32 {
    open spec fn obeys_from_spec() -> bool {
        true
    }

    open spec fn from_spec(level: LogLevel) -> i32 {
        level.code()
    }
}

/// Every switch state survives a round trip through its wire code.
pub proof fn lemma_switch_state_code_round_trip(state: SwitchState)
    ensures
        SwitchState::decode(state.code()) == Ok::<SwitchState, UnknownEnumValue>(state),
{
}

/// Every switch identifier survives a round trip through its wire code.
pub proof fn lemma_switch_id_code_round_trip(id: SwitchId)
    ensures
        SwitchId::decode(id.code()) == Ok::<SwitchId, UnknownEnumValue>(id),
{
}

/// Every log level survives a round trip through its wire code.
pub proof fn lemma_log_level_code_round_trip(level: LogLevel)
    ensures
        LogLevel::decode(level.code()) == Ok::<LogLevel, UnknownEnumValue>(level),
{
}

/// A wire code decodes to a value exactly when it is the code of that value.
pub proof fn lemma_decode_inverts_code(value: i32)
    ensures
        SwitchState::decode(value) matches Ok(s) ==> s.code() == value,
        SwitchId::decode(value) matches Ok(i) ==> i.code() == value,
        LogLevel::decode(value) matches Ok(l) ==> l.code() == value,
        SwitchState::decode(value) is Err <==> !(0 <= value <= 2),
        SwitchId::decode(value) is Err <==> !(0 <= value <= 2),
        LogLevel::decode(value) is Err <==> !(0 <= value <= 3),
{
}

/// One switch transition, as carried on the event stream.
#[derive(Debug, Clone, PartialEq, Eq, Default)]
pub struct SwitchEvent {
    pub sequence_number: i64,
    pub timestamp_unix_millis: i64,
    pub switch_id: i32,
    pub state: i32,
    pub raw_gpio_pin: u32,
    pub duration_pressed_millis: u32,
}

/// One log line, as carried on the log stream.
#[derive(Debug, Clone, PartialEq, Eq, Default)]
pub struct LogEntry {
    pub timestamp_unix_millis: i64,
    pub level: i32,
    pub component: String,
    pub message: String,
}

/// A snapshot of the node's switches.
#[derive(Debug, Clone, PartialEq, Eq, Default)]
pub struct StatusResponse {
    pub timestamp_unix_millis: i64,
    pub switch_1_state: i32,
    pub switch_2_state: i32,
    pub total_switch_1_presses: u64,
    pub total_switch_2_presses: u64,
    pub uptime_seconds: u64,
}

/// Subscription to the switch event stream.
#[derive(Debug, Clone, PartialEq, Eq, Default)]
pub struct StreamEventsRequest {
    pub client_id: String,
}

/// Subscription to the log stream, keeping entries at `min_level` or above.
#[derive(Debug, Clone, PartialEq, Eq, Default)]
pub struct StreamLogsRequest {
    pub client_id: String,
    pub min_level: i32,
}

/// Request for a status snapshot.
#[derive(Debug, Clone, PartialEq, Eq, Default)]
pub struct GetStatusRequest {}

} // verus!
