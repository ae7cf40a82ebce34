//! Switch telemetry for a two-button Raspberry Pi node: the wire types, the
//! debouncing state machine, the switch counters behind the gRPC service,
//! and the text that the node and its log receiver print.

pub mod buttons;
pub mod clock;
pub mod debouncer;
pub mod proto;
pub mod server;
pub mod text;

pub use buttons::{ButtonStats, HoldTimer};
pub use clock::{now_millis, Timestamp};
pub use debouncer::{verify_sample_stability, DebounceConfig, DebounceFilter, DebounceOutput};
pub use proto::{
    GetStatusRequest, LogEntry, LogLevel, StatusResponse, StreamEventsRequest, StreamLogsRequest,
    SwitchEvent, SwitchId, SwitchState, UnknownEnumValue,
};
pub use server::{TelemetryCounters, PIN_SWITCH_1, PIN_SWITCH_2};
pub use text::{format_timestamp, parse_log_level, switch_label};
