# minimum_hw_project

Telemetry for a Raspberry Pi node with two push switches (GPIO 23 and 24,
active low with pull-ups), served over gRPC.

- `src/` is the verified library:
  - `proto`: the switch, switch-id and log-level enumerations with their wire
    codes, and the plain telemetry messages;
  - `debouncer`: the debounce filter (confirmed state, press start, hold
    durations) and the sample stability check;
  - `server`: sequence numbering, per-switch state and press counts, status
    snapshots, log entries, the subscriber log filter and the simulated
    switches used off the Raspberry Pi;
  - `buttons`: press counts and hold timing of the button checker;
  - `clock`: system clock readings and plain timestamps;
  - `text`: decimal rendering, switch labels, log-level keywords and local
    time rendering of timestamps.
- `app/` is the runtime around it: the protobuf encodings and the gRPC
  service, the shared server state with its broadcast channels, the hardware
  node, the log receiver and the button checker.
- `tests/` exercises the library.
