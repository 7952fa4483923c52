//! Core logic of a minimal onboard flight controller: classification of
//! incoming delay commands, the single-event scheduling state machine, and
//! the telemetry line formatting and routing rules.
//!
//! Network transport, timers and the decoding of raw floating-point values
//! live outside this library; callers hand in plain integers and strings.

pub mod command;
pub mod telemetry;
