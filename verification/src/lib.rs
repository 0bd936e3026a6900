//! Buffer-recycling transport and adaptive telemetry broadcasting.
//!
//! The crate moves high-rate payloads from a producing thread to a
//! consuming broadcaster thread through a fixed pool of recycled buffers,
//! decides stochastically which items a rate-limited stream forwards, and
//! drives a single-client broadcast loop as an explicit state machine.

pub mod camera;
pub mod channels;
pub mod config;
pub mod lifecycle;
pub mod protocol;
pub mod rate;
pub mod sender;
pub mod server;
pub mod tube;
pub mod wire;
