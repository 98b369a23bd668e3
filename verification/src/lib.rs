//! Bridges a live vehicle-telemetry feed to position-broadcast consumers.
//!
//! The crate holds the verified core of the bridge: the coordinator state
//! machine that owns the pipeline lifecycle, the telemetry-source dispatch
//! and dedup policy, the ground-state tracker, and the byte-exact encoders
//! for the two broadcast wire protocols.  Transports, the driver session
//! and the remote-call front end live outside and hand plain values in.

pub mod broadcaster;
pub mod clock;
pub mod cmd;
pub mod digits;
pub mod system;
