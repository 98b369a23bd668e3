use vstd::prelude::*;

verus! {

use crate::broadcaster::config::BroadcasterConfig;

/// Explicit causal-correlation token attached to every message, so a trace
/// can be reconstructed across component hops.
#[derive(Debug, Clone, Copy, PartialEq, Eq, Structural)]
pub struct RequestContext {
    pub id: u64,
}

/// One decoded driver reading on its way through the pipeline.
#[derive(Debug, Clone)]
pub struct SimConnectDataMessage<T> {
    pub context: RequestContext,
    pub data: T,
}

/// A command for the coordinator, as the front end enqueues it.
#[derive(Debug)]
pub enum CoordinatorMessage {
    GetAvailableComPorts { context: RequestContext },
    Start { context: RequestContext, refresh_rate: RefreshRate, config: BroadcasterConfig },
    Stop { context: RequestContext },
    Status(GetStatusMessage),
}

/// A health query; the caller's reply channel stays with the runtime.
#[derive(Debug, Clone, Copy, PartialEq, Eq, Structural)]
pub struct GetStatusMessage {
    pub context: RequestContext,
}

/// The answer to a health query.
#[derive(Debug, Clone, Copy, PartialEq, Eq, Structural)]
pub struct GetStatusResponseMessage {
    pub context: RequestContext,
    pub status: bool,
}

/// The telemetry source's heartbeat to itself.
#[derive(Debug, Clone, Copy, PartialEq, Eq, Structural)]
pub struct SimConnectPing;

/// Cadence of the telemetry poll loop and of the driver subscription.
#[derive(Debug, Clone, Copy, PartialEq, Eq, Structural)]
pub enum RefreshRate {
    Slow,
    Fast,
}

/// An order to a component to stop, with the reason for the log.
#[derive(Debug, Clone)]
pub struct StopMessage {
    pub reason: String,
    pub context: RequestContext,
}

} // verus!
