use vstd::prelude::*;

verus! {

/// Which transport the broadcaster drives, with its settings.
#[derive(Debug, Clone)]
pub enum BroadcasterConfig {
    Udp(UdpConfig),
    Com(ComConfig),
}

/// Settings of the UDP broadcast transport.
#[derive(Debug, Clone)]
pub struct UdpConfig {
    pub port: u16,
    pub netmask: String,
}

/// Settings of the serial (COM) transport.
#[derive(Debug, Clone)]
pub struct ComConfig {
    pub port: String,
    pub baud_rate: u32,
}

} // verus!
