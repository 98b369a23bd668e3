use vstd::prelude::*;

verus! {

use crate::broadcaster::com::{
    Com, ComFrame, spec_gga, spec_gsa, spec_rmc, spec_should_send_mid_gsa,
};
use crate::broadcaster::config::BroadcasterConfig;
use crate::broadcaster::udp::{Udp, spec_udp_payload};
use crate::system::messages::{RequestContext, SimConnectDataMessage};
use crate::system::simconnect_objects::GpsData;

/// The encoder a broadcaster drives, picked once from its configuration.
#[derive(Debug)]
pub enum Broadcaster {
    Udp(Udp),
    Com(Com),
}

/// What one forwarded reading turns into on the wire: a UDP datagram with
/// its target, or the serial lines of one frame.
#[derive(Debug)]
pub enum BroadcastOutput {
    Udp { payload: Vec<u8>, port: u16, netmask: String },
    Com(ComFrame),
}

/// Turns forwarded telemetry snapshots into wire bytes for the configured
/// transport.  The runtime opens the socket or the serial device and writes
/// what `handle` returns.
#[derive(Debug)]
pub struct BroadcasterActor {
    pub context: RequestContext,
    pub config: BroadcasterConfig,
    pub broadcaster: Option<Broadcaster>,
}

impl BroadcasterActor {
    /// A broadcaster that has not picked its encoder yet.
    pub fn new(context: RequestContext, config: BroadcasterConfig) -> (a: BroadcasterActor)
        ensures
            a.context == context,
            a.config == config,
            a.broadcaster is None,
    {
        BroadcasterActor { context, config, broadcaster: None }
    }

    /// Pick the encoder that the configuration names.
    pub fn started(&mut self)
        ensures
            final (self).context == old(self).context,
            final (self).config == old(self).config,
            match old(self).config {
                BroadcasterConfig::Udp(c) => final (self).broadcaster == Option::Some(
                    Broadcaster::Udp(Udp { port: c.port, netmask: c.netmask }),
                ),
                BroadcasterConfig::Com(c) => final (self).broadcaster == Option::Some(
                    Broadcaster::Com(Com { last_mid_gsa: Option::None }),
                ),
            },
    {
        let encoder = match &self.config {
            BroadcasterConfig::Udp(c) => Broadcaster::Udp(
                Udp { port: c.port, netmask: c.netmask.clone() },
            ),
            BroadcasterConfig::Com(_) => Broadcaster::Com(Com::new()),
        };
        self.broadcaster = Some(encoder);
    }

    /// Encode one forwarded reading for the configured transport.  Without
    /// an encoder (start not yet done, or failed) nothing is produced.
    pub fn handle(&mut self, message: SimConnectDataMessage<GpsData>) -> (out: Option<
        BroadcastOutput,
    >)
        requires
            message.data.wf(),
        ensures
            final (self).context == old(self).context,
            final (self).config == old(self).config,
            old(self).broadcaster is None ==> final (self).broadcaster == old(self).broadcaster
                && out is None,
            match old(self).broadcaster {
                Option::Some(Broadcaster::Udp(u)) => {
                    &&& final (self).broadcaster == old(self).broadcaster
                    &&& match out {
                        Option::Some(BroadcastOutput::Udp { payload, port, netmask }) => {
                            &&& payload@ == spec_udp_payload(message.data)
                            &&& port == u.port
                            &&& netmask == u.netmask
                        },
                        _ => false,
                    }
                },
                Option::Some(Broadcaster::Com(c)) => {
                    match out {
                        Option::Some(BroadcastOutput::Com(f)) => {
                            &&& f.stamp.wf()
                            &&& f.gga@ == spec_gga(f.stamp, message.data)
                            &&& f.rmc@ == spec_rmc(f.stamp, message.data)
                            &&& (f.gsa is Some <==> spec_should_send_mid_gsa(
                                c.last_mid_gsa,
                                f.now_ms,
                            ))
                            &&& match f.gsa {
                                Option::Some(g) => g@ == spec_gsa(),
                                Option::None => true,
                            }
                            &&& final (self).broadcaster == Option::Some(
                                Broadcaster::Com(
                                    Com {
                                        last_mid_gsa: if spec_should_send_mid_gsa(
                                            c.last_mid_gsa,
                                            f.now_ms,
                                        ) {
                                            Option::Some(f.now_ms)
                                        } else {
                                            c.last_mid_gsa
                                        },
                                    },
                                ),
                            )
                        },
                        _ => false,
                    }
                },
                Option::None => true,
            },
    {
        match &self.broadcaster {
            None => None,
            Some(Broadcaster::Udp(u)) => {
                let payload = u.payload(&message.data);
                let port = u.port;
                let netmask = u.netmask.clone();
                Some(BroadcastOutput::Udp { payload, port, netmask })
            },
            Some(Broadcaster::Com(c0)) => {
                let mut c = *c0;
                let f = c.send(&message.data);
                self.broadcaster = Some(Broadcaster::Com(c));
                Some(BroadcastOutput::Com(f))
            },
        }
    }
}

} // verus!
