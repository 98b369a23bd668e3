use vstd::prelude::*;

verus! {

use crate::broadcaster::config::UdpConfig;
use crate::digits::{
    B_COMMA, B_UPPER_F, B_UPPER_G, B_UPPER_M, B_UPPER_P, B_UPPER_S, B_UPPER_X, lemma_pow10_small,
    push_trimmed, spec_trimmed,
};
use crate::system::simconnect_objects::GpsData;

/// UDP broadcast encoder: the target port and netmask, as configured.
#[derive(Debug, Clone)]
pub struct Udp {
    pub port: u16,
    pub netmask: String,
}

/// The ASCII line of one simple-broadcast datagram:
/// `XGPSMSFS,<lon>,<lat>,<alt>,<trueTrack>,<groundSpeed>`, each value in
/// shortest decimal form, the track corrected by magnetic variation.
pub open spec fn spec_udp_payload(d: GpsData) -> Seq<u8> {
    seq![
        B_UPPER_X,
        B_UPPER_G,
        B_UPPER_P,
        B_UPPER_S,
        B_UPPER_M,
        B_UPPER_S,
        B_UPPER_F,
        B_UPPER_S,
        B_COMMA,
    ] + spec_trimmed(d.lon as int, 10) + seq![B_COMMA] + spec_trimmed(d.lat as int, 10) + seq![
        B_COMMA,
    ] + spec_trimmed(d.alt as int, 4) + seq![B_COMMA] + spec_trimmed(d.spec_true_track(), 4) + seq![
        B_COMMA,
    ] + spec_trimmed(d.gps_ground_speed as int, 4)
}

impl Udp {
    /// An encoder for the configured target.
    pub fn new(config: UdpConfig) -> (u: Udp)
        ensures
            u.port == config.port,
            u.netmask@ == config.netmask@,
    {
        Udp { port: config.port, netmask: config.netmask }
    }

    /// The local port the socket binds: by convention one below the
    /// broadcast port.
    pub fn local_port(&self) -> (p: u16)
        requires
            self.port >= 1,
        ensures
            p == self.port - 1,
    {
        self.port - 1
    }

    /// Encode one reading into the datagram payload.
    pub fn payload(&self, data: &GpsData) -> (r: Vec<u8>)
        requires
            data.wf(),
        ensures
            r@ == spec_udp_payload(*data),
    {
        proof {
            lemma_pow10_small();
        }
        let mut v: Vec<u8> = Vec::new();
        v.push(B_UPPER_X);
        v.push(B_UPPER_G);
        v.push(B_UPPER_P);
        v.push(B_UPPER_S);
        v.push(B_UPPER_M);
        v.push(B_UPPER_S);
        v.push(B_UPPER_F);
        v.push(B_UPPER_S);
        v.push(B_COMMA);
        assert(v@ =~= seq![
            B_UPPER_X,
            B_UPPER_G,
            B_UPPER_P,
            B_UPPER_S,
            B_UPPER_M,
            B_UPPER_S,
            B_UPPER_F,
            B_UPPER_S,
            B_COMMA,
        ]);
        push_trimmed(&mut v, data.lon, 10_000_000_000, 10);
        let ghost p1 = v@;
        v.push(B_COMMA);
        assert(v@ =~= p1 + seq![B_COMMA]);
        push_trimmed(&mut v, data.lat, 10_000_000_000, 10);
        let ghost p2 = v@;
        v.push(B_COMMA);
        assert(v@ =~= p2 + seq![B_COMMA]);
        push_trimmed(&mut v, data.alt, 10_000, 4);
        let ghost p3 = v@;
        v.push(B_COMMA);
        assert(v@ =~= p3 + seq![B_COMMA]);
        let track = data.gps_ground_magnetic_track - data.gps_magnetic_variation;
        push_trimmed(&mut v, track, 10_000, 4);
        let ghost p4 = v@;
        v.push(B_COMMA);
        assert(v@ =~= p4 + seq![B_COMMA]);
        push_trimmed(&mut v, data.gps_ground_speed, 10_000, 4);
        assert(v@ == spec_udp_payload(*data));
        v
    }
}

} // verus!
