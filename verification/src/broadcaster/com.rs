use vstd::prelude::*;

verus! {

use crate::clock::{UtcStamp, utc_now_millis, utc_now_stamp};
use crate::digits::{
    B_COMMA, B_CR, B_DOLLAR, B_DOT, B_LF, B_ONE, B_STAR, B_THREE, B_TWO, B_UPPER_A, B_UPPER_C,
    B_UPPER_G, B_UPPER_M, B_UPPER_P, B_UPPER_R, B_UPPER_S, B_ZERO, iabs, lemma_pow10_small,
    lemma_signed_fixed_bytes, lemma_udec_pad_digits, lemma_uhex_digits, push_signed_fixed,
    push_udec_pad, push_uhex,
    round_div_u64, spec_round_div, spec_signed_fixed, spec_udec_pad, spec_uhex,
};
use crate::system::simconnect_objects::{
    DIR_EAST, DIR_NORTH, DIR_SOUTH, DIR_WEST, GpsData, spec_angle_degrees, spec_angle_minutes_e4,
    spec_knots_mag_e2,
};

/// How long at least must pass between two canned satellite-status (GSA)
/// sentences, in milliseconds.
pub const NMEA_MID_GSA_INTERVAL_MS: i64 = 1000;

/// XOR of all bytes of `s`.
pub open spec fn spec_xor_fold(s: Seq<u8>) -> u8
    decreases s.len(),
{
    if s.len() == 0 {
        0
    } else {
        spec_xor_fold(s.drop_last()) ^ s.last()
    }
}

/// A sentence body completed into a full NMEA line: the body, a `*`, the
/// XOR of all body bytes after the leading `$` in uppercase hex, and CRLF.
pub open spec fn spec_checksummed(body: Seq<u8>) -> Seq<u8> {
    body + seq![B_STAR] + spec_uhex(spec_xor_fold(body.skip(1)) as nat) + seq![B_CR, B_LF]
}

/// The `HHMMSS.mmm` UTC time field.
pub open spec fn spec_time_field(st: UtcStamp) -> Seq<u8> {
    spec_udec_pad(st.hour as nat, 2) + spec_udec_pad(st.minute as nat, 2) + spec_udec_pad(
        st.second as nat,
        2,
    ) + seq![B_DOT] + spec_udec_pad(st.millis as nat, 3)
}

/// The `DDMMYY` UTC date field.
pub open spec fn spec_date_field(st: UtcStamp) -> Seq<u8> {
    spec_udec_pad(st.day as nat, 2) + spec_udec_pad(st.month as nat, 2) + spec_udec_pad(
        (st.year % 100) as nat,
        2,
    )
}

/// A coordinate field: whole degrees zero-padded to `degw` digits, then
/// minutes as `MM.mmmm`.
pub open spec fn spec_latlon_field(angle: int, degw: nat) -> Seq<u8> {
    spec_udec_pad(spec_angle_degrees(angle) as nat, degw) + spec_udec_pad(
        (spec_angle_minutes_e4(angle) / 10_000) as nat,
        2,
    ) + seq![B_DOT] + spec_udec_pad((spec_angle_minutes_e4(angle) % 10_000) as nat, 4)
}

/// The GGA fix-sentence body, before the checksum: `$GPGGA`, time,
/// latitude, longitude, fixed quality `1`, fixed `12` satellites, fixed
/// HDOP `1.0`, pressure altitude in meters to one decimal, fixed geoid
/// separation `0.0,M`, and empty DGPS fields.
pub open spec fn spec_gga_body(st: UtcStamp, d: GpsData) -> Seq<u8> {
    seq![B_DOLLAR, B_UPPER_G, B_UPPER_P, B_UPPER_G, B_UPPER_G, B_UPPER_A, B_COMMA]
        + spec_time_field(st) + seq![B_COMMA] + spec_latlon_field(d.lat as int, 2) + seq![
        B_COMMA,
        if d.lat >= 0 {
            DIR_NORTH
        } else {
            DIR_SOUTH
        },
        B_COMMA,
    ] + spec_latlon_field(d.lon as int, 3) + seq![
        B_COMMA,
        if d.lon >= 0 {
            DIR_EAST
        } else {
            DIR_WEST
        },
        B_COMMA,
        B_ONE,
        B_COMMA,
        B_ONE,
        B_TWO,
        B_COMMA,
        B_ONE,
        B_DOT,
        B_ZERO,
        B_COMMA,
    ] + spec_signed_fixed(
        d.pressure_altitude < 0,
        spec_round_div(iabs(d.pressure_altitude as int), 1000),
        1,
    ) + seq![
        B_COMMA,
        B_UPPER_M,
        B_COMMA,
        B_ZERO,
        B_DOT,
        B_ZERO,
        B_COMMA,
        B_UPPER_M,
        B_COMMA,
        B_COMMA,
    ]
}

/// The full GGA sentence.
pub open spec fn spec_gga(st: UtcStamp, d: GpsData) -> Seq<u8> {
    spec_checksummed(spec_gga_body(st, d))
}

/// The RMC sentence body, before the checksum: `$GPRMC`, time, status `A`,
/// latitude, longitude, speed over ground in knots to two decimals, true
/// track to two decimals, date, magnetic variation magnitude to one decimal
/// with its side, and fixed mode indicator `S`.
pub open spec fn spec_rmc_body(st: UtcStamp, d: GpsData) -> Seq<u8> {
    seq![B_DOLLAR, B_UPPER_G, B_UPPER_P, B_UPPER_R, B_UPPER_M, B_UPPER_C, B_COMMA]
        + spec_time_field(st) + seq![B_COMMA, B_UPPER_A, B_COMMA] + spec_latlon_field(
        d.lat as int,
        2,
    ) + seq![
        B_COMMA,
        if d.lat >= 0 {
            DIR_NORTH
        } else {
            DIR_SOUTH
        },
        B_COMMA,
    ] + spec_latlon_field(d.lon as int, 3) + seq![
        B_COMMA,
        if d.lon >= 0 {
            DIR_EAST
        } else {
            DIR_WEST
        },
        B_COMMA,
    ] + spec_signed_fixed(
        d.gps_ground_speed < 0,
        spec_knots_mag_e2(d.gps_ground_speed as int),
        2,
    ) + seq![B_COMMA] + spec_signed_fixed(
        d.spec_true_track() < 0,
        spec_round_div(iabs(d.spec_true_track()), 100),
        2,
    ) + seq![B_COMMA] + spec_date_field(st) + seq![B_COMMA] + spec_signed_fixed(
        false,
        spec_round_div(iabs(d.gps_magnetic_variation as int), 1000),
        1,
    ) + seq![
        B_COMMA,
        if d.gps_magnetic_variation >= 0 {
            DIR_EAST
        } else {
            DIR_WEST
        },
        B_COMMA,
        B_UPPER_S,
    ]
}

/// The full RMC sentence.
pub open spec fn spec_rmc(st: UtcStamp, d: GpsData) -> Seq<u8> {
    spec_checksummed(spec_rmc_body(st, d))
}

/// The satellite-id list of the canned GSA sentence: `01,` through `k,`,
/// each id two digits with a trailing comma.
pub open spec fn spec_gsa_sats(k: nat) -> Seq<u8>
    decreases k,
{
    if k == 0 {
        Seq::empty()
    } else {
        spec_gsa_sats((k - 1) as nat) + spec_udec_pad(k, 2) + seq![B_COMMA]
    }
}

/// The canned satellite-status (GSA) sentence body: automatic 3D fix on
/// twelve fixed satellite ids with fixed dilutions of precision `1.0`.
pub open spec fn spec_gsa_body() -> Seq<u8> {
    seq![
        B_DOLLAR,
        B_UPPER_G,
        B_UPPER_P,
        B_UPPER_G,
        B_UPPER_S,
        B_UPPER_A,
        B_COMMA,
        B_UPPER_A,
        B_COMMA,
        B_THREE,
        B_COMMA,
    ] + spec_gsa_sats(12) + seq![
        B_ONE,
        B_DOT,
        B_ZERO,
        B_COMMA,
        B_ONE,
        B_DOT,
        B_ZERO,
        B_COMMA,
        B_ONE,
        B_DOT,
        B_ZERO,
    ]
}

/// The full canned GSA sentence.
pub open spec fn spec_gsa() -> Seq<u8> {
    spec_checksummed(spec_gsa_body())
}

/// XOR of every byte of `body` after the leading one.
fn checksum_of(body: &Vec<u8>) -> (r: u8)
    requires
        body@.len() >= 1,
    ensures
        r == spec_xor_fold(body@.skip(1)),
{
    let mut acc: u8 = 0;
    let mut i: usize = 1;
    assert(body@.subrange(1, 1) =~= Seq::<u8>::empty());
    while i < body.len()
        invariant
            1 <= i <= body@.len(),
            acc == spec_xor_fold(body@.subrange(1, i as int)),
        decreases body@.len() - i,
    {
        assert(body@.subrange(1, i + 1).drop_last() =~= body@.subrange(1, i as int));
        assert(body@.subrange(1, i + 1).last() == body@[i as int]);
        acc = acc ^ body[i];
        i = i + 1;
    }
    assert(body@.subrange(1, body@.len() as int) =~= body@.skip(1));
    acc
}

/// Complete a sentence body into a full NMEA line by appending `*`, the
/// checksum in uppercase hex, and CRLF.
fn finish_sentence(v: &mut Vec<u8>)
    requires
        old(v)@.len() >= 1,
    ensures
        final (v)@ == spec_checksummed(old(v)@),
{
    let ck = checksum_of(v);
    v.push(B_STAR);
    push_uhex(v, ck as u64);
    v.push(B_CR);
    v.push(B_LF);
    assert(v@ =~= spec_checksummed(old(v)@));
}

/// Append the `HHMMSS.mmm` time field.
fn push_time_field(v: &mut Vec<u8>, st: &UtcStamp)
    ensures
        final (v)@ == old(v)@ + spec_time_field(*st),
{
    push_udec_pad(v, st.hour as u64, 2);
    push_udec_pad(v, st.minute as u64, 2);
    push_udec_pad(v, st.second as u64, 2);
    v.push(B_DOT);
    push_udec_pad(v, st.millis as u64, 3);
    assert(v@ =~= old(v)@ + spec_time_field(*st));
}

/// Append the `DDMMYY` date field.
fn push_date_field(v: &mut Vec<u8>, st: &UtcStamp)
    ensures
        final (v)@ == old(v)@ + spec_date_field(*st),
{
    push_udec_pad(v, st.day as u64, 2);
    push_udec_pad(v, st.month as u64, 2);
    push_udec_pad(v, (st.year % 100) as u64, 2);
    assert(v@ =~= old(v)@ + spec_date_field(*st));
}

/// Append a coordinate field from its split representation.
fn push_latlon_field(v: &mut Vec<u8>, deg: u64, min_e4: u64, degw: usize, Ghost(angle): Ghost<int>)
    requires
        deg == spec_angle_degrees(angle),
        min_e4 == spec_angle_minutes_e4(angle),
    ensures
        final (v)@ == old(v)@ + spec_latlon_field(angle, degw as nat),
{
    push_udec_pad(v, deg, degw);
    push_udec_pad(v, min_e4 / 10_000, 2);
    v.push(B_DOT);
    push_udec_pad(v, min_e4 % 10_000, 4);
    assert(v@ =~= old(v)@ + spec_latlon_field(angle, degw as nat));
}

impl Com {
    /// Build the GGA fix sentence for one reading at one UTC instant.
    #[verifier::rlimit(100)]
    pub fn convert_gps_data_to_nmea_mid_gga(stamp: &UtcStamp, data: &GpsData) -> (r: Vec<u8>)
        requires
            stamp.wf(),
            data.wf(),
        ensures
            r@ == spec_gga(*stamp, *data),
    {
        proof {
            lemma_pow10_small();
        }
        let mut v: Vec<u8> = Vec::new();
        v.push(B_DOLLAR);
        v.push(B_UPPER_G);
        v.push(B_UPPER_P);
        v.push(B_UPPER_G);
        v.push(B_UPPER_G);
        v.push(B_UPPER_A);
        v.push(B_COMMA);
        assert(v@ =~= seq![B_DOLLAR, B_UPPER_G, B_UPPER_P, B_UPPER_G, B_UPPER_G, B_UPPER_A, B_COMMA]);
        push_time_field(&mut v, stamp);
        let ghost p1 = v@;
        v.push(B_COMMA);
        assert(v@ =~= p1 + seq![B_COMMA]);
        let (lat_deg, lat_min, lat_dir) = data.lat_as_degrees_minutes_dir();
        push_latlon_field(&mut v, lat_deg, lat_min, 2, Ghost(data.lat as int));
        let ghost p2 = v@;
        v.push(B_COMMA);
        v.push(lat_dir);
        v.push(B_COMMA);
        assert(v@ =~= p2 + seq![B_COMMA, lat_dir, B_COMMA]);
        let (lon_deg, lon_min, lon_dir) = data.lon_as_degrees_minutes_dir();
        push_latlon_field(&mut v, lon_deg, lon_min, 3, Ghost(data.lon as int));
        let ghost p3 = v@;
        v.push(B_COMMA);
        v.push(lon_dir);
        v.push(B_COMMA);
        v.push(B_ONE);
        v.push(B_COMMA);
        v.push(B_ONE);
        v.push(B_TWO);
        v.push(B_COMMA);
        v.push(B_ONE);
        v.push(B_DOT);
        v.push(B_ZERO);
        v.push(B_COMMA);
        assert(v@ =~= p3 + seq![
            B_COMMA,
            lon_dir,
            B_COMMA,
            B_ONE,
            B_COMMA,
            B_ONE,
            B_TWO,
            B_COMMA,
            B_ONE,
            B_DOT,
            B_ZERO,
            B_COMMA,
        ]);
        let alt_neg = data.pressure_altitude < 0;
        let alt_abs: u64 = if alt_neg {
            (-data.pressure_altitude) as u64
        } else {
            data.pressure_altitude as u64
        };
        push_signed_fixed(&mut v, alt_neg, round_div_u64(alt_abs, 1000), 10, 1);
        let ghost p4 = v@;
        v.push(B_COMMA);
        v.push(B_UPPER_M);
        v.push(B_COMMA);
        v.push(B_ZERO);
        v.push(B_DOT);
        v.push(B_ZERO);
        v.push(B_COMMA);
        v.push(B_UPPER_M);
        v.push(B_COMMA);
        v.push(B_COMMA);
        assert(v@ =~= p4 + seq![
            B_COMMA,
            B_UPPER_M,
            B_COMMA,
            B_ZERO,
            B_DOT,
            B_ZERO,
            B_COMMA,
            B_UPPER_M,
            B_COMMA,
            B_COMMA,
        ]);
        assert(v@ == spec_gga_body(*stamp, *data));
        finish_sentence(&mut v);
        v
    }

    /// Build the RMC recommended-minimum sentence for one reading at one
    /// UTC instant.
    #[verifier::rlimit(100)]
    pub fn convert_gps_data_to_nmea_mid_rmc(stamp: &UtcStamp, data: &GpsData) -> (r: Vec<u8>)
        requires
            stamp.wf(),
            data.wf(),
        ensures
            r@ == spec_rmc(*stamp, *data),
    {
        proof {
            lemma_pow10_small();
        }
        let mut v: Vec<u8> = Vec::new();
        v.push(B_DOLLAR);
        v.push(B_UPPER_G);
        v.push(B_UPPER_P);
        v.push(B_UPPER_R);
        v.push(B_UPPER_M);
        v.push(B_UPPER_C);
        v.push(B_COMMA);
        assert(v@ =~= seq![B_DOLLAR, B_UPPER_G, B_UPPER_P, B_UPPER_R, B_UPPER_M, B_UPPER_C, B_COMMA]);
        push_time_field(&mut v, stamp);
        let ghost p1 = v@;
        v.push(B_COMMA);
        v.push(B_UPPER_A);
        v.push(B_COMMA);
        assert(v@ =~= p1 + seq![B_COMMA, B_UPPER_A, B_COMMA]);
        let (lat_deg, lat_min, lat_dir) = data.lat_as_degrees_minutes_dir();
        push_latlon_field(&mut v, lat_deg, lat_min, 2, Ghost(data.lat as int));
        let ghost p2 = v@;
        v.push(B_COMMA);
        v.push(lat_dir);
        v.push(B_COMMA);
        assert(v@ =~= p2 + seq![B_COMMA, lat_dir, B_COMMA]);
        let (lon_deg, lon_min, lon_dir) = data.lon_as_degrees_minutes_dir();
        push_latlon_field(&mut v, lon_deg, lon_min, 3, Ghost(data.lon as int));
        let ghost p3 = v@;
        v.push(B_COMMA);
        v.push(lon_dir);
        v.push(B_COMMA);
        assert(v@ =~= p3 + seq![B_COMMA, lon_dir, B_COMMA]);
        let knots_e2 = data.gps_ground_speed_in_knots();
        let speed_neg = data.gps_ground_speed < 0;
        let knots_mag: u64 = if knots_e2 < 0 {
            (-knots_e2) as u64
        } else {
            knots_e2 as u64
        };
        push_signed_fixed(&mut v, speed_neg, knots_mag, 100, 2);
        let ghost p4 = v@;
        v.push(B_COMMA);
        assert(v@ =~= p4 + seq![B_COMMA]);
        let track = data.gps_ground_magnetic_track - data.gps_magnetic_variation;
        let track_neg = track < 0;
        let track_abs: u64 = if track_neg {
            (-track) as u64
        } else {
            track as u64
        };
        push_signed_fixed(&mut v, track_neg, round_div_u64(track_abs, 100), 100, 2);
        let ghost p5 = v@;
        v.push(B_COMMA);
        assert(v@ =~= p5 + seq![B_COMMA]);
        push_date_field(&mut v, stamp);
        let ghost p6 = v@;
        v.push(B_COMMA);
        assert(v@ =~= p6 + seq![B_COMMA]);
        let (var_e1, var_dir) = data.gps_magnetic_variation_as_abs_dir();
        push_signed_fixed(&mut v, false, var_e1, 10, 1);
        let ghost p7 = v@;
        v.push(B_COMMA);
        v.push(var_dir);
        v.push(B_COMMA);
        v.push(B_UPPER_S);
        assert(v@ =~= p7 + seq![B_COMMA, var_dir, B_COMMA, B_UPPER_S]);
        assert(v@ == spec_rmc_body(*stamp, *data));
        finish_sentence(&mut v);
        v
    }

    /// Build the canned satellite-status (GSA) sentence.
    pub fn nmea_mid_gsa_message() -> (r: Vec<u8>)
        ensures
            r@ == spec_gsa(),
    {
        let mut v: Vec<u8> = Vec::new();
        v.push(B_DOLLAR);
        v.push(B_UPPER_G);
        v.push(B_UPPER_P);
        v.push(B_UPPER_G);
        v.push(B_UPPER_S);
        v.push(B_UPPER_A);
        v.push(B_COMMA);
        v.push(B_UPPER_A);
        v.push(B_COMMA);
        v.push(B_THREE);
        v.push(B_COMMA);
        let ghost head = v@;
        let mut i: u64 = 0;
        assert(v@ =~= head + spec_gsa_sats(0));
        while i < 12
        invariant
            i <= 12,
            v@ == head + spec_gsa_sats(i as nat),
        decreases 12 - i,
        {
            push_udec_pad(&mut v, i + 1, 2);
            v.push(B_COMMA);
            assert(v@ =~= head + spec_gsa_sats((i + 1) as nat));
            i = i + 1;
        }
        v.push(B_ONE);
        v.push(B_DOT);
        v.push(B_ZERO);
        v.push(B_COMMA);
        v.push(B_ONE);
        v.push(B_DOT);
        v.push(B_ZERO);
        v.push(B_COMMA);
        v.push(B_ONE);
        v.push(B_DOT);
        v.push(B_ZERO);
        assert(v@ =~= spec_gsa_body());
        finish_sentence(&mut v);
        v
    }
}

/// Whether the canned GSA sentence is due again: always on the first send,
/// then whenever at least `NMEA_MID_GSA_INTERVAL_MS` has passed since the
/// last one (a clock that moved backwards counts as not due).
pub open spec fn spec_should_send_mid_gsa(last: Option<i64>, now_ms: i64) -> bool {
    match last {
        Option::None => true,
        Option::Some(l) => now_ms - l >= NMEA_MID_GSA_INTERVAL_MS,
    }
}

/// Serial-line NMEA encoder state: remembers when the canned GSA sentence
/// last went out.
#[derive(Debug, Clone, Copy, PartialEq, Eq, Structural)]
pub struct Com {
    pub last_mid_gsa: Option<i64>,
}

/// The lines of one serial broadcast: the optional rate-limited GSA
/// sentence, then the GGA and RMC sentences, all for the same instant.
#[derive(Debug)]
pub struct ComFrame {
    pub now_ms: i64,
    pub stamp: UtcStamp,
    pub gsa: Option<Vec<u8>>,
    pub gga: Vec<u8>,
    pub rmc: Vec<u8>,
}

impl Com {
    /// A fresh encoder: no GSA sentence has gone out yet.
    pub fn new() -> (c: Com)
        ensures
            c.last_mid_gsa is None,
    {
        Com { last_mid_gsa: None }
    }

    /// Whether the canned GSA sentence is due at `now_ms`.
    pub fn should_send_mid_gsa(&self, now_ms: i64) -> (b: bool)
        ensures
            b == spec_should_send_mid_gsa(self.last_mid_gsa, now_ms),
    {
        match self.last_mid_gsa {
            None => true,
            Some(l) => (now_ms as i128) - (l as i128) >= NMEA_MID_GSA_INTERVAL_MS as i128,
        }
    }

    /// Encode one reading into the lines of a serial broadcast, reading the
    /// clock: a GSA sentence exactly when one is due, then GGA and RMC for
    /// the frame's timestamp.  The returned frame carries the instant used,
    /// so the contract is exact relative to whatever the clock returned.
    pub fn send(&mut self, data: &GpsData) -> (f: ComFrame)
        requires
            data.wf(),
        ensures
            f.stamp.wf(),
            f.gga@ == spec_gga(f.stamp, *data),
            f.rmc@ == spec_rmc(f.stamp, *data),
            f.gsa is Some <==> spec_should_send_mid_gsa(old(self).last_mid_gsa, f.now_ms),
            match f.gsa {
                Option::Some(g) => g@ == spec_gsa(),
                Option::None => true,
            },
            final (self).last_mid_gsa == if spec_should_send_mid_gsa(
                old(self).last_mid_gsa,
                f.now_ms,
            ) {
                Option::<i64>::Some(f.now_ms)
            } else {
                old(self).last_mid_gsa
            },
    {
        let now_ms = utc_now_millis();
        let gsa = if self.should_send_mid_gsa(now_ms) {
            self.last_mid_gsa = Some(now_ms);
            Some(Self::nmea_mid_gsa_message())
        } else {
            None
        };
        let stamp = utc_now_stamp();
        let gga = Self::convert_gps_data_to_nmea_mid_gga(&stamp, data);
        let rmc = Self::convert_gps_data_to_nmea_mid_rmc(&stamp, data);
        ComFrame { now_ms, stamp, gsa, gga, rmc }
    }
}


/// No byte of `s` is the `*` checksum separator.
pub open spec fn star_free(s: Seq<u8>) -> bool {
    forall|i: int| 0 <= i < s.len() ==> s[i] != B_STAR
}

proof fn lemma_star_free_concat(a: Seq<u8>, b: Seq<u8>)
    requires
        star_free(a),
        star_free(b),
    ensures
        star_free(a + b),
{
    assert forall|i: int| 0 <= i < (a + b).len() implies (a + b)[i] != B_STAR by {
        if i < a.len() {
            assert((a + b)[i] == a[i]);
        } else {
            assert((a + b)[i] == b[i - a.len()]);
        }
    }
}

proof fn lemma_star_free_udec_pad(n: nat, w: nat)
    ensures
        star_free(spec_udec_pad(n, w)),
{
    lemma_udec_pad_digits(n, w);
}

proof fn lemma_star_free_signed_fixed(neg: bool, mag: int, k: nat)
    ensures
        star_free(spec_signed_fixed(neg, mag, k)),
{
    lemma_signed_fixed_bytes(neg, mag, k);
}

proof fn lemma_star_free_time(st: UtcStamp)
    ensures
        star_free(spec_time_field(st)),
{
    lemma_star_free_udec_pad(st.hour as nat, 2);
    lemma_star_free_udec_pad(st.minute as nat, 2);
    lemma_star_free_udec_pad(st.second as nat, 2);
    lemma_star_free_udec_pad(st.millis as nat, 3);
    lemma_star_free_concat(spec_udec_pad(st.hour as nat, 2), spec_udec_pad(st.minute as nat, 2));
    lemma_star_free_concat(
        spec_udec_pad(st.hour as nat, 2) + spec_udec_pad(st.minute as nat, 2),
        spec_udec_pad(st.second as nat, 2),
    );
    lemma_star_free_concat(
        spec_udec_pad(st.hour as nat, 2) + spec_udec_pad(st.minute as nat, 2) + spec_udec_pad(
            st.second as nat,
            2,
        ),
        seq![B_DOT],
    );
    lemma_star_free_concat(
        spec_udec_pad(st.hour as nat, 2) + spec_udec_pad(st.minute as nat, 2) + spec_udec_pad(
            st.second as nat,
            2,
        ) + seq![B_DOT],
        spec_udec_pad(st.millis as nat, 3),
    );
}

proof fn lemma_star_free_date(st: UtcStamp)
    ensures
        star_free(spec_date_field(st)),
{
    lemma_star_free_udec_pad(st.day as nat, 2);
    lemma_star_free_udec_pad(st.month as nat, 2);
    lemma_star_free_udec_pad((st.year % 100) as nat, 2);
    lemma_star_free_concat(spec_udec_pad(st.day as nat, 2), spec_udec_pad(st.month as nat, 2));
    lemma_star_free_concat(
        spec_udec_pad(st.day as nat, 2) + spec_udec_pad(st.month as nat, 2),
        spec_udec_pad((st.year % 100) as nat, 2),
    );
}

proof fn lemma_star_free_latlon(angle: int, degw: nat)
    ensures
        star_free(spec_latlon_field(angle, degw)),
{
    lemma_star_free_udec_pad(spec_angle_degrees(angle) as nat, degw);
    lemma_star_free_udec_pad((spec_angle_minutes_e4(angle) / 10_000) as nat, 2);
    lemma_star_free_udec_pad((spec_angle_minutes_e4(angle) % 10_000) as nat, 4);
    lemma_star_free_concat(
        spec_udec_pad(spec_angle_degrees(angle) as nat, degw),
        spec_udec_pad((spec_angle_minutes_e4(angle) / 10_000) as nat, 2),
    );
    lemma_star_free_concat(
        spec_udec_pad(spec_angle_degrees(angle) as nat, degw) + spec_udec_pad(
            (spec_angle_minutes_e4(angle) / 10_000) as nat,
            2,
        ),
        seq![B_DOT],
    );
    lemma_star_free_concat(
        spec_udec_pad(spec_angle_degrees(angle) as nat, degw) + spec_udec_pad(
            (spec_angle_minutes_e4(angle) / 10_000) as nat,
            2,
        ) + seq![B_DOT],
        spec_udec_pad((spec_angle_minutes_e4(angle) % 10_000) as nat, 4),
    );
}

proof fn lemma_gga_body_star_free(st: UtcStamp, d: GpsData)
    ensures
        star_free(spec_gga_body(st, d)),
        spec_gga_body(st, d).len() >= 1,
        spec_gga_body(st, d)[0] == B_DOLLAR,
{
    let f1 = seq![B_DOLLAR, B_UPPER_G, B_UPPER_P, B_UPPER_G, B_UPPER_G, B_UPPER_A, B_COMMA];
    let f3 = seq![
        B_COMMA,
        if d.lat >= 0 {
            DIR_NORTH
        } else {
            DIR_SOUTH
        },
        B_COMMA,
    ];
    let f5 = seq![
        B_COMMA,
        if d.lon >= 0 {
            DIR_EAST
        } else {
            DIR_WEST
        },
        B_COMMA,
        B_ONE,
        B_COMMA,
        B_ONE,
        B_TWO,
        B_COMMA,
        B_ONE,
        B_DOT,
        B_ZERO,
        B_COMMA,
    ];
    let f7 = seq![
        B_COMMA,
        B_UPPER_M,
        B_COMMA,
        B_ZERO,
        B_DOT,
        B_ZERO,
        B_COMMA,
        B_UPPER_M,
        B_COMMA,
        B_COMMA,
    ];
    lemma_star_free_time(st);
    lemma_star_free_latlon(d.lat as int, 2);
    lemma_star_free_latlon(d.lon as int, 3);
    lemma_star_free_signed_fixed(
        d.pressure_altitude < 0,
        spec_round_div(iabs(d.pressure_altitude as int), 1000),
        1,
    );
    lemma_star_free_concat(f1, spec_time_field(st));
    lemma_star_free_concat(f1 + spec_time_field(st), seq![B_COMMA]);
    lemma_star_free_concat(
        f1 + spec_time_field(st) + seq![B_COMMA],
        spec_latlon_field(d.lat as int, 2),
    );
    lemma_star_free_concat(
        f1 + spec_time_field(st) + seq![B_COMMA] + spec_latlon_field(d.lat as int, 2),
        f3,
    );
    lemma_star_free_concat(
        f1 + spec_time_field(st) + seq![B_COMMA] + spec_latlon_field(d.lat as int, 2) + f3,
        spec_latlon_field(d.lon as int, 3),
    );
    lemma_star_free_concat(
        f1 + spec_time_field(st) + seq![B_COMMA] + spec_latlon_field(d.lat as int, 2) + f3
            + spec_latlon_field(d.lon as int, 3),
        f5,
    );
    let alt = spec_signed_fixed(
        d.pressure_altitude < 0,
        spec_round_div(iabs(d.pressure_altitude as int), 1000),
        1,
    );
    lemma_star_free_concat(
        f1 + spec_time_field(st) + seq![B_COMMA] + spec_latlon_field(d.lat as int, 2) + f3
            + spec_latlon_field(d.lon as int, 3) + f5,
        alt,
    );
    lemma_star_free_concat(
        f1 + spec_time_field(st) + seq![B_COMMA] + spec_latlon_field(d.lat as int, 2) + f3
            + spec_latlon_field(d.lon as int, 3) + f5 + alt,
        f7,
    );
}

#[verifier::rlimit(100)]
proof fn lemma_rmc_body_star_free(st: UtcStamp, d: GpsData)
    ensures
        star_free(spec_rmc_body(st, d)),
        spec_rmc_body(st, d).len() >= 1,
        spec_rmc_body(st, d)[0] == B_DOLLAR,
{
    let f1 = seq![B_DOLLAR, B_UPPER_G, B_UPPER_P, B_UPPER_R, B_UPPER_M, B_UPPER_C, B_COMMA];
    let f2 = seq![B_COMMA, B_UPPER_A, B_COMMA];
    let f3 = seq![
        B_COMMA,
        if d.lat >= 0 {
            DIR_NORTH
        } else {
            DIR_SOUTH
        },
        B_COMMA,
    ];
    let f4 = seq![
        B_COMMA,
        if d.lon >= 0 {
            DIR_EAST
        } else {
            DIR_WEST
        },
        B_COMMA,
    ];
    let f5 = seq![
        B_COMMA,
        if d.gps_magnetic_variation >= 0 {
            DIR_EAST
        } else {
            DIR_WEST
        },
        B_COMMA,
        B_UPPER_S,
    ];
    lemma_star_free_time(st);
    lemma_star_free_date(st);
    lemma_star_free_latlon(d.lat as int, 2);
    lemma_star_free_latlon(d.lon as int, 3);
    lemma_star_free_signed_fixed(
        d.gps_ground_speed < 0,
        spec_knots_mag_e2(d.gps_ground_speed as int),
        2,
    );
    lemma_star_free_signed_fixed(
        d.spec_true_track() < 0,
        spec_round_div(iabs(d.spec_true_track()), 100),
        2,
    );
    lemma_star_free_signed_fixed(
        false,
        spec_round_div(iabs(d.gps_magnetic_variation as int), 1000),
        1,
    );
    let t1 = f1 + spec_time_field(st);
    lemma_star_free_concat(f1, spec_time_field(st));
    let t2 = t1 + f2;
    lemma_star_free_concat(t1, f2);
    let t3 = t2 + spec_latlon_field(d.lat as int, 2);
    lemma_star_free_concat(t2, spec_latlon_field(d.lat as int, 2));
    let t4 = t3 + f3;
    lemma_star_free_concat(t3, f3);
    let t5 = t4 + spec_latlon_field(d.lon as int, 3);
    lemma_star_free_concat(t4, spec_latlon_field(d.lon as int, 3));
    let t6 = t5 + f4;
    lemma_star_free_concat(t5, f4);
    let knots = spec_signed_fixed(
        d.gps_ground_speed < 0,
        spec_knots_mag_e2(d.gps_ground_speed as int),
        2,
    );
    let t7 = t6 + knots;
    lemma_star_free_concat(t6, knots);
    let t8 = t7 + seq![B_COMMA];
    lemma_star_free_concat(t7, seq![B_COMMA]);
    let track = spec_signed_fixed(
        d.spec_true_track() < 0,
        spec_round_div(iabs(d.spec_true_track()), 100),
        2,
    );
    let t9 = t8 + track;
    lemma_star_free_concat(t8, track);
    let t10 = t9 + seq![B_COMMA];
    lemma_star_free_concat(t9, seq![B_COMMA]);
    let t11 = t10 + spec_date_field(st);
    lemma_star_free_concat(t10, spec_date_field(st));
    let t12 = t11 + seq![B_COMMA];
    lemma_star_free_concat(t11, seq![B_COMMA]);
    let var = spec_signed_fixed(
        false,
        spec_round_div(iabs(d.gps_magnetic_variation as int), 1000),
        1,
    );
    let t13 = t12 + var;
    lemma_star_free_concat(t12, var);
    lemma_star_free_concat(t13, f5);
    assert(spec_rmc_body(st, d) == t13 + f5);
}

proof fn lemma_gsa_sats_star_free(k: nat)
    ensures
        star_free(spec_gsa_sats(k)),
    decreases k,
{
    if k > 0 {
        lemma_gsa_sats_star_free((k - 1) as nat);
        lemma_star_free_udec_pad(k, 2);
        lemma_star_free_concat(spec_gsa_sats((k - 1) as nat), spec_udec_pad(k, 2));
        lemma_star_free_concat(spec_gsa_sats((k - 1) as nat) + spec_udec_pad(k, 2), seq![B_COMMA]);
    }
}

proof fn lemma_gsa_body_star_free()
    ensures
        star_free(spec_gsa_body()),
        spec_gsa_body().len() >= 1,
        spec_gsa_body()[0] == B_DOLLAR,
{
    let f1 = seq![
        B_DOLLAR,
        B_UPPER_G,
        B_UPPER_P,
        B_UPPER_G,
        B_UPPER_S,
        B_UPPER_A,
        B_COMMA,
        B_UPPER_A,
        B_COMMA,
        B_THREE,
        B_COMMA,
    ];
    let f2 = seq![
        B_ONE,
        B_DOT,
        B_ZERO,
        B_COMMA,
        B_ONE,
        B_DOT,
        B_ZERO,
        B_COMMA,
        B_ONE,
        B_DOT,
        B_ZERO,
    ];
    lemma_gsa_sats_star_free(12);
    lemma_star_free_concat(f1, spec_gsa_sats(12));
    lemma_star_free_concat(f1 + spec_gsa_sats(12), f2);
}

/// The shape of every completed sentence: the `*` that follows the body is
/// the first `*` of the line, the bytes between it and the final CRLF are
/// uppercase hex digits encoding the XOR-fold of the bytes strictly between
/// the leading `$` and that `*`, and nothing else follows.
pub proof fn lemma_checksummed_checksum(body: Seq<u8>)
    requires
        body.len() >= 1,
        body[0] == B_DOLLAR,
        star_free(body),
    ensures
        ({
            let s = spec_checksummed(body);
            let star = body.len() as int;
            &&& s.len() >= body.len() + 3
            &&& s[0] == B_DOLLAR
            &&& s[star] == B_STAR
            &&& forall|i: int| 0 <= i < star ==> s[i] != B_STAR
            &&& s.subrange(star + 1, s.len() - 2) == spec_uhex(
                spec_xor_fold(s.subrange(1, star)) as nat,
            )
            &&& forall|i: int|
                star < i < s.len() - 2 ==> (48 <= #[trigger] s[i] <= 57 || 65 <= s[i] <= 70)
            &&& s[s.len() - 2] == B_CR
            &&& s[s.len() - 1] == B_LF
        }),
{
    let s = spec_checksummed(body);
    let star = body.len() as int;
    let hex = spec_uhex(spec_xor_fold(body.skip(1)) as nat);
    assert(s.subrange(1, star) =~= body.skip(1));
    assert(s.subrange(star + 1, s.len() - 2) =~= hex);
    assert forall|i: int| 0 <= i < star implies s[i] != B_STAR by {
        assert(s[i] == body[i]);
    }
    lemma_uhex_digits(spec_xor_fold(body.skip(1)) as nat);
    assert forall|i: int|
        star < i < s.len() - 2 implies (48 <= #[trigger] s[i] <= 57 || 65 <= s[i] <= 70) by {
        assert(s[i] == hex[i - star - 1]);
    }
}

/// Law: in the GGA sentence of any reading, the hex digits after the first
/// `*` encode the XOR-fold of the bytes strictly between the leading `$`
/// and that `*`.
pub proof fn lemma_gga_checksum(st: UtcStamp, d: GpsData)
    ensures
        ({
            let s = spec_gga(st, d);
            let star = spec_gga_body(st, d).len() as int;
            &&& 1 <= star < s.len()
            &&& s[0] == B_DOLLAR
            &&& s[star] == B_STAR
            &&& forall|i: int| 0 <= i < star ==> s[i] != B_STAR
            &&& s.subrange(star + 1, s.len() - 2) == spec_uhex(
                spec_xor_fold(s.subrange(1, star)) as nat,
            )
            &&& s[s.len() - 2] == B_CR
            &&& s[s.len() - 1] == B_LF
        }),
{
    lemma_gga_body_star_free(st, d);
    lemma_checksummed_checksum(spec_gga_body(st, d));
}

/// Law: in the RMC sentence of any reading, the hex digits after the first
/// `*` encode the XOR-fold of the bytes strictly between the leading `$`
/// and that `*`.
pub proof fn lemma_rmc_checksum(st: UtcStamp, d: GpsData)
    ensures
        ({
            let s = spec_rmc(st, d);
            let star = spec_rmc_body(st, d).len() as int;
            &&& 1 <= star < s.len()
            &&& s[0] == B_DOLLAR
            &&& s[star] == B_STAR
            &&& forall|i: int| 0 <= i < star ==> s[i] != B_STAR
            &&& s.subrange(star + 1, s.len() - 2) == spec_uhex(
                spec_xor_fold(s.subrange(1, star)) as nat,
            )
            &&& s[s.len() - 2] == B_CR
            &&& s[s.len() - 1] == B_LF
        }),
{
    lemma_rmc_body_star_free(st, d);
    lemma_checksummed_checksum(spec_rmc_body(st, d));
}

/// Law: the canned GSA sentence carries its checksum in the same form.
pub proof fn lemma_gsa_checksum()
    ensures
        ({
            let s = spec_gsa();
            let star = spec_gsa_body().len() as int;
            &&& 1 <= star < s.len()
            &&& s[0] == B_DOLLAR
            &&& s[star] == B_STAR
            &&& forall|i: int| 0 <= i < star ==> s[i] != B_STAR
            &&& s.subrange(star + 1, s.len() - 2) == spec_uhex(
                spec_xor_fold(s.subrange(1, star)) as nat,
            )
            &&& s[s.len() - 2] == B_CR
            &&& s[s.len() - 1] == B_LF
        }),
{
    lemma_gsa_body_star_free();
    lemma_checksummed_checksum(spec_gsa_body());
}

} // verus!
