use vstd::prelude::*;

verus! {

use crate::digits::{iabs, spec_round_div};

/// Fixed-point scale of one degree for latitude and longitude fields:
/// the stored integer counts tenths of nanodegrees.
pub const ANGLE_SCALE: i64 = 10_000_000_000;

/// Fixed-point scale for every other telemetry field (meters, degrees,
/// meters per second): the stored integer counts ten-thousandths.
pub const UNIT_SCALE: i64 = 10_000;

/// Bound on the magnitude of every stored telemetry field.  Physical values
/// stay far below it; it exists so that negation, subtraction and scaling
/// of fields never overflow an `i64`.
pub const FIELD_LIMIT: i64 = 1_000_000_000_000_000_000;

/// Meters per second to knots, scaled by `10^13`.
pub const KNOTS_PER_MPS_E13: u64 = 19_438_444_924_574;

/// ASCII `N`: northern hemisphere.
pub const DIR_NORTH: u8 = 78;

/// ASCII `S`: southern hemisphere.
pub const DIR_SOUTH: u8 = 83;

/// ASCII `E`: east of the prime meridian, or easterly variation.
pub const DIR_EAST: u8 = 69;

/// ASCII `W`: west of the prime meridian, or westerly variation.
pub const DIR_WEST: u8 = 87;

/// Whole degrees of an angle held in `ANGLE_SCALE` units.
pub open spec fn spec_angle_degrees(a: int) -> int {
    iabs(a) / (ANGLE_SCALE as int)
}

/// Minutes of arc of the fractional degree, in ten-thousandths of a minute,
/// rounded to the nearest: `frac * 60 / 10^6`, where `frac` is the part of
/// the angle below one degree in `ANGLE_SCALE` units.
pub open spec fn spec_angle_minutes_e4(a: int) -> int {
    spec_round_div((iabs(a) % (ANGLE_SCALE as int)) * 3, 50_000)
}

/// Magnitude of the ground speed in hundredths of a knot:
/// `|speed| * 1.9438444924574` rounded to the nearest hundredth.
pub open spec fn spec_knots_mag_e2(s: int) -> int {
    spec_round_div(iabs(s) * (KNOTS_PER_MPS_E13 as int), 1_000_000_000_000_000)
}

/// Ground speed in hundredths of a knot, with the sign of the speed.
pub open spec fn spec_knots_e2(s: int) -> int {
    if s < 0 {
        -spec_knots_mag_e2(s)
    } else {
        spec_knots_mag_e2(s)
    }
}

/// One position-fix reading from the telemetry driver, in fixed point.
///
/// Latitude and longitude are in `ANGLE_SCALE` units of a degree; the other
/// fields are in `UNIT_SCALE` units of meters, degrees, or meters per second.
#[derive(Debug, Clone, Copy, PartialEq, Eq, Structural)]
pub struct GpsData {
    pub lat: i64,
    pub lon: i64,
    pub alt: i64,
    pub pressure_altitude: i64,
    pub gps_ground_magnetic_track: i64,
    pub gps_magnetic_variation: i64,
    pub gps_ground_speed: i64,
}

impl GpsData {
    /// Every field is within `FIELD_LIMIT`, so arithmetic on fields fits.
    pub open spec fn wf(self) -> bool {
        &&& iabs(self.lat as int) <= FIELD_LIMIT
        &&& iabs(self.lon as int) <= FIELD_LIMIT
        &&& iabs(self.alt as int) <= FIELD_LIMIT
        &&& iabs(self.pressure_altitude as int) <= FIELD_LIMIT
        &&& iabs(self.gps_ground_magnetic_track as int) <= FIELD_LIMIT
        &&& iabs(self.gps_magnetic_variation as int) <= FIELD_LIMIT
        &&& iabs(self.gps_ground_speed as int) <= FIELD_LIMIT
    }

    /// True track over ground: magnetic track corrected by magnetic variation.
    pub open spec fn spec_true_track(self) -> int {
        self.gps_ground_magnetic_track - self.gps_magnetic_variation
    }

    /// Latitude split for sexagesimal rendering: whole degrees, minutes in
    /// ten-thousandths, and the hemisphere letter (`N` for nonnegative).
    pub fn lat_as_degrees_minutes_dir(&self) -> (r: (u64, u64, u8))
        requires
            self.wf(),
        ensures
            r.0 == spec_angle_degrees(self.lat as int),
            r.1 == spec_angle_minutes_e4(self.lat as int),
            r.2 == if self.lat >= 0 { DIR_NORTH } else { DIR_SOUTH },
    {
        let dir: u8 = if self.lat >= 0 { DIR_NORTH } else { DIR_SOUTH };
        let a: u64 = if self.lat < 0 { (-self.lat) as u64 } else { self.lat as u64 };
        let deg: u64 = a / (ANGLE_SCALE as u64);
        let frac: u64 = a % (ANGLE_SCALE as u64);
        let min_e4: u64 = (frac * 3 + 25_000) / 50_000;
        (deg, min_e4, dir)
    }

    /// Longitude split in the same way (`E` for nonnegative).
    pub fn lon_as_degrees_minutes_dir(&self) -> (r: (u64, u64, u8))
        requires
            self.wf(),
        ensures
            r.0 == spec_angle_degrees(self.lon as int),
            r.1 == spec_angle_minutes_e4(self.lon as int),
            r.2 == if self.lon >= 0 { DIR_EAST } else { DIR_WEST },
    {
        let dir: u8 = if self.lon >= 0 { DIR_EAST } else { DIR_WEST };
        let a: u64 = if self.lon < 0 { (-self.lon) as u64 } else { self.lon as u64 };
        let deg: u64 = a / (ANGLE_SCALE as u64);
        let frac: u64 = a % (ANGLE_SCALE as u64);
        let min_e4: u64 = (frac * 3 + 25_000) / 50_000;
        (deg, min_e4, dir)
    }

    /// Magnetic variation as a magnitude in tenths of a degree, rounded,
    /// with the side letter (`E` for nonnegative, `W` for negative).
    pub fn gps_magnetic_variation_as_abs_dir(&self) -> (r: (u64, u8))
        requires
            self.wf(),
        ensures
            r.0 == spec_round_div(iabs(self.gps_magnetic_variation as int), 1000),
            r.1 == if self.gps_magnetic_variation >= 0 { DIR_EAST } else { DIR_WEST },
    {
        let dir: u8 = if self.gps_magnetic_variation >= 0 { DIR_EAST } else { DIR_WEST };
        let a: u64 = if self.gps_magnetic_variation < 0 {
            (-self.gps_magnetic_variation) as u64
        } else {
            self.gps_magnetic_variation as u64
        };
        ((a + 500) / 1000, dir)
    }

    /// Ground speed in hundredths of a knot, rounded, signed.
    pub fn gps_ground_speed_in_knots(&self) -> (r: i64)
        requires
            self.wf(),
        ensures
            r == spec_knots_e2(self.gps_ground_speed as int),
    {
        let a: u64 = if self.gps_ground_speed < 0 {
            (-self.gps_ground_speed) as u64
        } else {
            self.gps_ground_speed as u64
        };
        let mag: u64 = (((a as u128) * (KNOTS_PER_MPS_E13 as u128) + 500_000_000_000_000)
            / 1_000_000_000_000_000) as u64;
        if self.gps_ground_speed < 0 {
            -(mag as i64)
        } else {
            mag as i64
        }
    }
}

/// One ground-contact sample from the driver, emitted on change.
#[derive(Debug, Clone, Copy, PartialEq, Eq, Structural)]
pub struct OnGround {
    pub sim_on_ground: bool,
}

/// One nearby-airport record from the driver's facility list, in the same
/// fixed point as `GpsData`.  Accepted and stored, never acted on.
#[derive(Debug, Clone, PartialEq, Eq)]
pub struct AirportData {
    pub icao: String,
    pub lat: i64,
    pub lon: i64,
    pub alt: i64,
}

} // verus!
