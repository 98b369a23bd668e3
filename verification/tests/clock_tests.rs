use gps_link::broadcaster::com::Com;
use gps_link::clock::{UtcStamp, utc_now_stamp};
use gps_link::system::simconnect_objects::GpsData;

#[test]
fn the_clock_yields_a_renderable_stamp() {
    let s = utc_now_stamp();
    assert!((1..=12).contains(&s.month));
    assert!((1..=31).contains(&s.day));
    assert!(s.hour <= 23);
    assert!(s.minute <= 59);
    assert!(s.second <= 59);
    assert!(s.millis <= 999);
    assert!(s.year >= 2024);
}

#[test]
fn midnight_and_century_render_zero_padded() {
    let date = UtcStamp::new(2000, 1, 1, 0, 0, 0, 0);
    let data = GpsData {
        lat: 0,
        lon: 0,
        alt: 0,
        pressure_altitude: 0,
        gps_ground_magnetic_track: 0,
        gps_magnetic_variation: 0,
        gps_ground_speed: 0,
    };
    let rmc = String::from_utf8(Com::convert_gps_data_to_nmea_mid_rmc(&date, &data)).unwrap();
    assert!(rmc.starts_with("$GPRMC,000000.000,A,0000.0000,N,00000.0000,E,0.00,0.00,010100,0.0,E,S*"));
    let gga = String::from_utf8(Com::convert_gps_data_to_nmea_mid_gga(&date, &data)).unwrap();
    assert!(gga.starts_with("$GPGGA,000000.000,"));
}
