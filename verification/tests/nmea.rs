use gps_link::broadcaster::com::Com;
use gps_link::clock::UtcStamp;
use gps_link::system::simconnect_objects::GpsData;

/// Build the fixed-point snapshot from physical readings: latitude and
/// longitude in degrees, altitudes in meters, track and variation in
/// degrees, speed in meters per second.
fn fix(
    lat: f64,
    lon: f64,
    alt: f64,
    pressure_altitude: f64,
    true_track: f64,
    magvar: f64,
    speed: f64,
) -> GpsData {
    let track_e4 = (true_track * 1e4).round() as i64;
    let magvar_e4 = (magvar * 1e4).round() as i64;
    GpsData {
        lat: (lat * 1e10).round() as i64,
        lon: (lon * 1e10).round() as i64,
        alt: (alt * 1e4).round() as i64,
        pressure_altitude: (pressure_altitude * 1e4).round() as i64,
        gps_ground_magnetic_track: track_e4 + magvar_e4,
        gps_magnetic_variation: magvar_e4,
        gps_ground_speed: (speed * 1e4).round() as i64,
    }
}

#[test]
fn test_convert_gps_data_to_nmea_mid_gga() {
    let date = UtcStamp::new(2022, 10, 30, 21, 10, 30, 750);

    let data = fix(51.509865, -0.118092, 0.0, 3.0, 310.55, 5.0, 100.50);

    let result = Com::convert_gps_data_to_nmea_mid_gga(&date, &data);

    assert_eq!(
        String::from_utf8(result).unwrap(),
        "$GPGGA,211030.750,5130.5919,N,00007.0855,W,1,12,1.0,3.0,M,0.0,M,,*70\r\n"
    );
}

#[test]
fn test_convert_gps_data_to_nmea_mid_gga_2() {
    let date = UtcStamp::new(2022, 1, 3, 2, 1, 3, 75);

    let data = fix(
        0.00040752447554520855,
        0.01397450300629543,
        0.0,
        0.9642891859251844,
        92.71680515837362,
        -4.384223296150313,
        0.0,
    );

    let result = Com::convert_gps_data_to_nmea_mid_gga(&date, &data);

    assert_eq!(
        String::from_utf8(result).unwrap(),
        "$GPGGA,020103.075,0000.0245,N,00000.8385,E,1,12,1.0,1.0,M,0.0,M,,*68\r\n"
    );
}

#[test]
fn test_convert_gps_data_to_nmea_mid_rmc() {
    let date = UtcStamp::new(2022, 10, 30, 21, 10, 30, 750);

    let data = fix(51.509865, -0.118092, 0.0, 3.0, 310.55, 5.0, 100.50);

    let result = Com::convert_gps_data_to_nmea_mid_rmc(&date, &data);

    assert_eq!(
        String::from_utf8(result).unwrap(),
        "$GPRMC,211030.750,A,5130.5919,N,00007.0855,W,195.36,310.55,301022,5.0,E,S*7\r\n"
    );
}

#[test]
fn test_convert_gps_data_to_nmea_mid_rmc_2() {
    let date = UtcStamp::new(2022, 1, 3, 2, 1, 3, 75);

    let data = fix(
        0.00040752447554520855,
        0.01397450300629543,
        0.0,
        0.9642891859251844,
        92.71680515837362,
        -4.384223296150313,
        0.0,
    );

    let result = Com::convert_gps_data_to_nmea_mid_rmc(&date, &data);

    assert_eq!(
        String::from_utf8(result).unwrap(),
        "$GPRMC,020103.075,A,0000.0245,N,00000.8385,E,0.00,92.72,030122,4.4,W,S*3E\r\n"
    );
}

#[test]
fn gsa_message_is_the_canned_sentence() {
    let result = Com::nmea_mid_gsa_message();
    assert_eq!(
        String::from_utf8(result).unwrap(),
        "$GPGSA,A,3,01,02,03,04,05,06,07,08,09,10,11,12,1.0,1.0,1.0*30\r\n"
    );
}

#[test]
fn gga_checksum_is_xor_of_bytes_between_dollar_and_star() {
    let date = UtcStamp::new(2022, 10, 30, 21, 10, 30, 750);
    let data = fix(51.509865, -0.118092, 0.0, 3.0, 310.55, 5.0, 100.50);
    for sentence in [
        Com::convert_gps_data_to_nmea_mid_gga(&date, &data),
        Com::convert_gps_data_to_nmea_mid_rmc(&date, &data),
        Com::nmea_mid_gsa_message(),
    ] {
        assert_eq!(sentence[0], b'$');
        let star = sentence.iter().position(|&b| b == b'*').unwrap();
        let folded = sentence[1..star].iter().fold(0u8, |acc, &b| acc ^ b);
        let hex = String::from_utf8(sentence[star + 1..sentence.len() - 2].to_vec()).unwrap();
        assert_eq!(hex, format!("{folded:X}"));
        assert_eq!(&sentence[sentence.len() - 2..], b"\r\n");
    }
}

#[test]
fn negative_pressure_altitude_keeps_its_sign() {
    let date = UtcStamp::new(2022, 10, 30, 21, 10, 30, 750);
    let data = fix(51.509865, -0.118092, 0.0, -0.04, 310.55, 5.0, 100.50);
    let result = String::from_utf8(Com::convert_gps_data_to_nmea_mid_gga(&date, &data)).unwrap();
    assert!(result.contains(",-0.0,M,"), "{result}");
}

#[test]
fn westerly_variation_renders_with_w() {
    let date = UtcStamp::new(2022, 10, 30, 21, 10, 30, 750);
    let data = fix(51.509865, -0.118092, 0.0, 3.0, 310.55, -5.26, 0.0);
    let result = String::from_utf8(Com::convert_gps_data_to_nmea_mid_rmc(&date, &data)).unwrap();
    assert!(result.contains(",5.3,W,S*"), "{result}");
}

#[test]
fn send_frames_carry_gsa_only_when_due() {
    let mut com = Com::new();
    let data = fix(51.509865, -0.118092, 0.0, 3.0, 310.55, 5.0, 100.50);
    let first = com.send(&data);
    assert!(first.gsa.is_some());
    assert_eq!(
        String::from_utf8(first.gsa.unwrap()).unwrap(),
        "$GPGSA,A,3,01,02,03,04,05,06,07,08,09,10,11,12,1.0,1.0,1.0*30\r\n"
    );
    assert!(String::from_utf8(first.gga).unwrap().starts_with("$GPGGA,"));
    assert!(String::from_utf8(first.rmc).unwrap().starts_with("$GPRMC,"));
    assert_eq!(com.last_mid_gsa, Some(first.now_ms));
}

#[test]
fn gsa_cadence_is_at_most_once_a_second() {
    let com = Com { last_mid_gsa: Some(10_000) };
    assert!(!com.should_send_mid_gsa(10_010));
    assert!(!com.should_send_mid_gsa(10_999));
    assert!(com.should_send_mid_gsa(11_000));
    assert!(com.should_send_mid_gsa(12_345));
    assert!(!com.should_send_mid_gsa(9_000));
    assert!(Com::new().should_send_mid_gsa(i64::MIN));
}
