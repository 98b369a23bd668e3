use gps_link::broadcaster::config::{BroadcasterConfig, ComConfig, UdpConfig};
use gps_link::system::broadcaster_actor::{Broadcaster, BroadcastOutput, BroadcasterActor};
use gps_link::system::coordinator_actor::{ChildLiveness, CoordinatorAction, CoordinatorActor};
use gps_link::system::landing_detection_actor::{GroundEvent, LandingDetectionActor};
use gps_link::system::messages::{
    CoordinatorMessage, GetStatusMessage, RefreshRate, RequestContext, SimConnectDataMessage,
};
use gps_link::system::simconnect_actor::{
    ConditionEnum, DataPayload, Event, Notification, PeriodEnum, SimConnectAction, SimConnectActor,
    GPS_DATA_REQUEST_ID, ON_GROUND_REQUEST_ID,
};
use gps_link::system::simconnect_objects::{AirportData, GpsData, OnGround};

fn ctx() -> RequestContext {
    RequestContext { id: 7 }
}

fn sample_fix(lat: i64) -> GpsData {
    GpsData {
        lat,
        lon: 20_000_000_000,
        alt: 1_000_000,
        pressure_altitude: 30_000,
        gps_ground_magnetic_track: 3_155_500,
        gps_magnetic_variation: 50_000,
        gps_ground_speed: 1_005_000,
    }
}

fn udp_config() -> BroadcasterConfig {
    BroadcasterConfig::Udp(UdpConfig { port: 49002, netmask: "255.255.255.255".to_string() })
}

fn all_live() -> ChildLiveness {
    ChildLiveness { broadcaster: true, landing_detection: true, simconnect: true }
}

#[test]
fn status_before_any_start_replies_down() {
    let mut c = CoordinatorActor::new();
    let actions = c.handle(
        CoordinatorMessage::Status(GetStatusMessage { context: ctx() }),
        ChildLiveness { broadcaster: false, landing_detection: false, simconnect: false },
    );
    assert!(matches!(actions[..], [CoordinatorAction::Reply { status: false }]));
}

#[test]
fn start_spawns_a_full_generation() {
    let mut c = CoordinatorActor::new();
    let actions = c.handle(
        CoordinatorMessage::Start {
            context: ctx(),
            refresh_rate: RefreshRate::Fast,
            config: udp_config(),
        },
        all_live(),
    );
    assert_eq!(actions.len(), 3);
    assert!(matches!(actions[0], CoordinatorAction::SpawnBroadcaster { handle: 0, .. }));
    assert!(matches!(actions[1], CoordinatorAction::SpawnLandingDetection { handle: 1 }));
    assert!(matches!(
        actions[2],
        CoordinatorAction::SpawnSimConnect {
            handle: 2,
            refresh_rate: RefreshRate::Fast,
            landing_detection_enabled: false,
        }
    ));
    assert_eq!(c.broadcaster_addr, Some(0));
    assert_eq!(c.landing_detection_addr, Some(1));
    assert_eq!(c.simconnect_addr, Some(2));
}

#[test]
fn start_while_running_retires_the_old_generation_first() {
    let mut c = CoordinatorActor::new();
    let start = |context| CoordinatorMessage::Start {
        context,
        refresh_rate: RefreshRate::Slow,
        config: udp_config(),
    };
    c.handle(start(ctx()), all_live());
    let actions = c.handle(start(ctx()), all_live());
    // Three stops for the old handles, strictly before the three spawns.
    assert_eq!(actions.len(), 6);
    assert!(matches!(actions[0], CoordinatorAction::StopChild { handle: 0 }));
    assert!(matches!(actions[1], CoordinatorAction::StopChild { handle: 1 }));
    assert!(matches!(actions[2], CoordinatorAction::StopChild { handle: 2 }));
    assert!(matches!(actions[3], CoordinatorAction::SpawnBroadcaster { handle: 3, .. }));
    assert!(matches!(actions[4], CoordinatorAction::SpawnLandingDetection { handle: 4 }));
    assert!(matches!(actions[5], CoordinatorAction::SpawnSimConnect { handle: 5, .. }));
    // The new generation's handles never repeat the old ones.
    assert_eq!(c.broadcaster_addr, Some(3));
    assert_eq!(c.landing_detection_addr, Some(4));
    assert_eq!(c.simconnect_addr, Some(5));
}

#[test]
fn stop_is_idempotent_and_clears_handles() {
    let mut c = CoordinatorActor::new();
    c.handle(
        CoordinatorMessage::Start {
            context: ctx(),
            refresh_rate: RefreshRate::Fast,
            config: udp_config(),
        },
        all_live(),
    );
    let actions = c.handle(CoordinatorMessage::Stop { context: ctx() }, all_live());
    assert_eq!(actions.len(), 3);
    assert!(actions.iter().all(|a| matches!(a, CoordinatorAction::StopChild { .. })));
    assert_eq!(c.broadcaster_addr, None);
    let again = c.handle(CoordinatorMessage::Stop { context: ctx() }, all_live());
    assert!(again.is_empty());
}

#[test]
fn status_with_live_generation_delegates_the_heartbeat_check() {
    let mut c = CoordinatorActor::new();
    c.handle(
        CoordinatorMessage::Start {
            context: ctx(),
            refresh_rate: RefreshRate::Fast,
            config: udp_config(),
        },
        all_live(),
    );
    let actions = c.handle(
        CoordinatorMessage::Status(GetStatusMessage { context: ctx() }),
        all_live(),
    );
    assert!(matches!(actions[..], [CoordinatorAction::QuerySimConnectHeartbeat { handle: 2 }]));
    // A dead child short-circuits to a down reply.
    let actions = c.handle(
        CoordinatorMessage::Status(GetStatusMessage { context: ctx() }),
        ChildLiveness { broadcaster: true, landing_detection: false, simconnect: true },
    );
    assert!(matches!(actions[..], [CoordinatorAction::Reply { status: false }]));
}

#[test]
fn heartbeat_freshness_follows_the_window() {
    let mut s = SimConnectActor::new(RefreshRate::Fast, false);
    // No heartbeat ever recorded: unhealthy.
    assert!(!s.heartbeat_fresh(0));
    s.handle_ping(100_000);
    assert!(s.heartbeat_fresh(100_000));
    assert!(s.heartbeat_fresh(114_999));
    // The window elapsed with no new ticks: down although still alive.
    assert!(!s.heartbeat_fresh(115_000));
    assert!(!s.heartbeat_fresh(200_000));
    // A clock that moved backwards counts as fresh.
    assert!(s.heartbeat_fresh(99_000));
    let r = s.handle_get_status(GetStatusMessage { context: ctx() }, 114_999);
    assert!(r.status);
    let r = s.handle_get_status(GetStatusMessage { context: ctx() }, 115_000);
    assert!(!r.status);
}

#[test]
fn dedup_forwards_at_most_every_hundred_milliseconds() {
    let mut s = SimConnectActor::new(RefreshRate::Fast, false);
    let gps = |t| Notification::Data(GPS_DATA_REQUEST_ID, DataPayload::Gps(sample_fix(t)));
    // Two notifications 10 ms apart: exactly one forwarded snapshot.
    let a1 = s.handle_notification(gps(1), 1_000);
    assert_eq!(a1.len(), 1);
    assert!(matches!(a1[0], SimConnectAction::ForwardGpsToBroadcaster(d) if d.lat == 1));
    let a2 = s.handle_notification(gps(2), 1_010);
    assert!(a2.is_empty());
    // Two arriving 150 ms apart: both forwarded.
    let a3 = s.handle_notification(gps(3), 1_150);
    assert_eq!(a3.len(), 1);
    assert!(matches!(a3[0], SimConnectAction::ForwardGpsToBroadcaster(d) if d.lat == 3));
}

#[test]
fn open_registers_position_shape_then_ticks() {
    let mut s = SimConnectActor::new(RefreshRate::Fast, false);
    let actions = s.handle_notification(Notification::Open, 0);
    assert_eq!(actions.len(), 4);
    assert!(matches!(actions[0], SimConnectAction::RegisterGpsData { request_id: 0 }));
    assert!(matches!(
        actions[1],
        SimConnectAction::RequestGpsData {
            request_id: 0,
            period: PeriodEnum::VisualFrame { interval: 5 },
            condition: ConditionEnum::Always,
        }
    ));
    assert!(matches!(actions[2], SimConnectAction::SubscribeSystemTick));
    assert!(matches!(actions[3], SimConnectAction::Ping));
}

#[test]
fn open_with_ground_detection_also_subscribes_contact_and_airports() {
    let mut s = SimConnectActor::new(RefreshRate::Slow, true);
    let actions = s.handle_notification(Notification::Open, 0);
    assert_eq!(actions.len(), 7);
    assert!(matches!(actions[1], SimConnectAction::RequestGpsData {
        period: PeriodEnum::Second,
        ..
    }));
    assert!(matches!(actions[2], SimConnectAction::RegisterOnGround { request_id: 1 }));
    assert!(matches!(
        actions[3],
        SimConnectAction::RequestOnGroundData { condition: ConditionEnum::Changed, .. }
    ));
    assert!(matches!(actions[4], SimConnectAction::SubscribeAirportList { request_id: 2 }));
}

#[test]
fn mismatched_shapes_are_ignored_not_crashed() {
    let mut s = SimConnectActor::new(RefreshRate::Fast, true);
    // A ground payload under the position shape id, and the other way round.
    let a = s.handle_notification(
        Notification::Data(GPS_DATA_REQUEST_ID, DataPayload::Ground(OnGround {
            sim_on_ground: true,
        })),
        0,
    );
    assert!(a.is_empty());
    let a = s.handle_notification(
        Notification::Data(ON_GROUND_REQUEST_ID, DataPayload::Gps(sample_fix(1))),
        0,
    );
    assert!(a.is_empty());
    let a = s.handle_notification(
        Notification::Data(9, DataPayload::Gps(sample_fix(1))),
        0,
    );
    assert!(a.is_empty());
}

#[test]
fn quit_and_events_and_exceptions() {
    let mut s = SimConnectActor::new(RefreshRate::Fast, false);
    let a = s.handle_notification(Notification::Quit, 0);
    assert!(matches!(a[..], [SimConnectAction::Stop]));
    let a = s.handle_notification(Notification::Event(Event::Brakes), 0);
    assert!(a.is_empty());
    let a = s.handle_notification(Notification::Exception(3), 0);
    assert!(a.is_empty());
    let a = s.handle_notification(Notification::SystemEvent, 0);
    assert!(matches!(a[..], [SimConnectAction::Ping]));
    assert_eq!(s.poll_delay_ms(), 20);
    let slow = SimConnectActor::new(RefreshRate::Slow, false);
    assert_eq!(slow.poll_delay_ms(), 200);
    assert_eq!(Event::BrakesLeft.name(), "BRAKES_LEFT");
}

#[test]
fn takeoff_then_landing_updates_the_reference() {
    let mut a = LandingDetectionActor::new(ctx());
    let p1 = sample_fix(10);
    let p2 = sample_fix(20);
    // No position cached yet: a contact sample cannot take off.
    let ev = a.handle_on_ground(SimConnectDataMessage { context: ctx(), data: OnGround {
        sim_on_ground: false,
    }});
    assert_eq!(ev, None);
    a.handle_gps_data(SimConnectDataMessage { context: ctx(), data: p1 });
    let ev = a.handle_on_ground(SimConnectDataMessage { context: ctx(), data: OnGround {
        sim_on_ground: false,
    }});
    assert_eq!(ev, Some(GroundEvent::TakeOff));
    assert!(a.in_the_air);
    assert_eq!(a.take_off_gps_data, Some(p1));
    // A new position is cached while airborne; contact lands on it.
    a.handle_gps_data(SimConnectDataMessage { context: ctx(), data: p2 });
    let ev = a.handle_on_ground(SimConnectDataMessage { context: ctx(), data: OnGround {
        sim_on_ground: true,
    }});
    assert_eq!(ev, Some(GroundEvent::Landing));
    assert!(!a.in_the_air);
    assert_eq!(a.take_off_gps_data, Some(p2));
    // Contact while already on the ground re-arms by clearing the reference.
    let ev = a.handle_on_ground(SimConnectDataMessage { context: ctx(), data: OnGround {
        sim_on_ground: true,
    }});
    assert_eq!(ev, Some(GroundEvent::Reset));
    assert_eq!(a.take_off_gps_data, None);
    assert!(!a.in_the_air);
}

#[test]
fn airport_lists_are_stored_and_nothing_more() {
    let mut a = LandingDetectionActor::new(ctx());
    let airports = vec![AirportData { icao: "EGLL".to_string(), lat: 1, lon: 2, alt: 3 }];
    a.handle_airport_list(SimConnectDataMessage { context: ctx(), data: airports.clone() });
    assert_eq!(a.airports, airports);
    assert!(!a.in_the_air);
    assert_eq!(a.last_gps_data, None);
}

#[test]
fn broadcaster_picks_the_configured_encoder() {
    let mut b = BroadcasterActor::new(ctx(), udp_config());
    assert!(b.broadcaster.is_none());
    // No encoder yet: a forwarded reading produces nothing.
    let out = b.handle(SimConnectDataMessage { context: ctx(), data: sample_fix(1) });
    assert!(out.is_none());
    b.started();
    match &b.broadcaster {
        Some(Broadcaster::Udp(u)) => {
            assert_eq!(u.port, 49002);
            assert_eq!(u.netmask, "255.255.255.255");
            assert_eq!(u.local_port(), 49001);
        },
        _ => panic!("expected the UDP encoder"),
    }
    let out = b.handle(SimConnectDataMessage { context: ctx(), data: sample_fix(1) });
    match out {
        Some(BroadcastOutput::Udp { payload, port, netmask }) => {
            assert_eq!(port, 49002);
            assert_eq!(netmask, "255.255.255.255");
            assert!(String::from_utf8(payload).unwrap().starts_with("XGPSMSFS,"));
        },
        _ => panic!("expected a UDP payload"),
    }

    let mut b = BroadcasterActor::new(
        ctx(),
        BroadcasterConfig::Com(ComConfig { port: "COM3".to_string(), baud_rate: 9600 }),
    );
    b.started();
    let out = b.handle(SimConnectDataMessage { context: ctx(), data: sample_fix(1) });
    match out {
        Some(BroadcastOutput::Com(frame)) => {
            assert!(frame.gsa.is_some());
            assert!(String::from_utf8(frame.gga).unwrap().starts_with("$GPGGA,"));
            assert!(String::from_utf8(frame.rmc).unwrap().starts_with("$GPRMC,"));
        },
        _ => panic!("expected a serial frame"),
    }
}

#[test]
fn udp_payload_is_the_simple_broadcast_line() {
    let mut b = BroadcasterActor::new(ctx(), udp_config());
    b.started();
    let data = GpsData {
        lat: 515_098_650_000,
        lon: -1_180_920_000,
        alt: 0,
        pressure_altitude: 30_000,
        gps_ground_magnetic_track: 3_155_500,
        gps_magnetic_variation: 50_000,
        gps_ground_speed: 1_005_000,
    };
    let out = b.handle(SimConnectDataMessage { context: ctx(), data });
    match out {
        Some(BroadcastOutput::Udp { payload, .. }) => {
            // True track is the magnetic track corrected by the variation.
            assert_eq!(
                String::from_utf8(payload).unwrap(),
                "XGPSMSFS,-0.118092,51.509865,0,310.55,100.5"
            );
        },
        _ => panic!("expected a UDP payload"),
    }
}

#[test]
fn stop_before_any_start_orders_nothing() {
    let mut c = CoordinatorActor::new();
    let actions = c.handle(CoordinatorMessage::Stop { context: ctx() }, all_live());
    assert!(actions.is_empty());
    assert_eq!(c.broadcaster_addr, None);
}
