use vstd::prelude::*;

verus! {

use crate::system::messages::{GetStatusMessage, GetStatusResponseMessage, RefreshRate};
use crate::system::simconnect_objects::{AirportData, GpsData, OnGround};

/// Heartbeat freshness window: a heartbeat older than this many seconds
/// means the telemetry source is wedged.
pub const SIMCONNECT_TIMEOUT_S: u64 = 15;

/// The freshness window in milliseconds.
pub const SIMCONNECT_TIMEOUT_MS: i64 = 15_000;

/// Least time between two forwarded position fixes: the dedup policy that
/// protects slower transports from saturation.
pub const DEDUP_INTERVAL_MS: i64 = 100;

/// Sleep between two driver polls in fast mode, in milliseconds.
pub const FAST_POLL_DELAY_MS: u64 = 20;

/// Sleep between two driver polls in slow mode, in milliseconds.
pub const SLOW_POLL_DELAY_MS: u64 = 200;

/// Registration-time shape identifier of the position-fix record.
pub const GPS_DATA_REQUEST_ID: u32 = 0;

/// Registration-time shape identifier of the ground-contact record.
pub const ON_GROUND_REQUEST_ID: u32 = 1;

/// Registration-time identifier of the airport-facility subscription.
pub const AIRPORT_LIST_REQUEST_ID: u32 = 2;

/// A simulator client event that can be registered with the driver.
#[derive(Debug, Clone, Copy, PartialEq, Eq, Structural)]
pub enum Event {
    Brakes,
    BrakesLeft,
    AxisLeftBrakeSet,
}

impl Event {
    /// The driver-side name of the event.
    pub fn name(&self) -> (r: &'static str)
        ensures
            self is Brakes ==> r@ == "BRAKES"@,
            self is BrakesLeft ==> r@ == "BRAKES_LEFT"@,
            self is AxisLeftBrakeSet ==> r@ == "AXIS_LEFT_BRAKE_SET"@,
    {
        match self {
            Event::Brakes => "BRAKES",
            Event::BrakesLeft => "BRAKES_LEFT",
            Event::AxisLeftBrakeSet => "AXIS_LEFT_BRAKE_SET",
        }
    }
}

/// How often the driver should emit a subscribed record.
#[derive(Debug, Clone, Copy, PartialEq, Eq, Structural)]
pub enum PeriodEnum {
    VisualFrame { interval: u32 },
    Second,
}

/// When the driver should emit a subscribed record: on every period, or
/// only when the value changed.
#[derive(Debug, Clone, Copy, PartialEq, Eq, Structural)]
pub enum ConditionEnum {
    Always,
    Changed,
}

/// A driver record already decoded into plain values; the shape identifier
/// it arrived under travels beside it and is checked on dispatch.
#[derive(Debug, Clone)]
pub enum DataPayload {
    Gps(GpsData),
    Ground(OnGround),
}

/// One notification from the driver session.
#[derive(Debug, Clone)]
pub enum Notification {
    Open,
    Event(Event),
    Data(u32, DataPayload),
    AirportList(Vec<AirportData>),
    SystemEvent,
    Quit,
    Exception(u32),
}

/// What the telemetry source asks the runtime to do in answer to one
/// notification, in order.
#[derive(Debug, Clone)]
pub enum SimConnectAction {
    RegisterGpsData { request_id: u32 },
    RequestGpsData { request_id: u32, period: PeriodEnum, condition: ConditionEnum },
    RegisterOnGround { request_id: u32 },
    RequestOnGroundData { request_id: u32, period: PeriodEnum, condition: ConditionEnum },
    SubscribeAirportList { request_id: u32 },
    SubscribeSystemTick,
    Ping,
    ForwardGpsToBroadcaster(GpsData),
    ForwardGpsToLandingDetection(GpsData),
    ForwardOnGroundToLandingDetection(OnGround),
    ForwardAirportListToLandingDetection(Vec<AirportData>),
    Stop,
}

/// Whether a position fix arriving at `now_ms` may be forwarded: always
/// when none was forwarded yet, else only when at least
/// `DEDUP_INTERVAL_MS` has passed since the previous forward.
pub open spec fn spec_should_forward(last_forward: Option<i64>, now_ms: i64) -> bool {
    match last_forward {
        Option::None => true,
        Option::Some(l) => now_ms - l >= DEDUP_INTERVAL_MS,
    }
}

/// Whether a heartbeat seen at `last_ping` is still fresh at `now_ms`:
/// never without a heartbeat, else when less than the freshness window has
/// passed (a clock that moved backwards counts as fresh).
pub open spec fn spec_heartbeat_fresh(last_ping: Option<i64>, now_ms: i64) -> bool {
    match last_ping {
        Option::None => false,
        Option::Some(l) => now_ms < l || now_ms - l < SIMCONNECT_TIMEOUT_MS,
    }
}

/// The telemetry source: owns the driver session's decisions.  The runtime
/// polls the driver, hands each notification (with the clock) to
/// `handle_notification`, and performs the returned actions.
#[derive(Debug, Clone, Copy, PartialEq, Eq, Structural)]
pub struct SimConnectActor {
    pub refresh_rate: RefreshRate,
    pub landing_detection_enabled: bool,
    pub last_ping: Option<i64>,
    pub last_forward: Option<i64>,
}

impl SimConnectActor {
    /// The driver subscription period that the cadence mode asks for.
    pub open spec fn spec_period(self) -> PeriodEnum {
        match self.refresh_rate {
            RefreshRate::Fast => PeriodEnum::VisualFrame { interval: 5 },
            RefreshRate::Slow => PeriodEnum::Second,
        }
    }

    /// What one driver notification does to the state, and the actions it
    /// triggers, in order.
    pub open spec fn spec_step(self, n: Notification, now_ms: i64) -> (SimConnectActor, Seq<
        SimConnectAction,
    >) {
        match n {
            Notification::Open => (self, self.spec_open_actions()),
            Notification::Quit => (self, seq![SimConnectAction::Stop]),
            Notification::Event(e) => (self, Seq::empty()),
            Notification::Data(shape, DataPayload::Gps(d)) => {
                if shape == GPS_DATA_REQUEST_ID {
                    if spec_should_forward(self.last_forward, now_ms) {
                        (
                            SimConnectActor { last_forward: Option::Some(now_ms), ..self },
                            seq![SimConnectAction::ForwardGpsToBroadcaster(d)] + if self.landing_detection_enabled {
                                seq![SimConnectAction::ForwardGpsToLandingDetection(d)]
                            } else {
                                Seq::empty()
                            },
                        )
                    } else {
                        (self, Seq::empty())
                    }
                } else {
                    (self, Seq::empty())
                }
            },
            Notification::Data(shape, DataPayload::Ground(g)) => {
                if shape == ON_GROUND_REQUEST_ID {
                    (self, seq![SimConnectAction::ForwardOnGroundToLandingDetection(g)])
                } else {
                    (self, Seq::empty())
                }
            },
            Notification::AirportList(a) => (
                self,
                seq![SimConnectAction::ForwardAirportListToLandingDetection(a)],
            ),
            Notification::SystemEvent => (self, seq![SimConnectAction::Ping]),
            Notification::Exception(code) => (self, Seq::empty()),
        }
    }

    /// The registrations made on the driver's `Open` notification: the
    /// position-fix shape always; the ground-contact shape and the airport
    /// subscription only with ground detection on; then the periodic system
    /// tick, and a first heartbeat.
    pub open spec fn spec_open_actions(self) -> Seq<SimConnectAction> {
        seq![
            SimConnectAction::RegisterGpsData { request_id: GPS_DATA_REQUEST_ID },
            SimConnectAction::RequestGpsData {
                request_id: GPS_DATA_REQUEST_ID,
                period: self.spec_period(),
                condition: ConditionEnum::Always,
            },
        ] + (if self.landing_detection_enabled {
            seq![
                SimConnectAction::RegisterOnGround { request_id: ON_GROUND_REQUEST_ID },
                SimConnectAction::RequestOnGroundData {
                    request_id: ON_GROUND_REQUEST_ID,
                    period: self.spec_period(),
                    condition: ConditionEnum::Changed,
                },
                SimConnectAction::SubscribeAirportList { request_id: AIRPORT_LIST_REQUEST_ID },
            ]
        } else {
            Seq::empty()
        }) + seq![SimConnectAction::SubscribeSystemTick, SimConnectAction::Ping]
    }

    /// A source that has not yet heard from the driver.
    pub fn new(refresh_rate: RefreshRate, landing_detection_enabled: bool) -> (s: SimConnectActor)
        ensures
            s == (SimConnectActor {
                refresh_rate,
                landing_detection_enabled,
                last_ping: Option::<i64>::None,
                last_forward: Option::<i64>::None,
            }),
    {
        SimConnectActor { refresh_rate, landing_detection_enabled, last_ping: None, last_forward: None }
    }

    /// The driver subscription period for the configured cadence.
    pub fn period(&self) -> (p: PeriodEnum)
        ensures
            p == self.spec_period(),
    {
        match self.refresh_rate {
            RefreshRate::Fast => PeriodEnum::VisualFrame { interval: 5 },
            RefreshRate::Slow => PeriodEnum::Second,
        }
    }

    /// Sleep between two driver polls for the configured cadence.
    pub fn poll_delay_ms(&self) -> (d: u64)
        ensures
            self.refresh_rate is Fast ==> d == FAST_POLL_DELAY_MS,
            self.refresh_rate is Slow ==> d == SLOW_POLL_DELAY_MS,
    {
        if matches!(self.refresh_rate, RefreshRate::Fast) {
            FAST_POLL_DELAY_MS
        } else {
            SLOW_POLL_DELAY_MS
        }
    }

    /// Dispatch one driver notification: decode by shape, apply the dedup
    /// policy to position fixes, and answer with the actions to perform.
    pub fn handle_notification(&mut self, n: Notification, now_ms: i64) -> (actions: Vec<
        SimConnectAction,
    >)
        ensures
            *final (self) == old(self).spec_step(n, now_ms).0,
            actions@ == old(self).spec_step(n, now_ms).1,
    {
        let mut actions: Vec<SimConnectAction> = Vec::new();
        match n {
            Notification::Open => {
                actions.push(SimConnectAction::RegisterGpsData { request_id: GPS_DATA_REQUEST_ID });
                actions.push(
                    SimConnectAction::RequestGpsData {
                        request_id: GPS_DATA_REQUEST_ID,
                        period: self.period(),
                        condition: ConditionEnum::Always,
                    },
                );
                if self.landing_detection_enabled {
                    actions.push(
                        SimConnectAction::RegisterOnGround { request_id: ON_GROUND_REQUEST_ID },
                    );
                    actions.push(
                        SimConnectAction::RequestOnGroundData {
                            request_id: ON_GROUND_REQUEST_ID,
                            period: self.period(),
                            condition: ConditionEnum::Changed,
                        },
                    );
                    actions.push(
                        SimConnectAction::SubscribeAirportList {
                            request_id: AIRPORT_LIST_REQUEST_ID,
                        },
                    );
                }
                actions.push(SimConnectAction::SubscribeSystemTick);
                actions.push(SimConnectAction::Ping);
                assert(actions@ =~= self.spec_open_actions());
            },
            Notification::Quit => {
                actions.push(SimConnectAction::Stop);
                assert(actions@ =~= self.spec_step(n, now_ms).1);
            },
            Notification::Event(_) => {},
            Notification::Data(shape, DataPayload::Gps(d)) => {
                if shape == GPS_DATA_REQUEST_ID && self.should_forward(now_ms) {
                    self.last_forward = Some(now_ms);
                    actions.push(SimConnectAction::ForwardGpsToBroadcaster(d));
                    if self.landing_detection_enabled {
                        actions.push(SimConnectAction::ForwardGpsToLandingDetection(d));
                    }
                    assert(actions@ =~= old(self).spec_step(n, now_ms).1);
                }
            },
            Notification::Data(shape, DataPayload::Ground(g)) => {
                if shape == ON_GROUND_REQUEST_ID {
                    actions.push(SimConnectAction::ForwardOnGroundToLandingDetection(g));
                    assert(actions@ =~= old(self).spec_step(n, now_ms).1);
                }
            },
            Notification::AirportList(a) => {
                actions.push(SimConnectAction::ForwardAirportListToLandingDetection(a));
                assert(actions@ =~= old(self).spec_step(n, now_ms).1);
            },
            Notification::SystemEvent => {
                actions.push(SimConnectAction::Ping);
                assert(actions@ =~= old(self).spec_step(n, now_ms).1);
            },
            Notification::Exception(_) => {},
        }
        actions
    }

    /// Whether a position fix arriving at `now_ms` passes the dedup policy.
    pub fn should_forward(&self, now_ms: i64) -> (b: bool)
        ensures
            b == spec_should_forward(self.last_forward, now_ms),
    {
        match self.last_forward {
            None => true,
            Some(l) => (now_ms as i128) - (l as i128) >= DEDUP_INTERVAL_MS as i128,
        }
    }

    /// Refresh the heartbeat: a ping was received at `now_ms`.
    pub fn handle_ping(&mut self, now_ms: i64)
        ensures
            *final (self) == (SimConnectActor { last_ping: Option::Some(now_ms), ..*old(self) }),
    {
        self.last_ping = Some(now_ms);
    }

    /// Whether the last heartbeat is still fresh at `now_ms`.
    pub fn heartbeat_fresh(&self, now_ms: i64) -> (b: bool)
        ensures
            b == spec_heartbeat_fresh(self.last_ping, now_ms),
    {
        match self.last_ping {
            None => false,
            Some(l) => {
                (now_ms as i128) < (l as i128) || (now_ms as i128) - (l as i128)
                    < SIMCONNECT_TIMEOUT_MS as i128
            },
        }
    }

    /// Answer a health query from the heartbeat's freshness at `now_ms`.
    pub fn handle_get_status(&self, message: GetStatusMessage, now_ms: i64) -> (r:
        GetStatusResponseMessage)
        ensures
            r.context == message.context,
            r.status == spec_heartbeat_fresh(self.last_ping, now_ms),
    {
        GetStatusResponseMessage {
            context: message.context,
            status: self.heartbeat_fresh(now_ms),
        }
    }
}

/// Law: of two position fixes of the right shape, the second one arriving
/// within the dedup window is dropped, and one arriving at or past the
/// window is forwarded again — whatever the cadence of the driver.
pub proof fn lemma_dedup_policy(s: SimConnectActor, d1: GpsData, d2: GpsData, t1: i64, t2: i64)
    ensures
        ({
            let (s1, a1) = s.spec_step(
                Notification::Data(GPS_DATA_REQUEST_ID, DataPayload::Gps(d1)),
                t1,
            );
            let (s2, a2) = s1.spec_step(
                Notification::Data(GPS_DATA_REQUEST_ID, DataPayload::Gps(d2)),
                t2,
            );
            &&& spec_should_forward(s.last_forward, t1) ==> {
                &&& a1[0] == SimConnectAction::ForwardGpsToBroadcaster(d1)
                &&& s1.last_forward == Option::Some(t1)
                &&& (t2 - t1 < DEDUP_INTERVAL_MS ==> a2 =~= Seq::<SimConnectAction>::empty())
                &&& (t2 - t1 >= DEDUP_INTERVAL_MS ==> a2[0]
                    == SimConnectAction::ForwardGpsToBroadcaster(d2))
            }
            &&& !spec_should_forward(s.last_forward, t1) ==> a1 =~= Seq::<SimConnectAction>::empty()
        }),
{
}

} // verus!
