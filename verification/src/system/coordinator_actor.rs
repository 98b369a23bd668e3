use vstd::prelude::*;

verus! {

use crate::broadcaster::config::BroadcasterConfig;
use crate::system::messages::{CoordinatorMessage, GetStatusMessage, RefreshRate};
use crate::system::simconnect_actor::{SIMCONNECT_TIMEOUT_MS, SimConnectActor, spec_heartbeat_fresh};

/// Which of the coordinator's current children the runtime reports alive.
#[derive(Debug, Clone, Copy, PartialEq, Eq, Structural)]
pub struct ChildLiveness {
    pub broadcaster: bool,
    pub landing_detection: bool,
    pub simconnect: bool,
}

/// What the coordinator asks the runtime to do in answer to one command,
/// in order.  Handles name children: stopping always precedes spawning.
#[derive(Debug, Clone)]
pub enum CoordinatorAction {
    StopChild { handle: u64 },
    SpawnBroadcaster { handle: u64, config: BroadcasterConfig },
    SpawnLandingDetection { handle: u64 },
    SpawnSimConnect { handle: u64, refresh_rate: RefreshRate, landing_detection_enabled: bool },
    QuerySimConnectHeartbeat { handle: u64 },
    FetchAvailableComPorts,
    Reply { status: bool },
}

/// The single authority over whether the pipeline is active.  Idle holds no
/// child handles; Running holds one handle for each of the three children.
/// `next_handle` never repeats a handle: every spawned generation is fresh.
#[derive(Debug, Clone, Copy, PartialEq, Eq, Structural)]
pub struct CoordinatorActor {
    pub next_handle: u64,
    pub broadcaster_addr: Option<u64>,
    pub landing_detection_addr: Option<u64>,
    pub simconnect_addr: Option<u64>,
}

impl CoordinatorActor {
    /// Either no children at all or all three, and every held handle was
    /// issued below the counter.
    pub open spec fn wf(self) -> bool {
        &&& (self.broadcaster_addr is Some <==> self.landing_detection_addr is Some)
        &&& (self.broadcaster_addr is Some <==> self.simconnect_addr is Some)
        &&& (self.broadcaster_addr is Some ==> self.broadcaster_addr->0 < self.next_handle)
        &&& (self.landing_detection_addr is Some ==> self.landing_detection_addr->0
            < self.next_handle)
        &&& (self.simconnect_addr is Some ==> self.simconnect_addr->0 < self.next_handle)
    }

    /// Whether a full generation of children is held.
    pub open spec fn spec_running(self) -> bool {
        self.broadcaster_addr is Some
    }

    /// The best-effort stop orders for the current children: one for each
    /// held and still-connected child, in spawn order.
    pub open spec fn spec_stop_actions(self, live: ChildLiveness) -> Seq<CoordinatorAction> {
        (match self.broadcaster_addr {
            Option::Some(h) => if live.broadcaster {
                seq![CoordinatorAction::StopChild { handle: h }]
            } else {
                Seq::empty()
            },
            Option::None => Seq::empty(),
        }) + (match self.landing_detection_addr {
            Option::Some(h) => if live.landing_detection {
                seq![CoordinatorAction::StopChild { handle: h }]
            } else {
                Seq::empty()
            },
            Option::None => Seq::empty(),
        }) + (match self.simconnect_addr {
            Option::Some(h) => if live.simconnect {
                seq![CoordinatorAction::StopChild { handle: h }]
            } else {
                Seq::empty()
            },
            Option::None => Seq::empty(),
        })
    }

    /// What one command does to the coordinator, and the actions it
    /// triggers, in order.
    ///
    /// `Start` first retires the whole current generation, then spawns a
    /// fresh one (ground detection stays off: that upstream feature is
    /// accepted but never acted on).  `Stop` retires the current generation
    /// and goes Idle; it is idempotent.  `Status` replies down at once
    /// unless all three children are held and alive, in which case the
    /// heartbeat check is delegated to the telemetry source.
    pub open spec fn spec_handle(self, message: CoordinatorMessage, live: ChildLiveness) -> (
        CoordinatorActor,
        Seq<CoordinatorAction>,
    ) {
        match message {
            CoordinatorMessage::GetAvailableComPorts { context } => (
                self,
                seq![CoordinatorAction::FetchAvailableComPorts],
            ),
            CoordinatorMessage::Start { context, refresh_rate, config } => (
                CoordinatorActor {
                    next_handle: (self.next_handle + 3) as u64,
                    broadcaster_addr: Option::Some(self.next_handle),
                    landing_detection_addr: Option::Some((self.next_handle + 1) as u64),
                    simconnect_addr: Option::Some((self.next_handle + 2) as u64),
                },
                self.spec_stop_actions(live) + seq![
                    CoordinatorAction::SpawnBroadcaster { handle: self.next_handle, config },
                    CoordinatorAction::SpawnLandingDetection {
                        handle: (self.next_handle + 1) as u64,
                    },
                    CoordinatorAction::SpawnSimConnect {
                        handle: (self.next_handle + 2) as u64,
                        refresh_rate,
                        landing_detection_enabled: false,
                    },
                ],
            ),
            CoordinatorMessage::Stop { context } => (
                CoordinatorActor {
                    next_handle: self.next_handle,
                    broadcaster_addr: Option::None,
                    landing_detection_addr: Option::None,
                    simconnect_addr: Option::None,
                },
                self.spec_stop_actions(live),
            ),
            CoordinatorMessage::Status(m) => {
                if self.spec_running() && live.broadcaster && live.landing_detection
                    && live.simconnect {
                    (
                        self,
                        seq![
                            CoordinatorAction::QuerySimConnectHeartbeat {
                                handle: self.simconnect_addr->0,
                            },
                        ],
                    )
                } else {
                    (self, seq![CoordinatorAction::Reply { status: false }])
                }
            },
        }
    }

    /// A coordinator with no children yet.
    pub fn new() -> (c: CoordinatorActor)
        ensures
            c == (CoordinatorActor {
                next_handle: 0u64,
                broadcaster_addr: Option::<u64>::None,
                landing_detection_addr: Option::<u64>::None,
                simconnect_addr: Option::<u64>::None,
            }),
            c.wf(),
            !c.spec_running(),
    {
        CoordinatorActor {
            next_handle: 0,
            broadcaster_addr: None,
            landing_detection_addr: None,
            simconnect_addr: None,
        }
    }

    /// Handle one command, given which current children the runtime still
    /// reports alive, and answer with the actions to perform in order.
    pub fn handle(&mut self, message: CoordinatorMessage, live: ChildLiveness) -> (actions: Vec<
        CoordinatorAction,
    >)
        requires
            old(self).wf(),
            old(self).next_handle + 3 <= u64::MAX,
        ensures
            *final (self) == old(self).spec_handle(message, live).0,
            actions@ == old(self).spec_handle(message, live).1,
            final (self).wf(),
    {
        match message {
            CoordinatorMessage::GetAvailableComPorts { context } => {
                let mut actions: Vec<CoordinatorAction> = Vec::new();
                actions.push(CoordinatorAction::FetchAvailableComPorts);
                assert(actions@ =~= old(self).spec_handle(message, live).1);
                actions
            },
            CoordinatorMessage::Start { context, refresh_rate, config } => {
                let mut actions = self.stop_actions(live);
                let h0 = self.next_handle;
                actions.push(CoordinatorAction::SpawnBroadcaster { handle: h0, config });
                actions.push(CoordinatorAction::SpawnLandingDetection { handle: h0 + 1 });
                actions.push(
                    CoordinatorAction::SpawnSimConnect {
                        handle: h0 + 2,
                        refresh_rate,
                        landing_detection_enabled: false,
                    },
                );
                self.broadcaster_addr = Some(h0);
                self.landing_detection_addr = Some(h0 + 1);
                self.simconnect_addr = Some(h0 + 2);
                self.next_handle = h0 + 3;
                assert(actions@ =~= old(self).spec_handle(message, live).1);
                actions
            },
            CoordinatorMessage::Stop { context } => {
                let actions = self.stop_actions(live);
                self.broadcaster_addr = None;
                self.landing_detection_addr = None;
                self.simconnect_addr = None;
                actions
            },
            CoordinatorMessage::Status(m) => {
                let mut actions: Vec<CoordinatorAction> = Vec::new();
                let all_live = live.broadcaster && live.landing_detection && live.simconnect;
                match self.simconnect_addr {
                    Some(h) if all_live => {
                        actions.push(CoordinatorAction::QuerySimConnectHeartbeat { handle: h });
                    },
                    _ => {
                        actions.push(CoordinatorAction::Reply { status: false });
                    },
                }
                assert(actions@ =~= old(self).spec_handle(message, live).1);
                actions
            },
        }
    }

    /// The best-effort stop orders for the current children.
    fn stop_actions(&self, live: ChildLiveness) -> (actions: Vec<CoordinatorAction>)
        ensures
            actions@ == self.spec_stop_actions(live),
    {
        let mut actions: Vec<CoordinatorAction> = Vec::new();
        match self.broadcaster_addr {
            Some(h) if live.broadcaster => {
                actions.push(CoordinatorAction::StopChild { handle: h });
            },
            _ => {},
        }
        match self.landing_detection_addr {
            Some(h) if live.landing_detection => {
                actions.push(CoordinatorAction::StopChild { handle: h });
            },
            _ => {},
        }
        match self.simconnect_addr {
            Some(h) if live.simconnect => {
                actions.push(CoordinatorAction::StopChild { handle: h });
            },
            _ => {},
        }
        assert(actions@ =~= self.spec_stop_actions(live));
        actions
    }
}

/// Law: a `Start` issued while the pipeline runs fully retires the old
/// generation first — every stop order precedes every spawn order — and the
/// new generation is fresh: no retired handle equals a spawned one, and the
/// coordinator afterwards holds exactly the three new handles.
pub proof fn lemma_start_retires_before_spawn(
    c: CoordinatorActor,
    context: crate::system::messages::RequestContext,
    refresh_rate: RefreshRate,
    config: BroadcasterConfig,
    live: ChildLiveness,
)
    requires
        c.wf(),
        c.next_handle + 3 <= u64::MAX,
    ensures
        ({
            let m = CoordinatorMessage::Start { context, refresh_rate, config };
            let (c2, acts) = c.spec_handle(m, live);
            let stops = c.spec_stop_actions(live);
            &&& acts.len() == stops.len() + 3
            &&& forall|i: int| 0 <= i < stops.len() ==> acts[i] is StopChild
            &&& forall|i: int| stops.len() <= i < acts.len() ==> !(acts[i] is StopChild)
            &&& forall|i: int|
                0 <= i < stops.len() ==> (#[trigger] acts[i])->StopChild_handle < c.next_handle
            &&& acts[stops.len() as int] == CoordinatorAction::SpawnBroadcaster {
                handle: c.next_handle,
                config,
            }
            &&& acts[stops.len() as int + 1] == CoordinatorAction::SpawnLandingDetection {
                handle: (c.next_handle + 1) as u64,
            }
            &&& acts[stops.len() as int + 2] == CoordinatorAction::SpawnSimConnect {
                handle: (c.next_handle + 2) as u64,
                refresh_rate,
                landing_detection_enabled: false,
            }
            &&& c2.broadcaster_addr == Option::Some(c.next_handle)
            &&& c2.landing_detection_addr == Option::Some((c.next_handle + 1) as u64)
            &&& c2.simconnect_addr == Option::Some((c.next_handle + 2) as u64)
            &&& c2.wf()
        }),
{
    let m = CoordinatorMessage::Start { context, refresh_rate, config };
    let (c2, acts) = c.spec_handle(m, live);
    let stops = c.spec_stop_actions(live);
    assert forall|i: int| 0 <= i < stops.len() implies acts[i] is StopChild && (
    #[trigger] acts[i])->StopChild_handle < c.next_handle by {
        assert(acts[i] == stops[i]);
        lemma_stop_actions_are_old_handles(c, live, i);
    }
}

/// Every stop order of `spec_stop_actions` names a handle the coordinator
/// currently holds, hence one issued below the counter.
proof fn lemma_stop_actions_are_old_handles(c: CoordinatorActor, live: ChildLiveness, i: int)
    requires
        c.wf(),
        0 <= i < c.spec_stop_actions(live).len(),
    ensures
        c.spec_stop_actions(live)[i] is StopChild,
        c.spec_stop_actions(live)[i]->StopChild_handle < c.next_handle,
{
}

/// Law: `Stop` is idempotent: it always leaves the coordinator Idle, and a
/// second `Stop` changes nothing and orders nothing.
pub proof fn lemma_stop_idempotent(
    c: CoordinatorActor,
    ctx1: crate::system::messages::RequestContext,
    ctx2: crate::system::messages::RequestContext,
    live1: ChildLiveness,
    live2: ChildLiveness,
)
    ensures
        ({
            let (c1, acts1) = c.spec_handle(CoordinatorMessage::Stop { context: ctx1 }, live1);
            let (c2, acts2) = c1.spec_handle(CoordinatorMessage::Stop { context: ctx2 }, live2);
            &&& !c1.spec_running()
            &&& c2 == c1
            &&& acts2 =~= Seq::<CoordinatorAction>::empty()
        }),
{
}

/// Law: `Status` before any `Start` is answered down at once.
pub proof fn lemma_status_down_when_idle(
    c: CoordinatorActor,
    m: GetStatusMessage,
    live: ChildLiveness,
)
    requires
        !c.spec_running() || !(live.broadcaster && live.landing_detection && live.simconnect),
    ensures
        c.spec_handle(CoordinatorMessage::Status(m), live).1 =~= seq![
            CoordinatorAction::Reply { status: false },
        ],
        c.spec_handle(CoordinatorMessage::Status(m), live).0 == c,
{
}

/// Law: `Status` with a full, live generation is delegated to the telemetry
/// source, and the answer is up exactly while the heartbeat is fresh: up
/// shortly after a heartbeat, down once the window has elapsed with no new
/// ticks — even though the children remain alive — and down before any
/// heartbeat was recorded.
pub proof fn lemma_status_tracks_heartbeat(
    c: CoordinatorActor,
    m: GetStatusMessage,
    live: ChildLiveness,
    source: SimConnectActor,
    now_ms: i64,
)
    requires
        c.spec_running(),
        live.broadcaster && live.landing_detection && live.simconnect,
    ensures
        c.spec_handle(CoordinatorMessage::Status(m), live).1 =~= seq![
            CoordinatorAction::QuerySimConnectHeartbeat { handle: c.simconnect_addr->0 },
        ],
        source.last_ping is None ==> !spec_heartbeat_fresh(source.last_ping, now_ms),
        source.last_ping matches Option::Some(l) && 0 <= now_ms - l < SIMCONNECT_TIMEOUT_MS as int
            ==> spec_heartbeat_fresh(source.last_ping, now_ms),
        source.last_ping matches Option::Some(l) && now_ms - l >= SIMCONNECT_TIMEOUT_MS as int
            ==> !spec_heartbeat_fresh(source.last_ping, now_ms),
{
}

} // verus!
