use vstd::prelude::*;

verus! {

use crate::system::messages::{RequestContext, SimConnectDataMessage};
use crate::system::simconnect_objects::{AirportData, GpsData, OnGround};

/// A ground-state transition worth reporting.
#[derive(Debug, Clone, Copy, PartialEq, Eq, Structural)]
pub enum GroundEvent {
    TakeOff,
    Landing,
    Reset,
}

/// Two-state airborne/on-ground tracker.  Ground-contact samples drive the
/// transitions; position snapshots are only cached, and the airport list is
/// accepted and stored but never acted on.
#[derive(Debug, Clone)]
pub struct LandingDetectionActor {
    pub context: RequestContext,
    pub last_gps_data: Option<GpsData>,
    pub take_off_gps_data: Option<GpsData>,
    pub in_the_air: bool,
    pub airports: Vec<AirportData>,
}

impl LandingDetectionActor {
    /// What one ground-contact sample does to the tracker, and the event it
    /// reports.
    ///
    /// On ground contact while airborne, with a current position and a
    /// take-off reference cached, the craft has landed: the reference
    /// becomes the landing position.  On contact lost while on the ground,
    /// with a position cached, the craft has taken off: the reference
    /// becomes the take-off position.  Ground contact while already on the
    /// ground re-arms the tracker by clearing the reference.  Anything else
    /// — contact before any position was cached, contact while airborne
    /// without a full cache, or contact lost while already airborne —
    /// changes nothing.
    pub open spec fn spec_on_ground_step(self, contact: bool) -> (LandingDetectionActor, Option<
        GroundEvent,
    >) {
        if contact && self.in_the_air && self.last_gps_data is Some && self.take_off_gps_data
            is Some {
            (
                LandingDetectionActor {
                    take_off_gps_data: self.last_gps_data,
                    in_the_air: false,
                    ..self
                },
                Option::Some(GroundEvent::Landing),
            )
        } else if !contact && !self.in_the_air && self.last_gps_data is Some {
            (
                LandingDetectionActor {
                    take_off_gps_data: self.last_gps_data,
                    in_the_air: true,
                    ..self
                },
                Option::Some(GroundEvent::TakeOff),
            )
        } else if contact && !self.in_the_air {
            (
                LandingDetectionActor { take_off_gps_data: Option::None, ..self },
                Option::Some(GroundEvent::Reset),
            )
        } else {
            (self, Option::None)
        }
    }

    /// A tracker in its initial state: on the ground, nothing cached.
    pub fn new(context: RequestContext) -> (a: LandingDetectionActor)
        ensures
            a.context == context,
            a.last_gps_data is None,
            a.take_off_gps_data is None,
            !a.in_the_air,
            a.airports@ =~= Seq::<AirportData>::empty(),
    {
        LandingDetectionActor {
            context,
            last_gps_data: None,
            take_off_gps_data: None,
            in_the_air: false,
            airports: Vec::new(),
        }
    }

    /// Apply one ground-contact sample and report the transition, if any.
    pub fn handle_on_ground(&mut self, message: SimConnectDataMessage<OnGround>) -> (ev: Option<
        GroundEvent,
    >)
        ensures
            *final (self) == old(self).spec_on_ground_step(message.data.sim_on_ground).0,
            ev == old(self).spec_on_ground_step(message.data.sim_on_ground).1,
    {
        let contact = message.data.sim_on_ground;
        if contact && self.in_the_air && self.last_gps_data.is_some()
            && self.take_off_gps_data.is_some() {
            self.take_off_gps_data = self.last_gps_data;
            self.in_the_air = false;
            Some(GroundEvent::Landing)
        } else if !contact && !self.in_the_air && self.last_gps_data.is_some() {
            self.take_off_gps_data = self.last_gps_data;
            self.in_the_air = true;
            Some(GroundEvent::TakeOff)
        } else if contact && !self.in_the_air {
            self.take_off_gps_data = None;
            Some(GroundEvent::Reset)
        } else {
            None
        }
    }

    /// Cache the latest position snapshot; nothing else changes.
    pub fn handle_gps_data(&mut self, message: SimConnectDataMessage<GpsData>)
        ensures
            *final (self) == (LandingDetectionActor {
                last_gps_data: Option::Some(message.data),
                ..*old(self)
            }),
    {
        self.last_gps_data = Some(message.data);
    }

    /// Store the latest airport list; it is never acted on.
    pub fn handle_airport_list(&mut self, message: SimConnectDataMessage<Vec<AirportData>>)
        ensures
            final (self).airports == message.data,
            final (self).context == old(self).context,
            final (self).last_gps_data == old(self).last_gps_data,
            final (self).take_off_gps_data == old(self).take_off_gps_data,
            final (self).in_the_air == old(self).in_the_air,
    {
        self.airports = message.data;
    }
}

/// Law: on the ground with a cached position, losing ground contact makes
/// the tracker airborne with that position as its take-off reference; a
/// later ground contact, once a new position has been cached, lands it with
/// the reference updated to that new position.
pub proof fn lemma_takeoff_then_landing(s: LandingDetectionActor, p1: GpsData, p2: GpsData)
    requires
        !s.in_the_air,
        s.last_gps_data == Option::Some(p1),
    ensures
        ({
            let (s1, e1) = s.spec_on_ground_step(false);
            let cached = LandingDetectionActor { last_gps_data: Option::Some(p2), ..s1 };
            let (s2, e2) = cached.spec_on_ground_step(true);
            &&& s1.in_the_air
            &&& s1.take_off_gps_data == Option::Some(p1)
            &&& e1 == Option::Some(GroundEvent::TakeOff)
            &&& !s2.in_the_air
            &&& s2.take_off_gps_data == Option::Some(p2)
            &&& e2 == Option::Some(GroundEvent::Landing)
        }),
{
}

} // verus!
