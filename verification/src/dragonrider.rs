//! The dragon rider: one per resource kind.  A rider waits for its kind's
//! depot-ready signal, takes its kind — and only its kind — out of the
//! depot, and delivers the unit to the dragon depot.
//!
//! A rider never talks to the steward or a stronghold directly: it touches
//! the depot and the dragon depot, nothing else.

use vstd::prelude::*;
use vstd::string::StringExecFns;

use crate::depot::Depot;
use crate::dragondepot::AggregateError;
use crate::dragondepot::DragonDepot;
use crate::kind::ResourceKind;
use crate::kind::ResourceUnit;
use crate::signal::KindSignals;
use crate::signal::Signal;

verus! {

/// The carrier bound to one resource kind.
pub struct DragonRider {
    resource_type: ResourceKind,
}

impl DragonRider {
    /// The kind this rider carries.
    pub closed spec fn kind(&self) -> ResourceKind {
        self.resource_type
    }

    /// Creates the rider for one kind.
    pub fn new(resource: ResourceKind) -> (r: DragonRider)
        ensures
            r.kind() == resource,
    {
        DragonRider { resource_type: resource }
    }

    /// The status line written while the rider waits for its resource.
    pub fn waiting_for_resource(&self) -> (r: String)
        ensures
            r@ == self.kind().spec_name() + " dragon rider is waiting for resource"@,
    {
        String::from_str(self.resource_type.name()).concat(" dragon rider is waiting for resource")
    }

    /// The status line written once the rider has its resource.
    pub fn obtained_resource(&self) -> (r: String)
        ensures
            r@ == self.kind().spec_name() + " dragon rider has obtained resource"@,
    {
        String::from_str(self.resource_type.name()).concat(" dragon rider has obtained resource")
    }

    /// The waiter's step on this rider's depot-ready flag: observes it and
    /// resets it, returning whether the depot had been filled for it.  A
    /// blocking caller repeats this under its wake-up primitive until it
    /// returns true.
    pub fn wait_for_consumation(&self, signal: &mut Signal) -> (r: bool)
        ensures
            r == old(signal).raised(),
            !final(signal).raised(),
    {
        signal.consume()
    }

    /// Takes this rider's kind out of the depot, clearing that cell and no
    /// other; an empty cell yields `None`.
    pub fn consume(&self, depot: &mut Depot) -> (r: Option<ResourceUnit>)
        ensures
            r == old(depot)@.cell(self.kind()),
            final(depot)@ == old(depot)@.cleared(self.kind()),
    {
        depot.take(self.resource_type)
    }

    /// Delivers this rider's kind into the dragon depot, with the dragon
    /// depot's own outcome: the stronghold whose kind is absent from a
    /// completed distinct pair is notified, an equal pair is rejected.
    pub fn group_resources(
        &self,
        dragon_depot: &mut DragonDepot,
        strongholds: &mut KindSignals,
    ) -> (r: Result<Option<ResourceKind>, AggregateError>)
        requires
            old(dragon_depot)@.wf(),
        ensures
            final(dragon_depot)@.wf(),
            r == old(dragon_depot)@.submit_outcome(self.kind()),
            final(dragon_depot)@ == old(dragon_depot)@.submitted(self.kind()),
            r matches Ok(Some(notified)) ==> notified != self.kind() && final(strongholds).raised(
                notified,
            ) && (forall|k: ResourceKind|
                k != notified ==> final(strongholds).raised(k) == old(strongholds).raised(k)),
            !(r matches Ok(Some(_))) ==> *final(strongholds) == *old(strongholds),
    {
        dragon_depot.place_resource(self.resource_type, strongholds)
    }

    /// One full pass of the rider: if its depot-ready flag is up, clear the
    /// flag, take the kind from the depot and deliver it onward; with the
    /// flag down, nothing is touched and nothing is delivered.
    pub fn go(
        &self,
        signal: &mut Signal,
        depot: &mut Depot,
        dragon_depot: &mut DragonDepot,
        strongholds: &mut KindSignals,
    ) -> (r: Result<Option<ResourceKind>, AggregateError>)
        requires
            old(dragon_depot)@.wf(),
        ensures
            final(dragon_depot)@.wf(),
            !final(signal).raised(),
            !old(signal).raised() ==> r == Ok::<Option<ResourceKind>, AggregateError>(None)
                && *final(depot) == *old(depot) && *final(dragon_depot) == *old(dragon_depot)
                && *final(strongholds) == *old(strongholds),
            old(signal).raised() ==> final(depot)@ == old(depot)@.cleared(self.kind()) && r == old(
                dragon_depot,
            )@.submit_outcome(self.kind()) && final(dragon_depot)@ == old(
                dragon_depot,
            )@.submitted(self.kind()),
            r matches Ok(Some(notified)) ==> notified != self.kind() && final(strongholds).raised(
                notified,
            ) && (forall|k: ResourceKind|
                k != notified ==> final(strongholds).raised(k) == old(strongholds).raised(k)),
            !(r matches Ok(Some(_))) ==> *final(strongholds) == *old(strongholds),
    {
        if self.wait_for_consumation(signal) {
            let _unit = self.consume(depot);
            self.group_resources(dragon_depot, strongholds)
        } else {
            Ok(None)
        }
    }
}

} // verus!
