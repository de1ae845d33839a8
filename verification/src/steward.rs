//! The steward: each round he draws two distinct resource kinds, places
//! them into the depot, raises the matching depot-ready signals, and then
//! waits for the round-consumed acknowledgment before starting over.
//!
//! Blocking belongs to the caller: the waiting functions here work on the
//! sticky flag itself, so a caller loops (or parks on its wake-up
//! primitive) until they report that the flag had been raised.

use vstd::prelude::*;
use vstd::string::StringExecFns;

use crate::depot::Depot;
use crate::kind::ResourceKind;
use crate::rng::draw_index;
use crate::signal::KindSignals;
use crate::signal::Signal;

verus! {

/// The abstract state of the steward: the pair of kinds chosen this round.
pub struct StewardView {
    pub resource1: Option<ResourceKind>,
    pub resource2: Option<ResourceKind>,
}

impl StewardView {
    /// Whether a round's pair has been chosen, and its kinds differ.
    pub open spec fn chosen(self) -> bool {
        self.resource1 is Some && self.resource2 is Some && self.resource1 != self.resource2
    }
}

/// The producer of the exchange: chooses and delivers each round's pair.
pub struct Steward {
    resource1: Option<ResourceKind>,
    resource2: Option<ResourceKind>,
}

impl View for Steward {
    type V = StewardView;

    closed spec fn view(&self) -> StewardView {
        StewardView { resource1: self.resource1, resource2: self.resource2 }
    }
}

impl Steward {
    /// Creates a steward that has not yet chosen a pair.
    pub fn new() -> (s: Steward)
        ensures
            s@.resource1 is None,
            s@.resource2 is None,
    {
        Steward { resource1: None, resource2: None }
    }

    /// Draws this round's two distinct kinds.  The second draw is rejected
    /// and redrawn while it collides with the first; a verified function
    /// must terminate, so the redraws are bounded, and an exhausted bound
    /// falls back to the next kind in the fixed order.
    pub fn collect_resources(&mut self, rng: &mut rand::rngs::StdRng)
        ensures
            final(self)@.chosen(),
    {
        let first = draw_index(rng);
        let mut second = draw_index(rng);
        let mut fuel: usize = 64;
        while second == first && fuel > 0
            invariant
                first < 3,
                second < 3,
            decreases fuel,
        {
            second = draw_index(rng);
            fuel = fuel - 1;
        }
        if second == first {
            second = if first == 2 {
                0
            } else {
                first + 1
            };
        }
        self.resource1 = Some(ResourceKind::from_index(first));
        self.resource2 = Some(ResourceKind::from_index(second));
    }

    /// Places one chosen kind into the depot and raises that kind's
    /// depot-ready signal, so a rider already waiting wakes at once and one
    /// arriving later still finds the flag up.
    pub fn resource_ready(
        &self,
        resource: ResourceKind,
        depot: &mut Depot,
        ready: &mut KindSignals,
    )
        ensures
            final(depot)@ == old(depot)@.placed(resource),
            final(ready).raised(resource),
            forall|k: ResourceKind|
                k != resource ==> final(ready).raised(k) == old(ready).raised(k),
    {
        depot.place(resource);
        ready.raise(resource);
    }

    /// One round's production with a random pair: draws two distinct kinds
    /// and delivers both, placing each into the depot and raising its
    /// depot-ready signal; no other kind's cell or signal is touched.
    pub fn produce(&mut self, rng: &mut rand::rngs::StdRng, depot: &mut Depot, ready: &mut KindSignals)
        ensures
            final(self)@.chosen(),
            final(depot)@ == old(depot)@.placed(final(self)@.resource1->0).placed(
                final(self)@.resource2->0,
            ),
            final(ready).raised(final(self)@.resource1->0),
            final(ready).raised(final(self)@.resource2->0),
            forall|k: ResourceKind|
                k != final(self)@.resource1->0 && k != final(self)@.resource2->0
                    ==> final(ready).raised(k) == old(ready).raised(k),
    {
        self.collect_resources(rng);
        self.deliver_chosen(depot, ready);
    }

    /// One round's production with a given pair: the same delivery as
    /// `produce`, for a caller that fixes the draw.
    pub fn produce_pair(
        &mut self,
        first: ResourceKind,
        second: ResourceKind,
        depot: &mut Depot,
        ready: &mut KindSignals,
    )
        requires
            first != second,
        ensures
            final(self)@.resource1 == Some(first),
            final(self)@.resource2 == Some(second),
            final(depot)@ == old(depot)@.placed(first).placed(second),
            final(ready).raised(first),
            final(ready).raised(second),
            forall|k: ResourceKind|
                k != first && k != second ==> final(ready).raised(k) == old(ready).raised(k),
    {
        self.resource1 = Some(first);
        self.resource2 = Some(second);
        self.deliver_chosen(depot, ready);
    }

    /// Delivers the chosen pair, one kind at a time.
    fn deliver_chosen(&self, depot: &mut Depot, ready: &mut KindSignals)
        requires
            self@.chosen(),
        ensures
            final(depot)@ == old(depot)@.placed(self@.resource1->0).placed(self@.resource2->0),
            final(ready).raised(self@.resource1->0),
            final(ready).raised(self@.resource2->0),
            forall|k: ResourceKind|
                k != self@.resource1->0 && k != self@.resource2->0 ==> final(ready).raised(k)
                    == old(ready).raised(k),
    {
        let first = match self.resource1 {
            Some(k) => k,
            None => vstd::pervasive::unreached(),
        };
        let second = match self.resource2 {
            Some(k) => k,
            None => vstd::pervasive::unreached(),
        };
        self.resource_ready(first, depot, ready);
        self.resource_ready(second, depot, ready);
    }

    /// The delivery report for the chosen pair.
    pub fn resources_delievered(&self) -> (r: String)
        requires
            self@.resource1 is Some,
            self@.resource2 is Some,
        ensures
            r@ == "The steward has delievered resources "@ + self@.resource1->0.spec_name()
                + " and "@ + self@.resource2->0.spec_name() + " to the depot"@,
    {
        let first = match self.resource1 {
            Some(k) => k,
            None => vstd::pervasive::unreached(),
        };
        let second = match self.resource2 {
            Some(k) => k,
            None => vstd::pervasive::unreached(),
        };
        String::from_str("The steward has delievered resources ").concat(first.name()).concat(
            " and ",
        ).concat(second.name()).concat(" to the depot")
    }

    /// The status line written while waiting for the acknowledgment.
    pub fn waiting(&self) -> (r: String)
        ensures
            r@ == "The steward is waiting for stronghold to collect supplies"@,
    {
        String::from_str("The steward is waiting for stronghold to collect supplies")
    }

    /// The status line written once the acknowledgment arrived.
    pub fn finished_waiting(&self) -> (r: String)
        ensures
            r@ == "Steward is now ready to collect resources to give to the depot"@,
    {
        String::from_str("Steward is now ready to collect resources to give to the depot")
    }

    /// The waiter's step on the round-consumed flag: observes it and resets
    /// it, returning whether a stronghold had acknowledged.  A blocking
    /// caller repeats this under its wake-up primitive until it returns
    /// true.
    pub fn wait_for_received(&self, received: &mut Signal) -> (r: bool)
        ensures
            r == old(received).raised(),
            !final(received).raised(),
    {
        received.consume()
    }

    /// One full pass of the steward: produce a random pair, then check the
    /// round-consumed flag.  Returns whether the acknowledgment had already
    /// arrived; with every actor running in one thread of control the
    /// caller drives the riders and strongholds between `produce` and the
    /// acknowledgment instead.
    pub fn go(
        &mut self,
        rng: &mut rand::rngs::StdRng,
        depot: &mut Depot,
        ready: &mut KindSignals,
        received: &mut Signal,
    ) -> (r: bool)
        ensures
            final(self)@.chosen(),
            final(depot)@ == old(depot)@.placed(final(self)@.resource1->0).placed(
                final(self)@.resource2->0,
            ),
            final(ready).raised(final(self)@.resource1->0),
            final(ready).raised(final(self)@.resource2->0),
            forall|k: ResourceKind|
                k != final(self)@.resource1->0 && k != final(self)@.resource2->0
                    ==> final(ready).raised(k) == old(ready).raised(k),
            r == old(received).raised(),
            !final(received).raised(),
    {
        self.produce(rng, depot, ready);
        self.wait_for_received(received)
    }
}

} // verus!
