//! The dragon depot: the two-slot aggregator that pairs up the units the
//! dragon riders carry over and decides which stronghold the pair is for.
//!
//! The rule it owns: each stronghold needs the two kinds it does not itself
//! produce, so of a pair of distinct kinds the stronghold to wake is the
//! one whose kind is absent from the pair.  A pair of equal kinds leaves
//! that choice ill-defined between the other two kinds, so it is surfaced
//! as an error and wakes nobody.

use vstd::prelude::*;

use crate::kind::ResourceKind;
use crate::kind::absent_kind;
use crate::signal::KindSignals;

verus! {

/// The aggregator's failure: two units of one round carried the same kind,
/// so no single absent kind exists.
#[derive(Clone, Copy, PartialEq, Eq, Structural, Debug)]
pub enum AggregateError {
    AmbiguousPair,
}

/// The abstract state of the dragon depot: the collected pair so far.
pub struct DragonDepotView {
    pub item1: Option<ResourceKind>,
    pub item2: Option<ResourceKind>,
    pub count: int,
}

impl DragonDepotView {
    /// A dragon depot holding nothing.
    pub open spec fn init() -> DragonDepotView {
        DragonDepotView { item1: None, item2: None, count: 0 }
    }

    /// Whether both slots are free and the count is zero.
    pub open spec fn empty(self) -> bool {
        self.item1 is None && self.item2 is None && self.count == 0
    }

    /// Between submissions the depot holds at most one unit, and the slots
    /// fill in order.
    pub open spec fn wf(self) -> bool {
        &&& 0 <= self.count <= 1
        &&& (self.count == 0 ==> self.item1 is None)
        &&& (self.count == 1 ==> self.item1 is Some)
        &&& self.item2 is None
    }

    /// Whether a kind is among the collected units.
    pub open spec fn has(self, kind: ResourceKind) -> bool {
        self.item1 == Some(kind) || self.item2 == Some(kind)
    }

    /// What one submission returns: the first unit of a round is only
    /// stored; the second either completes a distinct pair, naming the
    /// stronghold whose kind is absent from it, or is rejected as
    /// ambiguous.
    pub open spec fn submit_outcome(self, kind: ResourceKind) -> Result<
        Option<ResourceKind>,
        AggregateError,
    > {
        if self.count == 0 {
            Ok(None)
        } else if self.item1 == Some(kind) {
            Err(AggregateError::AmbiguousPair)
        } else {
            Ok(Some(absent_kind(self.item1->0, kind)))
        }
    }

    /// The state after one submission: the first unit fills slot one; a
    /// completed round resets the depot; a rejected pair leaves it as it
    /// was.
    pub open spec fn submitted(self, kind: ResourceKind) -> DragonDepotView {
        if self.count == 0 {
            DragonDepotView { item1: Some(kind), item2: None, count: 1 }
        } else if self.item1 == Some(kind) {
            self
        } else {
            DragonDepotView::init()
        }
    }
}

/// The two-slot collector the dragon riders deliver into.
pub struct DragonDepot {
    pub collected_item1: Option<ResourceKind>,
    pub collected_item2: Option<ResourceKind>,
    item_count: usize,
}

impl View for DragonDepot {
    type V = DragonDepotView;

    closed spec fn view(&self) -> DragonDepotView {
        DragonDepotView {
            item1: self.collected_item1,
            item2: self.collected_item2,
            count: self.item_count as int,
        }
    }
}

impl DragonDepot {
    /// Creates an empty dragon depot.
    pub fn new() -> (d: DragonDepot)
        ensures
            d@ == DragonDepotView::init(),
            d@.empty(),
            d@.wf(),
    {
        DragonDepot { collected_item1: None, collected_item2: None, item_count: 0 }
    }

    /// Accepts one carried unit.  The first unit of a round is stored; the
    /// second completes the pair: if its kind differs from the first, the
    /// signal of the one stronghold whose kind is absent from the pair is
    /// raised — and only that one — and the depot resets for the next
    /// round.  A pair of equal kinds is rejected as ambiguous: no signal is
    /// raised and the depot is left as it was.
    pub fn place_resource(&mut self, resource: ResourceKind, strongholds: &mut KindSignals) -> (r:
        Result<Option<ResourceKind>, AggregateError>)
        requires
            old(self)@.wf(),
        ensures
            final(self)@.wf(),
            r == old(self)@.submit_outcome(resource),
            final(self)@ == old(self)@.submitted(resource),
            r matches Ok(Some(notified)) ==> notified != resource && !old(self)@.has(notified)
                && final(strongholds).raised(notified) && (forall|k: ResourceKind|
                k != notified ==> final(strongholds).raised(k) == old(strongholds).raised(k)),
            !(r matches Ok(Some(_))) ==> *final(strongholds) == *old(strongholds),
    {
        if self.item_count == 0 {
            self.collected_item1 = Some(resource);
            self.item_count = 1;
            Ok(None)
        } else {
            let first = match self.collected_item1 {
                Some(k) => k,
                None => vstd::pervasive::unreached(),
            };
            if first == resource {
                Err(AggregateError::AmbiguousPair)
            } else {
                let needy = crate::kind::absent_of(first, resource);
                strongholds.raise(needy);
                self.deplete();
                Ok(Some(needy))
            }
        }
    }

    /// Tests whether klah is one of the collected items.
    pub fn has_klah(&self) -> (r: bool)
        ensures
            r == self@.has(ResourceKind::Klah),
    {
        matches!(self.collected_item1, Some(ResourceKind::Klah)) || matches!(
            self.collected_item2,
            Some(ResourceKind::Klah),
        )
    }

    /// Tests whether burnstone is one of the collected items.
    pub fn has_burnstone(&self) -> (r: bool)
        ensures
            r == self@.has(ResourceKind::Burnstone),
    {
        matches!(self.collected_item1, Some(ResourceKind::Burnstone)) || matches!(
            self.collected_item2,
            Some(ResourceKind::Burnstone),
        )
    }

    /// Tests whether seaplum is one of the collected items.
    pub fn has_seaplum(&self) -> (r: bool)
        ensures
            r == self@.has(ResourceKind::Seaplum),
    {
        matches!(self.collected_item1, Some(ResourceKind::Seaplum)) || matches!(
            self.collected_item2,
            Some(ResourceKind::Seaplum),
        )
    }

    /// Resets the count and frees both slots.
    pub fn deplete(&mut self)
        ensures
            final(self)@ == DragonDepotView::init(),
            final(self)@.empty(),
            final(self)@.wf(),
    {
        self.item_count = 0;
        self.collected_item1 = None;
        self.collected_item2 = None;
    }
}

/// Submitting two distinct kinds, in either order, triggers exactly one
/// notification — on the second submission, never the first — and it names
/// the one kind not among the two submitted; afterwards both slots are
/// empty and the count is zero.
pub proof fn lemma_distinct_pair_notifies_absent(a: ResourceKind, b: ResourceKind)
    requires
        a != b,
    ensures
        DragonDepotView::init().submit_outcome(a) == Ok::<
            Option<ResourceKind>,
            AggregateError,
        >(None),
        DragonDepotView::init().submitted(a).submit_outcome(b) == Ok::<
            Option<ResourceKind>,
            AggregateError,
        >(Some(absent_kind(a, b))),
        absent_kind(a, b) != a && absent_kind(a, b) != b,
        DragonDepotView::init().submitted(a).submitted(b).empty(),
        DragonDepotView::init().submitted(a).submit_outcome(b) == DragonDepotView::init().submitted(
            b,
        ).submit_outcome(a),
{
}

/// Submitting two units of the same kind is rejected: the second submission
/// reports the ambiguous state, and the depot is left exactly as the first
/// submission left it, with nobody notified.
pub proof fn lemma_same_pair_rejected(a: ResourceKind)
    ensures
        DragonDepotView::init().submitted(a).submit_outcome(a) == Err::<
            Option<ResourceKind>,
            AggregateError,
        >(AggregateError::AmbiguousPair),
        DragonDepotView::init().submitted(a).submitted(a) == DragonDepotView::init().submitted(a),
{
}

} // verus!
