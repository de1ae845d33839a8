//! The depot: one single-unit mailbox cell per resource kind, shared
//! between the steward (who fills cells) and the dragon riders (who clear
//! them).
//!
//! Taking from an empty cell is not an error: it yields an absent value, so
//! every operation here is total.

use vstd::prelude::*;

use crate::kind::ResourceKind;
use crate::kind::ResourceUnit;

verus! {

/// The abstract state of a depot: what each cell holds.
pub struct DepotView {
    pub burnstone: Option<ResourceUnit>,
    pub seaplum: Option<ResourceUnit>,
    pub klah: Option<ResourceUnit>,
}

impl DepotView {
    /// The contents of the cell for a kind.
    pub open spec fn cell(self, kind: ResourceKind) -> Option<ResourceUnit> {
        match kind {
            ResourceKind::Burnstone => self.burnstone,
            ResourceKind::Seaplum => self.seaplum,
            ResourceKind::Klah => self.klah,
        }
    }

    /// Whether the cell for a kind holds a unit.
    pub open spec fn occupied(self, kind: ResourceKind) -> bool {
        self.cell(kind) is Some
    }

    /// Whether every cell is empty.
    pub open spec fn is_empty(self) -> bool {
        !self.occupied(ResourceKind::Burnstone) && !self.occupied(ResourceKind::Seaplum)
            && !self.occupied(ResourceKind::Klah)
    }

    /// Each cell holds only a unit of its own kind.
    pub open spec fn wf(self) -> bool {
        &&& (self.burnstone is Some ==> self.burnstone->0.kind == ResourceKind::Burnstone)
        &&& (self.seaplum is Some ==> self.seaplum->0.kind == ResourceKind::Seaplum)
        &&& (self.klah is Some ==> self.klah->0.kind == ResourceKind::Klah)
    }

    /// The depot after a unit of `kind` is placed: that cell full, the
    /// others untouched.
    pub open spec fn placed(self, kind: ResourceKind) -> DepotView {
        match kind {
            ResourceKind::Burnstone => DepotView {
                burnstone: Some(ResourceUnit { kind }),
                ..self
            },
            ResourceKind::Seaplum => DepotView { seaplum: Some(ResourceUnit { kind }), ..self },
            ResourceKind::Klah => DepotView { klah: Some(ResourceUnit { kind }), ..self },
        }
    }

    /// The depot after the cell for `kind` is cleared, whether or not it
    /// held a unit.
    pub open spec fn cleared(self, kind: ResourceKind) -> DepotView {
        match kind {
            ResourceKind::Burnstone => DepotView { burnstone: None, ..self },
            ResourceKind::Seaplum => DepotView { seaplum: None, ..self },
            ResourceKind::Klah => DepotView { klah: None, ..self },
        }
    }
}

/// The per-kind occupancy report returned by `Depot::status`.
#[derive(Clone, Copy, PartialEq, Eq, Structural, Debug)]
pub struct DepotStatus {
    pub burnstone: bool,
    pub seaplum: bool,
    pub klah: bool,
}

/// A depot of three cells, one per resource kind, each holding at most one
/// in-flight unit.
pub struct Depot {
    burnstone: Option<ResourceUnit>,
    seaplum: Option<ResourceUnit>,
    klah: Option<ResourceUnit>,
}

impl View for Depot {
    type V = DepotView;

    closed spec fn view(&self) -> DepotView {
        DepotView { burnstone: self.burnstone, seaplum: self.seaplum, klah: self.klah }
    }
}

impl Depot {
    /// Creates a depot with every cell empty.
    pub fn new() -> (d: Depot)
        ensures
            d@.is_empty(),
            d@.wf(),
    {
        Depot { burnstone: None, seaplum: None, klah: None }
    }

    /// Writes a unit of the given kind into its cell.  Placing over a unit
    /// that is still there simply overwrites it; no other cell is affected.
    pub fn place(&mut self, kind: ResourceKind)
        ensures
            final(self)@ == old(self)@.placed(kind),
    {
        match kind {
            ResourceKind::Burnstone => self.place_burnstone(),
            ResourceKind::Seaplum => self.place_seaplum(),
            ResourceKind::Klah => self.place_klah(),
        }
    }

    /// Returns and clears whatever the cell for the given kind holds; an
    /// empty cell yields `None`, never an error.
    pub fn take(&mut self, kind: ResourceKind) -> (r: Option<ResourceUnit>)
        ensures
            r == old(self)@.cell(kind),
            final(self)@ == old(self)@.cleared(kind),
    {
        match kind {
            ResourceKind::Burnstone => self.take_burnstone(),
            ResourceKind::Seaplum => self.take_seaplum(),
            ResourceKind::Klah => self.take_klah(),
        }
    }

    /// Places burnstone within the depot.
    pub fn place_burnstone(&mut self)
        ensures
            final(self)@ == old(self)@.placed(ResourceKind::Burnstone),
    {
        self.burnstone = Some(ResourceUnit { kind: ResourceKind::Burnstone });
    }

    /// Retrieves the burnstone from the depot, leaving its cell empty.
    pub fn take_burnstone(&mut self) -> (r: Option<ResourceUnit>)
        ensures
            r == old(self)@.cell(ResourceKind::Burnstone),
            final(self)@ == old(self)@.cleared(ResourceKind::Burnstone),
    {
        let r = self.burnstone;
        self.burnstone = None;
        r
    }

    /// Places seaplum within the depot.
    pub fn place_seaplum(&mut self)
        ensures
            final(self)@ == old(self)@.placed(ResourceKind::Seaplum),
    {
        self.seaplum = Some(ResourceUnit { kind: ResourceKind::Seaplum });
    }

    /// Retrieves the seaplum from the depot, leaving its cell empty.
    pub fn take_seaplum(&mut self) -> (r: Option<ResourceUnit>)
        ensures
            r == old(self)@.cell(ResourceKind::Seaplum),
            final(self)@ == old(self)@.cleared(ResourceKind::Seaplum),
    {
        let r = self.seaplum;
        self.seaplum = None;
        r
    }

    /// Places klah within the depot.
    pub fn place_klah(&mut self)
        ensures
            final(self)@ == old(self)@.placed(ResourceKind::Klah),
    {
        self.klah = Some(ResourceUnit { kind: ResourceKind::Klah });
    }

    /// Retrieves the klah from the depot, leaving its cell empty.
    pub fn take_klah(&mut self) -> (r: Option<ResourceUnit>)
        ensures
            r == old(self)@.cell(ResourceKind::Klah),
            final(self)@ == old(self)@.cleared(ResourceKind::Klah),
    {
        let r = self.klah;
        self.klah = None;
        r
    }

    /// Whether the cell for a kind currently holds a unit.
    pub fn is_occupied(&self, kind: ResourceKind) -> (r: bool)
        ensures
            r == self@.occupied(kind),
    {
        match kind {
            ResourceKind::Burnstone => self.burnstone.is_some(),
            ResourceKind::Seaplum => self.seaplum.is_some(),
            ResourceKind::Klah => self.klah.is_some(),
        }
    }

    /// Reports, per kind, whether its cell is occupied.
    pub fn status(&self) -> (r: DepotStatus)
        ensures
            r.burnstone == self@.occupied(ResourceKind::Burnstone),
            r.seaplum == self@.occupied(ResourceKind::Seaplum),
            r.klah == self@.occupied(ResourceKind::Klah),
    {
        DepotStatus {
            burnstone: self.burnstone.is_some(),
            seaplum: self.seaplum.is_some(),
            klah: self.klah.is_some(),
        }
    }

    /// True exactly when all three per-kind occupancy checks are false:
    /// false as soon as some place has not yet been matched by a take.
    pub fn is_empty(&self) -> (r: bool)
        ensures
            r <==> (!self@.occupied(ResourceKind::Burnstone) && !self@.occupied(
                ResourceKind::Seaplum,
            ) && !self@.occupied(ResourceKind::Klah)),
            r == self@.is_empty(),
    {
        self.burnstone.is_none() && self.seaplum.is_none() && self.klah.is_none()
    }
}

/// Taking a kind immediately after placing it returns a unit tagged with
/// that kind, and leaves that cell empty: from any starting state, the cell
/// after `placed(k)` holds exactly the full-strength unit of `k`, and
/// clearing it afterwards reports it unoccupied.
pub proof fn lemma_take_after_place(v: DepotView, k: ResourceKind)
    ensures
        v.placed(k).cell(k) == Some(ResourceUnit { kind: k }),
        !v.placed(k).cleared(k).occupied(k),
{
}

/// Cross-kind isolation: placing or clearing one kind never changes what
/// any other kind's cell holds, so no actor serving one kind ever sees its
/// own cell disturbed by another kind's traffic.
pub proof fn lemma_cross_kind_isolation(v: DepotView, k1: ResourceKind, k2: ResourceKind)
    requires
        k1 != k2,
    ensures
        v.placed(k1).cell(k2) == v.cell(k2),
        v.cleared(k1).cell(k2) == v.cell(k2),
{
}

} // verus!
