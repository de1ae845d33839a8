//! The sticky, edge-triggered ready-signal: a boolean flag that a sender
//! raises and that a waiter consumes (observes and resets) before acting.
//!
//! The flag, not the wake event, is the truth a waiter checks: a signal
//! raised before the waiter arrives is never missed.  Blocking and waking
//! belong to the caller; this type carries the flag protocol itself.

use vstd::prelude::*;

use crate::kind::ResourceKind;

verus! {

/// A single sticky binary signal.
pub struct Signal {
    flag: bool,
}

impl Signal {
    /// Whether the signal is currently raised.
    pub closed spec fn raised(&self) -> bool {
        self.flag
    }

    /// Creates a signal in the lowered state.
    pub fn new() -> (s: Signal)
        ensures
            !s.raised(),
    {
        Signal { flag: false }
    }

    /// The sender's half: raises the flag.  Raising an already raised
    /// signal leaves it raised.
    pub fn raise(&mut self)
        ensures
            final(self).raised(),
    {
        self.flag = true;
    }

    /// The waiter's half: observes the flag and resets it, so the next
    /// round's raise is a fresh edge.  Returns whether the signal had been
    /// raised.
    pub fn consume(&mut self) -> (was: bool)
        ensures
            was == old(self).raised(),
            !final(self).raised(),
    {
        let was = self.flag;
        self.flag = false;
        was
    }

    /// Reads the flag without resetting it.
    pub fn is_raised(&self) -> (r: bool)
        ensures
            r == self.raised(),
    {
        self.flag
    }
}

/// One signal per resource kind, for the hand-offs that exist once per kind
/// (depot ready per kind, stronghold ready per kind).
pub struct KindSignals {
    burnstone: Signal,
    seaplum: Signal,
    klah: Signal,
}

impl KindSignals {
    /// Whether the signal for a kind is currently raised.
    pub closed spec fn raised(&self, kind: ResourceKind) -> bool {
        match kind {
            ResourceKind::Burnstone => self.burnstone.raised(),
            ResourceKind::Seaplum => self.seaplum.raised(),
            ResourceKind::Klah => self.klah.raised(),
        }
    }

    /// Whether all three signals are lowered.
    pub open spec fn all_down(&self) -> bool {
        !self.raised(ResourceKind::Burnstone) && !self.raised(ResourceKind::Seaplum)
            && !self.raised(ResourceKind::Klah)
    }

    /// Creates the three signals, all lowered.
    pub fn new() -> (s: KindSignals)
        ensures
            s.all_down(),
    {
        KindSignals { burnstone: Signal::new(), seaplum: Signal::new(), klah: Signal::new() }
    }

    /// Raises the signal for one kind; the other kinds' signals are
    /// untouched.
    pub fn raise(&mut self, kind: ResourceKind)
        ensures
            final(self).raised(kind),
            forall|k: ResourceKind| k != kind ==> final(self).raised(k) == old(self).raised(k),
    {
        match kind {
            ResourceKind::Burnstone => self.burnstone.raise(),
            ResourceKind::Seaplum => self.seaplum.raise(),
            ResourceKind::Klah => self.klah.raise(),
        }
    }

    /// Observes and resets the signal for one kind; the other kinds'
    /// signals are untouched.  Returns whether it had been raised.
    pub fn consume(&mut self, kind: ResourceKind) -> (was: bool)
        ensures
            was == old(self).raised(kind),
            !final(self).raised(kind),
            forall|k: ResourceKind| k != kind ==> final(self).raised(k) == old(self).raised(k),
    {
        match kind {
            ResourceKind::Burnstone => self.burnstone.consume(),
            ResourceKind::Seaplum => self.seaplum.consume(),
            ResourceKind::Klah => self.klah.consume(),
        }
    }

    /// Reads the flag for one kind without resetting it.
    pub fn is_raised(&self, kind: ResourceKind) -> (r: bool)
        ensures
            r == self.raised(kind),
    {
        match kind {
            ResourceKind::Burnstone => self.burnstone.is_raised(),
            ResourceKind::Seaplum => self.seaplum.is_raised(),
            ResourceKind::Klah => self.klah.is_raised(),
        }
    }
}

} // verus!
