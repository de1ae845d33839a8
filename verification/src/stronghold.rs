//! The stronghold: one consumer group per resource kind.  A stronghold
//! waits for the dragon depot's signal that its needed pair is ready,
//! acknowledges at once on the shared round-consumed signal — decoupling
//! the steward's next round from consumption latency — and then spends a
//! drawn stretch of time distributing and another consuming.
//!
//! The two timed phases are pure delays with no effect on shared state:
//! this module computes their durations, and the caller does the sleeping.

use vstd::prelude::*;
use vstd::string::StringExecFns;

use crate::kind::ResourceKind;
use crate::rng::draw_delay;
use crate::signal::Signal;

verus! {

/// One consumer group, bound to the kind it itself produces.
pub struct Stronghold {
    name: ResourceKind,
}

impl Stronghold {
    /// The kind whose name this stronghold bears.
    pub closed spec fn kind(&self) -> ResourceKind {
        self.name
    }

    /// Creates the stronghold for one kind.
    pub fn new(name: ResourceKind) -> (s: Stronghold)
        ensures
            s.kind() == name,
    {
        Stronghold { name }
    }

    /// The status line written while waiting for the needed pair.
    pub fn waiting(&self) -> (r: String)
        ensures
            r@ == "Stronghold "@ + self.kind().spec_name() + " waiting for its resources"@,
    {
        String::from_str("Stronghold ").concat(self.name.name()).concat(
            " waiting for its resources",
        )
    }

    /// The status line written once the pair arrived.
    pub fn received(&self) -> (r: String)
        ensures
            r@ == "Dragon riders had delievered resources to Stronghold "@
                + self.kind().spec_name(),
    {
        String::from_str("Dragon riders had delievered resources to Stronghold ").concat(
            self.name.name(),
        )
    }

    /// The status line for a phase: distributing or consuming, started or
    /// finished.
    pub fn distribute_or_consume(&self, distributing: bool, finished: bool) -> (r: String)
        ensures
            distributing && finished ==> r@ == "Stronghold "@ + self.kind().spec_name()
                + " has finished distributing resources"@,
            distributing && !finished ==> r@ == "Stronghold "@ + self.kind().spec_name()
                + " is now distributing resources"@,
            !distributing && finished ==> r@ == "Stronghold "@ + self.kind().spec_name()
                + " has finished consuming resources"@,
            !distributing && !finished ==> r@ == "Stronghold "@ + self.kind().spec_name()
                + " is now consuming resources"@,
    {
        let message = String::from_str("Stronghold ").concat(self.name.name());
        if distributing {
            if finished {
                message.concat(" has finished distributing resources")
            } else {
                message.concat(" is now distributing resources")
            }
        } else {
            if finished {
                message.concat(" has finished consuming resources")
            } else {
                message.concat(" is now consuming resources")
            }
        }
    }

    /// The waiter's step on this stronghold's pair-ready flag: observes it
    /// and resets it, returning whether the pair had been made ready.  A
    /// blocking caller repeats this under its wake-up primitive until it
    /// returns true.
    pub fn wait_for_resources(&self, available: &mut Signal) -> (r: bool)
        ensures
            r == old(available).raised(),
            !final(available).raised(),
    {
        available.consume()
    }

    /// Acknowledges the round on the shared round-consumed signal, letting
    /// the steward begin the next round.
    pub fn resources_received(&self, received: &mut Signal)
        ensures
            final(received).raised(),
    {
        received.raise()
    }

    /// The distribution phase: draws how long it takes, within the fixed
    /// window.  The caller sleeps for the drawn time; no shared state is
    /// involved.
    pub fn distribute_resources(&self, rng: &mut rand::rngs::StdRng) -> (t: u64)
        ensures
            5 <= t < 10,
    {
        draw_delay(rng)
    }

    /// The consumption phase: draws how long it takes, within the fixed
    /// window.  The caller sleeps for the drawn time; no shared state is
    /// involved.
    pub fn consume_resources(&self, rng: &mut rand::rngs::StdRng) -> (t: u64)
        ensures
            5 <= t < 10,
    {
        draw_delay(rng)
    }

    /// One full pass of the stronghold: if its pair-ready flag is up, clear
    /// it, acknowledge the round at once, and draw the two phase durations;
    /// with the flag down nothing is touched.  Returns the distribution and
    /// consumption durations of a round that was taken.
    pub fn step(&self, available: &mut Signal, received: &mut Signal, rng: &mut rand::rngs::StdRng)
        -> (r: Option<(u64, u64)>)
        ensures
            !final(available).raised(),
            r is Some <==> old(available).raised(),
            r matches Some(d) ==> final(received).raised() && 5 <= d.0 < 10 && 5 <= d.1 < 10,
            r is None ==> *final(received) == *old(received),
    {
        if self.wait_for_resources(available) {
            self.resources_received(received);
            let distribute = self.distribute_resources(rng);
            let consume = self.consume_resources(rng);
            Some((distribute, consume))
        } else {
            None
        }
    }
}

} // verus!
