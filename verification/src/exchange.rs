//! The whole exchange wired together: the depot, the dragon depot, the
//! steward, and every ready-signal, driven one actor step at a time.
//!
//! With one thread of control per actor the scheduling is outside anyone's
//! hands; here the same per-actor steps run in one thread of control, in an
//! arbitrary but explicit order, and a full round is proved to come back to
//! rest: every cell and slot empty, every flag down, exactly one stronghold
//! woken — the one whose kind the round's pair lacks.

use vstd::prelude::*;

use crate::depot::Depot;
use crate::dragondepot::AggregateError;
use crate::dragondepot::DragonDepot;
use crate::dragonrider::DragonRider;
use crate::kind::ResourceKind;
use crate::kind::absent_kind;
use crate::signal::KindSignals;
use crate::signal::Signal;
use crate::steward::Steward;
use crate::stronghold::Stronghold;

verus! {

/// What one completed round reports: the stronghold that was woken, and
/// the two drawn phase durations its work will take.
#[derive(Clone, Copy, PartialEq, Eq, Structural, Debug)]
pub struct RoundReport {
    pub woken: ResourceKind,
    pub distribute: u64,
    pub consume: u64,
}

/// The shared state of the economy: every mailbox and every ready-signal.
pub struct Exchange {
    pub depot: Depot,
    pub dragon_depot: DragonDepot,
    pub steward: Steward,
    pub depot_ready: KindSignals,
    pub stronghold_ready: KindSignals,
    pub round_consumed: Signal,
}

impl Exchange {
    /// The between-rounds state: mailboxes empty, every flag down.
    pub open spec fn at_rest(self) -> bool {
        &&& self.depot@.is_empty()
        &&& self.depot@.wf()
        &&& self.dragon_depot@.empty()
        &&& self.dragon_depot@.wf()
        &&& self.depot_ready.all_down()
        &&& self.stronghold_ready.all_down()
        &&& !self.round_consumed.raised()
    }

    /// The mid-round state right after the steward's delivery: the depot
    /// holds exactly the chosen pair, and exactly those two depot-ready
    /// flags are up.
    pub open spec fn pair_delivered(self) -> bool {
        &&& (self.depot@.occupied(ResourceKind::Burnstone) <==> self.chose(
            ResourceKind::Burnstone,
        ))
        &&& (self.depot@.occupied(ResourceKind::Seaplum) <==> self.chose(ResourceKind::Seaplum))
        &&& (self.depot@.occupied(ResourceKind::Klah) <==> self.chose(ResourceKind::Klah))
        &&& (self.depot_ready.raised(ResourceKind::Burnstone) <==> self.chose(
            ResourceKind::Burnstone,
        ))
        &&& (self.depot_ready.raised(ResourceKind::Seaplum) <==> self.chose(
            ResourceKind::Seaplum,
        ))
        &&& (self.depot_ready.raised(ResourceKind::Klah) <==> self.chose(ResourceKind::Klah))
    }

    /// Whether a kind is one of the two the steward chose this round.
    pub open spec fn chose(self, k: ResourceKind) -> bool {
        self.steward@.resource1 == Some(k) || self.steward@.resource2 == Some(k)
    }

    /// Creates an exchange at rest.
    pub fn new() -> (e: Exchange)
        ensures
            e.at_rest(),
    {
        Exchange {
            depot: Depot::new(),
            dragon_depot: DragonDepot::new(),
            steward: Steward::new(),
            depot_ready: KindSignals::new(),
            stronghold_ready: KindSignals::new(),
            round_consumed: Signal::new(),
        }
    }

    /// One pass of the rider for a kind: if that kind's depot-ready flag is
    /// up, the rider clears it, takes its kind from the depot and delivers
    /// it to the dragon depot; with the flag down, nothing moves.
    pub fn rider_step(&mut self, kind: ResourceKind) -> (r: Result<
        Option<ResourceKind>,
        AggregateError,
    >)
        requires
            old(self).dragon_depot@.wf(),
        ensures
            final(self).dragon_depot@.wf(),
            final(self).steward == old(self).steward,
            final(self).round_consumed == old(self).round_consumed,
            !final(self).depot_ready.raised(kind),
            forall|k: ResourceKind|
                k != kind ==> final(self).depot_ready.raised(k) == old(self).depot_ready.raised(k),
            !old(self).depot_ready.raised(kind) ==> r == Ok::<
                Option<ResourceKind>,
                AggregateError,
            >(None) && final(self).depot == old(self).depot && final(self).dragon_depot == old(self).dragon_depot && final(self).stronghold_ready == old(self).stronghold_ready,
            old(self).depot_ready.raised(kind) ==> final(self).depot@ == old(self).depot@.cleared(kind) && r == old(self).dragon_depot@.submit_outcome(kind) && final(self).dragon_depot@ == old(self).dragon_depot@.submitted(kind),
            r matches Ok(Some(notified)) ==> notified != kind && final(self).stronghold_ready.raised(notified) && (forall|k: ResourceKind|
                k != notified ==> final(self).stronghold_ready.raised(k) == old(self).stronghold_ready.raised(k)),
            !(r matches Ok(Some(_))) ==> final(self).stronghold_ready == old(self).stronghold_ready,
    {
        let rider = DragonRider::new(kind);
        if self.depot_ready.consume(kind) {
            let _unit = rider.consume(&mut self.depot);
            rider.group_resources(&mut self.dragon_depot, &mut self.stronghold_ready)
        } else {
            Ok(None)
        }
    }

    /// One pass of the stronghold for a kind: if that kind's pair-ready
    /// flag is up, the stronghold clears it, acknowledges the round at once
    /// on the shared round-consumed signal, and draws its two phase
    /// durations; with the flag down, nothing moves.
    pub fn stronghold_step(&mut self, kind: ResourceKind, rng: &mut rand::rngs::StdRng) -> (r:
        Option<(u64, u64)>)
        ensures
            final(self).depot == old(self).depot,
            final(self).dragon_depot == old(self).dragon_depot,
            final(self).steward == old(self).steward,
            final(self).depot_ready == old(self).depot_ready,
            !final(self).stronghold_ready.raised(kind),
            forall|k: ResourceKind|
                k != kind ==> final(self).stronghold_ready.raised(k) == old(self).stronghold_ready.raised(k),
            r is Some <==> old(self).stronghold_ready.raised(kind),
            r matches Some(d) ==> final(self).round_consumed.raised() && 5 <= d.0 < 10 && 5 <= d.1
                < 10,
            r is None ==> final(self).round_consumed == old(self).round_consumed,
    {
        let stronghold = Stronghold::new(kind);
        if self.stronghold_ready.consume(kind) {
            stronghold.resources_received(&mut self.round_consumed);
            let distribute = stronghold.distribute_resources(rng);
            let consume = stronghold.consume_resources(rng);
            Some((distribute, consume))
        } else {
            None
        }
    }

    /// One full round with a random pair: the steward draws and delivers
    /// two distinct kinds, the riders carry both to the dragon depot, the
    /// stronghold whose kind the pair lacks is woken and acknowledges, and
    /// the steward takes the acknowledgment.  The exchange comes back to
    /// rest, and the simulated work is bounded by the drawn durations.
    pub fn round(&mut self, rng: &mut rand::rngs::StdRng) -> (r: RoundReport)
        requires
            old(self).at_rest(),
        ensures
            final(self).at_rest(),
            final(self).steward@.chosen(),
            r.woken == absent_kind(
                final(self).steward@.resource1->0,
                final(self).steward@.resource2->0,
            ),
            5 <= r.distribute < 10,
            5 <= r.consume < 10,
    {
        self.steward.produce(rng, &mut self.depot, &mut self.depot_ready);
        self.finish_round(rng)
    }

    /// One full round with a chosen pair: the same protocol as `round`,
    /// for a caller that fixes the steward's draw.
    pub fn round_with(
        &mut self,
        first: ResourceKind,
        second: ResourceKind,
        rng: &mut rand::rngs::StdRng,
    ) -> (r: RoundReport)
        requires
            old(self).at_rest(),
            first != second,
        ensures
            final(self).at_rest(),
            final(self).steward@.resource1 == Some(first),
            final(self).steward@.resource2 == Some(second),
            r.woken == absent_kind(first, second),
            5 <= r.distribute < 10,
            5 <= r.consume < 10,
    {
        self.steward.produce_pair(first, second, &mut self.depot, &mut self.depot_ready);
        self.finish_round(rng)
    }

    /// Drives the delivered pair through the riders, the woken stronghold
    /// and the steward's acknowledgment.
    fn finish_round(&mut self, rng: &mut rand::rngs::StdRng) -> (r: RoundReport)
        requires
            old(self).steward@.chosen(),
            old(self).depot@.wf(),
            old(self).pair_delivered(),
            old(self).dragon_depot@.empty(),
            old(self).dragon_depot@.wf(),
            old(self).stronghold_ready.all_down(),
            !old(self).round_consumed.raised(),
        ensures
            final(self).at_rest(),
            final(self).steward == old(self).steward,
            r.woken == absent_kind(
                old(self).steward@.resource1->0,
                old(self).steward@.resource2->0,
            ),
            5 <= r.distribute < 10,
            5 <= r.consume < 10,
    {
        let mut woken_opt: Option<ResourceKind> = None;
        match self.rider_step(ResourceKind::Burnstone) {
            Ok(Some(k)) => { woken_opt = Some(k); },
            Ok(None) => {},
            Err(_) => { vstd::pervasive::unreached::<()>() },
        }
        match self.rider_step(ResourceKind::Seaplum) {
            Ok(Some(k)) => { woken_opt = Some(k); },
            Ok(None) => {},
            Err(_) => { vstd::pervasive::unreached::<()>() },
        }
        match self.rider_step(ResourceKind::Klah) {
            Ok(Some(k)) => { woken_opt = Some(k); },
            Ok(None) => {},
            Err(_) => { vstd::pervasive::unreached::<()>() },
        }
        let woken = match woken_opt {
            Some(k) => k,
            None => vstd::pervasive::unreached(),
        };
        let mut delays: Option<(u64, u64)> = None;
        match self.stronghold_step(ResourceKind::Burnstone, rng) {
            Some(d) => { delays = Some(d); },
            None => {},
        }
        match self.stronghold_step(ResourceKind::Seaplum, rng) {
            Some(d) => { delays = Some(d); },
            None => {},
        }
        match self.stronghold_step(ResourceKind::Klah, rng) {
            Some(d) => { delays = Some(d); },
            None => {},
        }
        let (distribute, consume) = match delays {
            Some(d) => d,
            None => vstd::pervasive::unreached(),
        };
        let acked = self.steward.wait_for_received(&mut self.round_consumed);
        assert(acked);
        RoundReport { woken, distribute, consume }
    }

    /// Runs a given number of rounds back to back, reporting which
    /// stronghold each round woke.  The exchange is at rest between rounds
    /// and at the end; no round can stall, whatever the generator yields.
    pub fn run(&mut self, rng: &mut rand::rngs::StdRng, rounds: usize) -> (log: Vec<ResourceKind>)
        requires
            old(self).at_rest(),
        ensures
            final(self).at_rest(),
            log.len() == rounds,
    {
        let mut log: Vec<ResourceKind> = Vec::new();
        let mut i: usize = 0;
        while i < rounds
            invariant
                self.at_rest(),
                log.len() == i,
                i <= rounds,
            decreases rounds - i,
        {
            let report = self.round(rng);
            log.push(report.woken);
            i = i + 1;
        }
        log
    }
}

} // verus!
