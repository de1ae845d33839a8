use resource_exchange::depot::Depot;
use resource_exchange::dragondepot::AggregateError;
use resource_exchange::dragondepot::DragonDepot;
use resource_exchange::dragonrider::DragonRider;
use resource_exchange::kind::ResourceKind;
use resource_exchange::kind::absent_of;
use resource_exchange::signal::KindSignals;
use resource_exchange::signal::Signal;
use resource_exchange::steward::Steward;
use resource_exchange::stronghold::Stronghold;
use resource_exchange::stronghold_supply::StrongholdSupply;

const KINDS: [ResourceKind; 3] =
    [ResourceKind::Burnstone, ResourceKind::Seaplum, ResourceKind::Klah];

#[test]
fn take_after_place_returns_tagged_unit() {
    for kind in KINDS {
        let mut depot = Depot::new();
        depot.place(kind);
        let unit = depot.take(kind).expect("a freshly placed cell must hold a unit");
        assert_eq!(unit.kind, kind);
        assert!(!depot.is_occupied(kind));
        assert!(depot.is_empty());
    }
}

#[test]
fn per_kind_place_and_take_functions_match() {
    let mut depot = Depot::new();
    depot.place_burnstone();
    assert_eq!(depot.take_burnstone().unwrap().kind, ResourceKind::Burnstone);
    depot.place_seaplum();
    assert_eq!(depot.take_seaplum().unwrap().kind, ResourceKind::Seaplum);
    depot.place_klah();
    assert_eq!(depot.take_klah().unwrap().kind, ResourceKind::Klah);
    assert!(depot.is_empty());
}

#[test]
fn take_from_empty_cell_is_none_not_error() {
    let mut depot = Depot::new();
    for kind in KINDS {
        assert!(depot.take(kind).is_none());
    }
    assert!(depot.is_empty());
}

#[test]
fn is_empty_iff_every_occupancy_check_is_false() {
    let mut depot = Depot::new();
    assert!(depot.is_empty());
    for kind in KINDS {
        assert!(!depot.is_occupied(kind));
    }
    for kind in KINDS {
        depot.place(kind);
        assert!(!depot.is_empty());
        assert!(depot.is_occupied(kind));
        depot.take(kind);
        assert!(depot.is_empty());
    }
}

#[test]
fn status_reports_each_cell() {
    let mut depot = Depot::new();
    depot.place_burnstone();
    depot.place_klah();
    let status = depot.status();
    assert!(status.burnstone);
    assert!(!status.seaplum);
    assert!(status.klah);
}

#[test]
fn placing_one_kind_never_touches_the_others() {
    for kind in KINDS {
        let mut depot = Depot::new();
        depot.place(kind);
        for other in KINDS {
            if other != kind {
                assert!(!depot.is_occupied(other));
                assert!(depot.take(other).is_none());
            }
        }
        assert!(depot.is_occupied(kind));
    }
}

#[test]
fn absent_kind_of_every_distinct_pair() {
    assert_eq!(absent_of(ResourceKind::Burnstone, ResourceKind::Seaplum), ResourceKind::Klah);
    assert_eq!(absent_of(ResourceKind::Seaplum, ResourceKind::Burnstone), ResourceKind::Klah);
    assert_eq!(absent_of(ResourceKind::Burnstone, ResourceKind::Klah), ResourceKind::Seaplum);
    assert_eq!(absent_of(ResourceKind::Klah, ResourceKind::Burnstone), ResourceKind::Seaplum);
    assert_eq!(absent_of(ResourceKind::Seaplum, ResourceKind::Klah), ResourceKind::Burnstone);
    assert_eq!(absent_of(ResourceKind::Klah, ResourceKind::Seaplum), ResourceKind::Burnstone);
}

#[test]
fn distinct_pair_notifies_exactly_the_absent_stronghold() {
    for first in KINDS {
        for second in KINDS {
            if first == second {
                continue;
            }
            let mut dragon_depot = DragonDepot::new();
            let mut strongholds = KindSignals::new();
            let r1 = dragon_depot.place_resource(first, &mut strongholds);
            assert_eq!(r1, Ok(None));
            for kind in KINDS {
                assert!(!strongholds.is_raised(kind));
            }
            let r2 = dragon_depot.place_resource(second, &mut strongholds);
            let needy = absent_of(first, second);
            assert_eq!(r2, Ok(Some(needy)));
            for kind in KINDS {
                assert_eq!(strongholds.is_raised(kind), kind == needy);
            }
            assert!(!dragon_depot.has_burnstone());
            assert!(!dragon_depot.has_seaplum());
            assert!(!dragon_depot.has_klah());
        }
    }
}

#[test]
fn same_kind_pair_is_rejected_and_wakes_nobody() {
    for kind in KINDS {
        let mut dragon_depot = DragonDepot::new();
        let mut strongholds = KindSignals::new();
        assert_eq!(dragon_depot.place_resource(kind, &mut strongholds), Ok(None));
        let outcome = dragon_depot.place_resource(kind, &mut strongholds);
        assert_eq!(outcome, Err(AggregateError::AmbiguousPair));
        for other in KINDS {
            assert!(!strongholds.is_raised(other));
        }
        assert!(dragon_depot.has_burnstone() == (kind == ResourceKind::Burnstone));
        assert!(dragon_depot.has_seaplum() == (kind == ResourceKind::Seaplum));
        assert!(dragon_depot.has_klah() == (kind == ResourceKind::Klah));
    }
}

#[test]
fn aggregator_collects_again_after_a_completed_round() {
    let mut dragon_depot = DragonDepot::new();
    let mut strongholds = KindSignals::new();
    dragon_depot.place_resource(ResourceKind::Burnstone, &mut strongholds).unwrap();
    dragon_depot.place_resource(ResourceKind::Seaplum, &mut strongholds).unwrap();
    strongholds.consume(ResourceKind::Klah);
    let r = dragon_depot.place_resource(ResourceKind::Klah, &mut strongholds);
    assert_eq!(r, Ok(None));
    assert!(dragon_depot.has_klah());
}

#[test]
fn signal_set_before_wait_is_not_missed() {
    let mut signal = Signal::new();
    signal.raise();
    assert!(signal.is_raised());
    assert!(signal.consume());
    assert!(!signal.is_raised());
}

#[test]
fn signal_wait_before_set_sees_nothing() {
    let mut signal = Signal::new();
    assert!(!signal.consume());
    signal.raise();
    assert!(signal.consume());
}

#[test]
fn signal_raise_twice_is_one_edge() {
    let mut signal = Signal::new();
    signal.raise();
    signal.raise();
    assert!(signal.consume());
    assert!(!signal.consume());
}

#[test]
fn kind_signals_are_independent() {
    let mut signals = KindSignals::new();
    signals.raise(ResourceKind::Seaplum);
    assert!(!signals.is_raised(ResourceKind::Burnstone));
    assert!(signals.is_raised(ResourceKind::Seaplum));
    assert!(!signals.is_raised(ResourceKind::Klah));
    assert!(signals.consume(ResourceKind::Seaplum));
    assert!(!signals.is_raised(ResourceKind::Seaplum));
}

#[test]
fn supply_signals_exactly_on_the_second_delivery() {
    let mut supply = StrongholdSupply::new(Signal::new());
    assert!(!supply.is_signalled());
    supply.deliever_resource();
    assert!(!supply.is_signalled());
    supply.deliever_resource();
    assert!(supply.is_signalled());
    supply.deliever_resource();
    assert!(supply.is_signalled());
}

#[test]
fn steward_status_lines() {
    let steward = Steward::new();
    assert_eq!(steward.waiting(), "The steward is waiting for stronghold to collect supplies");
    assert_eq!(
        steward.finished_waiting(),
        "Steward is now ready to collect resources to give to the depot"
    );
}

#[test]
fn steward_delivery_report_names_both_kinds() {
    let mut steward = Steward::new();
    let mut depot = Depot::new();
    let mut ready = KindSignals::new();
    steward.produce_pair(ResourceKind::Burnstone, ResourceKind::Klah, &mut depot, &mut ready);
    assert_eq!(
        steward.resources_delievered(),
        "The steward has delievered resources Burnstone and Klah to the depot"
    );
}

#[test]
fn rider_status_lines() {
    let rider = DragonRider::new(ResourceKind::Seaplum);
    assert_eq!(rider.waiting_for_resource(), "Seaplum dragon rider is waiting for resource");
    assert_eq!(rider.obtained_resource(), "Seaplum dragon rider has obtained resource");
}

#[test]
fn stronghold_status_lines() {
    let stronghold = Stronghold::new(ResourceKind::Klah);
    assert_eq!(stronghold.waiting(), "Stronghold Klah waiting for its resources");
    assert_eq!(
        stronghold.received(),
        "Dragon riders had delievered resources to Stronghold Klah"
    );
    assert_eq!(
        stronghold.distribute_or_consume(true, false),
        "Stronghold Klah is now distributing resources"
    );
    assert_eq!(
        stronghold.distribute_or_consume(true, true),
        "Stronghold Klah has finished distributing resources"
    );
    assert_eq!(
        stronghold.distribute_or_consume(false, false),
        "Stronghold Klah is now consuming resources"
    );
    assert_eq!(
        stronghold.distribute_or_consume(false, true),
        "Stronghold Klah has finished consuming resources"
    );
}

#[test]
fn kind_names() {
    assert_eq!(ResourceKind::Burnstone.name(), "Burnstone");
    assert_eq!(ResourceKind::Seaplum.name(), "Seaplum");
    assert_eq!(ResourceKind::Klah.name(), "Klah");
}
