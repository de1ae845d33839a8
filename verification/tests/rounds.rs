use rand::SeedableRng;
use rand::rngs::StdRng;
use resource_exchange::exchange::Exchange;
use resource_exchange::kind::ResourceKind;
use resource_exchange::kind::absent_of;

const KINDS: [ResourceKind; 3] =
    [ResourceKind::Burnstone, ResourceKind::Seaplum, ResourceKind::Klah];

#[test]
fn concrete_scenario_burnstone_and_klah_wake_seaplum() {
    let mut rng = StdRng::seed_from_u64(1);
    let mut exchange = Exchange::new();
    let report = exchange.round_with(ResourceKind::Burnstone, ResourceKind::Klah, &mut rng);
    assert_eq!(report.woken, ResourceKind::Seaplum);
    assert!(exchange.depot.is_empty());
    assert!(!exchange.dragon_depot.has_burnstone());
    assert!(!exchange.dragon_depot.has_seaplum());
    assert!(!exchange.dragon_depot.has_klah());
    for kind in KINDS {
        assert!(!exchange.depot_ready.is_raised(kind));
        assert!(!exchange.stronghold_ready.is_raised(kind));
    }
    assert!(!exchange.round_consumed.is_raised());
}

#[test]
fn every_distinct_pair_wakes_the_absent_stronghold() {
    let mut rng = StdRng::seed_from_u64(2);
    let mut exchange = Exchange::new();
    for first in KINDS {
        for second in KINDS {
            if first == second {
                continue;
            }
            let report = exchange.round_with(first, second, &mut rng);
            assert_eq!(report.woken, absent_of(first, second));
            assert!(exchange.depot.is_empty());
        }
    }
}

#[test]
fn a_round_completes_and_its_delays_stay_in_the_window() {
    let mut rng = StdRng::seed_from_u64(3);
    let mut exchange = Exchange::new();
    for _ in 0..50 {
        let report = exchange.round(&mut rng);
        assert!((5..10).contains(&report.distribute));
        assert!((5..10).contains(&report.consume));
        assert!(exchange.depot.is_empty());
        assert!(!exchange.round_consumed.is_raised());
    }
}

#[test]
fn a_fixed_seed_gives_a_deterministic_wake_sequence() {
    let mut rng_one = StdRng::seed_from_u64(42);
    let mut exchange_one = Exchange::new();
    let log_one = exchange_one.run(&mut rng_one, 64);

    let mut rng_two = StdRng::seed_from_u64(42);
    let mut exchange_two = Exchange::new();
    let log_two = exchange_two.run(&mut rng_two, 64);

    assert_eq!(log_one.len(), 64);
    assert_eq!(log_one, log_two);

    let mut rng_three = StdRng::seed_from_u64(43);
    let mut exchange_three = Exchange::new();
    let log_three = exchange_three.run(&mut rng_three, 64);
    assert_ne!(
        log_one, log_three,
        "sixty-four rounds from different seeds almost surely differ somewhere"
    );
}

#[test]
fn every_stronghold_is_woken_over_a_long_run() {
    let mut rng = StdRng::seed_from_u64(7);
    let mut exchange = Exchange::new();
    let log = exchange.run(&mut rng, 200);
    for kind in KINDS {
        let woken = log.iter().filter(|k| **k == kind).count();
        assert!(
            woken > 30,
            "each group is the absent one about a third of the time, {} was woken {} times",
            kind.name(),
            woken
        );
    }
}

// The expected wake sequence is tied to the exact generator the locked
// rand version gives for this seed; a different rand version may stream
// differently and needs this expectation re-captured.
#[test]
fn golden_wake_sequence_for_a_fixed_seed() {
    let mut rng = StdRng::seed_from_u64(9);
    let mut exchange = Exchange::new();
    let log = exchange.run(&mut rng, 12);
    let expected = [
        ResourceKind::Seaplum,
        ResourceKind::Seaplum,
        ResourceKind::Burnstone,
        ResourceKind::Klah,
        ResourceKind::Klah,
        ResourceKind::Burnstone,
        ResourceKind::Burnstone,
        ResourceKind::Seaplum,
        ResourceKind::Klah,
        ResourceKind::Seaplum,
        ResourceKind::Burnstone,
        ResourceKind::Seaplum,
    ];
    assert_eq!(log, expected);
}
