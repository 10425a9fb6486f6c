use causal_dynamical_triangulations::cdt::ergodic_moves::{
    attempt_passes, move_type_of_index, ErgodicsSystem, MoveResult, MoveStatistics, MoveType,
};

#[test]
fn test_move_statistics() {
    let mut stats = MoveStatistics::new();

    // Test recording attempts and successes
    stats.record_attempt(MoveType::Move22);
    stats.record_attempt(MoveType::Move22);
    stats.record_success(MoveType::Move22);

    assert_eq!(stats.moves_22_attempted, 2);
    assert_eq!(stats.moves_22_accepted, 1);
    let rate: f64 = stats.acceptance_rate(MoveType::Move22);
    assert!((rate - 0.5).abs() < 1e-12);
}

#[test]
fn test_ergodics_system() {
    let mut system = ErgodicsSystem::new();
    let mut triangulation = vec![vec![0, 1, 2]];

    // Test that moves can be attempted
    let result = system.attempt_22_move::<f64>(&mut triangulation);
    assert!(matches!(
        result,
        MoveResult::Success | MoveResult::CausalityViolation
    ));

    // Check that statistics are updated
    assert_eq!(system.stats.moves_22_attempted, 1);
    assert_eq!(triangulation, vec![vec![0, 1, 2]]);
}

#[test]
fn test_random_move_selection() {
    let mut system = ErgodicsSystem::new();

    // Test that we get different move types
    let mut move_types = std::collections::HashSet::new();
    for _ in 0..100 {
        move_types.insert(system.select_random_move());
    }

    // Should get multiple different move types
    assert!(move_types.len() > 1);
}

#[test]
fn test_total_acceptance_rate() {
    let mut stats = MoveStatistics::new();

    // Add some test data
    stats.record_attempt(MoveType::Move22);
    stats.record_success(MoveType::Move22);
    stats.record_attempt(MoveType::Move13Add);

    let rate: f64 = stats.total_acceptance_rate();
    assert!((rate - 0.5).abs() < 1e-12);
}

#[test]
fn acceptance_rate_is_zero_without_attempts() {
    let stats = MoveStatistics::new();
    for kind in [
        MoveType::Move22,
        MoveType::Move13Add,
        MoveType::Move31Remove,
        MoveType::EdgeFlip,
    ] {
        let rate: f64 = stats.acceptance_rate(kind);
        assert_eq!(rate, 0.0);
    }
    let total: f64 = stats.total_acceptance_rate();
    assert_eq!(total, 0.0);
}

#[test]
fn acceptance_rates_lie_in_the_unit_interval() {
    let mut system = ErgodicsSystem::new();
    let mut triangulation = vec![vec![0, 1, 2]];
    for _ in 0..200 {
        let _ = system.attempt_random_move::<f64>(&mut triangulation);
    }
    let stats = &system.stats;
    let attempted = stats.moves_22_attempted
        + stats.moves_13_attempted
        + stats.moves_31_attempted
        + stats.edge_flips_attempted;
    assert_eq!(attempted, 200);
    for kind in [
        MoveType::Move22,
        MoveType::Move13Add,
        MoveType::Move31Remove,
        MoveType::EdgeFlip,
    ] {
        let rate: f64 = stats.acceptance_rate(kind);
        assert!((0.0..=1.0).contains(&rate));
    }
    let total: f64 = stats.total_acceptance_rate();
    assert!((0.0..=1.0).contains(&total));
    assert!(stats.moves_22_accepted <= stats.moves_22_attempted);
    assert!(stats.moves_13_accepted <= stats.moves_13_attempted);
    assert!(stats.moves_31_accepted <= stats.moves_31_attempted);
    assert!(stats.edge_flips_accepted <= stats.edge_flips_attempted);
}

#[test]
fn acceptance_rate_exact_values() {
    let mut stats = MoveStatistics::new();
    for _ in 0..4 {
        stats.record_attempt(MoveType::EdgeFlip);
    }
    for _ in 0..3 {
        stats.record_success(MoveType::EdgeFlip);
    }
    stats.record_attempt(MoveType::Move31Remove);
    let flips: f64 = stats.acceptance_rate(MoveType::EdgeFlip);
    assert_eq!(flips, 0.75);
    let removals: f64 = stats.acceptance_rate(MoveType::Move31Remove);
    assert_eq!(removals, 0.0);
    let total: f64 = stats.total_acceptance_rate();
    assert_eq!(total, 0.6);
}

#[test]
fn counters_stop_at_their_largest_value() {
    let mut stats = MoveStatistics::new();
    stats.moves_13_attempted = u64::MAX;
    stats.record_attempt(MoveType::Move13Add);
    assert_eq!(stats.moves_13_attempted, u64::MAX);
    stats.moves_13_accepted = u64::MAX - 1;
    stats.record_success(MoveType::Move13Add);
    assert_eq!(stats.moves_13_accepted, u64::MAX);
}

#[test]
fn rates_of_large_counts_stay_in_the_unit_interval() {
    let mut stats = MoveStatistics::new();
    stats.moves_22_attempted = u64::from(u32::MAX) + 1;
    stats.moves_22_accepted = 1;
    let rate: f64 = stats.acceptance_rate(MoveType::Move22);
    assert!(rate.is_finite());
    assert!((0.0..=1.0).contains(&rate));
    assert!(rate < 1e-9);

    stats.moves_22_accepted = u64::from(u32::MAX) + 1;
    let rate: f64 = stats.acceptance_rate(MoveType::Move22);
    assert_eq!(rate, 1.0);

    stats.moves_13_attempted = 1 << 40;
    stats.moves_13_accepted = 1 << 39;
    let rate: f64 = stats.acceptance_rate(MoveType::Move13Add);
    assert_eq!(rate, 0.5);

    stats.edge_flips_attempted = u64::MAX;
    stats.edge_flips_accepted = u64::MAX / 4;
    let rate: f64 = stats.acceptance_rate(MoveType::EdgeFlip);
    assert!((rate - 0.25).abs() < 1e-9);

    stats.moves_31_attempted = u64::MAX;
    stats.moves_31_accepted = u64::MAX;
    let rate: f64 = stats.acceptance_rate(MoveType::Move31Remove);
    assert_eq!(rate, 1.0);

    // The totals do not fit in 64 bits here.
    let total: f64 = stats.total_acceptance_rate();
    assert!(total.is_finite());
    assert!((0.0..=1.0).contains(&total));
    let expected = (1.0 + 0.25) / 2.0;
    assert!((total - expected).abs() < 1e-6);

    // The largest count that fits in 32 bits is not scaled.
    let mut exact = MoveStatistics::new();
    exact.moves_22_attempted = u64::from(u32::MAX);
    exact.moves_22_accepted = 3;
    let rate: f64 = exact.acceptance_rate(MoveType::Move22);
    assert_eq!(rate, 3.0 / 4294967295.0);
}

#[test]
fn attempts_pass_above_their_thresholds() {
    assert!(!attempt_passes(MoveType::Move22, 0.5f64));
    assert!(attempt_passes(MoveType::Move22, 0.5000001f64));
    assert!(!attempt_passes(MoveType::Move22, 0.0f64));
    assert!(!attempt_passes(MoveType::Move13Add, 0.3f64));
    assert!(attempt_passes(MoveType::Move13Add, 0.3000001f64));
    assert!(!attempt_passes(MoveType::Move13Add, 0.2999999f64));
    assert!(!attempt_passes(MoveType::Move31Remove, 0.4f64));
    assert!(attempt_passes(MoveType::Move31Remove, 0.4000001f64));
    assert!(!attempt_passes(MoveType::EdgeFlip, 0.2f64));
    assert!(attempt_passes(MoveType::EdgeFlip, 0.2000001f64));
    assert!(attempt_passes(MoveType::EdgeFlip, 0.9999999f64));
    assert!(!attempt_passes(MoveType::EdgeFlip, f64::NAN));
}

#[test]
fn attempts_succeed_at_their_odds() {
    let mut system = ErgodicsSystem::new();
    let mut triangulation = vec![vec![0, 1, 2]];
    for _ in 0..4000 {
        let _ = system.attempt_22_move::<f64>(&mut triangulation);
        let _ = system.attempt_edge_flip::<f64>(&mut triangulation);
    }
    let halves = system.statistics_ref().moves_22_accepted;
    let flips = system.statistics_ref().edge_flips_accepted;
    // 1/2 and 4/5 of 4000, each within six standard deviations.
    assert!((1810..=2190).contains(&halves), "{halves}");
    assert!((3048..=3352).contains(&flips), "{flips}");
}

#[test]
fn move_kinds_by_index() {
    assert_eq!(move_type_of_index(0), MoveType::Move22);
    assert_eq!(move_type_of_index(1), MoveType::Move13Add);
    assert_eq!(move_type_of_index(2), MoveType::Move31Remove);
    assert_eq!(move_type_of_index(3), MoveType::EdgeFlip);
    assert_eq!(move_type_of_index(4), MoveType::EdgeFlip);
    assert_eq!(move_type_of_index(u32::MAX), MoveType::EdgeFlip);
}

#[test]
fn every_move_kind_gets_selected() {
    let mut system = ErgodicsSystem::new();
    let mut seen = std::collections::HashSet::new();
    for _ in 0..2000 {
        seen.insert(system.select_random_move());
    }
    assert_eq!(seen.len(), 4);
    assert_eq!(system.stats.moves_22_attempted, 0);
}

#[test]
fn concluded_attempts_are_booked() {
    let mut system = ErgodicsSystem::new();
    assert_eq!(system.conclude_attempt(MoveType::Move13Add, false), MoveResult::GeometricViolation);
    assert_eq!(system.conclude_attempt(MoveType::Move13Add, true), MoveResult::Success);
    assert_eq!(system.conclude_attempt(MoveType::Move22, false), MoveResult::CausalityViolation);
    assert_eq!(system.conclude_attempt(MoveType::Move31Remove, false), MoveResult::CausalityViolation);
    assert_eq!(system.conclude_attempt(MoveType::EdgeFlip, false), MoveResult::CausalityViolation);
    assert_eq!(system.stats.moves_13_attempted, 2);
    assert_eq!(system.stats.moves_13_accepted, 1);
    assert_eq!(system.stats.moves_22_attempted, 1);
    assert_eq!(system.stats.moves_22_accepted, 0);
}

#[test]
fn attempts_of_each_kind_report_their_own_outcomes() {
    let mut system = ErgodicsSystem::new();
    let mut triangulation = vec![vec![0, 1, 2]];
    let mut successes = 0;
    for _ in 0..300 {
        match system.attempt_13_move::<f64>(&mut triangulation) {
            MoveResult::Success => successes += 1,
            MoveResult::GeometricViolation => {}
            other => panic!("unexpected outcome {other:?}"),
        }
        match system.attempt_31_move::<f64>(&mut triangulation) {
            MoveResult::Success | MoveResult::CausalityViolation => {}
            other => panic!("unexpected outcome {other:?}"),
        }
        match system.attempt_edge_flip::<f64>(&mut triangulation) {
            MoveResult::Success | MoveResult::CausalityViolation => {}
            other => panic!("unexpected outcome {other:?}"),
        }
    }
    assert_eq!(system.stats.moves_13_attempted, 300);
    assert_eq!(system.stats.moves_13_accepted, successes);
    assert!(successes > 100 && successes < 300);
    assert_eq!(system.stats.moves_31_attempted, 300);
    assert_eq!(system.stats.edge_flips_attempted, 300);
}
