use simulated_annealing::builder::SimulatedAnnealingBuilder;
use simulated_annealing::moves::geometric_swap;
use simulated_annealing::pairs::all_pairs;
use simulated_annealing::provider::{MyProvider, SIX_FIFTHS_BITS, TEN_BITS};
use simulated_annealing::schedule::{Schedule, CENTI_BITS, ONE_BITS, ZERO_BITS};
use simulated_annealing::simulated_annealing::SimulatedAnnealing;

#[test]
fn test_geometric_swap() {
    let mut points = vec![0, 1, 2, 3, 4, 0, 1, 2, 10, 11, 12, 13, 14];

    geometric_swap(&mut points, 5, 8);

    assert_eq!(points, vec![0, 1, 2, 3, 4, 10, 2, 1, 0, 11, 12, 13, 14]);

    let mut points = vec![0, 1, 2, 3, 4, 0, 1, 2, 3, 4, 5, 6, 10, 11, 12];

    geometric_swap(&mut points, 5, 12);

    assert_eq!(points, vec![0, 1, 2, 3, 4, 10, 6, 5, 4, 3, 2, 1, 0, 11, 12]);
}

#[test]
fn test_geometric_swap_reversed_arguments() {
    let mut points = vec![0, 1, 2, 3, 4, 0, 1, 2, 10, 11, 12, 13, 14];

    geometric_swap(&mut points, 8, 5);

    assert_eq!(points, vec![0, 1, 2, 3, 4, 10, 2, 1, 0, 11, 12, 13, 14]);
}

#[test]
fn test_geometric_swap_is_permutation() {
    let mut points = vec![7, 3, 9, 1, 4, 8, 2];
    let mut expected = points.clone();

    geometric_swap(&mut points, 1, 5);

    expected.sort();
    points.sort();
    assert_eq!(points, expected);
}

#[test]
fn test_all_pairs_exact() {
    let pairs = all_pairs(0, 4);
    assert_eq!(pairs, vec![(0, 1), (0, 2), (0, 3), (1, 2), (1, 3), (2, 3)]);

    assert_eq!(all_pairs(0, 0), vec![]);
    assert_eq!(all_pairs(0, 1), vec![]);
    assert_eq!(all_pairs(2, 2), vec![]);
}

#[test]
fn test_all_pairs_count() {
    // C(8, 2) pairs, each exactly once.
    let pairs = all_pairs(0, 8);
    assert_eq!(pairs.len(), 28);
    let mut sorted = pairs.clone();
    sorted.sort();
    sorted.dedup();
    assert_eq!(sorted.len(), 28);
}

#[test]
fn test_provider_move_pairs_excludes_wraparound() {
    let provider = MyProvider::default();
    let pairs = provider.move_pairs(5);
    assert_eq!(pairs, vec![(1, 2), (1, 3), (2, 3), (2, 4), (3, 4)]);
    assert!(!pairs.contains(&(1, 4)));
}

#[test]
fn test_provider_move_pairs_degenerate() {
    let provider = MyProvider::default();
    assert_eq!(provider.move_pairs(0), vec![]);
    assert_eq!(provider.move_pairs(1), vec![]);
    assert_eq!(provider.move_pairs(2), vec![]);
    // For three points the only pair inside 1..3 is the wrap-around
    // pair, which is excluded.
    assert_eq!(provider.move_pairs(3), vec![]);
}

#[test]
fn test_schedule_clamped_index() {
    let linear = Schedule::Linear { intercept: ONE_BITS, slope: CENTI_BITS };
    assert_eq!(linear.clamped_index(0), 0);
    assert_eq!(linear.clamped_index(7), 7);

    let reciprocal = Schedule::Reciprocal { numerator: ONE_BITS };
    assert_eq!(reciprocal.clamped_index(0), 1);
    assert_eq!(reciprocal.clamped_index(7), 7);

    let power = Schedule::InversePower { numerator: TEN_BITS, exponent: SIX_FIFTHS_BITS };
    assert_eq!(power.clamped_index(0), 1);
    assert_eq!(power.clamped_index(7), 7);
}

#[test]
fn test_provider_config() {
    let provider = MyProvider::default();
    let config = provider.config();
    assert_eq!(config.max_k, 5000);
    match config.temperature {
        Schedule::InversePower { numerator, exponent } => {
            assert_eq!(f64::from_bits(numerator), 10.0);
            assert_eq!(f64::from_bits(exponent), 1.2);
        },
        _ => panic!("expected the inverse-power schedule"),
    }
}

#[test]
fn test_schedule_constants() {
    assert_eq!(f64::from_bits(ONE_BITS), 1.0);
    assert_eq!(f64::from_bits(CENTI_BITS), 0.01);
    assert_eq!(f64::from_bits(ZERO_BITS), 0.0);
    assert_eq!(f64::from_bits(TEN_BITS), 10.0);
    assert_eq!(f64::from_bits(SIX_FIFTHS_BITS), 1.2);
}

#[test]
fn test_default_configuration() {
    let config = SimulatedAnnealing::new();
    assert_eq!(config.max_k, 100);
    assert_eq!(
        config.temperature,
        Schedule::Linear { intercept: ONE_BITS, slope: CENTI_BITS }
    );
}

#[test]
fn test_builder() {
    let config = SimulatedAnnealing::builder()
        .with_temperature_and_max_iter(Schedule::Reciprocal { numerator: ONE_BITS }, 3000)
        .build();
    assert_eq!(config.max_k, 3000);
    assert_eq!(config.temperature, Schedule::Reciprocal { numerator: ONE_BITS });

    let stock = SimulatedAnnealingBuilder::new().build();
    assert_eq!(stock.max_k, 100);
    assert_eq!(
        stock.temperature,
        Schedule::Linear { intercept: ONE_BITS, slope: CENTI_BITS }
    );
}
