use simulated_annealing::annealer::{Annealer, MoveKind, Status};
use simulated_annealing::greedy::GreedyBuilder;
use simulated_annealing::pairs::all_pairs;
use simulated_annealing::random::Rng;
use simulated_annealing::state::{Engine, State};
use simulated_annealing::tsp::Tsp;
use simulated_annealing::tsp2::Point;

fn pt(x: f64, y: f64) -> Point {
    Point(x.to_bits(), y.to_bits())
}

fn distance(a: Point, b: Point) -> f64 {
    let (ax, ay) = (f64::from_bits(a.0), f64::from_bits(a.1));
    let (bx, by) = (f64::from_bits(b.0), f64::from_bits(b.1));
    ((ax - bx).powi(2) + (ay - by).powi(2)).sqrt()
}

fn energy(points: &[Point]) -> f64 {
    let n = points.len();
    let mut total = 0.0;
    for i in 0..n {
        let next = points[if i + 1 == n { 0 } else { i + 1 }];
        total += distance(next, points[i]);
    }
    total
}

/// A small deterministic generator, so runs can be replayed.
struct Lcg(u64);

impl Lcg {
    fn new(seed: u64) -> Lcg {
        Lcg(seed)
    }

    fn next_unit(&mut self) -> f64 {
        self.0 = self
            .0
            .wrapping_mul(6364136223846793005)
            .wrapping_add(1442695040888963407);
        ((self.0 >> 11) as f64) / ((1u64 << 53) as f64)
    }
}

/// Drives the concrete engine: evaluates energies, the Metropolis rule
/// and the temperature schedule in double precision, and feeds the
/// verdicts back.
fn run_tour(
    points: Vec<Point>,
    max_k: usize,
    kind: MoveKind,
    pairs: Vec<(usize, usize)>,
    temperature: impl Fn(usize) -> f64,
    seed: u64,
) -> (Vec<Point>, Status, usize) {
    let e0 = energy(&points);
    let mut engine = Annealer::new(points, e0.to_bits(), max_k, kind, pairs, Rng::from_seed(seed));
    let mut rng = Lcg::new(seed);
    while engine.status() == Status::Running {
        let t = temperature(engine.step_index());
        if !(t > 0.0) {
            engine.fail();
            break;
        }
        let cand = engine.candidate();
        let ce = energy(&cand);
        let cur = f64::from_bits(engine.current_energy());
        let acc = if ce < cur { 1.0 } else { (-(ce - cur) / t).exp() };
        let metropolis = acc >= rng.next_unit();
        engine.decide(ce.to_bits(), metropolis);
    }
    let status = engine.status();
    let steps = engine.step_index();
    (engine.into_points(), status, steps)
}

/// Drives the generic engine over the `Tsp` state.
fn run_engine(initial: Tsp, max_k: usize, temperature: impl Fn(usize) -> f64, seed: u64) -> Tsp {
    let mut engine = Engine::new(initial, max_k, Rng::from_seed(seed));
    let mut rng = Lcg::new(seed);
    let mut cur = energy(&engine.current().state);
    while engine.status() == Status::Running {
        let t = temperature(engine.step_index());
        if !(t > 0.0) {
            engine.fail();
            break;
        }
        let ce = energy(&engine.candidate().state);
        let acc = if ce < cur { 1.0 } else { (-(ce - cur) / t).exp() };
        let step_before = engine.step_index();
        engine.decide(acc >= rng.next_unit());
        if engine.step_index() > step_before {
            cur = ce;
        }
    }
    engine.into_state()
}

/// Nearest-neighbour construction: the builder keeps the bookkeeping
/// and picks the first nearest point; this driver only measures
/// distances.
fn greedy(points: Vec<Point>) -> Vec<Point> {
    let mut builder = GreedyBuilder::new(points);
    while !builder.done() {
        let last = builder.last_added();
        let bits: Vec<u64> = builder
            .remaining()
            .iter()
            .map(|p| distance(last, *p).to_bits())
            .collect();
        builder.take_nearest(&bits);
    }
    builder.into_tour()
}

fn sorted_bits(points: &[Point]) -> Vec<(u64, u64)> {
    let mut v: Vec<(u64, u64)> = points.iter().map(|p| (p.0, p.1)).collect();
    v.sort();
    v
}

fn six_points() -> Vec<Point> {
    vec![
        pt(0.0, 0.0),
        pt(0.0, 2.0),
        pt(2.0, 0.0),
        pt(2.0, 2.0),
        pt(1.0, 3.0),
        pt(1.0, -1.0),
    ]
}

fn six_points_optimal() -> Vec<Point> {
    vec![
        pt(0.0, 0.0),
        pt(0.0, 2.0),
        pt(1.0, 3.0),
        pt(2.0, 2.0),
        pt(2.0, 0.0),
        pt(1.0, -1.0),
    ]
}

#[test]
fn test_tsp() {
    let state = six_points();
    let n = state.len();
    let correct_result = six_points_optimal();

    let (final_state, _, _) = run_tour(
        state,
        1000,
        MoveKind::Plain,
        all_pairs(0, n),
        |k| 1.0 / k.max(1) as f64,
        11,
    );

    let error = (energy(&final_state) - energy(&correct_result)).abs();

    if error > 0.001 {
        panic!("error: {error}")
    }
}

#[test]
fn tsp_test_tsp() {
    let tsp = Tsp { state: six_points() };

    let final_state = run_engine(tsp, 100, |k| 1.0 - (0.01 * k as f64), 7);

    let correct_result = Tsp { state: six_points_optimal() };

    let error = (energy(&final_state.state) - energy(&correct_result.state)).abs();

    if error > 0.0001 {
        panic!(
            "error of {error} from final_state energy '{}' to '{}'. States are: {:?}",
            energy(&final_state.state),
            energy(&correct_result.state),
            final_state.state,
        )
    }
}

#[test]
fn test_big_polygon2() {
    let n_vertices = 20;

    // The 20th roots of unity: z^i for z on the unit circle.
    let angle = 2.0 * std::f64::consts::PI / n_vertices as f64;
    let (zx, zy) = (angle.cos(), angle.sin());
    let mut state: Vec<Point> = Vec::new();
    let (mut x, mut y) = (1.0, 0.0);
    for _ in 0..n_vertices {
        state.push(pt(x, y));
        let nx = x * zx - y * zy;
        let ny = x * zy + y * zx;
        x = nx;
        y = ny;
    }

    // A deterministic shuffle of the polygon order.
    let mut rng = Lcg::new(3);
    for i in (1..state.len()).rev() {
        let j = (rng.next_unit() * (i + 1) as f64) as usize;
        state.swap(i, j.min(i));
    }

    let n = state.len();
    let (result, _, _) = run_tour(
        state,
        3000,
        MoveKind::Plain,
        all_pairs(0, n),
        |k| 1.0 / k.max(1) as f64,
        5,
    );

    println!("{}", energy(&result));
}

#[test]
fn test_big_polygon() {
    let n_vertices = 20;

    // The 20th roots of unity: z^i for z on the unit circle.
    let angle = 2.0 * std::f64::consts::PI / n_vertices as f64;
    let (zx, zy) = (angle.cos(), angle.sin());
    let mut state: Vec<Point> = Vec::new();
    let (mut x, mut y) = (1.0, 0.0);
    for _ in 0..n_vertices {
        state.push(pt(x, y));
        let nx = x * zx - y * zy;
        let ny = x * zy + y * zx;
        x = nx;
        y = ny;
    }

    let best_energy = energy(&state);

    // A deterministic shuffle of the polygon order.
    let mut rng = Lcg::new(19);
    for i in (1..state.len()).rev() {
        let j = (rng.next_unit() * (i + 1) as f64) as usize;
        state.swap(i, j.min(i));
    }

    let energy_after_shuffle = energy(&state);
    println!("energy after shuffling: {energy_after_shuffle}");

    let final_state = run_engine(Tsp { state }, 10_000, |k| 1.0 - (0.0001 * k as f64), 13);

    let error = (best_energy - energy(&final_state.state)).abs();

    if error > 0.0001 {
        panic!(
            "error of {error} from final_state energy '{}' to '{}'. States are: {:?}",
            energy(&final_state.state),
            best_energy,
            final_state.state,
        )
    }
}

#[test]
fn test_seeded_replay() {
    // The engine owns a seeded random source and the driver seeds its
    // sampling, so two equal runs coincide exactly.
    let n = six_points().len();
    let (a, status_a, steps_a) = run_tour(
        six_points(),
        200,
        MoveKind::Geometric,
        all_pairs(0, n),
        |k| 1.0 - 0.004 * k as f64,
        77,
    );
    let (b, status_b, steps_b) = run_tour(
        six_points(),
        200,
        MoveKind::Geometric,
        all_pairs(0, n),
        |k| 1.0 - 0.004 * k as f64,
        77,
    );
    assert_eq!(a, b);
    assert_eq!(status_a, status_b);
    assert_eq!(steps_a, steps_b);
}

#[test]
fn test_greedy() {
    let correct_order = vec![
        pt(0.0, 0.0),
        pt(0.0, 1.0),
        pt(0.0, 2.0),
        pt(1.0, 2.0),
        pt(2.0, 2.0),
        pt(2.0, 1.0),
        pt(2.0, 0.0),
        pt(1.0, 0.0),
    ];

    let unordered = vec![
        pt(0.0, 0.0),
        pt(2.0, 1.0),
        pt(0.0, 2.0),
        pt(1.0, 2.0),
        pt(2.0, 0.0),
        pt(0.0, 1.0),
        pt(1.0, 0.0),
        pt(2.0, 2.0),
    ];

    let ordered = greedy(unordered);

    assert_eq!(energy(&ordered), energy(&correct_order));
}

#[test]
fn test_greedy_empty_and_single() {
    assert_eq!(greedy(vec![]), vec![]);
    assert_eq!(greedy(vec![pt(4.0, 5.0)]), vec![pt(4.0, 5.0)]);
}

#[test]
fn test_greedy_tie_breaks_to_first() {
    // Two remaining points equally near the anchor: the first one of
    // the scan is taken.
    let points = vec![pt(0.0, 1.0), pt(1.0, 0.0), pt(2.0, 0.0), pt(0.0, 0.0)];
    let mut builder = GreedyBuilder::new(points);
    let last = builder.last_added();
    assert_eq!(last, pt(0.0, 0.0));
    let bits: Vec<u64> = builder
        .remaining()
        .iter()
        .map(|p| distance(last, *p).to_bits())
        .collect();
    // Distances 1.0, 1.0, 2.0: positions 0 and 1 tie.
    builder.take_nearest(&bits);
    assert!(builder.done() == false);
    // The first of the tied points left the remainder.
    let left_over = builder.remaining().clone();
    assert_eq!(left_over, vec![pt(1.0, 0.0), pt(2.0, 0.0)]);
}

#[test]
fn test_greedy_is_permutation() {
    let input = vec![pt(0.5, 0.25), pt(3.0, -1.0), pt(2.0, 2.0), pt(-4.0, 0.125)];
    let output = greedy(input.clone());
    assert_eq!(sorted_bits(&output), sorted_bits(&input));
    // The construction is anchored at the last input point.
    assert_eq!(output[0], input[input.len() - 1]);
}

#[test]
fn test_run_is_permutation() {
    let points = vec![
        pt(0.0, 0.0),
        pt(5.0, 1.0),
        pt(-2.0, 4.0),
        pt(3.5, -3.5),
        pt(1.0, 1.0),
        pt(-1.0, -2.0),
        pt(4.0, 4.0),
        pt(0.25, -0.75),
    ];
    let n = points.len();
    let (result, _, _) = run_tour(
        points.clone(),
        50,
        MoveKind::Geometric,
        all_pairs(0, n),
        |k| 1.0 - 0.02 * k as f64,
        21,
    );
    assert_eq!(sorted_bits(&result), sorted_bits(&points));
}

#[test]
fn test_improving_candidate_is_committed() {
    let points = six_points();
    let n = points.len();
    let e0 = energy(&points);
    let mut engine =
        Annealer::new(points, e0.to_bits(), 10, MoveKind::Plain, all_pairs(0, n), Rng::from_seed(1));
    assert_eq!(engine.status(), Status::Running);

    let cand = engine.candidate();
    let ce = energy(&cand);
    let lower = ce.min(e0) - 1.0;
    // Even with a negative Metropolis verdict, a candidate reported
    // cheaper than the current tour is committed.
    engine.decide(lower.to_bits(), false);
    assert_eq!(engine.step_index(), 1);
    assert_eq!(engine.current_energy(), lower.to_bits());
    assert_eq!(engine.current().as_slice(), cand.as_slice());
}

#[test]
fn test_worsening_candidate_rejected_without_verdict() {
    let points = six_points();
    let n = points.len();
    let e0 = energy(&points);
    let mut engine =
        Annealer::new(points, e0.to_bits(), 10, MoveKind::Plain, all_pairs(0, n), Rng::from_seed(1));

    let higher = e0 + 1.0;
    engine.decide(higher.to_bits(), false);
    assert_eq!(engine.step_index(), 0);
    assert_eq!(engine.current_energy(), e0.to_bits());
}

#[test]
fn test_convergence_within_budget() {
    let points = six_points();
    let n = points.len();
    let (result, status, steps) = run_tour(
        points.clone(),
        100,
        MoveKind::Plain,
        all_pairs(0, n),
        |k| 1.0 - 0.01 * k as f64,
        42,
    );
    assert!(steps <= 100);
    assert!(status == Status::Converged || status == Status::Exhausted);
    assert_eq!(sorted_bits(&result), sorted_bits(&points));
}

#[test]
fn test_improving_steps_never_regress() {
    let points = six_points();
    let n = points.len();
    let e0 = energy(&points);
    let mut engine =
        Annealer::new(points, e0.to_bits(), 100, MoveKind::Plain, all_pairs(0, n), Rng::from_seed(9));
    let mut rng = Lcg::new(9);
    while engine.status() == Status::Running {
        let t = 1.0 - 0.01 * engine.step_index() as f64;
        let cand = engine.candidate();
        let ce = energy(&cand);
        let cur = f64::from_bits(engine.current_energy());
        let improving = ce < cur;
        let acc = if improving { 1.0 } else { (-(ce - cur) / t).exp() };
        let metropolis = acc >= rng.next_unit();
        engine.decide(ce.to_bits(), metropolis);
        if improving {
            // The improving candidate was committed and lowered the
            // recorded energy.
            assert_eq!(engine.current_energy(), ce.to_bits());
            assert!(f64::from_bits(engine.current_energy()) < cur);
        }
    }
}

#[test]
fn test_schedule_fault_stops_run() {
    let points = six_points();
    let n = points.len();
    // A linear schedule driven past its root turns non-positive at step
    // 100; the driver reports the fault instead of annealing on.
    let (result, status, steps) = run_tour(
        points.clone(),
        200,
        MoveKind::Plain,
        all_pairs(0, n),
        |k| 1.0 - 0.01 * k as f64,
        2,
    );
    if status == Status::Failed {
        assert!(steps <= 100);
        assert_eq!(sorted_bits(&result), sorted_bits(&points));
    } else {
        // The run may converge before the schedule turns bad.
        assert_eq!(status, Status::Converged);
    }
}

#[test]
fn test_zero_budget_returns_input_unchanged() {
    let points = six_points();
    let e0 = energy(&points);
    let engine = Annealer::new(
        points.clone(),
        e0.to_bits(),
        0,
        MoveKind::Plain,
        all_pairs(0, 6),
        Rng::from_seed(8),
    );
    assert_eq!(engine.status(), Status::Exhausted);
    assert_eq!(engine.into_points(), points);
}

#[test]
fn test_degenerate_tours_converge_at_once() {
    let empty: Vec<Point> = vec![];
    let engine = Annealer::new(empty, 0u64, 10, MoveKind::Plain, all_pairs(0, 0), Rng::from_seed(6));
    assert_eq!(engine.status(), Status::Converged);

    let single = vec![pt(1.0, 2.0)];
    let engine =
        Annealer::new(single.clone(), 0u64, 10, MoveKind::Plain, all_pairs(0, 1), Rng::from_seed(6));
    assert_eq!(engine.status(), Status::Converged);
    assert_eq!(engine.into_points(), single);
}

#[test]
fn test_energy_rotation_and_mirror_invariance() {
    // A 3-4-5 right triangle: every edge length is exact in double
    // precision, so the sums agree exactly in any rotation or direction.
    let tour = vec![pt(0.0, 0.0), pt(3.0, 0.0), pt(3.0, 4.0)];
    let base = energy(&tour);
    assert_eq!(base, 12.0);
    for k in 0..tour.len() {
        let mut rotated: Vec<Point> = tour[k..].to_vec();
        rotated.extend_from_slice(&tour[..k]);
        assert_eq!(energy(&rotated), base);
    }
    let mut reversed = tour.clone();
    reversed.reverse();
    assert_eq!(energy(&reversed), base);
}

#[test]
fn test_negative_temperature_faults_at_once() {
    let points = six_points();
    let n = points.len();
    let (result, status, steps) = run_tour(
        points.clone(),
        50,
        MoveKind::Plain,
        all_pairs(0, n),
        |_| -1.0,
        4,
    );
    assert_eq!(status, Status::Failed);
    assert_eq!(steps, 0);
    assert_eq!(result, points);
}

#[test]
fn test_duplicate_keeps_the_points() {
    let tsp = Tsp { state: six_points() };
    let copy = tsp.duplicate();
    assert_eq!(copy, tsp);
}

#[test]
fn test_next_states_cover_the_neighbourhood() {
    let tsp = Tsp { state: six_points() };
    let mut rng = Rng::from_seed(17);
    let candidates = tsp.get_next_states(&mut rng);
    // Every unordered pair of the six positions, once each.
    assert_eq!(candidates.len(), 15);
    for cand in &candidates {
        assert_eq!(sorted_bits(&cand.state), sorted_bits(&tsp.state));
    }
}
