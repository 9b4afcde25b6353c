use procgen::capture::capture_due;
use procgen::fill::{reduce_draw, decide, CellLayout, CellPlan, FillDecision, FillMode};

#[test]
fn reduction_stays_below_the_range() {
    assert_eq!(reduce_draw(7, 5), 2);
    assert_eq!(reduce_draw(299_999, 300_000), 299_999);
    assert_eq!(reduce_draw(300_000, 300_000), 0);
    assert_eq!(reduce_draw(u64::MAX, 300_000), 51_615);
    assert_eq!(reduce_draw(123, 1), 0);
    let mut d: u64 = 1;
    for _ in 0..1000 {
        d = d.wrapping_mul(6364136223846793005).wrapping_add(1);
        for range in [1u64, 2, 300, 1000, 300_000] {
            assert!(reduce_draw(d, range) < range);
        }
    }
}

#[test]
fn binary_density_threshold() {
    let mode = FillMode::BinaryDensity { range: 300_000, threshold: 250_000 };
    assert_eq!(decide(mode, 250_001), FillDecision::Primary);
    assert_eq!(decide(mode, 250_000), FillDecision::Skip);
    assert_eq!(decide(mode, 550_001), FillDecision::Primary);
    assert_eq!(decide(mode, 600_000), FillDecision::Skip);
}

#[test]
fn tiered_size_bands() {
    let mode = FillMode::TieredSize { range: 100_000, low: 50_000, high: 90_000 };
    assert_eq!(decide(mode, 95_000), FillDecision::Secondary);
    assert_eq!(decide(mode, 60_000), FillDecision::Primary);
    assert_eq!(decide(mode, 90_000), FillDecision::Primary);
    assert_eq!(decide(mode, 50_000), FillDecision::Skip);
    assert_eq!(decide(mode, 190_000), FillDecision::Primary);
}

#[test]
fn continuous_mode_draws_every_cell() {
    for d in [0u64, 1, 299_999, 300_000, u64::MAX] {
        assert_eq!(decide(FillMode::ContinuousMultiChannel, d), FillDecision::Primary);
    }
}

#[test]
fn layout_counts_and_centres() {
    let l = CellLayout { width: 12, height: 6, size: 6 };
    assert_eq!(l.columns(), 2);
    assert_eq!(l.rows(), 1);
    let plans = l.plan_frame(FillMode::ContinuousMultiChannel, &vec![0, 0], &vec![0, 0]);
    assert_eq!((plans[0].x2, plans[0].y2), (-6, 0));
    assert_eq!((plans[1].x2, plans[1].y2), (6, 0));

    let odd = CellLayout { width: 10, height: 4, size: 4 };
    assert_eq!(odd.columns(), 3);
    assert_eq!(odd.rows(), 1);
    let plans = odd.plan_frame(FillMode::ContinuousMultiChannel, &vec![0; 3], &vec![0; 3]);
    let xs: Vec<i64> = plans.iter().map(|p| p.x2).collect();
    assert_eq!(xs, vec![-6, 2, 10]);
    assert!(plans.iter().all(|p| p.y2 == 0));

    let full = CellLayout { width: 3840, height: 2160, size: 6 };
    assert_eq!(full.columns(), 640);
    assert_eq!(full.rows(), 360);
}

#[test]
fn continuous_frame_plan_is_reproducible() {
    let l = CellLayout { width: 12, height: 12, size: 6 };
    let fills = vec![1_234_567, 300_000, 299_999, 42];
    let opacities = vec![1_234_567, 999, 1000, 5];
    let first = l.plan_frame(FillMode::ContinuousMultiChannel, &fills, &opacities);
    let second = l.plan_frame(FillMode::ContinuousMultiChannel, &fills, &opacities);
    assert_eq!(first, second);
    let p = FillDecision::Primary;
    assert_eq!(
        first,
        vec![
            CellPlan { x2: -6, y2: -6, decision: p, score: 34_567, opacity_cap: 567 },
            CellPlan { x2: 6, y2: -6, decision: p, score: 0, opacity_cap: 999 },
            CellPlan { x2: -6, y2: 6, decision: p, score: 299_999, opacity_cap: 0 },
            CellPlan { x2: 6, y2: 6, decision: p, score: 42, opacity_cap: 5 },
        ]
    );
}

#[test]
fn tiered_frame_plan() {
    let l = CellLayout { width: 6, height: 12, size: 6 };
    let mode = FillMode::TieredSize { range: 100_000, low: 50_000, high: 90_000 };
    let plans = l.plan_frame(mode, &vec![195_000, 10_000], &vec![0, 0]);
    assert_eq!(plans[0].decision, FillDecision::Secondary);
    assert_eq!(plans[0].score, 95_000);
    assert_eq!((plans[0].x2, plans[0].y2), (0, -6));
    assert_eq!(plans[1].decision, FillDecision::Skip);
    assert_eq!((plans[1].x2, plans[1].y2), (0, 6));
}

#[test]
fn capture_schedule() {
    assert!(capture_due(0, 1000));
    assert!(!capture_due(999, 1000));
    assert!(capture_due(2000, 1000));
    assert!(capture_due(7, 1));
}
