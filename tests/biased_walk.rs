use procgen::walk::{BiasedWalk, Point, WalkDraws};

fn draws(throw: u8, bounce: u64, step: u64) -> WalkDraws {
    WalkDraws { throw, bounce, step }
}

#[test]
fn first_diagonal_step_from_origin() {
    let mut w = BiasedWalk::new(100, 100);
    assert_eq!(w.half_width(), 50);
    assert_eq!(w.half_height(), 50);
    w.advance(draws(5, 0, 0));
    assert_eq!(w.current(), Point { x: 1, y: 1 });
    assert_eq!(w.previous(), Point { x: 0, y: 0 });
}

#[test]
fn each_throw_moves_its_way() {
    let expected = [(1, 0), (0, 1), (-1, 0), (0, -1), (1, 1), (-1, 1), (-1, -1), (1, -1)];
    for (i, (dx, dy)) in expected.iter().enumerate() {
        let mut w = BiasedWalk::new(100, 100);
        w.advance(draws(i as u8 + 1, 0, 0));
        assert_eq!(w.current(), Point { x: *dx, y: *dy });
    }
}

#[test]
fn step_size_follows_the_draw() {
    let mut w = BiasedWalk::new(100, 100);
    w.advance(draws(1, 0, 299_500));
    assert_eq!(w.current(), Point { x: 3, y: 0 });
    w.advance(draws(1, 0, 296_000));
    assert_eq!(w.current(), Point { x: 5, y: 0 });
    w.advance(draws(1, 0, 295_000));
    assert_eq!(w.current(), Point { x: 6, y: 0 });
    w.advance(draws(1, 0, 300_000 + 299_001));
    assert_eq!(w.current(), Point { x: 9, y: 0 });
    assert_eq!(w.previous(), Point { x: 6, y: 0 });
}

fn walk_to_the_right_edge() -> BiasedWalk {
    let mut w = BiasedWalk::new(800, 800);
    for _ in 0..133 {
        w.advance(draws(1, 0, 299_500));
    }
    assert_eq!(w.current(), Point { x: 399, y: 0 });
    w.advance(draws(1, 0, 299_500));
    assert_eq!(w.current(), Point { x: 402, y: 0 });
    w
}

#[test]
fn past_the_edge_the_walk_steps_back_one() {
    let mut w = walk_to_the_right_edge();
    w.advance(draws(1, 0, 299_500));
    assert_eq!(w.current(), Point { x: 401, y: 0 });
    w.advance(draws(2, 0, 0));
    assert_eq!(w.current(), Point { x: 400, y: 1 });
}

#[test]
fn a_large_draw_bounces_inward() {
    let mut w = walk_to_the_right_edge();
    w.advance(draws(1, 299_999, 299_500));
    assert_eq!(w.current(), Point { x: 399, y: 0 });
    w.advance(draws(1, 0, 0));
    assert_eq!(w.current(), Point { x: 400, y: 0 });
    w.advance(draws(1, 299_999, 296_000));
    assert_eq!(w.current(), Point { x: 398, y: 0 });
}

#[test]
fn ticks_are_bounded_and_edges_pull_inward() {
    let mut w = BiasedWalk::new(20, 10);
    let mut seed: u64 = 0x2545F4914F6CDD1D;
    let mut next = move || {
        seed = seed.wrapping_mul(6364136223846793005).wrapping_add(1442695040888963407);
        seed >> 11
    };
    for _ in 0..5000 {
        let before = w.current();
        let throw = (next() % 8) as u8 + 1;
        w.advance(draws(throw, next(), next()));
        let after = w.current();
        assert_eq!(w.previous(), before);
        assert!((after.x - before.x).abs() <= 3);
        assert!((after.y - before.y).abs() <= 3);
        if before.x.abs() >= 10 {
            assert!(after.x.abs() < before.x.abs());
        }
        if before.y.abs() >= 5 {
            assert!(after.y.abs() < before.y.abs());
        }
        assert!(after.x.abs() <= 13 && after.y.abs() <= 8);
    }
}

#[test]
fn random_ticks_report_their_throw() {
    let mut w = BiasedWalk::new(100, 100);
    let mut replay = BiasedWalk::new(100, 100);
    for _ in 0..200 {
        let start = w.current();
        let throw = w.step(0, 0);
        assert!((1..=8).contains(&throw));
        assert_eq!(w.previous(), start);
        let moved = w.current();
        assert!((moved.x - start.x).abs() <= 1 && (moved.y - start.y).abs() <= 1);
        assert_ne!(moved, start);
        replay.advance(draws(throw, 0, 0));
        assert_eq!(replay.current(), moved);
    }
}
