use vstd::prelude::*;
use crate::random::uniform_below;

verus! {

/// Heavy-tailed draws are carried as fixed-point numbers in thousandths of a
/// unit: a draw of 2.5 is the integer 2500.
pub const DRAW_SCALE: u64 = 1000;

/// The range, in thousandths, to which bounce and step-size draws are reduced.
pub const BOUNCE_RANGE: u64 = 300_000;

/// How far inside the edge the soft wall starts.
pub const SOFT_MARGIN: i64 = 5;

/// The largest distance a coordinate moves in one tick.
pub const MAX_STEP: i64 = 3;

/// A point of the canvas, origin at its centre.
#[derive(Clone, Copy, Debug, PartialEq, Eq, Structural)]
pub struct Point {
    pub x: i64,
    pub y: i64,
}

/// The draws that decide one tick of the walk: `throw` in 1..=8 picks the
/// direction; `bounce` and `step` are heavy-tailed draws in thousandths.
#[derive(Clone, Copy, Debug, PartialEq, Eq, Structural)]
pub struct WalkDraws {
    pub throw: u8,
    pub bounce: u64,
    pub step: u64,
}

/// What a walk holds: the half extents of its canvas and its last two
/// positions.
#[derive(Clone, Copy, Debug, PartialEq, Eq, Structural)]
pub struct WalkState {
    pub half_width: i64,
    pub half_height: i64,
    pub previous: Point,
    pub current: Point,
}

pub open spec fn abs(c: int) -> int {
    if c < 0 {
        -c
    } else {
        c
    }
}

pub open spec fn sign(c: int) -> int {
    if c < 0 {
        -1
    } else if c > 0 {
        1
    } else {
        0
    }
}

/// The unit move that a throw selects: 1 is +x, 2 is +y, 3 is -x, 4 is -y,
/// 5 is (+x, +y), 6 is (-x, +y), 7 is (-x, -y) and 8 is (+x, -y).
pub open spec fn direction(throw: u8) -> (int, int) {
    if throw == 1 {
        (1, 0)
    } else if throw == 2 {
        (0, 1)
    } else if throw == 3 {
        (-1, 0)
    } else if throw == 4 {
        (0, -1)
    } else if throw == 5 {
        (1, 1)
    } else if throw == 6 {
        (-1, 1)
    } else if throw == 7 {
        (-1, -1)
    } else {
        (1, -1)
    }
}

/// The step length a draw gives: its reduction modulo 300 above 299 gives 3,
/// above 295 gives 2, else 1.
pub open spec fn step_size(draw: u64) -> int {
    let r = draw % BOUNCE_RANGE;
    if r > 299_000 {
        3
    } else if r > 295_000 {
        2
    } else {
        1
    }
}

/// Whether a coordinate `c` heading outward bounces back: the draw reduced
/// modulo 300, less (300 - |c|), exceeds 300.
pub open spec fn bounces(c: int, draw: u64) -> bool {
    (draw % BOUNCE_RANGE) - (BOUNCE_RANGE - DRAW_SCALE * abs(c)) > BOUNCE_RANGE
}

/// The next value of a coordinate `c` that the throw moves by `d` (-1, 0 or
/// 1), on an axis of half extent `half`.
/// - Heading outward within the soft margin, it may bounce: it then moves
///   inward by the drawn step.
/// - Else, at or past the edge and not heading inward, it moves one unit
///   inward.
/// - Else it moves by the drawn step in direction `d`.
pub open spec fn next_coord(c: int, d: int, half: int, draws: WalkDraws) -> int {
    let step = step_size(draws.step);
    if d * c > 0 && abs(c) >= half - SOFT_MARGIN && bounces(c, draws.bounce) {
        c - d * step
    } else if abs(c) >= half && d * c >= 0 {
        c - sign(c)
    } else {
        c + d * step
    }
}

/// The walk after one tick with the given draws.
pub open spec fn next_state(s: WalkState, draws: WalkDraws) -> WalkState {
    let (dx, dy) = direction(draws.throw);
    WalkState {
        previous: s.current,
        current: Point {
            x: next_coord(s.current.x as int, dx, s.half_width as int, draws) as i64,
            y: next_coord(s.current.y as int, dy, s.half_height as int, draws) as i64,
        },
        ..s
    }
}

/// A coordinate stays within one largest step past the edge.
pub open spec fn coord_in_reach(c: int, half: int) -> bool {
    abs(c) <= half + MAX_STEP
}

pub open spec fn state_well_formed(s: WalkState) -> bool {
    &&& 0 <= s.half_width <= u32::MAX
    &&& 0 <= s.half_height <= u32::MAX
    &&& coord_in_reach(s.current.x as int, s.half_width as int)
    &&& coord_in_reach(s.current.y as int, s.half_height as int)
}

/// One tick moves a coordinate by at most `MAX_STEP`; a coordinate at or past
/// the edge moves strictly toward the centre; and a coordinate within one
/// largest step past the edge stays so.
pub proof fn lemma_coord_step(c: int, d: int, half: int, draws: WalkDraws)
    requires
        -1 <= d <= 1,
        half >= 0,
    ensures
        abs(next_coord(c, d, half, draws) - c) <= MAX_STEP,
        c > 0 && c >= half ==> next_coord(c, d, half, draws) < c,
        c < 0 && -c >= half ==> next_coord(c, d, half, draws) > c,
        coord_in_reach(c, half) ==> coord_in_reach(next_coord(c, d, half, draws), half),
{
    let step = step_size(draws.step);
    assert(1 <= step <= 3);
    if d * c > 0 {
        assert(d == sign(c)) by (nonlinear_arith)
            requires
                d * c > 0,
                -1 <= d <= 1,
                c < 0 ==> sign(c) == -1,
                c > 0 ==> sign(c) == 1,
                c == 0 ==> sign(c) == 0,
        ;
    } else if d * c < 0 {
        assert(d == -sign(c)) by (nonlinear_arith)
            requires
                d * c < 0,
                -1 <= d <= 1,
                c < 0 ==> sign(c) == -1,
                c > 0 ==> sign(c) == 1,
                c == 0 ==> sign(c) == 0,
        ;
    } else {
        assert(d == 0 || c == 0) by (nonlinear_arith)
            requires
                d * c == 0,
        ;
    }
    assert(d * step == step || d * step == -step || d * step == 0) by (nonlinear_arith)
        requires
            -1 <= d <= 1,
    ;
    assert(d == 1 ==> d * step == step);
    assert(d == -1 ==> d * step == -step);
    assert(d == 0 ==> d * step == 0);
}

/// One tick moves each coordinate of the walk by at most `MAX_STEP`, moves a
/// coordinate at or past its edge strictly toward the centre, records the
/// position before the tick, and keeps the walk within one largest step past
/// the edges.
pub proof fn lemma_tick_bounded(s: WalkState, draws: WalkDraws)
    requires
        state_well_formed(s),
        1 <= draws.throw <= 8,
    ensures
        ({
            let t = next_state(s, draws);
            let (x, y) = (s.current.x as int, s.current.y as int);
            let (hw, hh) = (s.half_width as int, s.half_height as int);
            &&& state_well_formed(t)
            &&& t.previous == s.current
            &&& abs(t.current.x - x) <= MAX_STEP
            &&& abs(t.current.y - y) <= MAX_STEP
            &&& (x > 0 && x >= hw ==> t.current.x < x)
            &&& (x < 0 && -x >= hw ==> t.current.x > x)
            &&& (y > 0 && y >= hh ==> t.current.y < y)
            &&& (y < 0 && -y >= hh ==> t.current.y > y)
        }),
{
    let (dx, dy) = direction(draws.throw);
    lemma_coord_step(s.current.x as int, dx, s.half_width as int, draws);
    lemma_coord_step(s.current.y as int, dy, s.half_height as int, draws);
}

fn step_size_of(draw: u64) -> (r: i64)
    ensures
        r == step_size(draw),
{
    let r = draw % BOUNCE_RANGE;
    if r > 299_000 {
        3
    } else if r > 295_000 {
        2
    } else {
        1
    }
}

fn direction_of(throw: u8) -> (r: (i64, i64))
    ensures
        r.0 == direction(throw).0,
        r.1 == direction(throw).1,
{
    if throw == 1 {
        (1, 0)
    } else if throw == 2 {
        (0, 1)
    } else if throw == 3 {
        (-1, 0)
    } else if throw == 4 {
        (0, -1)
    } else if throw == 5 {
        (1, 1)
    } else if throw == 6 {
        (-1, 1)
    } else if throw == 7 {
        (-1, -1)
    } else {
        (1, -1)
    }
}

fn next_coord_of(c: i64, d: i64, half: i64, draws: WalkDraws) -> (r: i64)
    requires
        -1 <= d <= 1,
        0 <= half <= u32::MAX,
        coord_in_reach(c as int, half as int),
    ensures
        r == next_coord(c as int, d as int, half as int, draws),
{
    proof {
        lemma_coord_step(c as int, d as int, half as int, draws);
    }
    let step = step_size_of(draws.step);
    let mag: i64 = if c < 0 {
        -c
    } else {
        c
    };
    let toward: i64 = if c < 0 {
        -1
    } else if c > 0 {
        1
    } else {
        0
    };
    let outward = (d > 0 && c > 0) || (d < 0 && c < 0);
    let inward = (d > 0 && c < 0) || (d < 0 && c > 0);
    assert(outward == (d * c > 0)) by (nonlinear_arith)
        requires
            -1 <= d <= 1,
            outward == ((d > 0 && c > 0) || (d < 0 && c < 0)),
    ;
    assert(inward == (d * c < 0)) by (nonlinear_arith)
        requires
            -1 <= d <= 1,
            inward == ((d > 0 && c < 0) || (d < 0 && c > 0)),
    ;
    let reduced = (draws.bounce % BOUNCE_RANGE) as i64;
    let bounce = reduced - (BOUNCE_RANGE as i64 - DRAW_SCALE as i64 * mag) > BOUNCE_RANGE as i64;
    if outward && mag >= half - SOFT_MARGIN && bounce {
        c - d * step
    } else if mag >= half && !inward {
        c - toward
    } else {
        c + d * step
    }
}

/// A random walk on a canvas centred on the origin that steers away from the
/// edges.
pub struct BiasedWalk {
    state: WalkState,
}

impl View for BiasedWalk {
    type V = WalkState;

    closed spec fn view(&self) -> WalkState {
        self.state
    }
}

impl BiasedWalk {
    #[verifier::type_invariant]
    spec fn well_formed(&self) -> bool {
        state_well_formed(self.state)
    }

    /// A walk at the origin of a `width` by `height` canvas; both of its
    /// positions are the origin.
    pub fn new(width: u32, height: u32) -> (r: BiasedWalk)
        ensures
            r@ == (WalkState {
                half_width: (width / 2) as i64,
                half_height: (height / 2) as i64,
                previous: Point { x: 0, y: 0 },
                current: Point { x: 0, y: 0 },
            }),
    {
        let origin = Point { x: 0, y: 0 };
        BiasedWalk {
            state: WalkState {
                half_width: (width / 2) as i64,
                half_height: (height / 2) as i64,
                previous: origin,
                current: origin,
            },
        }
    }

    /// The position before the last tick.
    pub fn previous(&self) -> (r: Point)
        ensures
            r == self@.previous,
    {
        self.state.previous
    }

    /// The position now.
    pub fn current(&self) -> (r: Point)
        ensures
            r == self@.current,
    {
        self.state.current
    }

    /// Half the canvas width.
    pub fn half_width(&self) -> (r: i64)
        ensures
            r == self@.half_width,
    {
        self.state.half_width
    }

    /// Half the canvas height.
    pub fn half_height(&self) -> (r: i64)
        ensures
            r == self@.half_height,
    {
        self.state.half_height
    }

    /// One tick with the given draws: the current position becomes the
    /// previous one, and the walk moves as `next_state` says.
    pub fn advance(&mut self, draws: WalkDraws)
        requires
            1 <= draws.throw <= 8,
        ensures
            final(self)@ == next_state(old(self)@, draws),
    {
        proof {
            use_type_invariant(&*self);
            lemma_tick_bounded(self.state, draws);
        }
        let s = self.state;
        let (dx, dy) = direction_of(draws.throw);
        let x = next_coord_of(s.current.x, dx, s.half_width, draws);
        let y = next_coord_of(s.current.y, dy, s.half_height, draws);
        self.state = WalkState { previous: s.current, current: Point { x, y }, ..s };
    }

    /// One tick whose direction is drawn uniformly from the eight; the throw
    /// drawn is returned, and the walk moves as `advance` would with it.
    pub fn step(&mut self, bounce: u64, step: u64) -> (throw: u8)
        ensures
            1 <= throw <= 8,
            final(self)@ == next_state(old(self)@, WalkDraws { throw, bounce, step }),
    {
        let throw = (uniform_below(8) + 1) as u8;
        self.advance(WalkDraws { throw, bounce, step });
        throw
    }
}

} // verus!
