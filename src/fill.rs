use vstd::prelude::*;
use vstd::arithmetic::div_mod::lemma_fundamental_div_mod;
use crate::walk::DRAW_SCALE;

verus! {

/// The range, in thousandths, to which the continuous mode reduces its fill
/// draws.
pub const CONTINUOUS_RANGE: u64 = 300_000;

/// A heavy-tailed draw reduced modulo `range`: always in `0..range`.
pub fn reduce_draw(draw: u64, range: u64) -> (r: u64)
    requires
        range > 0,
    ensures
        r == draw % range,
        r < range,
{
    draw % range
}

/// How a frame decides, cell by cell, what to draw. Ranges and thresholds are
/// in thousandths, as the draws are.
#[derive(Clone, Copy, Debug, PartialEq, Eq, Structural)]
pub enum FillMode {
    /// A cell is drawn when its fill score exceeds `threshold`.
    BinaryDensity { range: u64, threshold: u64 },
    /// A cell whose score exceeds `high` is drawn in the secondary colour, one
    /// whose score exceeds only `low` in the primary colour; its size follows
    /// a noise sample.
    TieredSize { range: u64, low: u64, high: u64 },
    /// Every cell is drawn; its colour channels follow noise samples.
    ContinuousMultiChannel,
}

/// What is drawn at one cell.
#[derive(Clone, Copy, Debug, PartialEq, Eq, Structural)]
pub enum FillDecision {
    Skip,
    Primary,
    Secondary,
}

/// The plan for one cell of a frame.
#[derive(Clone, Copy, Debug, PartialEq, Eq, Structural)]
pub struct CellPlan {
    /// Twice the x coordinate of the cell's centre (origin at the canvas
    /// centre), so that odd cell sizes stay exact.
    pub x2: i64,
    /// Twice the y coordinate of the cell's centre.
    pub y2: i64,
    pub decision: FillDecision,
    /// The fill draw reduced modulo the mode's range.
    pub score: u64,
    /// The opacity draw reduced modulo one unit: a ceiling on the cell's
    /// opacity, in thousandths.
    pub opacity_cap: u64,
}

/// The range to which a mode reduces its fill draws.
pub open spec fn mode_range(mode: FillMode) -> u64 {
    match mode {
        FillMode::BinaryDensity { range, .. } => range,
        FillMode::TieredSize { range, .. } => range,
        FillMode::ContinuousMultiChannel => CONTINUOUS_RANGE,
    }
}

pub open spec fn mode_valid(mode: FillMode) -> bool {
    mode_range(mode) > 0
}

/// The decision a mode takes for a cell with fill score `score`.
pub open spec fn decision_for(mode: FillMode, score: u64) -> FillDecision {
    match mode {
        FillMode::BinaryDensity { threshold, .. } => if score > threshold {
            FillDecision::Primary
        } else {
            FillDecision::Skip
        },
        FillMode::TieredSize { low, high, .. } => if score > high {
            FillDecision::Secondary
        } else if score > low {
            FillDecision::Primary
        } else {
            FillDecision::Skip
        },
        FillMode::ContinuousMultiChannel => FillDecision::Primary,
    }
}

/// The decision for a cell whose fill draw is `draw`.
pub fn decide(mode: FillMode, draw: u64) -> (r: FillDecision)
    requires
        mode_valid(mode),
    ensures
        r == decision_for(mode, draw % mode_range(mode)),
{
    match mode {
        FillMode::BinaryDensity { range, threshold } => {
            if reduce_draw(draw, range) > threshold {
                FillDecision::Primary
            } else {
                FillDecision::Skip
            }
        },
        FillMode::TieredSize { range, low, high } => {
            let score = reduce_draw(draw, range);
            if score > high {
                FillDecision::Secondary
            } else if score > low {
                FillDecision::Primary
            } else {
                FillDecision::Skip
            }
        },
        FillMode::ContinuousMultiChannel => FillDecision::Primary,
    }
}

/// A canvas cut into square cells of side `size`, scanned from the corner at
/// (-width / 2, -height / 2); a last, partial row or column counts as a cell.
#[derive(Clone, Copy, Debug, PartialEq, Eq, Structural)]
pub struct CellLayout {
    pub width: u32,
    pub height: u32,
    pub size: u32,
}

/// How many cells of side `size` start within `extent`.
pub open spec fn steps(extent: u32, size: u32) -> int {
    (extent + size - 1) / size as int
}

/// Twice the centre coordinate of cell `index` along an axis of length
/// `extent`.
pub open spec fn centre2(index: int, extent: u32, size: u32) -> int {
    2 * index * size - extent + size
}

pub open spec fn layout_columns(l: CellLayout) -> int {
    steps(l.width, l.size)
}

pub open spec fn layout_rows(l: CellLayout) -> int {
    steps(l.height, l.size)
}

pub open spec fn layout_cells(l: CellLayout) -> int {
    layout_rows(l) * layout_columns(l)
}

/// The plan of cell `k` of the scan, row by row, with its two draws.
pub open spec fn plan_for(
    l: CellLayout,
    mode: FillMode,
    k: int,
    fill_draw: u64,
    opacity_draw: u64,
) -> CellPlan {
    let cols = layout_columns(l);
    CellPlan {
        x2: centre2(k % cols, l.width, l.size) as i64,
        y2: centre2(k / cols, l.height, l.size) as i64,
        decision: decision_for(mode, fill_draw % mode_range(mode)),
        score: fill_draw % mode_range(mode),
        opacity_cap: opacity_draw % DRAW_SCALE,
    }
}

fn steps_of(extent: u32, size: u32) -> (r: u64)
    requires
        size > 0,
    ensures
        r == steps(extent, size),
        r <= extent,
{
    assert((extent + size - 1) / size as int <= extent) by (nonlinear_arith)
        requires
            size > 0,
    {
        if extent > 0 {
            assert(extent + size - 1 <= extent * size) by (nonlinear_arith)
                requires
                    size >= 1,
                    extent >= 1,
            ;
        }
    }
    ((extent as u64 + size as u64 - 1) / size as u64)
}

fn centre_of(index: u64, extent: u32, size: u32) -> (r: i64)
    requires
        size > 0,
        index < steps(extent, size),
    ensures
        r == centre2(index as int, extent, size),
{
    let ghost n = extent as int + size as int - 1;
    proof {
        lemma_fundamental_div_mod(n, size as int);
        assert(index * size < extent) by (nonlinear_arith)
            requires
                index + 1 <= n / size as int,
                n == size * (n / size as int) + n % size as int,
                0 <= n % size as int,
                n == extent + size - 1,
                size > 0,
        ;
    }
    let along: i64 = (index as i64) * (size as i64);
    assert(2 * index * size == 2 * along) by (nonlinear_arith)
        requires
            along == index * size,
    ;
    2 * along - extent as i64 + size as i64
}

impl CellLayout {
    /// Cells per row.
    pub fn columns(&self) -> (r: u64)
        requires
            self.size > 0,
        ensures
            r == layout_columns(*self),
    {
        steps_of(self.width, self.size)
    }

    /// Number of rows.
    pub fn rows(&self) -> (r: u64)
        requires
            self.size > 0,
        ensures
            r == layout_rows(*self),
    {
        steps_of(self.height, self.size)
    }

    /// The plan of every cell of a frame, row by row; cell `k` uses the fill
    /// draw and the opacity draw at index `k`.
    pub fn plan_frame(&self, mode: FillMode, fill_draws: &Vec<u64>, opacity_draws: &Vec<u64>) -> (r:
        Vec<CellPlan>)
        requires
            self.size > 0,
            mode_valid(mode),
            fill_draws@.len() == layout_cells(*self),
            opacity_draws@.len() == layout_cells(*self),
        ensures
            r@.len() == layout_cells(*self),
            forall|k: int|
                0 <= k < r@.len() ==> #[trigger] r@[k] == plan_for(
                    *self,
                    mode,
                    k,
                    fill_draws@[k],
                    opacity_draws@[k],
                ),
    {
        let cols = self.columns();
        let rows = self.rows();
        let n = fill_draws.len();
        let mut plans: Vec<CellPlan> = Vec::new();
        let mut k: usize = 0;
        while k < n
            invariant
                n == fill_draws@.len(),
                n == opacity_draws@.len(),
                n == rows * cols,
                cols == layout_columns(*self),
                rows == layout_rows(*self),
                self.size > 0,
                mode_valid(mode),
                k <= n,
                plans@.len() == k,
                forall|j: int|
                    0 <= j < k ==> #[trigger] plans@[j] == plan_for(
                        *self,
                        mode,
                        j,
                        fill_draws@[j],
                        opacity_draws@[j],
                    ),
            decreases n - k,
        {
            assert(cols > 0) by (nonlinear_arith)
                requires
                    k < rows * cols,
                    rows >= 0,
                    cols >= 0,
            ;
            let row = k as u64 / cols;
            let col = k as u64 % cols;
            proof {
                let ki = k as int;
                let ci = cols as int;
                lemma_fundamental_div_mod(ki, ci);
                assert(row < rows) by (nonlinear_arith)
                    requires
                        ki < rows * ci,
                        ci > 0,
                        row == ki / ci,
                        ki == ci * (ki / ci) + ki % ci,
                        ki % ci >= 0,
                ;
            }
            let fill = fill_draws[k];
            let opacity = opacity_draws[k];
            let range = match mode {
                FillMode::BinaryDensity { range, .. } => range,
                FillMode::TieredSize { range, .. } => range,
                FillMode::ContinuousMultiChannel => CONTINUOUS_RANGE,
            };
            let plan = CellPlan {
                x2: centre_of(col, self.width, self.size),
                y2: centre_of(row, self.height, self.size),
                decision: decide(mode, fill),
                score: reduce_draw(fill, range),
                opacity_cap: reduce_draw(opacity, DRAW_SCALE),
            };
            plans.push(plan);
            k = k + 1;
        }
        plans
    }
}

/// Reducing a draw modulo a positive range always lands in `0..range`.
pub proof fn lemma_reduction_in_range(draw: u64, range: u64)
    requires
        range > 0,
    ensures
        0 <= draw % range < range,
{
}

} // verus!
