use vstd::prelude::*;
use crate::rule::{is_bit, rule_output, RuleTable};

verus! {

/// Every cell holds 0 or 1.
pub open spec fn is_binary(cells: Seq<u8>) -> bool {
    forall|i: int| 0 <= i < cells.len() ==> is_bit(#[trigger] cells[i])
}

/// The generation that follows `cells` under table `t`: each interior cell
/// takes the table's entry for its neighbourhood, and the two end cells,
/// which lack a neighbour, keep their state.
pub open spec fn next_generation(cells: Seq<u8>, t: Seq<u8>) -> Seq<u8> {
    Seq::new(
        cells.len(),
        |i: int|
            if i == 0 || i == cells.len() - 1 {
                cells[i]
            } else {
                rule_output(t, cells[i - 1], cells[i], cells[i + 1])
            },
    )
}

/// A row of `n` cells, all 0 but the middle one (index `n / 2`), which is 1.
pub open spec fn seeded_row(n: nat) -> Seq<u8> {
    Seq::new(n, |i: int| if i == n / 2 { 1u8 } else { 0u8 })
}

/// Why a cell grid could not be built.
#[derive(Clone, Copy, Debug, PartialEq, Eq, Structural)]
pub enum GridError {
    /// A cell state is neither 0 nor 1.
    NotBinary,
}

/// One row of a binary cellular automaton.
pub struct CellGrid {
    cells: Vec<u8>,
}

impl View for CellGrid {
    type V = Seq<u8>;

    closed spec fn view(&self) -> Seq<u8> {
        self.cells@
    }
}

impl CellGrid {
    #[verifier::type_invariant]
    spec fn well_formed(&self) -> bool {
        is_binary(self.cells@)
    }

    /// A row of `width` cells, all 0.
    pub fn new(width: usize) -> (r: CellGrid)
        ensures
            r@ == Seq::new(width as nat, |i: int| 0u8),
    {
        let mut cells: Vec<u8> = Vec::new();
        let mut i: usize = 0;
        while i < width
            invariant
                i <= width,
                cells@ == Seq::new(i as nat, |j: int| 0u8),
            decreases width - i,
        {
            cells.push(0);
            i = i + 1;
            assert(cells@ =~= Seq::new(i as nat, |j: int| 0u8));
        }
        CellGrid { cells }
    }

    /// A row of `width` cells, all 0 but the middle one (index `width / 2`),
    /// which is 1; an empty row for width 0.
    pub fn with_center_seed(width: usize) -> (r: CellGrid)
        ensures
            r@ == seeded_row(width as nat),
    {
        if width == 0 {
            let r = CellGrid::new(0);
            assert(r@ =~= seeded_row(0));
            return r;
        }
        let mut cells = CellGrid::new(width).cells();
        cells.set(width / 2, 1);
        assert(cells@ =~= Seq::new(
            width as nat,
            |i: int| if i == width / 2 { 1u8 } else { 0u8 },
        ));
        CellGrid { cells }
    }

    /// A row with the given cell states; refused if a state is neither 0 nor 1.
    pub fn from_cells(cells: Vec<u8>) -> (r: Result<CellGrid, GridError>)
        ensures
            is_binary(cells@) ==> r is Ok && r->Ok_0@ == cells@,
            !is_binary(cells@) ==> r == Err::<CellGrid, GridError>(GridError::NotBinary),
    {
        let mut i: usize = 0;
        while i < cells.len()
            invariant
                i <= cells@.len(),
                forall|j: int| 0 <= j < i ==> is_bit(#[trigger] cells@[j]),
            decreases cells@.len() - i,
        {
            if cells[i] > 1 {
                return Err(GridError::NotBinary);
            }
            i = i + 1;
        }
        Ok(CellGrid { cells })
    }

    /// The number of cells.
    pub fn len(&self) -> (r: usize)
        ensures
            r == self@.len(),
    {
        self.cells.len()
    }

    /// The cell states, in order.
    pub fn cells(&self) -> (r: Vec<u8>)
        ensures
            r@ == self@,
            is_binary(r@),
    {
        proof {
            use_type_invariant(self);
        }
        self.cells.clone()
    }

    /// Replaces the row by its next generation under `rule`.
    pub fn step(&mut self, rule: &RuleTable)
        ensures
            final(self)@ == next_generation(old(self)@, rule@),
    {
        proof {
            use_type_invariant(&*self);
        }
        let n = self.cells.len();
        let mut next: Vec<u8> = Vec::new();
        let mut i: usize = 0;
        while i < n
            invariant
                n == self.cells@.len(),
                is_binary(self.cells@),
                i <= n,
                next@.len() == i,
                forall|j: int| 0 <= j < i ==> #[trigger] next@[j] == next_generation(
                    self.cells@,
                    rule@,
                )[j],
                is_binary(next@),
            decreases n - i,
        {
            let v = if i == 0 || i == n - 1 {
                self.cells[i]
            } else {
                rule.lookup(self.cells[i - 1], self.cells[i], self.cells[i + 1])
            };
            next.push(v);
            i = i + 1;
        }
        assert(next@ =~= next_generation(self.cells@, rule@));
        self.cells = next;
    }
}

/// A generation step keeps the length of the row, so any number of steps
/// does; and steps with a table of binary entries keep every cell binary.
pub proof fn lemma_step_keeps_shape(cells: Seq<u8>, t: Seq<u8>)
    ensures
        next_generation(cells, t).len() == cells.len(),
        next_generation(next_generation(cells, t), t).len() == cells.len(),
        crate::rule::is_rule_table(t) && is_binary(cells) ==> is_binary(
            next_generation(next_generation(cells, t), t),
        ),
{
    if crate::rule::is_rule_table(t) && is_binary(cells) {
        let once = next_generation(cells, t);
        assert(is_binary(once)) by {
            assert forall|i: int| 0 <= i < once.len() implies is_bit(#[trigger] once[i]) by {
                if i != 0 && i != cells.len() - 1 {
                    assert(0 <= 4 * cells[i - 1] + 2 * cells[i] + cells[i + 1] < 8);
                }
            }
        }
        let twice = next_generation(once, t);
        assert forall|i: int| 0 <= i < twice.len() implies is_bit(#[trigger] twice[i]) by {
            if i != 0 && i != once.len() - 1 {
                assert(0 <= 4 * once[i - 1] + 2 * once[i] + once[i + 1] < 8);
            }
        }
    }
}

} // verus!
