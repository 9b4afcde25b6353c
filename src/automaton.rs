use vstd::prelude::*;
use crate::fill::CellLayout;
use crate::grid::{next_generation, seeded_row, CellGrid};
use crate::rule::{is_bit, rule_output, RuleTable};

verus! {

/// A one-dimensional automaton laid over a canvas: one cell per column of the
/// layout, advanced by a fixed rule table.
pub struct Automaton {
    layout: CellLayout,
    grid: CellGrid,
    rule: RuleTable,
}

impl Automaton {
    pub closed spec fn spec_layout(&self) -> CellLayout {
        self.layout
    }

    /// The current row.
    pub closed spec fn spec_cells(&self) -> Seq<u8> {
        self.grid@
    }

    /// The rule table's entries.
    pub closed spec fn spec_table(&self) -> Seq<u8> {
        self.rule@
    }

    /// An automaton with one cell per `layout.size` of the canvas width, all
    /// 0 but the middle one.
    pub fn new(layout: CellLayout, rule: RuleTable) -> (r: Automaton)
        requires
            layout.size > 0,
        ensures
            r.spec_layout() == layout,
            r.spec_table() == rule@,
            r.spec_cells() == seeded_row((layout.width / layout.size) as nat),
    {
        let width = (layout.width / layout.size) as usize;
        Automaton { layout, grid: CellGrid::with_center_seed(width), rule }
    }

    /// Advances the row by one generation; layout and rule stay.
    pub fn generate(&mut self)
        ensures
            final(self).spec_cells() == next_generation(old(self).spec_cells(), old(self).spec_table()),
            final(self).spec_table() == old(self).spec_table(),
            final(self).spec_layout() == old(self).spec_layout(),
    {
        self.grid.step(&self.rule);
    }

    /// The next state the rule gives to the neighbourhood (a, b, c).
    pub fn rule(&self, a: u8, b: u8, c: u8) -> (r: u8)
        requires
            is_bit(a),
            is_bit(b),
            is_bit(c),
        ensures
            r == rule_output(self.spec_table(), a, b, c),
    {
        self.rule.lookup(a, b, c)
    }

    /// The current row.
    pub fn cells(&self) -> (r: Vec<u8>)
        ensures
            r@ == self.spec_cells(),
    {
        self.grid.cells()
    }

    /// The layout the automaton lies over.
    pub fn layout(&self) -> (r: CellLayout)
        ensures
            r == self.spec_layout(),
    {
        self.layout
    }
}

} // verus!
