use vstd::prelude::*;
use vstd::string::StrSliceExecFns;

verus! {

/// The neighbourhood index of three cell states: the states read as a
/// three-bit number, left cell most significant.
pub open spec fn index_of(left: u8, mid: u8, right: u8) -> int {
    4 * left + 2 * mid + right
}

/// A cell state of a binary automaton.
pub open spec fn is_bit(b: u8) -> bool {
    b <= 1
}

/// An eight-entry table of binary next states.
pub open spec fn is_rule_table(t: Seq<u8>) -> bool {
    t.len() == 8 && forall|i: int| 0 <= i < 8 ==> is_bit(#[trigger] t[i])
}

/// The next state that table `t` gives to the neighbourhood (left, mid, right).
pub open spec fn rule_output(t: Seq<u8>, left: u8, mid: u8, right: u8) -> u8 {
    t[index_of(left, mid, right)]
}

/// The tables of the named presets, entry `i` being the next state of
/// neighbourhood index `i`; `None` for a name that is no preset.
pub open spec fn preset_table(name: Seq<char>) -> Option<Seq<u8>> {
    if name == "rule 222"@ {
        Some(seq![0u8, 1, 1, 1, 1, 0, 1, 1])
    } else if name == "rule 190"@ {
        Some(seq![0u8, 1, 1, 1, 1, 1, 0, 1])
    } else if name == "rule 30"@ {
        Some(seq![0u8, 1, 1, 1, 1, 0, 0, 0])
    } else if name == "rule 110"@ {
        Some(seq![0u8, 1, 1, 1, 0, 1, 1, 0])
    } else if name == "rule 90"@ {
        Some(seq![0u8, 1, 0, 1, 1, 0, 1, 0])
    } else {
        None
    }
}

/// Why a rule table could not be built.
#[derive(Clone, Copy, Debug, PartialEq, Eq, Structural)]
pub enum RuleError {
    /// The preset name is not one of the known presets.
    UnknownPreset,
    /// The table does not have exactly eight entries.
    WrongSize,
    /// An entry of the table is neither 0 nor 1.
    NotBinary,
}

/// The next-state table of a one-dimensional, three-neighbour cellular
/// automaton. It never changes after construction.
pub struct RuleTable {
    table: Vec<u8>,
}

impl View for RuleTable {
    type V = Seq<u8>;

    closed spec fn view(&self) -> Seq<u8> {
        self.table@
    }
}

/// Whether two strings hold the same characters.
fn same_text(a: &str, b: &str) -> (r: bool)
    ensures
        r == (a@ == b@),
{
    let n = a.unicode_len();
    if n != b.unicode_len() {
        return false;
    }
    let mut i: usize = 0;
    while i < n
        invariant
            n == a@.len(),
            n == b@.len(),
            i <= n,
            forall|j: int| 0 <= j < i ==> a@[j] == b@[j],
        decreases n - i,
    {
        if a.get_char(i) != b.get_char(i) {
            return false;
        }
        i = i + 1;
    }
    assert(a@ =~= b@);
    true
}

/// Index of the rule-table entry for the neighbourhood (left, mid, right).
pub fn neighbourhood_index(left: u8, mid: u8, right: u8) -> (r: usize)
    requires
        is_bit(left),
        is_bit(mid),
        is_bit(right),
    ensures
        r == index_of(left, mid, right),
        r <= 7,
{
    (4 * left + 2 * mid + right) as usize
}

impl RuleTable {
    #[verifier::type_invariant]
    spec fn well_formed(&self) -> bool {
        is_rule_table(self.table@)
    }

    /// Builds a table from its eight entries, entry `i` giving the next state
    /// of neighbourhood index `i`.
    pub fn from_bits(bits: Vec<u8>) -> (r: Result<RuleTable, RuleError>)
        ensures
            bits@.len() != 8 ==> r == Err::<RuleTable, RuleError>(RuleError::WrongSize),
            bits@.len() == 8 && !is_rule_table(bits@) ==> r == Err::<RuleTable, RuleError>(
                RuleError::NotBinary,
            ),
            is_rule_table(bits@) ==> r is Ok && r->Ok_0@ == bits@,
    {
        if bits.len() != 8 {
            return Err(RuleError::WrongSize);
        }
        let mut i: usize = 0;
        while i < 8
            invariant
                bits@.len() == 8,
                i <= 8,
                forall|j: int| 0 <= j < i ==> is_bit(#[trigger] bits@[j]),
            decreases 8 - i,
        {
            if bits[i] > 1 {
                return Err(RuleError::NotBinary);
            }
            i = i + 1;
        }
        Ok(RuleTable { table: bits })
    }

    /// Builds the table of a named preset: "rule 222", "rule 190", "rule 30",
    /// "rule 110" or "rule 90". Any other name is refused.
    pub fn from_preset(name: &str) -> (r: Result<RuleTable, RuleError>)
        ensures
            match preset_table(name@) {
                Some(t) => r is Ok && r->Ok_0@ == t,
                None => r == Err::<RuleTable, RuleError>(RuleError::UnknownPreset),
            },
    {
        let bits: Vec<u8> = if same_text(name, "rule 222") {
            vec![0, 1, 1, 1, 1, 0, 1, 1]
        } else if same_text(name, "rule 190") {
            vec![0, 1, 1, 1, 1, 1, 0, 1]
        } else if same_text(name, "rule 30") {
            vec![0, 1, 1, 1, 1, 0, 0, 0]
        } else if same_text(name, "rule 110") {
            vec![0, 1, 1, 1, 0, 1, 1, 0]
        } else if same_text(name, "rule 90") {
            vec![0, 1, 0, 1, 1, 0, 1, 0]
        } else {
            return Err(RuleError::UnknownPreset);
        };
        let ghost expected = preset_table(name@)->Some_0;
        assert(bits@ =~= expected);
        RuleTable::from_bits(bits)
    }

    /// The next state of the middle cell of the neighbourhood
    /// (left, mid, right).
    pub fn lookup(&self, left: u8, mid: u8, right: u8) -> (r: u8)
        requires
            is_bit(left),
            is_bit(mid),
            is_bit(right),
        ensures
            r == rule_output(self@, left, mid, right),
            is_bit(r),
    {
        proof {
            use_type_invariant(self);
        }
        let i = neighbourhood_index(left, mid, right);
        self.table[i]
    }

    /// The eight entries of the table.
    pub fn entries(&self) -> (r: Vec<u8>)
        ensures
            r@ == self@,
            is_rule_table(r@),
    {
        proof {
            use_type_invariant(self);
        }
        self.table.clone()
    }
}

/// For binary states the neighbourhood index is 4 * left + 2 * mid + right
/// and lies in 0..=7; the entry looked up is a function of the table and the
/// three states alone, so two lookups of one neighbourhood in one table agree.
pub proof fn lemma_lookup_pure(t: Seq<u8>, left: u8, mid: u8, right: u8)
    requires
        is_bit(left),
        is_bit(mid),
        is_bit(right),
    ensures
        index_of(left, mid, right) == 4 * left + 2 * mid + right,
        0 <= index_of(left, mid, right) <= 7,
        rule_output(t, left, mid, right) == t[4 * left + 2 * mid + right],
{
}

} // verus!
