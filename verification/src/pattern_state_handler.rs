//! The pattern rule: an 8-bit rule number, read most significant bit first,
//! selects which of the 8 canonical 3-cell neighborhoods map to an alive
//! cell, following Wolfram's elementary-automaton numbering convention.

use vstd::prelude::*;
use crate::indexing::{wrap_index, get_index, MAX_WIDTH};
use crate::wolframs_universe::GetNextState;

verus! {

/// Bit `k` (counting from the least significant end) of a rule number.
pub open spec fn bit_of(rule: u8, k: int) -> bool {
    if k == 0 {
        (rule as int) % 2 == 1
    } else if k == 1 {
        ((rule as int) / 2) % 2 == 1
    } else if k == 2 {
        ((rule as int) / 4) % 2 == 1
    } else if k == 3 {
        ((rule as int) / 8) % 2 == 1
    } else if k == 4 {
        ((rule as int) / 16) % 2 == 1
    } else if k == 5 {
        ((rule as int) / 32) % 2 == 1
    } else if k == 6 {
        ((rule as int) / 64) % 2 == 1
    } else if k == 7 {
        ((rule as int) / 128) % 2 == 1
    } else {
        false
    }
}

/// The number of set bits of a rule number.
pub open spec fn popcount(rule: u8) -> int {
    (if bit_of(rule, 0) { 1int } else { 0 }) + (if bit_of(rule, 1) { 1int } else { 0 })
        + (if bit_of(rule, 2) { 1int } else { 0 }) + (if bit_of(rule, 3) { 1int } else { 0 })
        + (if bit_of(rule, 4) { 1int } else { 0 }) + (if bit_of(rule, 5) { 1int } else { 0 })
        + (if bit_of(rule, 6) { 1int } else { 0 }) + (if bit_of(rule, 7) { 1int } else { 0 })
}

/// The `i`-th canonical 3-cell neighborhood, for `i` in `0..8`: the 3-bit
/// binary representation of `7 - i`, most significant bit first, so the
/// enumeration runs from `[true, true, true]` down to `[false, false, false]`.
pub open spec fn canonical_pattern(i: int) -> Seq<bool> {
    seq![(7 - i) / 4 % 2 == 1, (7 - i) / 2 % 2 == 1, (7 - i) % 2 == 1]
}

/// Whether rule number `rule` maps the `i`-th canonical neighborhood to
/// alive: bit `i` of the rule, read from the most significant end.
pub open spec fn rule_has_pattern(rule: u8, i: int) -> bool {
    bit_of(rule, 7 - i)
}

/// The canonical neighborhoods selected by `rule`, from position `i` on,
/// in enumeration order.
pub open spec fn patterns_from(rule: u8, i: int) -> Seq<Seq<bool>>
    decreases 8 - i,
{
    if i < 0 || i >= 8 {
        Seq::empty()
    } else {
        let rest = patterns_from(rule, i + 1);
        if rule_has_pattern(rule, i) {
            seq![canonical_pattern(i)] + rest
        } else {
            rest
        }
    }
}

/// The pattern set of rule number `rule`: the canonical neighborhoods whose
/// bit in `rule` is set, in enumeration order.
pub open spec fn patterns_of(rule: u8) -> Seq<Seq<bool>> {
    patterns_from(rule, 0)
}

/// The pattern set of a rule has exactly `popcount(rule)` members,
/// and a set bit count lies in `0..=8`.
pub proof fn lemma_pattern_count(rule: u8)
    ensures
        patterns_of(rule).len() == popcount(rule),
        0 <= popcount(rule) <= 8,
{
    reveal_with_fuel(patterns_from, 9);
}

/// Every member of a pattern set is a 3-cell neighborhood, and at most
/// `8 - i` members remain from position `i` on.
pub proof fn lemma_patterns_from_shape(rule: u8, i: int)
    ensures
        forall|j: int|
            0 <= j < patterns_from(rule, i).len() ==> (#[trigger] patterns_from(rule, i)[j]).len()
                == 3,
        patterns_from(rule, i).len() <= if i < 0 || i >= 8 {
            0int
        } else {
            8 - i
        },
    decreases 8 - i,
{
    if 0 <= i < 8 {
        lemma_patterns_from_shape(rule, i + 1);
    }
}

/// A nonzero rule number selects at least one neighborhood.
pub proof fn lemma_nonzero_rule_selects(rule: u8)
    requires
        rule != 0,
    ensures
        patterns_of(rule).len() > 0,
{
    lemma_pattern_count(rule);
    assert(!(rule % 2 == 1) && !((rule / 2) % 2 == 1) && !((rule / 4) % 2 == 1) && !((rule / 8)
        % 2 == 1) && !((rule / 16) % 2 == 1) && !((rule / 32) % 2 == 1) && !((rule / 64) % 2 == 1)
        && !((rule / 128) % 2 == 1) ==> rule == 0) by (bit_vector);
}

/// The neighborhood of the cell at `index`: the states of the `2*radius + 1`
/// cells at toroidally resolved offsets `-radius..=radius`, in ascending
/// offset order.
pub open spec fn gathered_neighborhood(row: Seq<bool>, index: int, radius: int) -> Seq<bool> {
    Seq::new((2 * radius + 1) as nat, |j: int| row[wrap_index(row.len() as int, index, j - radius)])
}

/// The pattern rule's verdict on the cell at `index`: alive exactly when the
/// gathered neighborhood is a member of the pattern set. The radius is half
/// the width of the set's first pattern, truncating.
pub open spec fn pattern_next_state(patterns: Seq<Seq<bool>>, row: Seq<bool>, index: int) -> bool {
    patterns.contains(gathered_neighborhood(row, index, patterns[0].len() as int / 2))
}

/// The pattern rule evaluator: a cell's successor is alive exactly when its
/// gathered neighborhood occurs in the pattern set.
#[derive(Clone)]
pub struct PatternStateHandler {
    pub patterns: Vec<Vec<bool>>,
}

impl PatternStateHandler {
    /// Builds the evaluator for an 8-bit rule number.
    pub fn new(rule: u8) -> (handler: Self)
        ensures
            handler.patterns.deep_view() == patterns_of(rule),
    {
        Self { patterns: Self::get_patterns(rule) }
    }

    /// The pattern set of a rule number, as rows of cells: the canonical
    /// neighborhoods whose bit in `rule` is set, most significant first.
    pub fn get_patterns(rule: u8) -> (result: Vec<Vec<bool>>)
        ensures
            result.deep_view() == patterns_of(rule),
    {
        let mut result: Vec<Vec<bool>> = Vec::new();
        proof {
            assert(result.deep_view() + patterns_from(rule, 0) =~= patterns_of(rule));
        }
        let mut i: usize = 0;
        while i < 8
            invariant
                i <= 8,
                result.deep_view() + patterns_from(rule, i as int) == patterns_of(rule),
            decreases 8 - i,
        {
            let ghost prev = result.deep_view();
            if bit_at(rule, 7 - i) {
                let pattern = canonical_pattern_row(i);
                result.push(pattern);
                proof {
                    assert(result.deep_view() =~= prev.push(pattern.deep_view()));
                    assert(pattern.deep_view() =~= pattern@);
                    assert(result.deep_view() + patterns_from(rule, i + 1) =~= prev
                        + patterns_from(rule, i as int));
                }
            }
            i = i + 1;
        }
        result
    }
}

impl Default for PatternStateHandler {
    /// The default evaluator uses rule number 30.
    fn default() -> (handler: Self)
        ensures
            handler.patterns.deep_view() == patterns_of(30),
    {
        Self { patterns: Self::get_patterns(30) }
    }
}

impl GetNextState for PatternStateHandler {
    /// A well-formed pattern evaluator holds a nonempty set of 3-cell
    /// patterns; an empty set is a degenerate construction (rule number 0).
    open spec fn wf(&self) -> bool {
        &&& self.patterns.deep_view().len() > 0
        &&& forall|j: int|
            0 <= j < self.patterns.deep_view().len() ==> (#[trigger] self.patterns.deep_view()[j]).len() == 3
    }

    open spec fn compatible(&self, row: Seq<bool>) -> bool {
        0 < row.len() <= MAX_WIDTH as int
    }

    open spec fn next_state_spec(&self, row: Seq<bool>, index: int) -> bool {
        pattern_next_state(self.patterns.deep_view(), row, index)
    }

    fn get_next_element_state(&self, current_states: &Vec<bool>, index: usize) -> (next: bool) {
        proof {
            assert(self.patterns.deep_view()[0] =~= self.patterns@[0]@);
        }
        let max: usize = current_states.len();
        let range_offset: usize = self.patterns[0].len() / 2;
        let range: isize = range_offset as isize;
        let mut current_pattern: Vec<bool> = Vec::new();
        let mut offset: isize = -range;
        while offset <= range
            invariant
                0 <= range as int <= max as int,
                0 < max <= MAX_WIDTH,
                max == current_states@.len(),
                (index as int) < max as int,
                -(range as int) <= offset as int <= range as int + 1,
                current_pattern@.len() == offset as int + range as int,
                forall|j: int|
                    0 <= j < current_pattern@.len() ==> current_pattern@[j] == current_states@[
                        wrap_index(max as int, index as int, j - range as int)
                    ],
            decreases range as int + 1 - offset as int,
        {
            let current_index = get_index(max, index, offset);
            current_pattern.push(current_states[current_index]);
            offset = offset + 1;
        }
        proof {
            assert(current_pattern@ =~= gathered_neighborhood(
                current_states@,
                index as int,
                range as int,
            ));
        }
        contains_row(&self.patterns, &current_pattern)
    }
}

/// Whether two rows hold the same states in the same order.
fn rows_equal(a: &Vec<bool>, b: &Vec<bool>) -> (eq: bool)
    ensures
        eq == (a@ == b@),
{
    if a.len() != b.len() {
        return false;
    }
    let mut i: usize = 0;
    while i < a.len()
        invariant
            i <= a@.len(),
            a@.len() == b@.len(),
            forall|j: int| 0 <= j < i ==> a@[j] == b@[j],
        decreases a@.len() - i,
    {
        if a[i] != b[i] {
            return false;
        }
        i = i + 1;
    }
    proof {
        assert(a@ =~= b@);
    }
    true
}

/// Whether `row` is a member of the pattern set, by full-row equality.
fn contains_row(patterns: &Vec<Vec<bool>>, row: &Vec<bool>) -> (found: bool)
    ensures
        found == patterns.deep_view().contains(row@),
{
    let mut i: usize = 0;
    while i < patterns.len()
        invariant
            i <= patterns@.len(),
            forall|j: int| 0 <= j < i ==> #[trigger] patterns.deep_view()[j] != row@,
        decreases patterns@.len() - i,
    {
        proof {
            assert(patterns.deep_view()[i as int] =~= patterns@[i as int]@);
        }
        if rows_equal(&patterns[i], row) {
            proof {
                assert(patterns.deep_view().contains(row@));
            }
            return true;
        }
        i = i + 1;
    }
    false
}

/// Bit `k` of a rule number, computed by division.
fn bit_at(rule: u8, k: usize) -> (b: bool)
    requires
        k < 8,
    ensures
        b == bit_of(rule, k as int),
{
    if k == 0 {
        rule % 2 == 1
    } else if k == 1 {
        (rule / 2) % 2 == 1
    } else if k == 2 {
        (rule / 4) % 2 == 1
    } else if k == 3 {
        (rule / 8) % 2 == 1
    } else if k == 4 {
        (rule / 16) % 2 == 1
    } else if k == 5 {
        (rule / 32) % 2 == 1
    } else if k == 6 {
        (rule / 64) % 2 == 1
    } else {
        (rule / 128) % 2 == 1
    }
}

/// The `i`-th canonical neighborhood as a row of cells.
fn canonical_pattern_row(i: usize) -> (row: Vec<bool>)
    requires
        i < 8,
    ensures
        row@ == canonical_pattern(i as int),
{
    let n: usize = 7 - i;
    let mut row: Vec<bool> = Vec::new();
    row.push(n / 4 % 2 == 1);
    row.push(n / 2 % 2 == 1);
    row.push(n % 2 == 1);
    proof {
        assert(row@ =~= canonical_pattern(i as int));
    }
    row
}

} // verus!
