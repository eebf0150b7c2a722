//! The count rule: a cell's successor is alive exactly when the number of
//! cells in the target state within a toroidal radius, with the cell's own
//! position counted only on request, lies in a set of accepted tallies.

use vstd::prelude::*;
use crate::indexing::{wrap_index, get_index, MAX_WIDTH};
use crate::wolframs_universe::GetNextState;

verus! {

/// The number of cells at toroidally resolved offsets `offset..=range` of
/// `index` whose state equals `valid_state`. A resolved position equal to
/// `index` itself contributes only when `include_self`.
pub open spec fn count_matching_from(
    row: Seq<bool>,
    index: int,
    offset: int,
    range: int,
    valid_state: bool,
    include_self: bool,
) -> int
    decreases range + 1 - offset,
{
    if offset > range {
        0
    } else {
        let resolved = wrap_index(row.len() as int, index, offset);
        let here: int = if row[resolved] == valid_state && (resolved != index || include_self) {
            1
        } else {
            0
        };
        here + count_matching_from(row, index, offset + 1, range, valid_state, include_self)
    }
}

/// The full tally over offsets `-range..=range` of `index`.
pub open spec fn neighbour_count(
    row: Seq<bool>,
    index: int,
    range: int,
    valid_state: bool,
    include_self: bool,
) -> int {
    count_matching_from(row, index, -range, range, valid_state, include_self)
}

/// Whether `tally` occurs among the accepted counts.
pub open spec fn counts_contain(counts: Seq<usize>, tally: int) -> bool {
    exists|j: int| 0 <= j < counts.len() && counts[j] as int == tally
}

/// Counts the cells within `range_offset` of `index`, toroidally resolved,
/// whose state equals `valid_state`; the cell's own position is counted only
/// when `include_self`.
pub fn get_full_neighbour_count(
    current_state: &Vec<bool>,
    index: usize,
    range_offset: isize,
    valid_state: bool,
    include_self: bool,
) -> (count: usize)
    requires
        0 < current_state@.len() <= MAX_WIDTH,
        (index as int) < current_state@.len(),
        0 <= range_offset as int <= current_state@.len(),
    ensures
        count as int == neighbour_count(
            current_state@,
            index as int,
            range_offset as int,
            valid_state,
            include_self,
        ),
{
    let max: usize = current_state.len();
    let mut result: usize = 0;
    let mut offset: isize = -range_offset;
    while offset <= range_offset
        invariant
            0 < max <= MAX_WIDTH,
            max == current_state@.len(),
            (index as int) < max as int,
            0 <= range_offset as int <= max as int,
            -(range_offset as int) <= offset as int <= range_offset as int + 1,
            0 <= result as int <= offset as int + range_offset as int,
            result as int + count_matching_from(
                current_state@,
                index as int,
                offset as int,
                range_offset as int,
                valid_state,
                include_self,
            ) == neighbour_count(
                current_state@,
                index as int,
                range_offset as int,
                valid_state,
                include_self,
            ),
        decreases range_offset as int + 1 - offset as int,
    {
        let current_index = get_index(max, index, offset);
        if valid_state == current_state[current_index] {
            if (index == current_index && include_self) || index != current_index {
                result = result + 1;
            }
        }
        offset = offset + 1;
    }
    result
}

/// The count rule evaluator.
#[derive(Clone)]
pub struct CountStateHandler {
    pub include_self: bool,
    pub range_offset: isize,
    pub valid_counts: Vec<usize>,
    pub valid_state: bool,
}

impl Default for CountStateHandler {
    /// The default count rule counts alive cells within radius 2, the cell
    /// itself included, and accepts tallies of 2 or 4.
    fn default() -> (handler: Self)
        ensures
            handler.include_self == true,
            handler.range_offset as int == 2,
            handler.valid_counts@ == seq![2usize, 4usize],
            handler.valid_state == true,
    {
        let mut valid_counts: Vec<usize> = Vec::new();
        valid_counts.push(2);
        valid_counts.push(4);
        proof {
            assert(valid_counts@ =~= seq![2usize, 4usize]);
        }
        CountStateHandler { include_self: true, range_offset: 2, valid_counts, valid_state: true }
    }
}

impl GetNextState for CountStateHandler {
    /// A well-formed count evaluator has a non-negative radius.
    open spec fn wf(&self) -> bool {
        0 <= self.range_offset as int
    }

    open spec fn compatible(&self, row: Seq<bool>) -> bool {
        &&& 0 < row.len() <= MAX_WIDTH as int
        &&& self.range_offset as int <= row.len()
    }

    open spec fn next_state_spec(&self, row: Seq<bool>, index: int) -> bool {
        counts_contain(
            self.valid_counts@,
            neighbour_count(row, index, self.range_offset as int, self.valid_state, self.include_self),
        )
    }

    fn get_next_element_state(&self, current_states: &Vec<bool>, index: usize) -> (next: bool) {
        let full_neighbour_count = get_full_neighbour_count(
            current_states,
            index,
            self.range_offset,
            self.valid_state,
            self.include_self,
        );
        contains_count(&self.valid_counts, full_neighbour_count)
    }
}

/// Whether `tally` occurs in the accepted counts, by linear search.
fn contains_count(counts: &Vec<usize>, tally: usize) -> (found: bool)
    ensures
        found == counts_contain(counts@, tally as int),
{
    let mut i: usize = 0;
    while i < counts.len()
        invariant
            i <= counts@.len(),
            forall|j: int| 0 <= j < i ==> counts@[j] != tally,
        decreases counts@.len() - i,
    {
        if counts[i] == tally {
            return true;
        }
        i = i + 1;
    }
    false
}

} // verus!
