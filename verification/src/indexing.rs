//! Toroidal indexing: a cell position plus a signed offset is wrapped back
//! into the row, so the row behaves as a circle.

use vstd::prelude::*;

verus! {

/// Largest row width the engine accepts. Positions and offsets are added
/// before wrapping, so two widths must fit in `usize` (and in `isize`) even
/// on 32-bit targets; this bound leaves ample headroom on both.
pub const MAX_WIDTH: usize = 0x4000_0000;

/// The wrapped position of `index + offset` in a row of length `width`:
/// sums that run past either end are brought back by one width. Meaningful
/// for `width > 0`, `0 <= index < width` and `-width <= offset <= width`,
/// the only offsets a rule evaluator ever produces.
pub open spec fn wrap_index(width: int, index: int, offset: int) -> int {
    let position = index + offset;
    if position >= width {
        position - width
    } else if position < 0 {
        position + width
    } else {
        position
    }
}

/// An offset of zero resolves to the position itself.
pub proof fn lemma_wrap_index_identity(width: int, index: int)
    requires
        0 < width,
        0 <= index < width,
    ensures
        wrap_index(width, index, 0) == index,
{
}

/// A full trip around the row, in either direction, comes back to the
/// starting position.
pub proof fn lemma_wrap_index_full_cycle(width: int, index: int)
    requires
        0 < width,
        0 <= index < width,
    ensures
        wrap_index(width, index, width) == index,
        wrap_index(width, index, -width) == index,
{
}

/// Resolves `index + offset` to a valid position in a row of length `max`,
/// wrapping around either end.
pub fn get_index(max: usize, index: usize, offset: isize) -> (resolved: usize)
    requires
        0 < max <= MAX_WIDTH,
        index < max,
        -(max as int) <= offset as int <= max as int,
    ensures
        resolved as int == wrap_index(max as int, index as int, offset as int),
        resolved < max,
{
    if offset >= 0 {
        let step: usize = offset as usize;
        let position: usize = index + step;
        if position >= max {
            position - max
        } else {
            position
        }
    } else {
        let step: usize = (-offset) as usize;
        if index >= step {
            index - step
        } else {
            index + max - step
        }
    }
}

} // verus!
