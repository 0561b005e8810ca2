//! The selection: an index into the filtered view, moved without wrapping.

use vstd::prelude::*;

verus! {

/// A selection index is in range: inside a view that has rows, and 0 where
/// the view has none.
pub open spec fn in_range(index: int, len: int) -> bool {
    if len > 0 {
        0 <= index < len
    } else {
        index == 0
    }
}

/// One row down, staying on the last row.
pub open spec fn next_index(index: int, len: int) -> int {
    if index + 1 < len {
        index + 1
    } else {
        index
    }
}

/// One row up, staying on the first row.
pub open spec fn previous_index(index: int, len: int) -> int {
    if len > 0 && index > 0 {
        index - 1
    } else {
        index
    }
}

/// The first row of a view that has rows.
pub open spec fn first_index(index: int, len: int) -> int {
    if len > 0 {
        0
    } else {
        index
    }
}

/// The last row of a view that has rows.
pub open spec fn last_index(index: int, len: int) -> int {
    if len > 0 {
        len - 1
    } else {
        index
    }
}

/// The index kept where it still names a row, else the last row, and 0 in a
/// view without rows.
pub open spec fn clamped_index(index: int, len: int) -> int {
    if len <= 0 {
        0
    } else if index < len {
        index
    } else {
        len - 1
    }
}

/// No movement leaves the view: from an index in range each of the four
/// movements gives an index in range, and none of them changes the index of
/// a view without rows.
pub proof fn lemma_moves_stay_in_range(index: int, len: int)
    requires
        0 <= len,
        in_range(index, len),
    ensures
        in_range(next_index(index, len), len),
        in_range(previous_index(index, len), len),
        in_range(first_index(index, len), len),
        in_range(last_index(index, len), len),
        len == 0 ==> next_index(index, len) == index && previous_index(index, len) == index
            && first_index(index, len) == index && last_index(index, len) == index,
{
}

/// Moving down stops at the last row and moving up at the first: neither
/// wraps around.
pub proof fn lemma_moves_saturate(index: int, len: int)
    requires
        0 < len,
        in_range(index, len),
    ensures
        index == len - 1 ==> next_index(index, len) == index,
        index < len - 1 ==> next_index(index, len) == index + 1,
        index == 0 ==> previous_index(index, len) == index,
        index > 0 ==> previous_index(index, len) == index - 1,
{
}

/// Clamping gives an index in range for every view, and keeps an index that
/// was in range.
pub proof fn lemma_clamped_in_range(index: int, len: int)
    requires
        0 <= index,
        0 <= len,
    ensures
        in_range(clamped_index(index, len), len),
        in_range(index, len) ==> clamped_index(index, len) == index,
{
}

/// The index one row down from `index` in a view of `len` rows.
pub fn next(index: usize, len: usize) -> (moved: usize)
    ensures
        moved == next_index(index as int, len as int),
{
    if index < len && index + 1 < len {
        index + 1
    } else {
        index
    }
}

/// The index one row up from `index` in a view of `len` rows.
pub fn previous(index: usize, len: usize) -> (moved: usize)
    ensures
        moved == previous_index(index as int, len as int),
{
    if len > 0 && index > 0 {
        index - 1
    } else {
        index
    }
}

/// The index of the first row of a view of `len` rows.
pub fn first(index: usize, len: usize) -> (moved: usize)
    ensures
        moved == first_index(index as int, len as int),
{
    if len > 0 {
        0
    } else {
        index
    }
}

/// The index of the last row of a view of `len` rows.
pub fn last(index: usize, len: usize) -> (moved: usize)
    ensures
        moved == last_index(index as int, len as int),
{
    if len > 0 {
        len - 1
    } else {
        index
    }
}

/// The index brought back into a view of `len` rows.
pub fn clamp(index: usize, len: usize) -> (kept: usize)
    ensures
        kept == clamped_index(index as int, len as int),
{
    if len == 0 {
        0
    } else if index < len {
        index
    } else {
        len - 1
    }
}

} // verus!
