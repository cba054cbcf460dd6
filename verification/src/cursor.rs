//! The highlighted index: a cursor that steps over a list and wraps at both
//! ends.

use vstd::prelude::*;
use crate::error::MenuError;

verus! {

/// Where the cursor stands after one tick. An `up` edge takes one step back
/// and a `down` edge one step forward, in that order; whatever then lies past
/// the last entry goes to the first, and whatever lies before the first goes
/// to the last.
pub open spec fn spec_advance(index: int, len: int, up: bool, down: bool) -> int {
    let moved = index - (if up { 1int } else { 0int }) + (if down { 1int } else { 0int });
    if moved >= len {
        0
    } else if moved < 0 {
        len - 1
    } else {
        moved
    }
}

/// The cursor never leaves a list that has at least one entry.
pub proof fn lemma_advance_in_range(index: int, len: int, up: bool, down: bool)
    requires
        len >= 1,
    ensures
        0 <= spec_advance(index, len, up, down) < len,
{
}

/// Both edges in one tick cancel, and no edge leaves a valid cursor alone.
pub proof fn lemma_advance_rest(index: int, len: int, both: bool)
    requires
        0 <= index < len,
    ensures
        spec_advance(index, len, both, both) == index,
{
}

/// One step of the cursor over a list of `len` entries. A list without
/// entries has no cursor position: that is `InvalidState`.
pub fn advance(index: usize, len: usize, up: bool, down: bool) -> (next: Result<usize, MenuError>)
    ensures
        len == 0 ==> next == Err::<usize, MenuError>(MenuError::InvalidState),
        len > 0 ==> next == Ok::<usize, MenuError>(
            spec_advance(index as int, len as int, up, down) as usize,
        ),
{
    if len == 0 {
        return Err(MenuError::InvalidState);
    }
    if up == down {
        // No net movement; a cursor that was out of range goes to the front.
        if index >= len {
            Ok(0)
        } else {
            Ok(index)
        }
    } else if up {
        if index == 0 {
            Ok(len - 1)
        } else if index - 1 >= len {
            Ok(0)
        } else {
            Ok(index - 1)
        }
    } else {
        if index >= len - 1 {
            Ok(0)
        } else {
            Ok(index + 1)
        }
    }
}

} // verus!
