//! The two steady states of the external setting and the edge between them.

use vstd::prelude::*;

verus! {

/// The direction of a change between "no device present" and "at least one
/// device present".
#[derive(Clone, Copy, Debug, PartialEq, Eq, Structural)]
pub enum Direction {
    /// The set of present devices was empty and is not any more.
    ToNonEmpty,
    /// The set of present devices was not empty and now is.
    ToEmpty,
}

/// The edge, if any, between the emptiness before and after one event.
pub open spec fn spec_transition(was_empty: bool, is_empty: bool) -> Option<Direction> {
    if was_empty && !is_empty {
        Some(Direction::ToNonEmpty)
    } else if !was_empty && is_empty {
        Some(Direction::ToEmpty)
    } else {
        None
    }
}

/// Compares the emptiness before and after one event and names the edge
/// that was crossed. The same emptiness on both sides is no edge.
pub fn transition(was_empty: bool, is_empty: bool) -> (edge: Option<Direction>)
    ensures
        edge == spec_transition(was_empty, is_empty),
{
    match (was_empty, is_empty) {
        (true, true) | (false, false) => None,
        (true, false) => Some(Direction::ToNonEmpty),
        (false, true) => Some(Direction::ToEmpty),
    }
}

} // verus!
