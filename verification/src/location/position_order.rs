use super::position::Position;
use core::cmp::Ordering;
use vstd::prelude::*;

verus! {

/// Positions are ordered by their byte offset alone.
pub open spec fn offset_order(a: usize, b: usize) -> Option<Ordering> {
    if a < b {
        Some(Ordering::Less)
    } else if a == b {
        Some(Ordering::Equal)
    } else {
        Some(Ordering::Greater)
    }
}

impl PartialOrd for Position {
    fn partial_cmp(&self, other: &Self) -> (r: Option<Ordering>) {
        if self.offset < other.offset {
            Some(Ordering::Less)
        } else if self.offset == other.offset {
            Some(Ordering::Equal)
        } else {
            Some(Ordering::Greater)
        }
    }
}

impl vstd::std_specs::cmp::PartialOrdSpecImpl for Position {
    open spec fn obeys_partial_cmp_spec() -> bool {
        true
    }

    open spec fn partial_cmp_spec(&self, other: &Position) -> Option<Ordering> {
        offset_order(self.offset, other.offset)
    }
}

} // verus!
