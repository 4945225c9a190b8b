//! `==` on grids.

use vstd::prelude::*;
use crate::grid::Grid;

verus! {

impl PartialEq for Grid {
    /// Two grids are equal where they have the same size and the same state in every cell.
    fn eq(&self, other: &Grid) -> (same: bool) {
        self.same_as(other)
    }
}

impl vstd::std_specs::cmp::PartialEqSpecImpl for Grid {
    open spec fn obeys_eq_spec() -> bool {
        true
    }

    open spec fn eq_spec(&self, other: &Grid) -> bool {
        self@ == other@
    }
}

impl Eq for Grid {

}

} // verus!
