//! The rows the list tabs show: each row's cells as text, and whether it is the
//! selected one.
use vstd::prelude::*;

verus! {

/// One row of a list tab.
#[derive(Clone, Debug, PartialEq, Eq)]
pub struct TableRow {
    pub cells: Vec<String>,
    pub selected: bool,
}

/// Row `i` of a list is highlighted exactly when the selection is `i`.
pub open spec fn spec_is_selected(sel: Option<usize>, i: int) -> bool {
    sel == Some(i as usize) && 0 <= i
}

} // verus!
