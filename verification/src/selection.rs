//! Moving the selection of a list up and down.
use vstd::prelude::*;

verus! {

/// The selection after moving down in a list of `len` items (`len > 0`): the
/// first item when nothing was selected, else the next one, stopping at the last.
pub open spec fn spec_select_next(sel: Option<usize>, len: nat) -> Option<usize> {
    match sel {
        None => Some(0),
        Some(i) => Some(
            if i + 1 <= len - 1 {
                (i + 1) as usize
            } else {
                (len - 1) as usize
            },
        ),
    }
}

/// The selection after moving up: the first item when nothing was selected,
/// else the previous one, stopping at the first.
pub open spec fn spec_select_prev(sel: Option<usize>) -> Option<usize> {
    match sel {
        None => Some(0),
        Some(i) => Some(
            if i > 0 {
                (i - 1) as usize
            } else {
                0
            },
        ),
    }
}

/// The selection kept within a list of `len` items: none for an empty list,
/// else the old one (the first when there was none) but at most the last.
pub open spec fn spec_clamp_selection(sel: Option<usize>, len: nat) -> Option<usize> {
    if len == 0 {
        None
    } else {
        let i = match sel {
            Some(i) => i,
            None => 0,
        };
        Some(
            if i <= len - 1 {
                i
            } else {
                (len - 1) as usize
            },
        )
    }
}

pub fn select_next(sel: Option<usize>, len: usize) -> (r: Option<usize>)
    requires
        len > 0,
    ensures
        r == spec_select_next(sel, len as nat),
{
    let max = len - 1;
    match sel {
        None => Some(0),
        Some(idx) => Some(
            if idx.saturating_add(1) < max {
                idx.saturating_add(1)
            } else {
                max
            },
        ),
    }
}

pub fn select_prev(sel: Option<usize>) -> (r: Option<usize>)
    ensures
        r == spec_select_prev(sel),
{
    match sel {
        None => Some(0),
        Some(idx) => Some(idx.saturating_sub(1)),
    }
}

pub fn clamp_selection(sel: Option<usize>, len: usize) -> (r: Option<usize>)
    ensures
        r == spec_clamp_selection(sel, len as nat),
{
    if len == 0 {
        None
    } else {
        let i = match sel {
            Some(i) => i,
            None => 0,
        };
        Some(
            if i < len - 1 {
                i
            } else {
                len - 1
            },
        )
    }
}

/// A clamped selection always names an item of the list.
pub proof fn law_clamped_selection_in_range(sel: Option<usize>, len: nat)
    ensures
        spec_clamp_selection(sel, len) matches Some(i) ==> i < len,
        spec_clamp_selection(sel, len) is None <==> len == 0,
{
}

/// Moving down never leaves the list, nor does moving up from a selection in it.
pub proof fn law_moves_stay_in_range(sel: Option<usize>, len: nat)
    requires
        len > 0,
        len <= usize::MAX,
        sel matches Some(i) ==> i < len,
    ensures
        spec_select_next(sel, len) matches Some(i) && i < len,
        spec_select_prev(sel) matches Some(i) && i < len,
{
}

} // verus!
