//! Walking through the entries of a menu, round and round.

use vstd::prelude::*;

verus! {

/// The entry that is selected after a step down a menu of `len` entries:
/// the one after the selected entry, the first after the last one, and
/// the first if none was selected.
pub open spec fn entry_after(selected: Option<usize>, len: usize) -> int {
    match selected {
        Some(i) => if i >= len - 1 {
            0
        } else {
            i + 1
        },
        None => 0,
    }
}

/// The entry that is selected after a step up a menu of `len` entries:
/// the one before the selected entry, the last before the first one, and
/// the first if none was selected.
pub open spec fn entry_before(selected: Option<usize>, len: usize) -> int {
    match selected {
        Some(i) => if i == 0 {
            len - 1
        } else {
            i - 1
        },
        None => 0,
    }
}

/// The entry to select on a step down the menu.
pub fn next(selected: Option<usize>, len: usize) -> (entry: usize)
    requires
        len > 0,
    ensures
        entry == entry_after(selected, len),
        entry < len,
{
    match selected {
        Some(i) => {
            if i >= len - 1 {
                0
            } else {
                i + 1
            }
        },
        None => 0,
    }
}

/// The entry to select on a step up the menu.
pub fn previous(selected: Option<usize>, len: usize) -> (entry: usize)
    requires
        len > 0,
    ensures
        entry == entry_before(selected, len),
        selected matches Some(i) && i < len ==> entry < len,
        selected is None ==> entry < len,
{
    match selected {
        Some(i) => {
            if i == 0 {
                len - 1
            } else {
                i - 1
            }
        },
        None => 0,
    }
}

} // verus!
