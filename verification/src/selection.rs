//! Selection bookkeeping for the two list panels.
//!
//! A selection is `None` exactly when the list it points into is empty;
//! otherwise it is an index within bounds. Movement wraps cyclically, and
//! deletion re-anchors the index so the invariant survives every edit.

use vstd::prelude::*;

verus! {

/// The pair of list cursors: one into the project list, one into the
/// selected project's to-do list.
#[derive(Clone, Copy)]
pub struct SelectionState {
    pub selected_project: Option<usize>,
    pub selected_todo: Option<usize>,
}

/// Cyclic movement of a cursor inside a list of `len` items: from the last
/// index "down" wraps to 0, from index 0 "up" wraps to the last; an unset
/// cursor lands on 0. An empty list leaves the cursor untouched.
pub open spec fn cycled(cur: Option<usize>, len: nat, down: bool) -> Option<usize> {
    if len == 0 {
        cur
    } else {
        match cur {
            None => Some(0usize),
            Some(i) => {
                if down {
                    if i + 1 >= len {
                        Some(0usize)
                    } else {
                        Some((i + 1) as usize)
                    }
                } else {
                    if i == 0 {
                        Some((len - 1) as usize)
                    } else {
                        Some((i - 1) as usize)
                    }
                }
            },
        }
    }
}

/// Where the cursor stands after deleting the item it pointed at, in a list
/// that now has `new_len` items: `None` when the list became empty, the
/// last index when the deleted slot fell off the tail, otherwise the same
/// index (now naming the item that moved up).
pub open spec fn reindexed(deleted: usize, new_len: nat) -> Option<usize> {
    if new_len == 0 {
        None
    } else if deleted >= new_len {
        Some((new_len - 1) as usize)
    } else {
        Some(deleted)
    }
}

/// Executable cyclic movement; see [`cycled`].
pub fn cycle_index(cur: Option<usize>, len: usize, down: bool) -> (r: Option<usize>)
    ensures
        r == cycled(cur, len as nat, down),
        len > 0 && (cur matches Some(i) ==> i < len) ==> (r matches Some(j) && j < len),
        len == 0 ==> r == cur,
{
    if len == 0 {
        cur
    } else {
        match cur {
            None => Some(0),
            Some(i) => {
                if down {
                    if i >= len - 1 {
                        Some(0)
                    } else {
                        Some(i + 1)
                    }
                } else {
                    if i == 0 {
                        Some(len - 1)
                    } else {
                        Some(i - 1)
                    }
                }
            },
        }
    }
}

/// Executable re-anchoring after a deletion; see [`reindexed`].
pub fn reindex_after_delete(deleted_index: usize, new_length: usize) -> (r: Option<usize>)
    ensures
        r == reindexed(deleted_index, new_length as nat),
        new_length == 0 ==> r is None,
        deleted_index < new_length ==> r == Some(deleted_index),
        new_length > 0 && deleted_index >= new_length ==> r == Some((new_length - 1) as usize),
{
    if new_length == 0 {
        None
    } else if deleted_index >= new_length {
        Some(new_length - 1)
    } else {
        Some(deleted_index)
    }
}

/// Deleting the last remaining item clears the cursor to `None`; deleting a
/// non-last item keeps the same index selected, which now refers to the item
/// that shifted into the freed slot.
pub proof fn lemma_reindex_after_delete(deleted: usize, new_len: nat)
    ensures
        new_len == 0 ==> reindexed(deleted, new_len) is None,
        deleted < new_len ==> reindexed(deleted, new_len) == Some(deleted),
        new_len > 0 && deleted >= new_len ==> (reindexed(deleted, new_len) matches Some(i)
            && i == new_len - 1),
{
}

impl SelectionState {
    /// Set or clear the project cursor.
    pub fn select_project(&mut self, index: Option<usize>)
        ensures
            final(self).selected_project == index,
            final(self).selected_todo == old(self).selected_todo,
    {
        self.selected_project = index;
    }

    /// Set or clear the to-do cursor.
    pub fn select_todo(&mut self, index: Option<usize>)
        ensures
            final(self).selected_todo == index,
            final(self).selected_project == old(self).selected_project,
    {
        self.selected_todo = index;
    }
}

} // verus!
