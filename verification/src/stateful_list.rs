//! A reusable ordered list with a single selection cursor and a scroll
//! offset. Selection moves circularly with `next` / `prev`, wraps at both
//! ends, and is always in bounds when present.

use vstd::prelude::*;

verus! {

/// Cursor state of one list: the selected row, if any, and the index of the
/// first row shown on screen (the scroll offset).
#[derive(Clone, Copy, PartialEq, Eq, Debug)]
pub struct ListState {
    pub selected: Option<usize>,
    pub offset: usize,
}

/// An ordered sequence of items plus a selection cursor.
pub struct StatefulList<T> {
    pub state: ListState,
    pub items: Vec<T>,
}

/// Where the selection lands after one step forward on a list of length
/// `len`: circular, and a no-op on an empty list.
pub open spec fn next_selection(sel: Option<usize>, len: nat) -> Option<usize> {
    if len == 0 {
        sel
    } else {
        match sel {
            None => Some(0usize),
            Some(i) => if i + 1 < len {
                Some((i + 1) as usize)
            } else {
                Some(0usize)
            },
        }
    }
}

/// Where the selection lands after one step backward on a list of length
/// `len`: circular, and a no-op on an empty list.
pub open spec fn prev_selection(sel: Option<usize>, len: nat) -> Option<usize> {
    if len == 0 {
        sel
    } else {
        match sel {
            None => Some(0usize),
            Some(i) => if i > 0 {
                Some((i - 1) as usize)
            } else {
                Some((len - 1) as usize)
            },
        }
    }
}

/// `next_selection` applied `k` times.
pub open spec fn iterated_next(sel: Option<usize>, len: nat, k: nat) -> Option<usize>
    decreases k,
{
    if k == 0 {
        sel
    } else {
        next_selection(iterated_next(sel, len, (k - 1) as nat), len)
    }
}

proof fn lemma_iterated_next_formula(i: usize, len: nat, k: nat)
    requires
        len <= usize::MAX,
        (i as nat) < len,
        k <= len,
    ensures
        iterated_next(Some(i), len, k) == Some(
            (if i + k < len {
                (i + k) as usize
            } else {
                (i + k - len) as usize
            }),
        ),
    decreases k,
{
    if k > 0 {
        lemma_iterated_next_formula(i, len, (k - 1) as nat);
    }
}

/// Circularity: on a non-empty list, stepping the selection forward once per
/// item brings it back to where it started.
pub proof fn lemma_next_is_circular(sel: Option<usize>, len: nat)
    requires
        0 < len <= usize::MAX,
        sel matches Some(i) && (i as nat) < len,
    ensures
        iterated_next(sel, len, len) == sel,
{
    let i = sel->0;
    lemma_iterated_next_formula(i, len, len);
}

impl<T> StatefulList<T> {
    /// The selection, when present, points at an item.
    pub open spec fn wf(&self) -> bool {
        match self.state.selected {
            Some(i) => (i as nat) < self.items@.len(),
            None => true,
        }
    }

    /// A fresh list: the first item is selected when there is one, nothing
    /// is selected otherwise, and the scroll offset starts at the top.
    pub fn with_items(items: Vec<T>) -> (l: StatefulList<T>)
        ensures
            l.items == items,
            l.state.offset == 0,
            l.state.selected == (if items@.len() == 0 {
                Option::<usize>::None
            } else {
                Some(0usize)
            }),
            l.wf(),
    {
        let selected: Option<usize> = if items.len() == 0 {
            None
        } else {
            Some(0)
        };
        StatefulList { state: ListState { selected, offset: 0 }, items }
    }

    /// Step the selection forward, wrapping from the last item to the first.
    pub fn next(&mut self)
        requires
            old(self).wf(),
        ensures
            final(self).items == old(self).items,
            final(self).state.offset == old(self).state.offset,
            final(self).state.selected == next_selection(
                old(self).state.selected,
                old(self).items@.len(),
            ),
            final(self).wf(),
    {
        if self.items.len() == 0 {
            return ;
        }
        let idx: usize = match self.state.selected {
            Some(i) => if i + 1 < self.items.len() {
                i + 1
            } else {
                0
            },
            None => 0,
        };
        self.state.selected = Some(idx);
    }

    /// Step the selection backward, wrapping from the first item to the last.
    pub fn prev(&mut self)
        requires
            old(self).wf(),
        ensures
            final(self).items == old(self).items,
            final(self).state.offset == old(self).state.offset,
            final(self).state.selected == prev_selection(
                old(self).state.selected,
                old(self).items@.len(),
            ),
            final(self).wf(),
    {
        if self.items.len() == 0 {
            return ;
        }
        let idx: usize = match self.state.selected {
            Some(i) => if i > 0 {
                i - 1
            } else {
                self.items.len() - 1
            },
            None => 0,
        };
        self.state.selected = Some(idx);
    }

    /// The selected item, or nothing when the list is empty, nothing is
    /// selected, or the cursor points past the end.
    pub fn selected_item(&self) -> (r: Option<&T>)
        ensures
            r is Some <==> (self.state.selected matches Some(i) && (i as nat) < self.items@.len()),
            r matches Some(item) ==> (self.state.selected matches Some(i) && *item == self.items@[i
                as int]),
    {
        if self.items.len() == 0 {
            return None;
        }
        let i = match self.state.selected {
            Some(i) => i,
            None => {
                return None;
            },
        };
        if i > self.items.len() - 1 {
            return None;
        }
        Some(&self.items[i])
    }

    /// Jump the selection to the final index; an empty list stays unselected.
    pub fn select_last(&mut self)
        ensures
            final(self).items == old(self).items,
            final(self).state.offset == old(self).state.offset,
            final(self).state.selected == (if old(self).items@.len() == 0 {
                Option::<usize>::None
            } else {
                Some((old(self).items@.len() - 1) as usize)
            }),
            final(self).wf(),
    {
        if self.items.len() == 0 {
            self.state.selected = None;
        } else {
            self.state.selected = Some(self.items.len() - 1);
        }
    }

    /// Transplant a selection index onto this list, clamping it to the list's
    /// bounds; an empty list stays unselected.
    pub fn select_index(&mut self, idx: Option<usize>)
        ensures
            final(self).items == old(self).items,
            final(self).state.offset == old(self).state.offset,
            final(self).state.selected == clamped_selection(idx, old(self).items@.len()),
            final(self).wf(),
    {
        let sel: Option<usize> = match idx {
            None => None,
            Some(i) => {
                if self.items.len() == 0 {
                    None
                } else if i < self.items.len() {
                    Some(i)
                } else {
                    Some(self.items.len() - 1)
                }
            },
        };
        self.state.selected = sel;
    }

    /// The selection index itself, used to carry a cursor across a rebuilt
    /// list.
    pub fn selected_index(&self) -> (r: Option<usize>)
        ensures
            r == self.state.selected,
    {
        self.state.selected
    }

    /// Set the scroll offset, used to carry it across a rebuilt list.
    pub fn set_offset(&mut self, offset: usize)
        ensures
            final(self).items == old(self).items,
            final(self).state.selected == old(self).state.selected,
            final(self).state.offset == offset,
    {
        self.state.offset = offset;
    }
}

/// A selection index carried onto a list of length `len`: kept when in
/// bounds, clamped to the final index when past the end, dropped when the
/// list is empty.
pub open spec fn clamped_selection(idx: Option<usize>, len: nat) -> Option<usize> {
    match idx {
        None => None,
        Some(i) => if len == 0 {
            None
        } else if (i as nat) < len {
            Some(i)
        } else {
            Some((len - 1) as usize)
        },
    }
}

} // verus!
