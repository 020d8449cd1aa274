//! A cursor-tracking ordered collection: a sequence of items together with an
//! optional selection index.
//!
//! Invariant (see [`StatefulList::wf`]): the selection is `None` exactly when
//! the list is empty, and otherwise always a valid index. Contents are only
//! ever replaced wholesale; the selection moves with wraparound.

use vstd::prelude::*;

verus! {

/// Selection index after advancing by one with wraparound.
pub open spec fn next_index(i: usize, len: usize) -> usize
    recommends
        0 < len,
        i < len,
{
    if i + 1 < len {
        (i + 1) as usize
    } else {
        0usize
    }
}

/// Selection index after stepping back by one with wraparound.
pub open spec fn prev_index(i: usize, len: usize) -> usize
    recommends
        0 < len,
        i < len,
{
    if i == 0 {
        (len - 1) as usize
    } else {
        (i - 1) as usize
    }
}

/// Selection after the contents are replaced by a list of `new_len` items:
/// gone when the new list is empty, clamped to the new last index when it
/// would fall out of bounds, otherwise kept. A previously unselected,
/// now non-empty list selects its first item.
///
/// The clamp compares with `>=`, so the selection always stays a valid
/// index; a selection exactly equal to the new length is clamped like any
/// other out-of-bounds index.
pub open spec fn replaced_selection(sel: Option<usize>, new_len: usize) -> Option<usize> {
    if new_len == 0 {
        None
    } else {
        match sel {
            None => Some(0usize),
            Some(k) => if k >= new_len {
                Some((new_len - 1) as usize)
            } else {
                Some(k)
            },
        }
    }
}

/// Advancing and then stepping back (or the other way round) returns to the
/// original index, for every valid selection of a non-empty list.
pub proof fn lemma_next_previous_round_trip(i: usize, len: usize)
    requires
        0 < len,
        i < len,
    ensures
        prev_index(next_index(i, len), len) == i,
        next_index(prev_index(i, len), len) == i,
{
}

/// Advancing on the last index wraps to the first; stepping back on the
/// first index wraps to the last.
pub proof fn lemma_wraparound(len: usize)
    requires
        0 < len,
    ensures
        next_index((len - 1) as usize, len) == 0usize,
        prev_index(0usize, len) == (len - 1) as usize,
{
}

/// Replacement keeps a selection that is still in bounds and clamps one that
/// is not to the last index of the new contents.
pub proof fn lemma_replace_clamp(k: usize, new_len: usize)
    requires
        0 < new_len,
    ensures
        k < new_len ==> replaced_selection(Some(k), new_len) == Some(k),
        k >= new_len ==> replaced_selection(Some(k), new_len) == Some(
            (new_len - 1) as usize,
        ),
{
}

/// Every well-formed non-empty list has a selection `Some(i)` with `i` a
/// valid index. Since every operation of [`StatefulList`] preserves
/// well-formedness, this holds in particular after any sequence of `next`
/// and `previous` calls.
pub proof fn lemma_nonempty_selection<T>(list: StatefulList<T>)
    requires
        list.wf(),
        list.vec@.len() > 0,
    ensures
        list.selected is Some,
        0 <= list.selected.unwrap() < list.vec@.len(),
{
}

/// An ordered sequence of items with a selection cursor.
pub struct StatefulList<T> {
    /// The items, in the order they were handed in.
    pub vec: Vec<T>,
    /// The selection: `None` exactly when the list is empty.
    pub selected: Option<usize>,
}

impl<T> StatefulList<T> {
    /// The selection is `None` iff the list is empty, and otherwise a valid
    /// index. Every operation preserves this.
    pub open spec fn wf(self) -> bool {
        match self.selected {
            None => self.vec@.len() == 0,
            Some(i) => i < self.vec@.len(),
        }
    }

    /// Build a list from initial contents, selecting the first item if there
    /// is one.
    pub fn from_items(items: Vec<T>) -> (list: Self)
        ensures
            list.wf(),
            list.vec@ == items@,
            list.selected == (if items@.len() == 0 {
                None::<usize>
            } else {
                Some(0usize)
            }),
    {
        let selected: Option<usize> = if items.len() == 0 {
            None
        } else {
            Some(0)
        };
        StatefulList { vec: items, selected }
    }

    /// Replace the contents wholesale, normalizing the selection per
    /// [`replaced_selection`]: clamped into bounds, never an observable
    /// fault.
    pub fn update(&mut self, items: Vec<T>)
        requires
            old(self).wf(),
        ensures
            final(self).wf(),
            final(self).vec@ == items@,
            final(self).selected == replaced_selection(
                old(self).selected,
                items@.len() as usize,
            ),
    {
        if items.len() == 0 {
            self.selected = None;
        } else {
            match self.selected {
                None => {
                    self.selected = Some(0);
                },
                Some(k) => {
                    if k >= items.len() {
                        self.selected = Some(items.len() - 1);
                    }
                },
            }
        }
        self.vec = items;
    }

    /// Advance the selection by one, wrapping to the first item past the
    /// end. On an empty list this is a no-op.
    pub fn next(&mut self)
        requires
            old(self).wf(),
        ensures
            final(self).wf(),
            final(self).vec == old(self).vec,
            old(self).vec@.len() == 0 ==> final(self).selected == old(self).selected,
            old(self).vec@.len() > 0 ==> final(self).selected == Some(
                next_index(old(self).selected.unwrap(), old(self).vec.len()),
            ),
    {
        if self.vec.len() > 0 {
            let i: usize = match self.selected {
                Some(i) => if i >= self.vec.len() - 1 {
                    0
                } else {
                    i + 1
                },
                None => 0,
            };
            self.selected = Some(i);
        }
    }

    /// Step the selection back by one, wrapping to the last item before the
    /// start. On an empty list this is a no-op.
    pub fn previous(&mut self)
        requires
            old(self).wf(),
        ensures
            final(self).wf(),
            final(self).vec == old(self).vec,
            old(self).vec@.len() == 0 ==> final(self).selected == old(self).selected,
            old(self).vec@.len() > 0 ==> final(self).selected == Some(
                prev_index(old(self).selected.unwrap(), old(self).vec.len()),
            ),
    {
        if self.vec.len() > 0 {
            let i: usize = match self.selected {
                Some(i) => if i == 0 {
                    self.vec.len() - 1
                } else {
                    i - 1
                },
                None => 0,
            };
            self.selected = Some(i);
        }
    }

    /// The current selection index, if any.
    pub fn selected(&self) -> (sel: Option<usize>)
        ensures
            sel == self.selected,
    {
        self.selected
    }

    /// The item under the cursor, or `None` on an empty list.
    pub fn selected_item(&self) -> (item: Option<&T>)
        requires
            self.wf(),
        ensures
            match self.selected {
                None => item is None,
                Some(i) => item is Some && *item.unwrap() == self.vec@[i as int],
            },
    {
        match self.selected {
            Some(i) => Some(&self.vec[i]),
            None => None,
        }
    }
}

} // verus!
