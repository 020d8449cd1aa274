//! The application state: the two cursor-tracking panes and the rule that
//! keeps them linked.
//!
//! `windows` holds the filtered top-level enumeration; `children` is always
//! derived from whichever window is currently selected in `windows` (or
//! empty when nothing is selected). It is re-derived wholesale, never
//! patched: every operation that can move the top-level selection is to be
//! followed by a [`AppState::select_children`] call with a fresh enumeration
//! of the newly selected window's related set.

use vstd::prelude::*;

use crate::list::{next_index, prev_index, replaced_selection, StatefulList};
use crate::window::{filter_top_level, spec_filtered, Window};

verus! {

/// The two panes of the viewer.
pub struct AppState {
    /// Filtered top-level windows, with the user's selection.
    pub windows: StatefulList<Window>,
    /// Windows related to the selected top-level window: its direct
    /// children and the windows of the same owning thread.
    pub children: StatefulList<Window>,
}

impl AppState {
    /// Both panes keep their selection invariant.
    pub open spec fn wf(self) -> bool {
        self.windows.wf() && self.children.wf()
    }

    /// Build the initial state from a raw top-level enumeration: the noise
    /// filter is applied, the first survivor (if any) is selected, and the
    /// child pane starts empty until the first derivation.
    pub fn new(raw_top: Vec<Window>) -> (state: Self)
        ensures
            state.wf(),
            state.windows.vec@ == spec_filtered(raw_top@),
            state.windows.selected == (if spec_filtered(raw_top@).len() == 0 {
                None::<usize>
            } else {
                Some(0usize)
            }),
            state.children.vec@ == Seq::<Window>::empty(),
            state.children.selected is None,
    {
        AppState {
            windows: StatefulList::from_items(filter_top_level(&raw_top)),
            children: StatefulList::from_items(Vec::new()),
        }
    }

    /// Replace the top-level pane with a fresh raw enumeration, filtered,
    /// keeping the selection per the clamp rule. The child pane is left for
    /// the following [`AppState::select_children`] call.
    pub fn refresh_top(&mut self, raw: Vec<Window>)
        requires
            old(self).wf(),
        ensures
            final(self).wf(),
            final(self).children == old(self).children,
            final(self).windows.vec@ == spec_filtered(raw@),
            final(self).windows.selected == replaced_selection(
                old(self).windows.selected,
                spec_filtered(raw@).len() as usize,
            ),
    {
        let filtered = filter_top_level(&raw);
        self.windows.update(filtered);
    }

    /// Re-derive the child pane: when a top-level window is selected, its
    /// freshly enumerated related set replaces the pane's contents; when
    /// nothing is selected, the pane goes empty. The child pane's own
    /// selection follows the clamp rule.
    pub fn select_children(&mut self, related: Vec<Window>)
        requires
            old(self).wf(),
        ensures
            final(self).wf(),
            final(self).windows == old(self).windows,
            old(self).windows.selected is Some ==> final(self).children.vec@ == related@,
            old(self).windows.selected is None ==> final(self).children.vec@ == Seq::<
                Window,
            >::empty(),
            final(self).children.selected == replaced_selection(
                old(self).children.selected,
                if old(self).windows.selected is Some {
                    related@.len() as usize
                } else {
                    0usize
                },
            ),
    {
        if self.windows.selected().is_some() {
            self.children.update(related);
        } else {
            let empty: Vec<Window> = Vec::new();
            self.children.update(empty);
        }
    }

    /// Move the top-level selection down by one with wraparound. Must be
    /// followed by a child re-derivation.
    pub fn select_next(&mut self)
        requires
            old(self).wf(),
        ensures
            final(self).wf(),
            final(self).children == old(self).children,
            final(self).windows.vec == old(self).windows.vec,
            old(self).windows.vec@.len() == 0 ==> final(self).windows.selected == old(
                self,
            ).windows.selected,
            old(self).windows.vec@.len() > 0 ==> final(self).windows.selected == Some(
                next_index(old(self).windows.selected.unwrap(), old(self).windows.vec.len()),
            ),
    {
        self.windows.next();
    }

    /// Move the top-level selection up by one with wraparound. Must be
    /// followed by a child re-derivation.
    pub fn select_previous(&mut self)
        requires
            old(self).wf(),
        ensures
            final(self).wf(),
            final(self).children == old(self).children,
            final(self).windows.vec == old(self).windows.vec,
            old(self).windows.vec@.len() == 0 ==> final(self).windows.selected == old(
                self,
            ).windows.selected,
            old(self).windows.vec@.len() > 0 ==> final(self).windows.selected == Some(
                prev_index(old(self).windows.selected.unwrap(), old(self).windows.vec.len()),
            ),
    {
        self.windows.previous();
    }

    /// A copy of the currently selected top-level window, for the caller to
    /// enumerate its related set; `None` when the top pane is empty.
    pub fn selected_window(&self) -> (selected: Option<Window>)
        requires
            self.wf(),
        ensures
            match self.windows.selected {
                None => selected is None,
                Some(i) => selected == Some(self.windows.vec@[i as int]),
            },
    {
        match self.windows.selected {
            Some(i) => Some(self.windows.vec[i].clone()),
            None => None,
        }
    }
}

} // verus!
