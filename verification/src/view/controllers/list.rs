//! The cursor of a plain list, kept in the state of ratatui's list widget.

use ratatui::widgets::ListState;
use vstd::prelude::*;
use crate::view::controllers::{step_forward, step_backward, cursor_in_range};
use crate::view::controllers::{next_cursor, previous_cursor};

verus! {

/// The state of ratatui's list widget: a selected index and a scroll offset.
#[verifier::external_type_specification]
#[verifier::external_body]
pub struct ExListState(ListState);

/// The index that a list state has selected.
pub uninterp spec fn list_selected(state: ListState) -> Option<usize>;

/// The scroll offset that a list state holds.
pub uninterp spec fn list_offset(state: ListState) -> usize;

/// `ListState::default` selects nothing and scrolls nowhere.
pub assume_specification[ <ListState as Default>::default ]() -> (state: ListState)
    ensures
        list_selected(state).is_none(),
        list_offset(state) == 0,
;

/// `ListState::selected` returns the selected index.
pub assume_specification[ ListState::selected ](state: &ListState) -> (index: Option<usize>)
    ensures
        index == list_selected(*state),
;

/// `ListState::select` stores the index, and resets the scroll offset when
/// the index is none.
pub assume_specification[ ListState::select ](state: &mut ListState, index: Option<usize>)
    ensures
        list_selected(*final(state)) == index,
        list_offset(*final(state)) == if index.is_none() {
            0
        } else {
            list_offset(*old(state))
        },
;

/// A cursor over a list whose length the caller passes with every move.
#[derive(Debug)]
pub struct ListController {
    state: ListState,
}

impl Default for ListController {
    fn default() -> (controller: ListController)
        ensures
            controller.cursor().is_none(),
            controller.offset() == 0,
    {
        ListController { state: ListState::default() }
    }
}

impl ListController {
    /// The index under the cursor.
    pub closed spec fn cursor(&self) -> Option<usize> {
        list_selected(self.state)
    }

    /// The scroll offset that the list widget keeps between frames.
    pub closed spec fn offset(&self) -> usize {
        list_offset(self.state)
    }

    /// The controller with its cursor set to `index`.
    pub fn with_select(self, index: Option<usize>) -> (controller: ListController)
        ensures
            controller.cursor() == index,
            controller.offset() == if index.is_none() {
                0
            } else {
                self.offset()
            },
    {
        let mut controller = self;
        controller.select(index);
        controller
    }

    /// Sets the cursor, whatever the index.
    pub fn select(&mut self, index: Option<usize>)
        ensures
            final(self).cursor() == index,
            final(self).offset() == if index.is_none() {
                0
            } else {
                old(self).offset()
            },
    {
        self.state.select(index)
    }

    /// The index under the cursor.
    pub fn selected(&self) -> (index: Option<usize>)
        ensures
            index == self.cursor(),
    {
        self.state.selected()
    }

    /// The widget state, for the list widget to draw with and to scroll.
    pub fn state(&mut self) -> (state: &mut ListState)
        ensures
            list_selected(*state) == old(self).cursor(),
            list_offset(*state) == old(self).offset(),
            final(self).cursor() == list_selected(*final(state)),
            final(self).offset() == list_offset(*final(state)),
    {
        &mut self.state
    }

    /// Moves the cursor one item forward over `len` items, from the last
    /// item to the first. Without items the cursor is cleared.
    pub fn next(&mut self, len: usize)
        ensures
            final(self).cursor() == step_forward(old(self).cursor(), len),
            cursor_in_range(final(self).cursor(), len),
            final(self).offset() == if len == 0 {
                0
            } else {
                old(self).offset()
            },
    {
        let index = next_cursor(self.state.selected(), len);
        self.state.select(index);
    }

    /// Moves the cursor one item backward over `len` items, from the first
    /// item to the last. Without items the cursor is cleared.
    pub fn previous(&mut self, len: usize)
        ensures
            final(self).cursor() == step_backward(old(self).cursor(), len),
            cursor_in_range(old(self).cursor(), len) ==> cursor_in_range(
                final(self).cursor(),
                len,
            ),
            final(self).offset() == if len == 0 {
                0
            } else {
                old(self).offset()
            },
    {
        let index = previous_cursor(self.state.selected(), len);
        self.state.select(index);
    }
}

} // verus!
