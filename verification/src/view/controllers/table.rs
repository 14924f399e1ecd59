//! The cursor of a table, kept in the state of ratatui's table widget.

use ratatui::widgets::TableState;
use vstd::prelude::*;
use crate::view::controllers::{step_forward, step_backward, cursor_in_range};
use crate::view::controllers::{next_cursor, previous_cursor};

verus! {

/// The state of ratatui's table widget: a selected index and a scroll offset.
#[verifier::external_type_specification]
#[verifier::external_body]
pub struct ExTableState(TableState);

/// The index that a table state has selected.
pub uninterp spec fn table_selected(state: TableState) -> Option<usize>;

/// The scroll offset that a table state holds.
pub uninterp spec fn table_offset(state: TableState) -> usize;

/// `TableState::default` selects nothing and scrolls nowhere.
pub assume_specification[ <TableState as Default>::default ]() -> (state: TableState)
    ensures
        table_selected(state).is_none(),
        table_offset(state) == 0,
;

/// `TableState::selected` returns the selected index.
pub assume_specification[ TableState::selected ](state: &TableState) -> (index: Option<usize>)
    ensures
        index == table_selected(*state),
;

/// `TableState::select` stores the index, and resets the scroll offset when
/// the index is none.
pub assume_specification[ TableState::select ](state: &mut TableState, index: Option<usize>)
    ensures
        table_selected(*final(state)) == index,
        table_offset(*final(state)) == if index.is_none() {
            0
        } else {
            table_offset(*old(state))
        },
;

/// A cursor over a table whose length the caller passes with every move.
#[derive(Debug)]
pub struct TableController {
    state: TableState,
}

impl Default for TableController {
    fn default() -> (controller: TableController)
        ensures
            controller.cursor().is_none(),
            controller.offset() == 0,
    {
        TableController { state: TableState::default() }
    }
}

impl TableController {
    /// The index under the cursor.
    pub closed spec fn cursor(&self) -> Option<usize> {
        table_selected(self.state)
    }

    /// The scroll offset that the table widget keeps between frames.
    pub closed spec fn offset(&self) -> usize {
        table_offset(self.state)
    }

    /// The controller with its cursor set to `index`.
    pub fn with_select(self, index: Option<usize>) -> (controller: TableController)
        ensures
            controller.cursor() == index,
            controller.offset() == if index.is_none() {
                0
            } else {
                self.offset()
            },
    {
        let mut controller = self;
        controller.select(index);
        controller
    }

    /// Sets the cursor, whatever the index.
    pub fn select(&mut self, index: Option<usize>)
        ensures
            final(self).cursor() == index,
            final(self).offset() == if index.is_none() {
                0
            } else {
                old(self).offset()
            },
    {
        self.state.select(index)
    }

    /// The index under the cursor.
    pub fn selected(&self) -> (index: Option<usize>)
        ensures
            index == self.cursor(),
    {
        self.state.selected()
    }

    /// The widget state, for the table widget to draw with and to scroll.
    pub fn state(&mut self) -> (state: &mut TableState)
        ensures
            table_selected(*state) == old(self).cursor(),
            table_offset(*state) == old(self).offset(),
            final(self).cursor() == table_selected(*final(state)),
            final(self).offset() == table_offset(*final(state)),
    {
        &mut self.state
    }

    /// Moves the cursor one row forward over `len` rows, from the last
    /// row to the first. Without rows the cursor is cleared.
    pub fn next(&mut self, len: usize)
        ensures
            final(self).cursor() == step_forward(old(self).cursor(), len),
            cursor_in_range(final(self).cursor(), len),
            final(self).offset() == if len == 0 {
                0
            } else {
                old(self).offset()
            },
    {
        let index = next_cursor(self.state.selected(), len);
        self.state.select(index);
    }

    /// Moves the cursor one row backward over `len` rows, from the first
    /// row to the last. Without rows the cursor is cleared.
    pub fn previous(&mut self, len: usize)
        ensures
            final(self).cursor() == step_backward(old(self).cursor(), len),
            cursor_in_range(old(self).cursor(), len) ==> cursor_in_range(
                final(self).cursor(),
                len,
            ),
            final(self).offset() == if len == 0 {
                0
            } else {
                old(self).offset()
            },
    {
        let index = previous_cursor(self.state.selected(), len);
        self.state.select(index);
    }
}

} // verus!
