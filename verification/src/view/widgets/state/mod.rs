//! The state of a list in which one row carries the cursor and any number of
//! rows are marked as selected.

use std::collections::HashSet;
use vstd::prelude::*;
use crate::view::controllers::{step_forward, step_backward, cursor_in_range};
use crate::view::controllers::{next_cursor, previous_cursor};

pub mod input;

verus! {

broadcast use vstd::std_specs::hash::group_hash_axioms;

/// The selection after the row under the cursor changed sides: marked if it
/// was not, unmarked if it was. Without a cursor nothing changes.
pub open spec fn toggled(selected: Set<usize>, cursor: Option<usize>) -> Set<usize> {
    match cursor {
        None => selected,
        Some(i) => if selected.contains(i) {
            selected.remove(i)
        } else {
            selected.insert(i)
        },
    }
}

/// The cursor after a step backward in a selection list: as
/// [`step_backward`], except that no cursor stays no cursor.
pub open spec fn selection_step_backward(cursor: Option<usize>, len: usize) -> Option<usize> {
    match cursor {
        None => None,
        Some(_) => step_backward(cursor, len),
    }
}

/// The indices of `items` that are below `len`.
pub open spec fn indices_below(items: Seq<usize>, len: usize) -> Set<usize> {
    items.to_set().filter(|i: usize| i < len)
}

/// `Clone::clone` of std's `HashSet` returns a set with the same members.
#[verifier::external_body]
fn clone_marks(set: &HashSet<usize>) -> (copy: HashSet<usize>)
    ensures
        copy@ == set@,
{
    set.clone()
}

/// Number of rows, cursor and marked rows of a list with multiple selection.
#[derive(Debug)]
pub struct SelectListState {
    items_len: usize,
    index: Option<usize>,
    selecteds: HashSet<usize>,
}

impl Default for SelectListState {
    fn default() -> (state: SelectListState)
        ensures
            state.item_count() == 0,
            state.cursor().is_none(),
            state.chosen() == Set::<usize>::empty(),
            state.wf(),
    {
        SelectListState { items_len: 0, index: None, selecteds: HashSet::new() }
    }
}

impl Clone for SelectListState {
    fn clone(&self) -> (copy: SelectListState)
        ensures
            copy.item_count() == self.item_count(),
            copy.cursor() == self.cursor(),
            copy.chosen() == self.chosen(),
    {
        SelectListState {
            items_len: self.items_len,
            index: self.index,
            selecteds: clone_marks(&self.selecteds),
        }
    }
}

impl SelectListState {
    /// The number of rows.
    pub closed spec fn item_count(&self) -> usize {
        self.items_len
    }

    /// The row that carries the cursor.
    pub closed spec fn cursor(&self) -> Option<usize> {
        self.index
    }

    /// The rows that are marked.
    pub closed spec fn chosen(&self) -> Set<usize> {
        self.selecteds@
    }

    /// The cursor and every marked row are below the number of rows.
    pub open spec fn wf(&self) -> bool {
        &&& cursor_in_range(self.cursor(), self.item_count())
        &&& forall|i: usize| self.chosen().contains(i) ==> i < self.item_count()
    }

    /// A state that is consistent by construction: a cursor outside the rows
    /// is dropped, and so is every mark outside them.
    pub fn build(len: usize, selecteds: Vec<usize>, index: Option<usize>) -> (state:
        SelectListState)
        ensures
            state.item_count() == len,
            state.cursor() == match index {
                Some(i) if i < len => index,
                _ => None,
            },
            state.chosen() == indices_below(selecteds@, len),
            state.wf(),
    {
        let mut set: HashSet<usize> = HashSet::new();
        let mut k: usize = 0;
        while k < selecteds.len()
            invariant
                k <= selecteds.len(),
                set@ == indices_below(selecteds@.take(k as int), len),
            decreases selecteds.len() - k,
        {
            let item = selecteds[k];
            proof {
                let before = selecteds@.take(k as int);
                let after = selecteds@.take(k + 1);
                lemma_next_item_joins_set(selecteds@, k as int);
                assert(indices_below(after, len) =~= if item < len {
                    indices_below(before, len).insert(item)
                } else {
                    indices_below(before, len)
                });
            }
            if item < len {
                set.insert(item);
            }
            k += 1;
        }
        proof {
            assert(selecteds@.take(selecteds.len() as int) == selecteds@);
        }
        let index = match index {
            Some(i) => if i < len {
                Some(i)
            } else {
                None
            },
            None => None,
        };
        SelectListState { items_len: len, index, selecteds: set }
    }

    /// Sets the number of rows. Cursor and marks stay as they are.
    pub fn with_len(self, len: usize) -> (state: SelectListState)
        ensures
            state.item_count() == len,
            state.cursor() == self.cursor(),
            state.chosen() == self.chosen(),
    {
        let mut state = self;
        state.items_len = len;
        state
    }

    /// Replaces the marks by the given indices. Number of rows and cursor
    /// stay as they are.
    pub fn with_selecteds(self, usizes: Vec<usize>) -> (state: SelectListState)
        ensures
            state.item_count() == self.item_count(),
            state.cursor() == self.cursor(),
            state.chosen() == usizes@.to_set(),
    {
        let mut set: HashSet<usize> = HashSet::new();
        let mut k: usize = 0;
        while k < usizes.len()
            invariant
                k <= usizes.len(),
                set@ == usizes@.take(k as int).to_set(),
            decreases usizes.len() - k,
        {
            let item = usizes[k];
            proof {
                lemma_next_item_joins_set(usizes@, k as int);
            }
            set.insert(item);
            k += 1;
        }
        proof {
            assert(usizes@.take(usizes.len() as int) == usizes@);
        }
        let mut state = self;
        state.selecteds = set;
        state
    }

    /// Sets the cursor. Number of rows and marks stay as they are.
    pub fn with_index(self, index: Option<usize>) -> (state: SelectListState)
        ensures
            state.item_count() == self.item_count(),
            state.cursor() == index,
            state.chosen() == self.chosen(),
    {
        let mut state = self;
        state.index = index;
        state
    }

    /// The row that carries the cursor.
    pub fn index(&self) -> (index: Option<usize>)
        ensures
            index == self.cursor(),
    {
        self.index
    }

    /// The number of rows.
    pub fn len(&self) -> (len: usize)
        ensures
            len == self.item_count(),
    {
        self.items_len
    }

    /// The marked rows.
    pub fn selecteds(&self) -> (set: &HashSet<usize>)
        ensures
            set@ == self.chosen(),
    {
        &self.selecteds
    }

    /// Whether row `i` is marked.
    pub fn is_selected(&self, i: usize) -> (marked: bool)
        ensures
            marked == self.chosen().contains(i),
    {
        self.selecteds.contains(&i)
    }

    /// Marks the row under the cursor if it is not marked, and unmarks it if
    /// it is. Without a cursor nothing changes.
    pub fn toggle_select(&mut self)
        ensures
            final(self).chosen() == toggled(old(self).chosen(), old(self).cursor()),
            final(self).cursor() == old(self).cursor(),
            final(self).item_count() == old(self).item_count(),
            old(self).wf() ==> final(self).wf(),
    {
        if let Some(index) = self.index {
            if self.selecteds.contains(&index) {
                self.selecteds.remove(&index);
            } else {
                self.selecteds.insert(index);
            }
        }
    }

    /// Sets the cursor.
    pub fn set_index(&mut self, index: Option<usize>)
        ensures
            final(self).cursor() == index,
            final(self).chosen() == old(self).chosen(),
            final(self).item_count() == old(self).item_count(),
    {
        self.index = index;
    }

    /// Moves the cursor one row forward, from the last row to the first. With
    /// no cursor it goes to the first row; with no rows there is no cursor.
    pub fn next(&mut self)
        ensures
            final(self).cursor() == step_forward(old(self).cursor(), old(self).item_count()),
            cursor_in_range(final(self).cursor(), final(self).item_count()),
            final(self).chosen() == old(self).chosen(),
            final(self).item_count() == old(self).item_count(),
            old(self).wf() ==> final(self).wf(),
    {
        let index = next_cursor(self.index, self.items_len);
        self.set_index(index);
    }

    /// Moves the cursor one row backward, from the first row to the last.
    /// With no cursor nothing changes; with no rows there is no cursor.
    pub fn previous(&mut self)
        ensures
            final(self).cursor() == selection_step_backward(
                old(self).cursor(),
                old(self).item_count(),
            ),
            final(self).chosen() == old(self).chosen(),
            final(self).item_count() == old(self).item_count(),
            old(self).wf() ==> final(self).wf(),
    {
        if self.index.is_some() {
            let index = previous_cursor(self.index, self.items_len);
            self.set_index(index);
        }
    }
}

/// In a selection list too, a step backward undoes a step forward from any
/// row in range. From no cursor the step forward lands on the first row, and
/// the step backward from there on the last.
pub proof fn lemma_selection_backward_undoes_forward(cursor: Option<usize>, len: usize)
    requires
        len > 0,
        cursor_in_range(cursor, len),
    ensures
        cursor.is_some() ==> selection_step_backward(step_forward(cursor, len), len) == cursor,
        cursor.is_none() ==> selection_step_backward(step_forward(cursor, len), len) == Some(
            (len - 1) as usize,
        ),
{
}

/// The set of the first `k + 1` items is the set of the first `k` items
/// with item `k` put in.
pub proof fn lemma_next_item_joins_set(items: Seq<usize>, k: int)
    requires
        0 <= k < items.len(),
    ensures
        items.take(k + 1).to_set() == items.take(k).to_set().insert(items[k]),
{
    let before = items.take(k);
    let after = items.take(k + 1);
    assert forall|x: usize| after.to_set().contains(x) implies before.to_set().insert(
        items[k],
    ).contains(x) by {
        let j = choose|j: int| 0 <= j < after.len() && after[j] == x;
        if j < k {
            assert(before[j] == x);
        }
    }
    assert forall|x: usize| before.to_set().insert(items[k]).contains(
        x,
    ) implies after.to_set().contains(x) by {
        if x == items[k] {
            assert(after[k] == x);
        } else {
            let j = choose|j: int| 0 <= j < before.len() && before[j] == x;
            assert(after[j] == x);
        }
    }
    assert(after.to_set() =~= before.to_set().insert(items[k]));
}

/// Toggling twice at one cursor gives back the selection it started from.
pub proof fn lemma_toggle_twice(selected: Set<usize>, cursor: Option<usize>)
    ensures
        toggled(toggled(selected, cursor), cursor) == selected,
{
    match cursor {
        None => {},
        Some(i) => {
            if selected.contains(i) {
                assert(selected.remove(i).insert(i) =~= selected);
            } else {
                assert(selected.insert(i).remove(i) =~= selected);
            }
        },
    }
}

} // verus!
