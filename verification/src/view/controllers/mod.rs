//! Cursors over a list or a table whose length the caller supplies on every
//! move, and the wraparound rule they share.

use vstd::prelude::*;

pub mod list;
pub mod table;

verus! {

/// The cursor after one step forward over `len` items: none where there is
/// no item, the first item from no cursor or from the last item (or from any
/// index behind it), and the following item otherwise.
pub open spec fn step_forward(cursor: Option<usize>, len: usize) -> Option<usize> {
    if len == 0 {
        None
    } else {
        match cursor {
            None => Some(0usize),
            Some(i) => if i >= len - 1 {
                Some(0usize)
            } else {
                Some((i + 1) as usize)
            },
        }
    }
}

/// The cursor after one step backward over `len` items: none where there is
/// no item, the first item from no cursor, the last item from the first, and
/// the preceding item otherwise.
pub open spec fn step_backward(cursor: Option<usize>, len: usize) -> Option<usize> {
    if len == 0 {
        None
    } else {
        match cursor {
            None => Some(0usize),
            Some(i) => if i == 0 {
                Some((len - 1) as usize)
            } else {
                Some((i - 1) as usize)
            },
        }
    }
}

/// `steps` steps forward in a row.
pub open spec fn steps_forward(cursor: Option<usize>, len: usize, steps: nat) -> Option<usize>
    decreases steps,
{
    if steps == 0 {
        cursor
    } else {
        step_forward(steps_forward(cursor, len, (steps - 1) as nat), len)
    }
}

/// Whether a cursor points at one of `len` items, or at none.
pub open spec fn cursor_in_range(cursor: Option<usize>, len: usize) -> bool {
    match cursor {
        None => true,
        Some(i) => i < len,
    }
}

/// Computes [`step_forward`].
pub fn next_cursor(cursor: Option<usize>, len: usize) -> (r: Option<usize>)
    ensures
        r == step_forward(cursor, len),
        cursor_in_range(r, len),
        len > 0 ==> r.is_some(),
{
    if len == 0 {
        return None;
    }
    match cursor {
        Some(i) => {
            if i >= len - 1 {
                Some(0)
            } else {
                Some(i + 1)
            }
        },
        None => Some(0),
    }
}

/// Computes [`step_backward`].
pub fn previous_cursor(cursor: Option<usize>, len: usize) -> (r: Option<usize>)
    ensures
        r == step_backward(cursor, len),
        cursor_in_range(cursor, len) ==> cursor_in_range(r, len),
        len > 0 ==> r.is_some(),
{
    if len == 0 {
        return None;
    }
    match cursor {
        Some(i) => {
            if i == 0 {
                Some(len - 1)
            } else {
                Some(i - 1)
            }
        },
        None => Some(0),
    }
}

/// From no cursor, the first step lands on the first item, and after `k`
/// further steps the cursor stands on item `k`.
pub proof fn lemma_steps_from_none(len: usize, k: nat)
    requires
        k < len,
    ensures
        steps_forward(None, len, k + 1) == Some(k as usize),
    decreases k,
{
    if k > 0 {
        lemma_steps_from_none(len, (k - 1) as nat);
    } else {
        assert(steps_forward(None, len, 0) == None::<usize>);
    }
}

/// Wraparound closure: from the first item, which is where the first step
/// from no cursor lands, `len` steps forward lead back to the first item.
pub proof fn lemma_forward_cycle(len: usize)
    requires
        len > 0,
    ensures
        steps_forward(None, len, 1) == Some(0usize),
        steps_forward(Some(0usize), len, len as nat) == Some(0usize),
{
    lemma_steps_from_none(len, 0);
    lemma_steps_from_index(len, 0, (len - 1) as nat);
}

/// From item `i`, `k` steps that stay before the end lead to item `i + k`.
pub proof fn lemma_steps_from_index(len: usize, i: usize, k: nat)
    requires
        i + k < len,
    ensures
        steps_forward(Some(i), len, k) == Some((i + k) as usize),
        steps_forward(Some(i), len, k + 1) == if i + k == len - 1 {
            Some(0usize)
        } else {
            Some((i + k + 1) as usize)
        },
    decreases k,
{
    if k > 0 {
        lemma_steps_from_index(len, i, (k - 1) as nat);
    }
}

/// Inverse: a step backward undoes a step forward from any item in range,
/// and from no cursor both steps land on the first item. Across the wrap the
/// pair of moves still ends where it began: forward from the last item gives
/// the first, and backward from the first gives the last.
pub proof fn lemma_backward_undoes_forward(cursor: Option<usize>, len: usize)
    requires
        len > 0,
        cursor_in_range(cursor, len),
    ensures
        cursor.is_some() ==> step_backward(step_forward(cursor, len), len) == cursor,
        cursor.is_some() ==> step_forward(step_backward(cursor, len), len) == cursor,
        cursor.is_none() ==> step_forward(cursor, len) == Some(0usize) && step_backward(
            step_forward(cursor, len),
            len,
        ) == Some((len - 1) as usize),
{
}

} // verus!
