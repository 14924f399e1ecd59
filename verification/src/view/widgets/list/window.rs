//! Which rows of a list are drawn: the rows from the top, as long as they
//! fit, or else the page of rows that holds the cursor.

use vstd::prelude::*;

verus! {

/// The height of the rows from `from` up to, not including, `to`.
pub open spec fn span_height(heights: Seq<int>, from: int, to: int) -> int
    decreases to - from,
{
    if to <= from {
        0
    } else {
        span_height(heights, from, to - 1) + heights[to - 1]
    }
}

/// The end of the window that is anchored at the top, looked for from `end`
/// on: rows are taken as long as the height of all rows taken stays below the
/// limit.
pub open spec fn top_end(heights: Seq<int>, limit: int, end: int) -> int
    decreases heights.len() - end,
{
    if 0 <= end < heights.len() && span_height(heights, 0, end + 1) < limit {
        top_end(heights, limit, end + 1)
    } else {
        end
    }
}

/// The window after sliding forward from the window `start..end` until it
/// holds the cursor or the rows end. A row that no longer fits under the
/// limit beside the rows of the window opens a new window, of which it is
/// the first row, however high it is.
pub open spec fn slide(heights: Seq<int>, limit: int, cursor: int, start: int, end: int) -> (
    int,
    int,
)
    decreases heights.len() - end,
{
    if end < 0 || end >= heights.len() || end > cursor {
        (start, end)
    } else if span_height(heights, start, end) + heights[end] > limit {
        slide(heights, limit, cursor, end, end + 1)
    } else {
        slide(heights, limit, cursor, start, end + 1)
    }
}

/// The rows to draw, as a range that starts at its first and ends before its
/// second number. Without rows or without room it is empty. Without a
/// cursor, or with the cursor among the rows that fit from the top, it is
/// those rows. Else it is the window that slid forward to the cursor.
pub open spec fn visible_window(heights: Seq<int>, cursor: Option<int>, limit: int) -> (int, int) {
    if heights.len() == 0 || limit <= 0 {
        (0, 0)
    } else {
        let top = top_end(heights, limit, 0);
        match cursor {
            Some(c) => if c < top {
                (0, top)
            } else {
                slide(heights, limit, c, top, top)
            },
            None => (0, top),
        }
    }
}

/// The height of a span grows by the row that is added at its end.
pub proof fn lemma_span_step(heights: Seq<int>, from: int, to: int)
    requires
        from <= to,
    ensures
        span_height(heights, from, to + 1) == span_height(heights, from, to) + heights[to],
        span_height(heights, to, to) == 0,
{
}

/// The window at the top ends among the rows, and the rows in it stay below
/// the limit together, while the next row, if there is one, reaches it.
pub proof fn lemma_top_end(heights: Seq<int>, limit: int, end: int)
    requires
        0 <= end <= heights.len(),
        end == 0 || span_height(heights, 0, end) < limit,
    ensures
        end <= top_end(heights, limit, end) <= heights.len(),
        top_end(heights, limit, end) == 0 || span_height(
            heights,
            0,
            top_end(heights, limit, end),
        ) < limit,
        top_end(heights, limit, end) < heights.len() ==> span_height(
            heights,
            0,
            top_end(heights, limit, end) + 1,
        ) >= limit,
    decreases heights.len() - end,
{
    if end < heights.len() && span_height(heights, 0, end + 1) < limit {
        lemma_top_end(heights, limit, end + 1);
    }
}

/// Sliding keeps the window among the rows and in order, never moves its
/// start back, and ends behind the cursor where the cursor is on a row.
pub proof fn lemma_slide(heights: Seq<int>, limit: int, cursor: int, start: int, end: int)
    requires
        0 <= start <= end <= heights.len(),
        start <= cursor,
        end <= cursor + 1,
        start < end || end <= cursor,
    ensures
        ({
            let w = slide(heights, limit, cursor, start, end);
            &&& start <= w.0 <= w.1 <= heights.len()
            &&& end <= w.1
            &&& w.0 <= cursor
            &&& cursor < heights.len() ==> w.1 == cursor + 1
            &&& cursor >= heights.len() ==> w.1 == heights.len()
        }),
    decreases heights.len() - end,
{
    if end >= heights.len() || end > cursor {
    } else if span_height(heights, start, end) + heights[end] > limit {
        lemma_slide(heights, limit, cursor, end, end + 1);
    } else {
        lemma_slide(heights, limit, cursor, start, end + 1);
    }
}

/// A window that slid fits under the limit, or is a single row.
pub proof fn lemma_slide_height(heights: Seq<int>, limit: int, cursor: int, start: int, end: int)
    requires
        0 <= start <= end <= heights.len(),
        span_height(heights, start, end) <= limit || end == start + 1,
    ensures
        ({
            let w = slide(heights, limit, cursor, start, end);
            span_height(heights, w.0, w.1) <= limit || w.1 == w.0 + 1
        }),
    decreases heights.len() - end,
{
    if end >= heights.len() || end > cursor {
    } else if span_height(heights, start, end) + heights[end] > limit {
        lemma_span_step(heights, end, end);
        lemma_slide_height(heights, limit, cursor, end, end + 1);
    } else {
        lemma_span_step(heights, start, end);
        lemma_slide_height(heights, limit, cursor, start, end + 1);
    }
}

/// The window lies among the rows.
pub proof fn lemma_window_in_rows(heights: Seq<int>, cursor: Option<int>, limit: int)
    requires
        cursor.is_some() ==> cursor.unwrap() >= 0,
    ensures
        ({
            let w = visible_window(heights, cursor, limit);
            0 <= w.0 <= w.1 <= heights.len()
        }),
{
    if heights.len() == 0 || limit <= 0 {
    } else {
        lemma_top_end(heights, limit, 0);
        let top = top_end(heights, limit, 0);
        match cursor {
            Some(c) => {
                if c >= top {
                    lemma_slide(heights, limit, c, top, top);
                }
            },
            None => {},
        }
    }
}

/// Where there is room at all, the window holds the row of the cursor.
pub proof fn lemma_window_holds_cursor(heights: Seq<int>, cursor: int, limit: int)
    requires
        0 <= cursor < heights.len(),
        limit > 0,
    ensures
        ({
            let w = visible_window(heights, Some(cursor), limit);
            w.0 <= cursor < w.1
        }),
{
    lemma_top_end(heights, limit, 0);
    let top = top_end(heights, limit, 0);
    if cursor >= top {
        lemma_slide(heights, limit, cursor, top, top);
    }
}

/// The rows of the window take no more lines than the limit, unless the
/// window is a single row that is higher than the limit.
pub proof fn lemma_window_height(heights: Seq<int>, cursor: Option<int>, limit: int)
    requires
        limit >= 0,
    ensures
        ({
            let w = visible_window(heights, cursor, limit);
            span_height(heights, w.0, w.1) <= limit || w.1 == w.0 + 1
        }),
{
    if heights.len() == 0 || limit <= 0 {
        assert(span_height(heights, 0, 0) == 0);
    } else {
        lemma_top_end(heights, limit, 0);
        let top = top_end(heights, limit, 0);
        assert(span_height(heights, 0, 0) == 0);
        match cursor {
            Some(c) => {
                if c >= top {
                    assert(span_height(heights, top, top) == 0);
                    lemma_slide_height(heights, limit, c, top, top);
                }
            },
            None => {},
        }
    }
}

} // verus!
