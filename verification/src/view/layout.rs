//! Column widths: what a column asks for, and how a line of the screen is
//! shared out among the columns, the gaps between them and the gutter.

use ratatui::layout::{Direction, Layout, Rect};
use vstd::prelude::*;

verus! {

/// What a column asks for: a share of the line, a fixed number of cells, or a
/// bound on it.
#[derive(Debug, Clone, Copy, PartialEq, Eq, Structural)]
pub enum Constraint {
    /// So many hundredths of the line.
    Percentage(u16),
    /// The first number over the second, as a share of the line.
    Ratio(u32, u32),
    /// So many cells.
    Length(u16),
    /// At most so many cells.
    Max(u16),
    /// At least so many cells.
    Min(u16),
}

impl Constraint {
    /// A percentage is at most one hundred; every other constraint is valid.
    pub open spec fn valid(self) -> bool {
        match self {
            Constraint::Percentage(p) => p <= 100,
            _ => true,
        }
    }

    /// Decides [`Constraint::valid`].
    pub fn is_valid(&self) -> (ok: bool)
        ensures
            ok == self.valid(),
    {
        match self {
            Constraint::Percentage(p) => *p <= 100,
            _ => true,
        }
    }
}

/// Whether every constraint of a sequence is valid.
pub open spec fn all_valid(constraints: Seq<Constraint>) -> bool {
    forall|i: int| 0 <= i < constraints.len() ==> (#[trigger] constraints[i]).valid()
}

/// Decides [`all_valid`].
pub fn are_valid(constraints: &[Constraint]) -> (ok: bool)
    ensures
        ok == all_valid(constraints@),
{
    let mut i: usize = 0;
    while i < constraints.len()
        invariant
            i <= constraints.len(),
            forall|j: int| 0 <= j < i ==> (#[trigger] constraints@[j]).valid(),
        decreases constraints.len() - i,
    {
        if !constraints[i].is_valid() {
            return false;
        }
        i += 1;
    }
    true
}

/// The sum of a sequence of widths.
pub open spec fn total_width(widths: Seq<u16>) -> int
    decreases widths.len(),
{
    if widths.len() == 0 {
        0
    } else {
        total_width(widths.drop_last()) + widths.last()
    }
}

/// The slots of a line: the gutter first, where there is one, then the
/// columns with one gap between each two of them.
pub open spec fn slots(
    columns: Seq<Constraint>,
    spacing: u16,
    gutter: Option<u16>,
) -> Seq<Constraint> {
    let lead = match gutter {
        Some(width) => seq![Constraint::Length(width)],
        None => Seq::<Constraint>::empty(),
    };
    lead + Seq::new(
        if columns.len() == 0 {
            0
        } else {
            (2 * columns.len() - 1) as nat
        },
        |i: int|
            if i % 2 == 0 {
                columns[i / 2]
            } else {
                Constraint::Length(spacing)
            },
    )
}

/// The widths of the columns among the widths of all slots: every second
/// slot, from the first one behind the gutter on.
pub open spec fn column_slots(solved: Seq<u16>, has_gutter: bool) -> Seq<u16> {
    let lead: int = if has_gutter {
        1
    } else {
        0
    };
    Seq::new(
        if solved.len() <= lead {
            0
        } else {
            ((solved.len() - lead + 1) / 2) as nat
        },
        |i: int| solved[lead + 2 * i],
    )
}

/// The widths of the gaps among the widths of all slots: every second slot,
/// from the second one behind the gutter on.
pub open spec fn gap_slots(solved: Seq<u16>, has_gutter: bool) -> Seq<u16> {
    let lead: int = if has_gutter {
        1
    } else {
        0
    };
    Seq::new(
        if solved.len() <= lead {
            0
        } else {
            ((solved.len() - lead) / 2) as nat
        },
        |i: int| solved[lead + 2 * i + 1],
    )
}

/// The width of the gutter among the widths of all slots.
pub open spec fn gutter_slot(solved: Seq<u16>, has_gutter: bool) -> int {
    if has_gutter && solved.len() > 0 {
        solved[0] as int
    } else {
        0
    }
}

/// ratatui's `Layout::split`, on one line of the given width and with the
/// constraints laid out from left to right, returns one chunk for each
/// constraint; this is the width of each. ratatui asks of its solver, as a
/// constraint that must hold, that each chunk lies in the line, so no chunk
/// is wider than the line. Which widths they are is not stated: what the
/// solver returns depends on the order in which it walks its tables.
#[verifier::external_body]
pub(crate) fn split_line(constraints: &Vec<Constraint>, width: u16) -> (solved: Vec<u16>)
    ensures
        solved@.len() == constraints@.len(),
        forall|i: int| 0 <= i < solved@.len() ==> #[trigger] solved@[i] <= width,
{
    let wanted: Vec<ratatui::layout::Constraint> = constraints.iter().map(|c| match *c {
        Constraint::Percentage(p) => ratatui::layout::Constraint::Percentage(p),
        Constraint::Ratio(n, d) => ratatui::layout::Constraint::Ratio(n, d),
        Constraint::Length(l) => ratatui::layout::Constraint::Length(l),
        Constraint::Max(m) => ratatui::layout::Constraint::Max(m),
        Constraint::Min(m) => ratatui::layout::Constraint::Min(m),
    }).collect();
    let line = Rect { x: 0, y: 0, width, height: 1 };
    let layout = Layout::default().direction(Direction::Horizontal).constraints(wanted);
    layout.split(line).iter().map(|chunk| chunk.width).collect()
}

/// Appending a width adds it to the total.
pub proof fn lemma_total_push(widths: Seq<u16>, width: u16)
    ensures
        total_width(widths.push(width)) == total_width(widths) + width,
{
    assert(widths.push(width).drop_last() == widths);
}

/// Gutter, columns and gaps are all the slots there are: their widths add up
/// to the total of the slots.
pub proof fn lemma_slots_add_up(solved: Seq<u16>, has_gutter: bool)
    ensures
        gutter_slot(solved, has_gutter) + total_width(column_slots(solved, has_gutter))
            + total_width(gap_slots(solved, has_gutter)) == total_width(solved),
    decreases solved.len(),
{
    let lead: int = if has_gutter {
        1
    } else {
        0
    };
    if solved.len() <= lead {
        assert(column_slots(solved, has_gutter) =~= Seq::<u16>::empty());
        assert(gap_slots(solved, has_gutter) =~= Seq::<u16>::empty());
        if solved.len() == 1 {
            assert(solved.drop_last() =~= Seq::<u16>::empty());
            assert(total_width(solved.drop_last()) == 0);
        }
    } else {
        let rest = solved.drop_last();
        lemma_slots_add_up(rest, has_gutter);
        let behind = solved.len() - lead;
        if behind % 2 == 1 {
            // the last slot is a column
            assert(gap_slots(solved, has_gutter) =~= gap_slots(rest, has_gutter));
            assert(column_slots(solved, has_gutter) =~= column_slots(rest, has_gutter).push(
                solved.last(),
            ));
            lemma_total_push(column_slots(rest, has_gutter), solved.last());
        } else {
            // the last slot is a gap
            assert(column_slots(solved, has_gutter) =~= column_slots(rest, has_gutter));
            assert(gap_slots(solved, has_gutter) =~= gap_slots(rest, has_gutter).push(
                solved.last(),
            ));
            lemma_total_push(gap_slots(rest, has_gutter), solved.last());
        }
        assert(gutter_slot(solved, has_gutter) == gutter_slot(rest, has_gutter)) by {
            if has_gutter && rest.len() == 0 {
                assert(false);
            }
        }
    }
}

/// The first widths of a sequence take no more than all of them.
pub proof fn lemma_total_of_first(widths: Seq<u16>, count: int)
    requires
        0 <= count <= widths.len(),
    ensures
        0 <= total_width(widths.take(count)) <= total_width(widths),
    decreases widths.len(),
{
    lemma_total_not_negative(widths.take(count));
    if count == widths.len() {
        assert(widths.take(count) =~= widths);
    } else {
        assert(widths.drop_last().take(count) =~= widths.take(count));
        lemma_total_of_first(widths.drop_last(), count);
    }
}

/// A total of widths is never negative.
pub proof fn lemma_total_not_negative(widths: Seq<u16>)
    ensures
        total_width(widths) >= 0,
    decreases widths.len(),
{
    if widths.len() > 0 {
        lemma_total_not_negative(widths.drop_last());
    }
}

/// The widths of the slots of a line, each cut down to what the slots before
/// it have left of the line.
pub open spec fn fitted(solved: Seq<u16>, width: u16) -> Seq<u16>
    decreases solved.len(),
{
    if solved.len() == 0 {
        Seq::empty()
    } else {
        let before = fitted(solved.drop_last(), width);
        let room = width - total_width(before);
        before.push(
            if solved.last() <= room {
                solved.last()
            } else {
                room as u16
            },
        )
    }
}

/// Slots that were cut down are as many as before and take no more than the
/// line together; slots that took no more than the line are not cut.
pub proof fn lemma_fitted(solved: Seq<u16>, width: u16)
    ensures
        fitted(solved, width).len() == solved.len(),
        0 <= total_width(fitted(solved, width)) <= width,
        total_width(solved) <= width ==> fitted(solved, width) == solved,
    decreases solved.len(),
{
    if solved.len() > 0 {
        let rest = solved.drop_last();
        lemma_fitted(rest, width);
        lemma_total_not_negative(rest);
        let before = fitted(rest, width);
        let room = width - total_width(before);
        let cut = if solved.last() <= room {
            solved.last()
        } else {
            room as u16
        };
        lemma_total_push(before, cut);
        if total_width(solved) <= width {
            assert(before.push(cut) =~= solved);
        }
    }
}

/// Where the slots of a line take no more than the line, the columns
/// together with the gutter and the gaps between them take no more than it.
pub proof fn lemma_columns_fit(solved: Seq<u16>, has_gutter: bool, width: u16)
    requires
        total_width(solved) <= width,
    ensures
        total_width(column_slots(solved, has_gutter)) + gutter_slot(solved, has_gutter)
            + total_width(gap_slots(solved, has_gutter)) <= width,
        total_width(column_slots(solved, has_gutter)) <= width,
{
    lemma_slots_add_up(solved, has_gutter);
    lemma_total_not_negative(gap_slots(solved, has_gutter));
    if has_gutter && solved.len() > 0 {
        assert(gutter_slot(solved, has_gutter) >= 0);
    }
}

/// Builds the slots of a line from the constraints of its columns.
pub fn build_slots(columns: &Vec<Constraint>, spacing: u16, gutter: Option<u16>) -> (all: Vec<
    Constraint,
>)
    ensures
        all@ == slots(columns@, spacing, gutter),
{
    let mut all: Vec<Constraint> = Vec::new();
    if let Some(width) = gutter {
        all.push(Constraint::Length(width));
    }
    let ghost lead = all@;
    let mut i: usize = 0;
    while i < columns.len()
        invariant
            i <= columns.len(),
            all@ == lead + Seq::new(
                if i == 0 {
                    0
                } else {
                    (2 * i - 1) as nat
                },
                |k: int|
                    if k % 2 == 0 {
                        columns@[k / 2]
                    } else {
                        Constraint::Length(spacing)
                    },
            ),
        decreases columns.len() - i,
    {
        if i > 0 {
            all.push(Constraint::Length(spacing));
        }
        all.push(columns[i]);
        i += 1;
    }
    all
}

/// Cuts each slot down to what the slots before it have left of the line.
pub fn fit_slots(solved: &Vec<u16>, width: u16) -> (cut: Vec<u16>)
    ensures
        cut@ == fitted(solved@, width),
        cut@.len() == solved@.len(),
        total_width(cut@) <= width,
        total_width(solved@) <= width ==> cut@ == solved@,
{
    let mut cut: Vec<u16> = Vec::new();
    let mut used: u16 = 0;
    let mut i: usize = 0;
    while i < solved.len()
        invariant
            i <= solved.len(),
            used <= width,
            used == total_width(cut@),
            cut@ == fitted(solved@.take(i as int), width),
        decreases solved.len() - i,
    {
        let room: u16 = width - used;
        let slot: u16 = if solved[i] <= room {
            solved[i]
        } else {
            room
        };
        proof {
            assert(solved@.take(i + 1).drop_last() =~= solved@.take(i as int));
            lemma_total_push(cut@, slot);
        }
        cut.push(slot);
        used = used + slot;
        i += 1;
    }
    proof {
        assert(solved@.take(solved.len() as int) =~= solved@);
        lemma_fitted(solved@, width);
    }
    cut
}

/// What the gutter and the gaps between `columns` columns ask for together.
pub open spec fn asked_overhead(gutter: u16, spacing: u16, columns: nat) -> int {
    if columns == 0 {
        gutter as int
    } else {
        gutter + (columns - 1) * spacing
    }
}

/// What a line leaves to the columns beside the gutter and the gaps that
/// were asked for, or none where there is no column or the line cannot even
/// hold those.
pub open spec fn room_for_columns(gutter: u16, spacing: u16, columns: nat, width: u16) -> Option<
    u16,
> {
    if columns >= 1 && asked_overhead(gutter, spacing, columns) <= width {
        Some((width - asked_overhead(gutter, spacing, columns)) as u16)
    } else {
        None
    }
}

/// Whether columns of these widths fit a line: they take no more than the
/// line, and no more than the gutter and the gaps that were asked for leave
/// of it, where the line can hold those.
pub open spec fn columns_fit(widths: Seq<u16>, gutter: u16, spacing: u16, width: u16) -> bool {
    &&& total_width(widths) <= width
    &&& widths.len() >= 1 && gutter + (widths.len() - 1) * spacing <= width ==> total_width(widths)
        + gutter + (widths.len() - 1) * spacing <= width
}

/// The widths of the columns for what the layout gave to the slots of a
/// line: the slots are cut to the line, the columns are picked out of them,
/// and the columns are cut to what the gutter and the gaps that were asked
/// for leave of the line, where the line can hold those.
pub open spec fn resolved(
    solved: Seq<u16>,
    has_gutter: bool,
    gutter: u16,
    spacing: u16,
    width: u16,
) -> Seq<u16> {
    let picked = column_slots(fitted(solved, width), has_gutter);
    match room_for_columns(gutter, spacing, picked.len(), width) {
        Some(room) => fitted(picked, room),
        None => picked,
    }
}

/// Computes [`room_for_columns`].
pub fn columns_room(gutter: u16, spacing: u16, columns: usize, width: u16) -> (room: Option<u16>)
    ensures
        room == room_for_columns(gutter, spacing, columns as nat, width),
{
    if columns == 0 {
        return None;
    }
    let gaps_count: u128 = (columns - 1) as u128;
    assert(gaps_count * (spacing as u128) <= 0xffff_ffff_ffff_ffff * 0xffff) by (nonlinear_arith)
        requires
            gaps_count <= 0xffff_ffff_ffff_ffff,
            spacing <= 0xffff,
    ;
    let overhead: u128 = gutter as u128 + gaps_count * (spacing as u128);
    if overhead <= width as u128 {
        Some(width - overhead as u16)
    } else {
        None
    }
}

/// Computes the widths of the columns from what the layout gave to the
/// slots of a line.
pub fn resolve_columns(
    solved: &Vec<u16>,
    has_gutter: bool,
    gutter: u16,
    spacing: u16,
    width: u16,
) -> (widths: Vec<u16>)
    ensures
        widths@ == resolved(solved@, has_gutter, gutter, spacing, width),
        widths@.len() == column_slots(solved@, has_gutter).len(),
        columns_fit(widths@, gutter, spacing, width),
{
    let cut = fit_slots(solved, width);
    let picked = pick_columns(&cut, has_gutter);
    proof {
        lemma_columns_fit(cut@, has_gutter, width);
    }
    match columns_room(gutter, spacing, picked.len(), width) {
        Some(room) => {
            let widths = fit_slots(&picked, room);
            proof {
                lemma_fitted(picked@, room);
            }
            widths
        },
        None => picked,
    }
}

/// Picks the widths of the columns out of the widths of all slots.
pub fn pick_columns(solved: &Vec<u16>, has_gutter: bool) -> (widths: Vec<u16>)
    ensures
        widths@ == column_slots(solved@, has_gutter),
{
    let lead: usize = if has_gutter {
        1
    } else {
        0
    };
    let mut widths: Vec<u16> = Vec::new();
    if solved.len() <= lead {
        assert(widths@ =~= column_slots(solved@, has_gutter));
        return widths;
    }
    let behind = solved.len() - lead;
    let count = behind / 2 + behind % 2;
    let mut i: usize = 0;
    while i < count
        invariant
            i <= count,
            lead <= 1,
            behind == solved.len() - lead,
            count == behind / 2 + behind % 2,
            widths@.len() == i,
            forall|k: int| 0 <= k < i ==> widths@[k] == solved@[lead + 2 * k],
        decreases count - i,
    {
        widths.push(solved[lead + 2 * i]);
        i += 1;
    }
    assert(widths@ =~= column_slots(solved@, has_gutter));
    widths
}

} // verus!
