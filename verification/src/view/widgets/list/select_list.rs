//! The list widget with a cursor and multiple selection: a header, rows of
//! cells in columns, a gutter for the symbol that marks the row under the
//! cursor, and a window of rows that follows the cursor.

use ratatui::buffer::Buffer;
use ratatui::style::Style;
use ratatui::widgets::Block;
use vstd::prelude::*;
use crate::utils::push_char;
use crate::view::canvas::{Viewport, surface, surface_sound, same_outside, drawable};
use crate::view::canvas::{restyled, printed, shown_width};
use crate::view::canvas::{fill_style, put_string, display_width};
use crate::view::canvas::{lemma_same_outside_chain, lemma_same_outside_refl};
use crate::view::layout::{Constraint, all_valid, are_valid, total_width};
use crate::view::layout::{build_slots, split_line, resolve_columns, columns_fit};
use crate::view::layout::{lemma_total_of_first, lemma_total_push};
use crate::view::ui::{frame_safe, framed, inner_of, block_inner, draw_block};
use crate::view::widgets::list::{WRow, cells_drawn, areas_within};
use crate::view::widgets::list::window::{span_height, top_end, slide, visible_window};
use crate::view::widgets::list::window::{lemma_span_step, lemma_window_in_rows};
use crate::view::widgets::list::window::{lemma_window_height, lemma_window_holds_cursor};
use crate::view::widgets::state::SelectListState;

verus! {

/// The smaller of two numbers.
pub open spec fn least(a: int, b: int) -> int {
    if a <= b {
        a
    } else {
        b
    }
}

/// The left edge of column `i`, where the first column starts at `first` and
/// each column is followed by a gap of `spacing` cells.
pub open spec fn column_left(widths: Seq<u16>, spacing: u16, first: int, i: int) -> int
    decreases i,
{
    if i <= 0 {
        first
    } else {
        column_left(widths, spacing, first, i - 1) + widths[i - 1] + spacing
    }
}

/// The area of column `i` in a band of lines: from its left edge over its
/// width, cut off at the right edge of the band.
pub open spec fn column_area(
    widths: Seq<u16>,
    spacing: u16,
    first: int,
    band: Viewport,
    i: int,
) -> Viewport {
    let right = band.x + band.width;
    let left = least(column_left(widths, spacing, first, i), right);
    Viewport {
        x: left as u16,
        y: band.y,
        width: least(widths[i] as int, right - left) as u16,
        height: band.height,
    }
}

/// The areas of all columns in a band of lines.
pub open spec fn column_areas(widths: Seq<u16>, spacing: u16, first: int, band: Viewport) -> Seq<
    Viewport,
> {
    Seq::new(widths.len(), |i: int| column_area(widths, spacing, first, band, i))
}

/// The band of a row that begins `used` lines below the top of `area` and is
/// `height` lines high, cut off at the bottom of the area.
pub open spec fn row_band(area: Viewport, used: int, height: int) -> Viewport {
    let top = least(used, area.height as int);
    Viewport {
        x: area.x,
        y: (area.y + top) as u16,
        width: area.width,
        height: least(height, area.height - top) as u16,
    }
}

/// The width of the gutter that a symbol asks for: the number of screen
/// columns that it takes, as far as 16 bits hold it.
pub open spec fn gutter_width(symbol: Seq<char>) -> u16 {
    (shown_width(symbol) % 0x10000) as u16
}

/// A string of `count` spaces.
pub open spec fn blank(count: nat) -> Seq<char> {
    Seq::new(count, |i: int| ' ')
}

/// The buffer after one row was drawn into its band: the style of the row
/// over the band, the mark in the gutter where there is one, the cells in
/// their columns behind the gutter, and at last the highlight over the band
/// where there is one.
pub open spec fn row_drawn(
    buf: Buffer,
    row: WRow,
    band: Viewport,
    mark: Option<Seq<char>>,
    gutter: u16,
    widths: Seq<u16>,
    spacing: u16,
    highlight: Option<Style>,
) -> Buffer {
    let styled = restyled(buf, band.x, band.y, band.width, band.height, row.style_of());
    let marked = match mark {
        Some(text) => printed(styled, band.x, band.y, text, gutter, row.style_of()),
        None => styled,
    };
    let filled = cells_drawn(
        marked,
        row.cells_of(),
        column_areas(widths, spacing, band.x + gutter, band),
        row.cells_of().len(),
    );
    match highlight {
        Some(style) => restyled(filled, band.x, band.y, band.width, band.height, style),
        None => filled,
    }
}

/// A cursor as a number without bounds.
pub open spec fn cursor_row(cursor: Option<usize>) -> Option<int> {
    match cursor {
        Some(i) => Some(i as int),
        None => None,
    }
}

/// The heights of rows, as numbers without bounds.
pub open spec fn row_heights(rows: Seq<WRow>) -> Seq<int> {
    Seq::new(rows.len(), |i: int| rows[i].height_of() as int)
}

/// The left edge of a column lies behind the start by the widths of the
/// columns before it and by one gap for each of them.
pub proof fn lemma_column_left(widths: Seq<u16>, spacing: u16, first: int, i: int)
    requires
        0 <= i <= widths.len(),
    ensures
        column_left(widths, spacing, first, i) == first + total_width(widths.take(i)) + i
            * spacing,
    decreases i,
{
    if i > 0 {
        lemma_column_left(widths, spacing, first, i - 1);
        assert(widths.take(i) =~= widths.take(i - 1).push(widths[i - 1]));
        lemma_total_push(widths.take(i - 1), widths[i - 1]);
        assert((i - 1) * spacing + spacing == i * spacing) by (nonlinear_arith);
    } else {
        assert(widths.take(0) =~= Seq::<u16>::empty());
    }
}

/// Where the columns and the gaps between them fit between the start and
/// the right edge of the band, no column is moved or cut: each has its own
/// width and stands where the widths and gaps before it put it.
pub proof fn lemma_columns_need_no_cut(
    widths: Seq<u16>,
    spacing: u16,
    first: int,
    band: Viewport,
    i: int,
)
    requires
        0 <= i < widths.len(),
        0 <= first,
        first + total_width(widths) + (widths.len() - 1) * spacing <= band.x + band.width,
    ensures
        column_area(widths, spacing, first, band, i) == (Viewport {
            x: (first + total_width(widths.take(i)) + i * spacing) as u16,
            y: band.y,
            width: widths[i],
            height: band.height,
        }),
        first + total_width(widths.take(i)) + i * spacing + widths[i] <= band.x + band.width,
{
    lemma_column_left(widths, spacing, first, i);
    lemma_total_of_first(widths, i + 1);
    lemma_total_of_first(widths, i);
    assert(widths.take(i + 1) =~= widths.take(i).push(widths[i]));
    lemma_total_push(widths.take(i), widths[i]);
    let gaps = widths.len() - 1;
    assert(0 <= i * spacing <= gaps * spacing) by (nonlinear_arith)
        requires
            0 <= i <= gaps,
            0 <= spacing,
    ;
}

/// Computes the areas of the columns in a band of lines.
pub fn place_columns(widths: &Vec<u16>, spacing: u16, first: u16, band: Viewport) -> (areas: Vec<
    Viewport,
>)
    requires
        band.x <= first <= band.x + band.width,
        band.x + band.width <= u16::MAX,
    ensures
        areas@ == column_areas(widths@, spacing, first as int, band),
        areas_within(areas@, band),
{
    let right: u32 = band.x as u32 + band.width as u32;
    let mut left: u32 = first as u32;
    let mut areas: Vec<Viewport> = Vec::new();
    let mut i: usize = 0;
    while i < widths.len()
        invariant
            i <= widths.len(),
            right == band.x + band.width,
            right <= u16::MAX,
            band.x <= left <= right,
            first <= column_left(widths@, spacing, first as int, i as int),
            left == least(column_left(widths@, spacing, first as int, i as int), right as int),
            areas@.len() == i,
            forall|k: int|
                0 <= k < i ==> areas@[k] == column_area(widths@, spacing, first as int, band, k),
            forall|k: int| 0 <= k < i ==> (#[trigger] areas@[k]).within(band),
        decreases widths.len() - i,
    {
        let wanted: u32 = widths[i] as u32;
        let room: u32 = right - left;
        let width: u32 = if wanted < room {
            wanted
        } else {
            room
        };
        areas.push(Viewport { x: left as u16, y: band.y, width: width as u16, height: band.height });
        let next: u32 = left + wanted + spacing as u32;
        left = if next < right {
            next
        } else {
            right
        };
        i += 1;
    }
    assert(areas@ =~= column_areas(widths@, spacing, first as int, band));
    areas
}

/// A string of as many spaces as `symbol` takes screen columns.
pub fn blank_for(symbol: &str) -> (text: String)
    ensures
        text@ == blank(shown_width(symbol@)),
{
    let count = display_width(symbol);
    let mut text = String::new();
    let mut i: usize = 0;
    while i < count
        invariant
            i <= count,
            text@ == blank(i as nat),
        decreases count - i,
    {
        push_char(&mut text, ' ');
        assert(text@ =~= blank((i + 1) as nat));
        i += 1;
    }
    text
}

/// Draws one row into its band.
pub fn draw_row(
    buf: &mut Buffer,
    row: &WRow,
    band: Viewport,
    mark: Option<&str>,
    gutter: u16,
    widths: &Vec<u16>,
    spacing: u16,
    highlight: Option<Style>,
)
    requires
        surface_sound(*old(buf)),
        band.within(surface(*old(buf))),
        gutter <= band.width,
        mark.is_some() ==> !band.is_empty(),
    ensures
        *final(buf) == row_drawn(
            *old(buf),
            *row,
            band,
            match mark {
                Some(text) => Some(text@),
                None => None,
            },
            gutter,
            widths@,
            spacing,
            highlight,
        ),
        same_outside(*old(buf), *final(buf), band),
        surface_sound(*final(buf)),
{
    fill_style(buf, band, row.row_style());
    let ghost styled = *buf;
    if let Some(text) = mark {
        put_string(buf, band.x, band.y, text, gutter, row.row_style());
        proof {
            lemma_same_outside_chain(
                *old(buf),
                styled,
                *buf,
                band,
                Viewport { x: band.x, y: band.y, width: gutter, height: 1 },
                band,
            );
        }
    }
    let ghost marked = *buf;
    let areas = place_columns(widths, spacing, band.x + gutter, band);
    proof {
        assert forall|i: int| 0 <= i < areas@.len() implies (#[trigger] areas@[i]).within(
            surface(*buf),
        ) by {
            assert(areas@[i].within(band));
        }
    }
    row.draw(buf, areas.as_slice());
    proof {
        assert(same_outside(marked, *buf, band));
        lemma_same_outside_chain(*old(buf), marked, *buf, band, band, band);
    }
    let ghost filled = *buf;
    if let Some(style) = highlight {
        fill_style(buf, band, style);
        proof {
            lemma_same_outside_chain(*old(buf), filled, *buf, band, band, band);
        }
    }
}

/// A list of rows in columns, drawn with a cursor and a gutter for its mark.
#[derive(Debug)]
pub struct SelectList<'a> {
    block: Option<Block<'a>>,
    style: Style,
    widths: Vec<Constraint>,
    column_spacing: u16,
    highlight_style: Style,
    highlight_symbol: &'a str,
    header: Option<WRow<'a>>,
    rows: Vec<WRow<'a>>,
}

impl<'a> SelectList<'a> {
    #[verifier::type_invariant]
    spec fn percentages_in_range(&self) -> bool {
        &&& all_valid(self.widths@)
        &&& match self.block {
            Some(block) => frame_safe(block),
            None => true,
        }
    }

    /// The block that frames the list, where there is one.
    pub closed spec fn block_of(&self) -> Option<Block<'a>> {
        self.block
    }

    /// The rows of the list.
    pub closed spec fn rows_of(&self) -> Seq<WRow<'a>> {
        self.rows@
    }

    /// The row that is drawn above the rows, where there is one.
    pub closed spec fn header_of(&self) -> Option<WRow<'a>> {
        self.header
    }

    /// What the columns ask for.
    pub closed spec fn widths_of(&self) -> Seq<Constraint> {
        self.widths@
    }

    /// The style that is laid over the whole area first.
    pub closed spec fn style_of(&self) -> Style {
        self.style
    }

    /// The symbol that marks the row under the cursor.
    pub closed spec fn symbol_of(&self) -> Seq<char> {
        self.highlight_symbol@
    }

    /// The style that is laid over the row under the cursor.
    pub closed spec fn highlight_of(&self) -> Style {
        self.highlight_style
    }

    /// The number of cells between two columns.
    pub closed spec fn spacing_of(&self) -> u16 {
        self.column_spacing
    }

    /// The heights of the rows.
    pub open spec fn heights(&self) -> Seq<int> {
        row_heights(self.rows_of())
    }

    /// What the gutter of row `i` shows: nothing without a cursor, the
    /// symbol in the row under the cursor, and spaces of the same width in
    /// any other.
    pub open spec fn mark_for(&self, cursor: Option<usize>, i: int) -> Option<Seq<char>> {
        match cursor {
            None => None,
            Some(c) => Some(
                if c == i {
                    self.symbol_of()
                } else {
                    blank(shown_width(self.symbol_of()))
                },
            ),
        }
    }

    /// The width of the gutter in a line of `width` cells: none without a
    /// cursor, else that of the symbol, as far as the line has room.
    pub open spec fn gutter_for(&self, cursor: Option<usize>, width: u16) -> u16 {
        match cursor {
            None => 0,
            Some(_) => least(gutter_width(self.symbol_of()) as int, width as int) as u16,
        }
    }

    /// The style that is laid over row `i` at last: the highlight in the row
    /// under the cursor, none in any other.
    pub open spec fn highlight_for(&self, cursor: Option<usize>, i: int) -> Option<Style> {
        match cursor {
            Some(c) => if c == i {
                Some(self.highlight_of())
            } else {
                None
            },
            None => None,
        }
    }

    /// The buffer after the first `count` rows from row `start` on were
    /// drawn into `area`, one below the other. A row that the area has no
    /// line left for is not drawn.
    pub open spec fn rows_drawn(
        &self,
        buf: Buffer,
        cursor: Option<usize>,
        area: Viewport,
        widths: Seq<u16>,
        start: int,
        count: nat,
    ) -> Buffer
        decreases count,
    {
        if count == 0 {
            buf
        } else {
            let before = self.rows_drawn(buf, cursor, area, widths, start, (count - 1) as nat);
            let i = start + count - 1;
            let band = row_band(
                area,
                span_height(self.heights(), start, i),
                self.heights()[i],
            );
            if band.is_empty() {
                before
            } else {
                row_drawn(
                    before,
                    self.rows_of()[i],
                    band,
                    self.mark_for(cursor, i),
                    self.gutter_for(cursor, area.width),
                    widths,
                    self.spacing_of(),
                    self.highlight_for(cursor, i),
                )
            }
        }
    }

    /// The buffer after the header was drawn at the top of `area`. Its gutter
    /// stays empty.
    pub open spec fn header_drawn(
        &self,
        buf: Buffer,
        cursor: Option<usize>,
        area: Viewport,
        widths: Seq<u16>,
    ) -> Buffer {
        match self.header_of() {
            None => buf,
            Some(header) => row_drawn(
                buf,
                header,
                row_band(area, 0, header.height_of() as int),
                None,
                self.gutter_for(cursor, area.width),
                widths,
                self.spacing_of(),
                None,
            ),
        }
    }

    /// The part of `area` below the header.
    pub open spec fn body_area(&self, area: Viewport) -> Viewport {
        match self.header_of() {
            None => area,
            Some(header) => {
                let taken = least(header.height_of() as int, area.height as int);
                Viewport {
                    x: area.x,
                    y: (area.y + taken) as u16,
                    width: area.width,
                    height: (area.height - taken) as u16,
                }
            },
        }
    }

    /// The buffer after header and rows were drawn into `area` with columns
    /// of the given widths: the header at the top, and below it the rows of
    /// the window that holds the cursor. Into an empty area nothing is
    /// drawn.
    pub open spec fn table_drawn(
        &self,
        buf: Buffer,
        area: Viewport,
        cursor: Option<usize>,
        widths: Seq<u16>,
    ) -> Buffer {
        if area.is_empty() {
            buf
        } else {
            let headed = self.header_drawn(buf, cursor, area, widths);
            let body = self.body_area(area);
            let window = visible_window(self.heights(), cursor_row(cursor), body.height as int);
            self.rows_drawn(
                headed,
                cursor,
                body,
                widths,
                window.0,
                (window.1 - window.0) as nat,
            )
        }
    }

    /// The part of `area` that header and rows are drawn into: what the
    /// block leaves inside it, or all of it without a block.
    pub open spec fn table_area(&self, area: Viewport) -> Viewport {
        match self.block_of() {
            Some(block) => inner_of(block, area),
            None => area,
        }
    }

    /// The buffer after the list was drawn into `area` with columns of the
    /// given widths: the style of the list over the area, the block around
    /// it, and header and rows inside the block. Into an empty area nothing
    /// is drawn.
    pub open spec fn rendered(
        &self,
        buf: Buffer,
        area: Viewport,
        cursor: Option<usize>,
        widths: Seq<u16>,
    ) -> Buffer {
        if area.is_empty() {
            buf
        } else {
            let base = restyled(buf, area.x, area.y, area.width, area.height, self.style_of());
            let frame = match self.block_of() {
                Some(block) => framed(base, block, area.x, area.y, area.width, area.height),
                None => base,
            };
            self.table_drawn(frame, self.table_area(area), cursor, widths)
        }
    }

    /// A list of the given rows: no header, no column, one cell between
    /// columns, and `"> "` as the mark of the cursor.
    pub fn new(rows: Vec<WRow<'a>>) -> (list: SelectList<'a>)
        ensures
            list.rows_of() == rows@,
            list.block_of().is_none(),
            list.header_of().is_none(),
            list.widths_of() == Seq::<Constraint>::empty(),
            list.spacing_of() == 1,
            list.symbol_of() == "> "@,
    {
        SelectList {
            block: None,
            style: Style::default(),
            widths: Vec::new(),
            column_spacing: 1,
            highlight_style: Style::default(),
            highlight_symbol: "> ",
            header: None,
            rows,
        }
    }

    /// The list with a block around it. The block has to be one that can
    /// frame a widget here.
    pub fn block(self, block: Block<'a>) -> (list: SelectList<'a>)
        requires
            frame_safe(block),
        ensures
            list.block_of() == Some(block),
            list.header_of() == self.header_of(),
            list.rows_of() == self.rows_of(),
            list.widths_of() == self.widths_of(),
            list.style_of() == self.style_of(),
            list.symbol_of() == self.symbol_of(),
            list.highlight_of() == self.highlight_of(),
            list.spacing_of() == self.spacing_of(),
    {
        proof {
            use_type_invariant(&self);
        }
        SelectList {
            block: Some(block),
            style: self.style,
            widths: self.widths,
            column_spacing: self.column_spacing,
            highlight_style: self.highlight_style,
            highlight_symbol: self.highlight_symbol,
            header: self.header,
            rows: self.rows,
        }
    }

    /// The list with a header above its rows.
    pub fn header(self, header: WRow<'a>) -> (list: SelectList<'a>)
        ensures
            list.header_of() == Some(header),
            list.rows_of() == self.rows_of(),
            list.block_of() == self.block_of(),
            list.widths_of() == self.widths_of(),
            list.style_of() == self.style_of(),
            list.symbol_of() == self.symbol_of(),
            list.highlight_of() == self.highlight_of(),
            list.spacing_of() == self.spacing_of(),
    {
        proof {
            use_type_invariant(&self);
        }
        SelectList {
            block: self.block,
            style: self.style,
            widths: self.widths,
            column_spacing: self.column_spacing,
            highlight_style: self.highlight_style,
            highlight_symbol: self.highlight_symbol,
            header: Some(header),
            rows: self.rows,
        }
    }

    /// The list with what its columns ask for. A percentage above one
    /// hundred is not accepted.
    pub fn widths(self, widths: &[Constraint]) -> (list: SelectList<'a>)
        requires
            all_valid(widths@),
        ensures
            list.widths_of() == widths@,
            list.header_of() == self.header_of(),
            list.rows_of() == self.rows_of(),
            list.block_of() == self.block_of(),
            list.style_of() == self.style_of(),
            list.symbol_of() == self.symbol_of(),
            list.highlight_of() == self.highlight_of(),
            list.spacing_of() == self.spacing_of(),
    {
        proof {
            use_type_invariant(&self);
        }
        let mut copy: Vec<Constraint> = Vec::new();
        let mut i: usize = 0;
        while i < widths.len()
            invariant
                i <= widths.len(),
                copy@ == widths@.take(i as int),
            decreases widths.len() - i,
        {
            copy.push(widths[i]);
            assert(copy@ =~= widths@.take(i + 1));
            i += 1;
        }
        assert(copy@ =~= widths@);
        SelectList {
            block: self.block,
            style: self.style,
            widths: copy,
            column_spacing: self.column_spacing,
            highlight_style: self.highlight_style,
            highlight_symbol: self.highlight_symbol,
            header: self.header,
            rows: self.rows,
        }
    }

    /// The list with what its columns ask for, or the list unchanged and
    /// `false` where a percentage is above one hundred.
    pub fn try_widths(self, widths: &[Constraint]) -> (r: (SelectList<'a>, bool))
        ensures
            r.1 == all_valid(widths@),
            r.1 ==> r.0.widths_of() == widths@,
            !r.1 ==> r.0 == self,
            r.0.header_of() == self.header_of(),
            r.0.rows_of() == self.rows_of(),
            r.0.block_of() == self.block_of(),
            r.0.style_of() == self.style_of(),
            r.0.symbol_of() == self.symbol_of(),
            r.0.highlight_of() == self.highlight_of(),
            r.0.spacing_of() == self.spacing_of(),
    {
        if are_valid(widths) {
            (self.widths(widths), true)
        } else {
            (self, false)
        }
    }

    /// The list with the style that is laid over its whole area.
    pub fn style(self, style: Style) -> (list: SelectList<'a>)
        ensures
            list.style_of() == style,
            list.header_of() == self.header_of(),
            list.rows_of() == self.rows_of(),
            list.block_of() == self.block_of(),
            list.widths_of() == self.widths_of(),
            list.symbol_of() == self.symbol_of(),
            list.highlight_of() == self.highlight_of(),
            list.spacing_of() == self.spacing_of(),
    {
        proof {
            use_type_invariant(&self);
        }
        SelectList {
            block: self.block,
            style,
            widths: self.widths,
            column_spacing: self.column_spacing,
            highlight_style: self.highlight_style,
            highlight_symbol: self.highlight_symbol,
            header: self.header,
            rows: self.rows,
        }
    }

    /// The list with the symbol that marks the row under the cursor.
    pub fn highlight_symbol(self, highlight_symbol: &'a str) -> (list: SelectList<'a>)
        ensures
            list.symbol_of() == highlight_symbol@,
            list.header_of() == self.header_of(),
            list.rows_of() == self.rows_of(),
            list.block_of() == self.block_of(),
            list.widths_of() == self.widths_of(),
            list.style_of() == self.style_of(),
            list.highlight_of() == self.highlight_of(),
            list.spacing_of() == self.spacing_of(),
    {
        proof {
            use_type_invariant(&self);
        }
        SelectList {
            block: self.block,
            style: self.style,
            widths: self.widths,
            column_spacing: self.column_spacing,
            highlight_style: self.highlight_style,
            highlight_symbol,
            header: self.header,
            rows: self.rows,
        }
    }

    /// The list with the style that is laid over the row under the cursor.
    pub fn highlight_style(self, highlight_style: Style) -> (list: SelectList<'a>)
        ensures
            list.highlight_of() == highlight_style,
            list.header_of() == self.header_of(),
            list.rows_of() == self.rows_of(),
            list.block_of() == self.block_of(),
            list.widths_of() == self.widths_of(),
            list.style_of() == self.style_of(),
            list.symbol_of() == self.symbol_of(),
            list.spacing_of() == self.spacing_of(),
    {
        proof {
            use_type_invariant(&self);
        }
        SelectList {
            block: self.block,
            style: self.style,
            widths: self.widths,
            column_spacing: self.column_spacing,
            highlight_style,
            highlight_symbol: self.highlight_symbol,
            header: self.header,
            rows: self.rows,
        }
    }

    /// The list with the number of cells between two columns.
    pub fn column_spacing(self, spacing: u16) -> (list: SelectList<'a>)
        ensures
            list.spacing_of() == spacing,
            list.header_of() == self.header_of(),
            list.rows_of() == self.rows_of(),
            list.block_of() == self.block_of(),
            list.widths_of() == self.widths_of(),
            list.style_of() == self.style_of(),
            list.symbol_of() == self.symbol_of(),
            list.highlight_of() == self.highlight_of(),
    {
        proof {
            use_type_invariant(&self);
        }
        SelectList {
            block: self.block,
            style: self.style,
            widths: self.widths,
            column_spacing: spacing,
            highlight_style: self.highlight_style,
            highlight_symbol: self.highlight_symbol,
            header: self.header,
            rows: self.rows,
        }
    }

    /// The width of the gutter that the symbol asks for.
    pub fn symbol_width(&self) -> (width: u16)
        ensures
            width == gutter_width(self.symbol_of()),
    {
        let count = display_width(self.highlight_symbol);
        (count % 0x10000) as u16
    }

    /// The width that the gutter asks for: that of the symbol where
    /// `has_selection` asks for a gutter, else none.
    pub open spec fn asked_gutter(&self, has_selection: bool) -> u16 {
        if has_selection {
            gutter_width(self.symbol_of())
        } else {
            0
        }
    }

    /// Shares a line of `max_width` cells out among the gutter, where
    /// `has_selection` asks for one, the columns and the gaps between them,
    /// and returns the widths of the columns, one for each column. The
    /// columns take no more than the line; and where the line can hold the
    /// gutter and the gaps as they were asked for, the columns take no more
    /// than those leave of it. Within these bounds the widths are what the
    /// layout of ratatui gives to the columns.
    pub fn get_columns_widths(&self, max_width: u16, has_selection: bool) -> (widths: Vec<u16>)
        ensures
            widths@.len() == self.widths_of().len(),
            total_width(widths@) <= max_width,
            columns_fit(
                widths@,
                self.asked_gutter(has_selection),
                self.spacing_of(),
                max_width,
            ),
    {
        let gutter = if has_selection {
            Some(self.symbol_width())
        } else {
            None
        };
        let asked: u16 = match gutter {
            Some(width) => width,
            None => 0,
        };
        let all = build_slots(&self.widths, self.column_spacing, gutter);
        let solved = split_line(&all, max_width);
        resolve_columns(&solved, has_selection, asked, self.column_spacing, max_width)
    }

    /// The rows to draw into `max_height` lines, as the range from the first
    /// number up to, not including, the second. Where there is a line at
    /// all, the range holds the row of a cursor that is on a row; and its
    /// rows take no more lines than there are, unless it is a single row.
    pub fn range_rows(&self, index: Option<usize>, max_height: u16) -> (window: (usize, usize))
        ensures
            (window.0 as int, window.1 as int) == visible_window(
                self.heights(),
                cursor_row(index),
                max_height as int,
            ),
            window.0 <= window.1 <= self.rows_of().len(),
            max_height > 0 && index.is_some() && index.unwrap() < self.rows_of().len()
                ==> window.0 <= index.unwrap() < window.1,
            span_height(self.heights(), window.0 as int, window.1 as int) <= max_height
                || window.1 == window.0 + 1,
    {
        let ghost heights = self.heights();
        let limit: u32 = max_height as u32;
        let count = self.rows.len();
        proof {
            lemma_window_in_rows(heights, cursor_row(index), max_height as int);
            lemma_window_height(heights, cursor_row(index), max_height as int);
            if max_height > 0 && index.is_some() && index.unwrap() < self.rows@.len() {
                lemma_window_holds_cursor(heights, index.unwrap() as int, max_height as int);
            }
        }
        if count == 0 || max_height == 0 {
            return (0, 0);
        }
        let mut end: usize = 0;
        let mut body: u32 = 0;
        loop
            invariant
                heights == self.heights(),
                count == self.rows@.len(),
                limit == max_height,
                limit > 0,
                end <= count,
                body == span_height(heights, 0, end as int),
                body < limit,
                top_end(heights, limit as int, 0) == top_end(heights, limit as int, end as int),
            ensures
                end <= count,
                top_end(heights, limit as int, 0) == end,
            decreases count - end,
        {
            if end >= count {
                break ;
            }
            let height: u32 = self.rows[end].height() as u32;
            proof {
                lemma_span_step(heights, 0, end as int);
            }
            if height + body >= limit {
                break ;
            }
            end += 1;
            body += height;
        }
        let cursor = match index {
            Some(i) => i,
            None => {
                return (0, end);
            },
        };
        if cursor < end {
            return (0, end);
        }
        let ghost top = end;
        let mut start: usize = end;
        body = 0;
        while end < count && end <= cursor
            invariant
                heights == self.heights(),
                count == self.rows@.len(),
                limit == max_height,
                start <= end <= count,
                body == span_height(heights, start as int, end as int),
                body <= u16::MAX,
                slide(heights, limit as int, cursor as int, top as int, top as int) == slide(
                    heights,
                    limit as int,
                    cursor as int,
                    start as int,
                    end as int,
                ),
            decreases count - end,
        {
            let height: u32 = self.rows[end].height() as u32;
            proof {
                lemma_span_step(heights, start as int, end as int);
                lemma_span_step(heights, end as int, end as int);
            }
            if body + height > limit {
                start = end;
                body = 0;
            }
            body += height;
            end += 1;
        }
        (start, end)
    }

    /// The part of `area` that header and rows are drawn into.
    pub fn inner_area(&self, area: Viewport) -> (inner: Viewport)
        requires
            area.x + area.width <= u16::MAX,
            area.y + area.height <= u16::MAX,
        ensures
            inner == self.table_area(area),
            inner.is_empty() || inner.within(area),
    {
        proof {
            use_type_invariant(self);
        }
        match &self.block {
            Some(block) => block_inner(block, area),
            None => area,
        }
    }

    /// Draws the list into `area` with columns of the given widths: the
    /// style of the list, the block, and header and rows inside the block.
    pub fn draw(&self, area: Viewport, buf: &mut Buffer, cursor: Option<usize>, widths: &Vec<u16>)
        requires
            drawable(*old(buf), area),
        ensures
            *final(buf) == self.rendered(*old(buf), area, cursor, widths@),
            same_outside(*old(buf), *final(buf), area),
            surface_sound(*old(buf)) ==> surface_sound(*final(buf)),
    {
        if area.has_no_cell() {
            proof {
                lemma_same_outside_refl(*old(buf), area);
            }
            return ;
        }
        proof {
            use_type_invariant(self);
        }
        fill_style(buf, area, self.style);
        let ghost base = *buf;
        let table_area = match &self.block {
            Some(block) => {
                let inner = block_inner(block, area);
                draw_block(buf, block, area);
                proof {
                    lemma_same_outside_chain(*old(buf), base, *buf, area, area, area);
                }
                inner
            },
            None => area,
        };
        let ghost frame = *buf;
        self.draw_table(table_area, buf, cursor, widths);
        proof {
            lemma_same_outside_chain(*old(buf), frame, *buf, area, table_area, area);
        }
    }

    /// Draws header and rows into `area` with columns of the given widths.
    pub fn draw_table(
        &self,
        area: Viewport,
        buf: &mut Buffer,
        cursor: Option<usize>,
        widths: &Vec<u16>,
    )
        requires
            drawable(*old(buf), area),
        ensures
            *final(buf) == self.table_drawn(*old(buf), area, cursor, widths@),
            same_outside(*old(buf), *final(buf), area),
            surface_sound(*old(buf)) ==> surface_sound(*final(buf)),
    {
        if area.has_no_cell() {
            proof {
                lemma_same_outside_refl(*old(buf), area);
            }
            return ;
        }
        proof {
            lemma_same_outside_refl(*old(buf), area);
        }
        let ghost base = *buf;
        let gutter: u16 = match cursor {
            Some(_) => {
                let wanted = self.symbol_width();
                if wanted < area.width {
                    wanted
                } else {
                    area.width
                }
            },
            None => 0,
        };
        let mut body = area;
        if let Some(header) = &self.header {
            let taken: u16 = if header.height() < area.height {
                header.height()
            } else {
                area.height
            };
            let band = Viewport { x: area.x, y: area.y, width: area.width, height: taken };
            draw_row(buf, header, band, None, gutter, widths, self.column_spacing, None);
            proof {
                lemma_same_outside_chain(*old(buf), base, *buf, area, band, area);
            }
            body = Viewport {
                x: area.x,
                y: area.y + taken,
                width: area.width,
                height: area.height - taken,
            };
        }
        let ghost headed = *buf;
        let ghost heights = self.heights();
        let window = self.range_rows(cursor, body.height);
        let start = window.0;
        let end = window.1;
        let blank_symbol = blank_for(self.highlight_symbol);
        let mut used: u16 = 0;
        let mut i: usize = start;
        while i < end
            invariant
                start <= i <= end <= self.rows@.len(),
                heights == self.heights(),
                !area.is_empty(),
                area.within(surface(*old(buf))),
                body == self.body_area(area),
                body.within(area),
                body.width == area.width,
                gutter == self.gutter_for(cursor, area.width),
                gutter <= area.width,
                blank_symbol@ == blank(shown_width(self.symbol_of())),
                used <= body.height,
                used == least(span_height(heights, start as int, i as int), body.height as int),
                span_height(heights, start as int, i as int) >= 0,
                surface_sound(*buf),
                surface(*buf) == surface(*old(buf)),
                same_outside(*old(buf), *buf, area),
                *buf == self.rows_drawn(
                    headed,
                    cursor,
                    body,
                    widths@,
                    start as int,
                    (i - start) as nat,
                ),
            decreases end - i,
        {
            let row = &self.rows[i];
            let height = row.height();
            let room: u16 = body.height - used;
            let shown: u16 = if height < room {
                height
            } else {
                room
            };
            proof {
                lemma_span_step(heights, start as int, i as int);
            }
            let ghost before = *buf;
            if shown > 0 {
                let band = Viewport {
                    x: body.x,
                    y: body.y + used,
                    width: body.width,
                    height: shown,
                };
                assert(band == row_band(
                    body,
                    span_height(heights, start as int, i as int),
                    heights[i as int],
                ));
                let under_cursor = match cursor {
                    Some(c) => c == i,
                    None => false,
                };
                let mark: Option<&str> = match cursor {
                    Some(_) => if under_cursor {
                        Some(self.highlight_symbol)
                    } else {
                        Some(blank_symbol.as_str())
                    },
                    None => None,
                };
                let highlight = if under_cursor {
                    Some(self.highlight_style)
                } else {
                    None
                };
                draw_row(buf, row, band, mark, gutter, widths, self.column_spacing, highlight);
                proof {
                    lemma_same_outside_chain(*old(buf), before, *buf, area, band, area);
                }
            }
            used = used + shown;
            i += 1;
        }
    }

    /// Draws the list into `area`, with the cursor of `state` and with
    /// column widths that fit the width inside the block. Nothing outside
    /// the area changes, and neither does the state.
    pub fn render(self, area: Viewport, buf: &mut Buffer, state: &mut SelectListState)
        requires
            drawable(*old(buf), area),
        ensures
            same_outside(*old(buf), *final(buf), area),
            surface_sound(*old(buf)) ==> surface_sound(*final(buf)),
            *final(state) == *old(state),
            area.is_empty() ==> *final(buf) == *old(buf),
            !area.is_empty() ==> exists|widths: Seq<u16>|
                {
                    &&& widths.len() == self.widths_of().len()
                    &&& columns_fit(
                        widths,
                        self.asked_gutter(old(state).cursor().is_some()),
                        self.spacing_of(),
                        self.table_area(area).width,
                    )
                    &&& *final(buf) == #[trigger] self.rendered(
                        *old(buf),
                        area,
                        old(state).cursor(),
                        widths,
                    )
                },
    {
        if area.has_no_cell() {
            proof {
                lemma_same_outside_refl(*old(buf), area);
            }
            return ;
        }
        let cursor = state.index();
        let inner = self.inner_area(area);
        let widths = self.get_columns_widths(inner.width, cursor.is_some());
        self.draw(area, buf, cursor, &widths);
    }
}

} // verus!
