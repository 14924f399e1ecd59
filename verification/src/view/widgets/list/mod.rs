//! Rows of styled cells, as the list widget draws them.

use ratatui::buffer::Buffer;
use ratatui::style::Style;
use ratatui::text::Text;
use vstd::prelude::*;
use crate::view::canvas::{Viewport, surface, surface_sound, same_outside};
use crate::view::canvas::{restyled, printed_line, text_lines};
use crate::view::canvas::{fill_style, put_line, line_count};
use crate::view::canvas::{lemma_same_outside_chain, lemma_same_outside_refl};

pub mod select_list;
pub mod window;

verus! {

/// `Style::default` of ratatui gives the style that sets nothing.
pub assume_specification[ <Style as Default>::default ]() -> Style
;

/// One cell of a row: a text of one or more lines, and a style for the whole
/// area of the cell.
#[derive(Debug)]
pub struct WCell<'a> {
    content: Text<'a>,
    style: Style,
}

/// The buffer after the first `count` lines of `text` were printed one below
/// the other from the top left corner of `area`, each over the width of the
/// area.
pub open spec fn lines_drawn(buf: Buffer, text: Text, area: Viewport, count: nat) -> Buffer
    decreases count,
{
    if count == 0 {
        buf
    } else {
        printed_line(
            lines_drawn(buf, text, area, (count - 1) as nat),
            area.x,
            (area.y + count - 1) as u16,
            text,
            count - 1,
            area.width,
        )
    }
}

/// The number of lines of `text` that an area of the given height shows.
pub open spec fn lines_shown(text: Text, height: u16) -> nat {
    if text_lines(text) <= height {
        text_lines(text)
    } else {
        height as nat
    }
}

/// The buffer after a cell was drawn into `area`: first its style over the
/// whole area, then as many lines of its text as the area is high.
pub open spec fn cell_drawn(buf: Buffer, cell: WCell, area: Viewport) -> Buffer {
    lines_drawn(
        restyled(buf, area.x, area.y, area.width, area.height, cell.style_of()),
        cell.text_of(),
        area,
        lines_shown(cell.text_of(), area.height),
    )
}

impl<'a> WCell<'a> {
    /// The text of the cell.
    pub closed spec fn text_of(&self) -> Text<'a> {
        self.content
    }

    /// The style of the cell.
    pub closed spec fn style_of(&self) -> Style {
        self.style
    }

    /// A cell that shows `content` in ratatui's default style.
    pub fn new(content: Text<'a>) -> (cell: WCell<'a>)
        ensures
            cell.text_of() == content,
    {
        WCell { content, style: Style::default() }
    }

    /// The cell with its style replaced.
    pub fn style(self, style: Style) -> (cell: WCell<'a>)
        ensures
            cell.text_of() == self.text_of(),
            cell.style_of() == style,
    {
        let mut cell = self;
        cell.style = style;
        cell
    }

    /// Draws the cell into `area`: lays the cell's style over the area and
    /// prints the lines of the text from its top on, as many as fit.
    pub fn draw(&self, buf: &mut Buffer, area: Viewport)
        requires
            surface_sound(*old(buf)),
            area.within(surface(*old(buf))),
        ensures
            *final(buf) == cell_drawn(*old(buf), *self, area),
            same_outside(*old(buf), *final(buf), area),
            surface_sound(*final(buf)),
    {
        fill_style(buf, area, self.style);
        let ghost styled = *buf;
        let lines = line_count(&self.content);
        let mut i: usize = 0;
        while i < lines && i < area.height as usize
            invariant
                i <= lines,
                i <= area.height,
                lines == text_lines(self.content),
                surface_sound(*buf),
                surface(*buf) == surface(*old(buf)),
                area.within(surface(*buf)),
                *buf == lines_drawn(styled, self.content, area, i as nat),
                same_outside(*old(buf), *buf, area),
            decreases lines - i,
        {
            let ghost before = *buf;
            let y: u16 = area.y + i as u16;
            put_line(buf, area.x, y, &self.content, i, area.width);
            proof {
                lemma_same_outside_chain(
                    *old(buf),
                    before,
                    *buf,
                    area,
                    Viewport { x: area.x, y, width: area.width, height: 1 },
                    area,
                );
            }
            i += 1;
        }
    }
}

/// One row of a list: its cells from left to right, a style for the whole
/// row, and the number of screen lines that it takes.
#[derive(Debug)]
pub struct WRow<'a> {
    cells: Vec<WCell<'a>>,
    style: Style,
    height: u16,
}

/// The buffer after the first `count` cells were drawn, each into the area
/// of its place. A cell without an area is left out.
pub open spec fn cells_drawn(buf: Buffer, cells: Seq<WCell>, areas: Seq<Viewport>, count: nat)
    -> Buffer
    decreases count,
{
    if count == 0 {
        buf
    } else {
        let before = cells_drawn(buf, cells, areas, (count - 1) as nat);
        if count - 1 < areas.len() {
            cell_drawn(before, cells[count - 1], areas[count - 1])
        } else {
            before
        }
    }
}

/// Whether each of the areas is empty or lies inside `bounds`.
pub open spec fn areas_within(areas: Seq<Viewport>, bounds: Viewport) -> bool {
    forall|i: int| 0 <= i < areas.len() ==> (#[trigger] areas[i]).within(bounds)
}

impl<'a> WRow<'a> {
    #[verifier::type_invariant]
    spec fn tall_enough(&self) -> bool {
        self.height >= 1
    }

    /// The cells of the row.
    pub closed spec fn cells_of(&self) -> Seq<WCell<'a>> {
        self.cells@
    }

    /// The style of the row.
    pub closed spec fn style_of(&self) -> Style {
        self.style
    }

    /// The number of screen lines of the row.
    pub closed spec fn height_of(&self) -> u16 {
        self.height
    }

    /// A row of the given cells, one line high, in ratatui's default style.
    pub fn new(cells: Vec<WCell<'a>>) -> (row: WRow<'a>)
        ensures
            row.cells_of() == cells@,
            row.height_of() == 1,
    {
        WRow { cells, style: Style::default(), height: 1 }
    }

    /// The row with its height replaced. A row takes at least one line.
    pub fn with_height(self, height: u16) -> (row: WRow<'a>)
        requires
            height >= 1,
        ensures
            row.cells_of() == self.cells_of(),
            row.style_of() == self.style_of(),
            row.height_of() == height,
    {
        WRow { cells: self.cells, style: self.style, height }
    }

    /// The number of screen lines of the row, which is at least one.
    pub fn height(&self) -> (height: u16)
        ensures
            height == self.height_of(),
            height >= 1,
    {
        proof {
            use_type_invariant(self);
        }
        self.height
    }

    /// The style of the row.
    pub fn row_style(&self) -> (style: Style)
        ensures
            style == self.style_of(),
    {
        self.style
    }

    /// The row with its style replaced.
    pub fn style(self, style: Style) -> (row: WRow<'a>)
        ensures
            row.cells_of() == self.cells_of(),
            row.style_of() == style,
            row.height_of() == self.height_of(),
    {
        proof {
            use_type_invariant(&self);
        }
        WRow { cells: self.cells, style, height: self.height }
    }

    /// Draws the cells from left to right, the cell at place `i` into the
    /// area at place `i`. Cells beyond the last area are not drawn.
    pub fn draw(&self, buf: &mut Buffer, areas: &[Viewport])
        requires
            surface_sound(*old(buf)),
            areas_within(areas@, surface(*old(buf))),
        ensures
            *final(buf) == cells_drawn(*old(buf), self.cells_of(), areas@, self.cells_of().len()),
            surface(*final(buf)) == surface(*old(buf)),
            surface_sound(*final(buf)),
            forall|bounds: Viewport|
                areas_within(areas@, bounds) ==> #[trigger] same_outside(
                    *old(buf),
                    *final(buf),
                    bounds,
                ),
    {
        let mut i: usize = 0;
        proof {
            assert forall|bounds: Viewport| areas_within(areas@, bounds) implies #[trigger] same_outside(
                *old(buf),
                *buf,
                bounds,
            ) by {
                lemma_same_outside_refl(*old(buf), bounds);
            }
        }
        while i < self.cells.len()
            invariant
                i <= self.cells.len(),
                surface_sound(*buf),
                surface(*buf) == surface(*old(buf)),
                areas_within(areas@, surface(*old(buf))),
                *buf == cells_drawn(*old(buf), self.cells@, areas@, i as nat),
                forall|bounds: Viewport|
                    areas_within(areas@, bounds) ==> #[trigger] same_outside(
                        *old(buf),
                        *buf,
                        bounds,
                    ),
            decreases self.cells.len() - i,
        {
            if i < areas.len() {
                let ghost before = *buf;
                let area = areas[i];
                assert(areas@[i as int].within(surface(*old(buf))));
                self.cells[i].draw(buf, area);
                proof {
                    assert forall|bounds: Viewport| areas_within(areas@, bounds) implies #[trigger] same_outside(
                        *old(buf),
                        *buf,
                        bounds,
                    ) by {
                        assert(areas@[i as int].within(bounds));
                        assert(same_outside(*old(buf), before, bounds));
                        lemma_same_outside_chain(*old(buf), before, *buf, bounds, area, bounds);
                    }
                }
            }
            i += 1;
        }
    }
}

} // verus!
