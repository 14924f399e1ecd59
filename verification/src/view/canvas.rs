//! The drawing surface: a rectangle of the screen, ratatui's cell buffer, and
//! the three ways in which the widgets write to it.

use ratatui::buffer::{Buffer, Cell};
use ratatui::layout::Rect;
use ratatui::style::Style;
use ratatui::text::{Span, Text};
use vstd::prelude::*;

verus! {

/// A rectangle of screen cells: its left column, its top line, and its size.
#[derive(Debug, Clone, Copy, PartialEq, Eq, Structural)]
pub struct Viewport {
    pub x: u16,
    pub y: u16,
    pub width: u16,
    pub height: u16,
}

impl Viewport {
    /// Whether the rectangle holds no cell.
    pub open spec fn is_empty(self) -> bool {
        self.width == 0 || self.height == 0
    }

    /// Whether the cell in column `x` of line `y` lies in the rectangle.
    pub open spec fn holds(self, x: int, y: int) -> bool {
        self.x <= x < self.x + self.width && self.y <= y < self.y + self.height
    }

    /// Whether the rectangle lies inside `outer`, edges included.
    pub open spec fn within(self, outer: Viewport) -> bool {
        &&& outer.x <= self.x
        &&& self.x + self.width <= outer.x + outer.width
        &&& outer.y <= self.y
        &&& self.y + self.height <= outer.y + outer.height
    }

    /// The rectangle with the given corner and size.
    pub fn new(x: u16, y: u16, width: u16, height: u16) -> (area: Viewport)
        ensures
            area == (Viewport { x, y, width, height }),
    {
        Viewport { x, y, width, height }
    }

    /// Decides [`Viewport::is_empty`].
    pub fn has_no_cell(&self) -> (empty: bool)
        ensures
            empty == self.is_empty(),
    {
        self.width == 0 || self.height == 0
    }

    /// Decides [`Viewport::within`].
    pub fn fits_in(&self, outer: &Viewport) -> (fits: bool)
        ensures
            fits == self.within(*outer),
    {
        let right: u32 = self.x as u32 + self.width as u32;
        let bottom: u32 = self.y as u32 + self.height as u32;
        let outer_right: u32 = outer.x as u32 + outer.width as u32;
        let outer_bottom: u32 = outer.y as u32 + outer.height as u32;
        outer.x <= self.x && right <= outer_right && outer.y <= self.y && bottom <= outer_bottom
    }
}

/// ratatui's buffer: an area of the screen and one cell for each position.
#[verifier::external_type_specification]
#[verifier::external_body]
pub struct ExBuffer(Buffer);

/// One cell of ratatui's buffer: a symbol and how it is shown.
#[verifier::external_type_specification]
#[verifier::external_body]
pub struct ExCell(Cell);

/// ratatui's style: colours and modifiers, each set or left open.
#[verifier::external_type_specification]
#[verifier::external_body]
pub struct ExStyle(Style);

/// ratatui's styled text of any number of lines.
#[verifier::external_type_specification]
#[verifier::external_body]
pub struct ExText<'a>(Text<'a>);

/// The area that a buffer covers: left column, top line, width and height.
pub uninterp spec fn buffer_area(buf: Buffer) -> (u16, u16, u16, u16);

/// The cells of a buffer, line after line.
pub uninterp spec fn buffer_cells(buf: Buffer) -> Seq<Cell>;

/// The buffer after `Buffer::set_style` has laid a style over a rectangle.
pub uninterp spec fn restyled(
    buf: Buffer,
    x: u16,
    y: u16,
    width: u16,
    height: u16,
    style: Style,
) -> Buffer;

/// The buffer after `Buffer::set_stringn` has printed a string from a
/// position on, over at most `width` columns.
pub uninterp spec fn printed(
    buf: Buffer,
    x: u16,
    y: u16,
    text: Seq<char>,
    width: u16,
    style: Style,
) -> Buffer;

/// The buffer after `Buffer::set_line` has printed one line of a text from a
/// position on, over at most `width` columns.
pub uninterp spec fn printed_line(
    buf: Buffer,
    x: u16,
    y: u16,
    text: Text,
    line: int,
    width: u16,
) -> Buffer;

/// The number of lines of a text.
pub uninterp spec fn text_lines(text: Text) -> nat;

/// The number of screen columns that a string takes when it is shown, as
/// `Span::width` of ratatui counts them.
pub uninterp spec fn shown_width(text: Seq<char>) -> nat;

/// The area that a buffer covers.
pub open spec fn surface(buf: Buffer) -> Viewport {
    let area = buffer_area(buf);
    Viewport { x: area.0, y: area.1, width: area.2, height: area.3 }
}

/// A buffer that can be drawn to: it holds one cell for each position of its
/// area, and neither its edges nor its number of cells leave 16 bits.
pub open spec fn surface_sound(buf: Buffer) -> bool {
    let area = surface(buf);
    &&& area.x + area.width <= u16::MAX
    &&& area.y + area.height <= u16::MAX
    &&& area.width * area.height <= u16::MAX
    &&& buffer_cells(buf).len() == area.width * area.height
}

/// The cell in column `x` of line `y`, both counted on the screen.
pub closed spec fn cell_at(buf: Buffer, x: int, y: int) -> Cell {
    let area = surface(buf);
    buffer_cells(buf)[(y - area.y) * area.width + (x - area.x)]
}

/// `after` covers the area of `before`, and differs from it inside `rect`
/// at most.
pub open spec fn same_outside(before: Buffer, after: Buffer, rect: Viewport) -> bool {
    &&& surface(after) == surface(before)
    &&& buffer_cells(after).len() == buffer_cells(before).len()
    &&& forall|x: int, y: int|
        surface(before).holds(x, y) && !rect.holds(x, y) ==> #[trigger] cell_at(after, x, y)
            == cell_at(before, x, y)
}

/// Changes confined to two rectangles inside `rect`, one after the other,
/// are confined to `rect`.
pub proof fn lemma_same_outside_chain(
    first: Buffer,
    second: Buffer,
    third: Buffer,
    inner_a: Viewport,
    inner_b: Viewport,
    rect: Viewport,
)
    requires
        same_outside(first, second, inner_a),
        same_outside(second, third, inner_b),
        inner_a.is_empty() || inner_a.within(rect),
        inner_b.is_empty() || inner_b.within(rect),
    ensures
        same_outside(first, third, rect),
{
    assert forall|x: int, y: int| surface(first).holds(x, y) && !rect.holds(x, y) implies #[trigger] cell_at(
        third,
        x,
        y,
    ) == cell_at(first, x, y) by {
        assert(cell_at(third, x, y) == cell_at(second, x, y));
        assert(cell_at(second, x, y) == cell_at(first, x, y));
    }
}

/// Nothing changed is a change confined to any rectangle.
pub proof fn lemma_same_outside_refl(buf: Buffer, rect: Viewport)
    ensures
        same_outside(buf, buf, rect),
{
}

/// `Buffer::area` gives the area that the buffer covers.
#[verifier::external_body]
pub(crate) fn surface_area(buf: &Buffer) -> (area: Viewport)
    ensures
        (area.x, area.y, area.width, area.height) == buffer_area(*buf),
{
    let area = buf.area();
    Viewport { x: area.x, y: area.y, width: area.width, height: area.height }
}

/// `Buffer::content` gives the cells; this is how many there are.
#[verifier::external_body]
pub(crate) fn cell_count(buf: &Buffer) -> (count: usize)
    ensures
        count == buffer_cells(*buf).len(),
{
    buf.content().len()
}

/// `Buffer::set_style` patches the style of every cell of the rectangle and
/// touches no other cell. It reaches each cell by its position, so the
/// rectangle has to lie inside the buffer.
#[verifier::external_body]
pub(crate) fn fill_style(buf: &mut Buffer, area: Viewport, style: Style)
    requires
        surface_sound(*old(buf)),
        area.within(surface(*old(buf))),
    ensures
        *final(buf) == restyled(*old(buf), area.x, area.y, area.width, area.height, style),
        same_outside(*old(buf), *final(buf), area),
{
    buf.set_style(Rect { x: area.x, y: area.y, width: area.width, height: area.height }, style)
}

/// `Buffer::set_stringn` prints the string from the given position to the
/// right, one cell or more for each grapheme, and stops before the column
/// `x + width` and before the right edge of the buffer. The position has to
/// lie inside the buffer.
#[verifier::external_body]
pub(crate) fn put_string(buf: &mut Buffer, x: u16, y: u16, text: &str, width: u16, style: Style)
    requires
        surface_sound(*old(buf)),
        surface(*old(buf)).holds(x as int, y as int),
    ensures
        *final(buf) == printed(*old(buf), x, y, text@, width, style),
        same_outside(*old(buf), *final(buf), Viewport { x, y, width, height: 1 }),
{
    buf.set_stringn(x, y, text, width as usize, style);
}

/// `Buffer::set_line` prints the spans of one line of the text from the
/// given position to the right and stops before the column `x + width`. The
/// columns from `x` to there have to lie inside the buffer, and the text has
/// to have that line.
#[verifier::external_body]
pub(crate) fn put_line(buf: &mut Buffer, x: u16, y: u16, text: &Text, line: usize, width: u16)
    requires
        surface_sound(*old(buf)),
        (Viewport { x, y, width, height: 1 }).within(surface(*old(buf))),
        line < text_lines(*text),
    ensures
        *final(buf) == printed_line(*old(buf), x, y, *text, line as int, width),
        same_outside(*old(buf), *final(buf), Viewport { x, y, width, height: 1 }),
{
    buf.set_line(x, y, &text.lines[line], width);
}

/// `Text::height` gives the number of lines of the text.
#[verifier::external_body]
pub(crate) fn line_count(text: &Text) -> (count: usize)
    ensures
        count == text_lines(*text),
{
    text.height()
}

/// `Span::width` of ratatui gives the number of screen columns that the
/// content of a span takes; the span here holds the string and nothing else.
#[verifier::external_body]
pub(crate) fn display_width(text: &str) -> (width: usize)
    ensures
        width == shown_width(text@),
{
    Span::raw(text).width()
}

/// Decides whether a buffer can be drawn to.
pub fn surface_is_sound(buf: &Buffer) -> (sound: bool)
    ensures
        sound == surface_sound(*buf),
{
    let area = surface_area(buf);
    let width: u64 = area.width as u64;
    let height: u64 = area.height as u64;
    assert(width * height <= 0xffff * 0xffff) by (nonlinear_arith)
        requires
            width <= 0xffff,
            height <= 0xffff,
    ;
    let cells: u64 = width * height;
    let right: u32 = area.x as u32 + area.width as u32;
    let bottom: u32 = area.y as u32 + area.height as u32;
    right <= 0xffff && bottom <= 0xffff && cells <= 0xffff && cell_count(buf) == cells as usize
}

/// Whether `area` can be drawn to in a buffer: it is empty, in which case
/// nothing is drawn, or the buffer is sound and the area lies inside it.
pub open spec fn drawable(buf: Buffer, area: Viewport) -> bool {
    area.is_empty() || (surface_sound(buf) && area.within(surface(buf)))
}

/// Decides [`drawable`].
pub fn can_draw(buf: &Buffer, area: Viewport) -> (ok: bool)
    ensures
        ok == drawable(*buf, area),
{
    if area.has_no_cell() {
        return true;
    }
    let outer = surface_area(buf);
    surface_is_sound(buf) && area.fits_in(&outer)
}

} // verus!
