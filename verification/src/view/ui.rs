//! The frame around a widget: ratatui's block, which draws borders and a
//! title around an area and leaves what is inside to the widget.

use ratatui::buffer::Buffer;
use ratatui::layout::Rect;
use ratatui::style::Style;
use ratatui::widgets::{Block, Borders, Widget};
use vstd::prelude::*;
use crate::view::canvas::{Viewport, surface, surface_sound, same_outside, shown_width};
use crate::view::canvas::display_width;

verus! {

/// ratatui's block: borders, titles and a padding around an area.
#[verifier::external_type_specification]
#[verifier::external_body]
pub struct ExBlock<'a>(Block<'a>);

/// The padding of a block: to the left, to the right, at the top and at the
/// bottom.
pub uninterp spec fn block_padding(block: Block) -> (u16, u16, u16, u16);

/// The number of screen columns that each title of a block takes, as
/// `Line::width` of ratatui counts them, in the order of the titles.
pub uninterp spec fn block_title_widths(block: Block) -> Seq<nat>;

/// Whether every title of a block stands at the top and to the left, which
/// is where a title stands that asks for no place of its own.
pub uninterp spec fn block_titles_left(block: Block) -> bool;

/// The area that `Block::inner` leaves inside a block around an area: left
/// column, top line, width and height.
pub uninterp spec fn block_inner_area(block: Block, x: u16, y: u16, width: u16, height: u16) -> (
    u16,
    u16,
    u16,
    u16,
);

/// The buffer after a block was drawn around an area.
pub uninterp spec fn framed(buf: Buffer, block: Block, x: u16, y: u16, width: u16, height: u16)
    -> Buffer;

/// The widest title that a block is drawn with here.
pub open spec fn widest_title() -> nat {
    0x7000
}

/// The two paddings of each direction can be added in 16 bits, which is how
/// ratatui adds them.
pub open spec fn padding_fits(block: Block) -> bool {
    let padding = block_padding(block);
    padding.0 + padding.1 <= u16::MAX && padding.2 + padding.3 <= u16::MAX
}

/// The block has no title, or one title of a bounded width at the top left.
/// With more titles, or with a title set elsewhere, ratatui may print a
/// title to the right of the area or add its offsets beyond 16 bits.
pub open spec fn titles_fit(block: Block) -> bool {
    &&& block_titles_left(block)
    &&& block_title_widths(block).len() <= 1
    &&& forall|i: int|
        0 <= i < block_title_widths(block).len() ==> #[trigger] block_title_widths(block)[i]
            <= widest_title()
}

/// A block that can frame a widget here.
pub open spec fn frame_safe(block: Block) -> bool {
    padding_fits(block) && titles_fit(block)
}

/// The area inside a block around `area`.
pub open spec fn inner_of(block: Block, area: Viewport) -> Viewport {
    let inner = block_inner_area(block, area.x, area.y, area.width, area.height);
    Viewport { x: inner.0, y: inner.1, width: inner.2, height: inner.3 }
}

/// Whether a title can stand on a block that is drawn here.
pub open spec fn title_fits(title: Seq<char>) -> bool {
    shown_width(title) <= widest_title()
}

/// Decides [`title_fits`].
pub fn can_title(title: &str) -> (ok: bool)
    ensures
        ok == title_fits(title@),
{
    display_width(title) <= 0x7000
}

/// A block with borders on all four sides in the given style, and with one
/// title. It is built with `Block::default`, `Block::title`,
/// `Block::borders` and `Block::border_style` of ratatui: the default block
/// has no title and no padding, `title` adds the title without a place of
/// its own, and the other two touch neither titles nor padding.
#[verifier::external_body]
pub fn ui_block(title: String, border: Style) -> (block: Block<'static>)
    ensures
        block_padding(block) == (0u16, 0u16, 0u16, 0u16),
        block_title_widths(block) == seq![shown_width(title@)],
        block_titles_left(block),
{
    Block::default().title(title).borders(Borders::ALL).border_style(border)
}

/// `Block::inner` of ratatui takes the borders, the line of the titles and
/// the padding off the area. What is left is empty or lies inside the area.
/// ratatui adds the two paddings of each direction in 16 bits, and the
/// edges of the area.
#[verifier::external_body]
pub(crate) fn block_inner(block: &Block, area: Viewport) -> (inner: Viewport)
    requires
        padding_fits(*block),
        area.x + area.width <= u16::MAX,
        area.y + area.height <= u16::MAX,
    ensures
        (inner.x, inner.y, inner.width, inner.height) == block_inner_area(
            *block,
            area.x,
            area.y,
            area.width,
            area.height,
        ),
        inner.is_empty() || inner.within(area),
{
    let inner = block.inner(Rect { x: area.x, y: area.y, width: area.width, height: area.height });
    Viewport { x: inner.x, y: inner.y, width: inner.width, height: inner.height }
}

/// `Widget::render` of ratatui's block lays the style of the block over the
/// area, draws the borders on its edges and prints the titles on its first
/// or last line. With no title, or with one title at the top left, nothing
/// outside the area is touched. It reaches each cell by its position, so
/// the area has to lie inside the buffer.
#[verifier::external_body]
pub(crate) fn draw_block(buf: &mut Buffer, block: &Block, area: Viewport)
    requires
        surface_sound(*old(buf)),
        area.within(surface(*old(buf))),
        titles_fit(*block),
    ensures
        *final(buf) == framed(*old(buf), *block, area.x, area.y, area.width, area.height),
        same_outside(*old(buf), *final(buf), area),
{
    let area = Rect { x: area.x, y: area.y, width: area.width, height: area.height };
    block.clone().render(area, buf);
}

} // verus!
