//! The widget of a one-line text input.

use ratatui::buffer::Buffer;
use ratatui::style::Style;
use ratatui::widgets::Block;
use vstd::prelude::*;
use crate::view::canvas::{Viewport, surface, surface_sound, cell_at, same_outside};
use crate::view::canvas::{restyled, printed};
use crate::view::canvas::{fill_style, put_string, surface_area, surface_is_sound};
use crate::view::ui::{frame_safe, framed, inner_of, block_inner, draw_block};
use crate::view::widgets::state::input::InputState;

verus! {

/// A one-line text input: a block around it, a style for its area, and a
/// style for the cell of the cursor where the cursor is shown.
#[derive(Debug)]
pub struct Input<'a> {
    block: Option<Block<'a>>,
    style: Style,
    show_cursor: bool,
    style_cursor: Style,
}

impl<'a> Default for Input<'a> {
    fn default() -> (input: Input<'a>)
        ensures
            input.block_of().is_none(),
            !input.shows_cursor(),
    {
        Input {
            block: None,
            style: Style::default(),
            show_cursor: false,
            style_cursor: Style::default(),
        }
    }
}

/// The column of the cursor cell in an input at column `x`: as many cells
/// to the right as the cursor counts bytes, as far as 16 bits hold them.
pub open spec fn cursor_column(x: u16, cursor: usize) -> int {
    x + cursor % 0x10000
}

impl<'a> Input<'a> {
    #[verifier::type_invariant]
    spec fn block_can_frame(&self) -> bool {
        match self.block {
            Some(block) => frame_safe(block),
            None => true,
        }
    }

    /// The block that frames the input, where there is one.
    pub closed spec fn block_of(&self) -> Option<Block<'a>> {
        self.block
    }

    /// The style of the area.
    pub closed spec fn style_of(&self) -> Style {
        self.style
    }

    /// Whether the cursor is shown.
    pub closed spec fn shows_cursor(&self) -> bool {
        self.show_cursor
    }

    /// The style of the cell of the cursor.
    pub closed spec fn cursor_style_of(&self) -> Style {
        self.style_cursor
    }

    /// The input with the style of its area.
    pub fn with_style(self, style: Style) -> (input: Input<'a>)
        ensures
            input.block_of() == self.block_of(),
            input.style_of() == style,
            input.shows_cursor() == self.shows_cursor(),
            input.cursor_style_of() == self.cursor_style_of(),
    {
        proof {
            use_type_invariant(&self);
        }
        Input {
            block: self.block,
            style,
            show_cursor: self.show_cursor,
            style_cursor: self.style_cursor,
        }
    }

    /// The input with a block around it. The block has to be one that can
    /// frame a widget here.
    pub fn block(self, block: Block<'a>) -> (input: Input<'a>)
        requires
            frame_safe(block),
        ensures
            input.block_of() == Some(block),
            input.style_of() == self.style_of(),
            input.shows_cursor() == self.shows_cursor(),
            input.cursor_style_of() == self.cursor_style_of(),
    {
        Input {
            block: Some(block),
            style: self.style,
            show_cursor: self.show_cursor,
            style_cursor: self.style_cursor,
        }
    }

    /// The input with the cursor shown or hidden.
    pub fn cursor_visibility(self, b: bool) -> (input: Input<'a>)
        ensures
            input.block_of() == self.block_of(),
            input.style_of() == self.style_of(),
            input.shows_cursor() == b,
            input.cursor_style_of() == self.cursor_style_of(),
    {
        proof {
            use_type_invariant(&self);
        }
        Input {
            block: self.block,
            style: self.style,
            show_cursor: b,
            style_cursor: self.style_cursor,
        }
    }

    /// The input with the style of the cell of the cursor.
    pub fn cursor_style(self, s: Style) -> (input: Input<'a>)
        ensures
            input.block_of() == self.block_of(),
            input.style_of() == self.style_of(),
            input.shows_cursor() == self.shows_cursor(),
            input.cursor_style_of() == s,
    {
        proof {
            use_type_invariant(&self);
        }
        Input {
            block: self.block,
            style: self.style,
            show_cursor: self.show_cursor,
            style_cursor: s,
        }
    }

    /// The part of `area` that the text is printed into: what the block
    /// leaves inside it, or all of it without a block.
    pub open spec fn text_area(&self, area: Viewport) -> Viewport {
        match self.block_of() {
            Some(block) => inner_of(block, area),
            None => area,
        }
    }

    /// The buffer after the text and the cursor were drawn into `area`, the
    /// text in the style `plain`. Into an empty area nothing is drawn.
    pub open spec fn text_drawn(
        &self,
        buf: Buffer,
        area: Viewport,
        content: Seq<char>,
        cursor: usize,
        plain: Style,
    ) -> Buffer {
        if area.is_empty() {
            buf
        } else {
            let written = printed(buf, area.x, area.y, content, area.width, plain);
            if self.shows_cursor() {
                restyled(
                    written,
                    cursor_column(area.x, cursor) as u16,
                    area.y,
                    1,
                    1,
                    self.cursor_style_of(),
                )
            } else {
                written
            }
        }
    }

    /// The buffer after the input was drawn into `area`, with the text in
    /// the style `plain`: the style of the input over the area, the block
    /// around it, and text and cursor inside the block.
    pub open spec fn rendered(
        &self,
        buf: Buffer,
        area: Viewport,
        content: Seq<char>,
        cursor: usize,
        plain: Style,
    ) -> Buffer {
        let styled = restyled(buf, area.x, area.y, area.width, area.height, self.style_of());
        let frame = match self.block_of() {
            Some(block) => framed(styled, block, area.x, area.y, area.width, area.height),
            None => styled,
        };
        self.text_drawn(frame, self.text_area(area), content, cursor, plain)
    }

    /// Whether the cell of the cursor, where the cursor is shown and there
    /// is room for text at all, lies in `outer`.
    pub open spec fn cursor_inside(&self, area: Viewport, outer: Viewport, cursor: usize) -> bool {
        self.shows_cursor() && !self.text_area(area).is_empty() ==> outer.holds(
            cursor_column(self.text_area(area).x, cursor),
            self.text_area(area).y as int,
        )
    }

    /// Whether the input can be drawn into `area` of a buffer: the area is
    /// empty, in which case nothing is drawn, or the buffer is sound, the
    /// area lies inside it, and so does the cell of the cursor.
    pub open spec fn drawable(&self, area: Viewport, buf: Buffer, cursor: usize) -> bool {
        area.is_empty() || {
            &&& surface_sound(buf)
            &&& area.within(surface(buf))
            &&& self.cursor_inside(area, surface(buf), cursor)
        }
    }

    /// Decides [`Input::drawable`].
    pub fn can_render(&self, area: Viewport, buf: &Buffer, state: &InputState) -> (ok: bool)
        ensures
            ok == self.drawable(area, *buf, state.cursor()),
    {
        if area.has_no_cell() {
            return true;
        }
        if !surface_is_sound(buf) {
            return false;
        }
        let outer = surface_area(buf);
        if !area.fits_in(&outer) {
            return false;
        }
        proof {
            use_type_invariant(self);
        }
        let inner = match &self.block {
            Some(block) => block_inner(block, area),
            None => area,
        };
        if !self.show_cursor || inner.has_no_cell() {
            return true;
        }
        let column: u32 = inner.x as u32 + (state.index() % 0x10000) as u32;
        outer.x as u32 <= column && column < outer.x as u32 + outer.width as u32
    }

    /// Draws the input: the style over the area, the block around it, and
    /// inside the block the text from the top left corner on, cut at the
    /// width, and the style of the cursor over one cell, as many cells to
    /// the right of the corner as the cursor counts bytes. Where the block
    /// leaves no room, neither text nor cursor is drawn. Nothing changes
    /// outside the area but, at most, the cell of the cursor, and neither
    /// does the state.
    pub fn render(self, area: Viewport, buf: &mut Buffer, state: &mut InputState)
        requires
            self.drawable(area, *old(buf), old(state).cursor()),
        ensures
            *final(state) == *old(state),
            surface_sound(*old(buf)) ==> surface_sound(*final(buf)),
            surface(*final(buf)) == surface(*old(buf)),
            area.is_empty() ==> *final(buf) == *old(buf),
            !area.is_empty() ==> exists|plain: Style|
                *final(buf) == #[trigger] self.rendered(
                    *old(buf),
                    area,
                    old(state).content(),
                    old(state).cursor(),
                    plain,
                ),
            forall|x: int, y: int|
                surface(*old(buf)).holds(x, y) && !area.holds(x, y) && !(self.shows_cursor()
                    && !self.text_area(area).is_empty() && x == cursor_column(
                    self.text_area(area).x,
                    old(state).cursor(),
                ) && y == self.text_area(area).y) ==> #[trigger] cell_at(*final(buf), x, y)
                    == cell_at(*old(buf), x, y),
    {
        if area.has_no_cell() {
            return ;
        }
        proof {
            use_type_invariant(&self);
        }
        fill_style(buf, area, self.style);
        let plain = Style::default();
        let input_area = match &self.block {
            Some(block) => {
                let inner = block_inner(block, area);
                draw_block(buf, block, area);
                inner
            },
            None => area,
        };
        if !input_area.has_no_cell() {
            put_string(buf, input_area.x, input_area.y, state.text(), input_area.width, plain);
            if self.show_cursor {
                let column: u16 = input_area.x + (state.index() % 0x10000) as u16;
                let cursor = Viewport { x: column, y: input_area.y, width: 1, height: 1 };
                fill_style(buf, cursor, self.style_cursor);
            }
        }
        assert(*buf == self.rendered(
            *old(buf),
            area,
            old(state).content(),
            old(state).cursor(),
            plain,
        ));
    }
}

} // verus!
