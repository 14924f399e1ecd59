use melody::view::canvas::Viewport;
use melody::view::widgets::input::Input;
use melody::view::widgets::state::input::InputState;
use ratatui::buffer::Buffer;
use ratatui::layout::Rect;
use ratatui::style::{Color, Style};

fn line_of(buf: &Buffer, y: u16) -> String {
    let area = *buf.area();
    (area.x..area.x + area.width).map(|x| buf.get(x, y).symbol.clone()).collect()
}

#[test]
fn input_draws_its_text_and_the_cursor_cell() {
    let mut buf = Buffer::empty(Rect::new(0, 0, 8, 2));
    let input = Input::default()
        .with_style(Style::default().fg(Color::Green))
        .cursor_visibility(true)
        .cursor_style(Style::default().bg(Color::Blue));
    let mut state = InputState::new("hello".to_string(), 2);
    let area = Viewport::new(1, 0, 6, 1);
    assert!(input.can_render(area, &buf, &state));
    input.render(area, &mut buf, &mut state);
    assert_eq!(line_of(&buf, 0), " hello  ");
    assert_eq!(line_of(&buf, 1), "        ");
    assert_eq!(buf.get(3, 0).bg, Color::Blue);
    assert_eq!(buf.get(2, 0).bg, Color::Reset);
    assert_eq!(buf.get(4, 0).bg, Color::Reset);
    assert_eq!(buf.get(1, 0).fg, Color::Green);
    assert_eq!(buf.get(6, 0).fg, Color::Green);
    assert_eq!(buf.get(0, 0).fg, Color::Reset);
    assert_eq!(buf.get(7, 0).fg, Color::Reset);
    assert_eq!(state.text(), "hello");
    assert_eq!(state.index(), 2);
}

#[test]
fn input_cuts_its_text_at_the_width_of_the_area() {
    let mut buf = Buffer::empty(Rect::new(0, 0, 8, 1));
    let mut state = InputState::new("a long text".to_string(), 0);
    Input::default().render(Viewport::new(2, 0, 4, 1), &mut buf, &mut state);
    assert_eq!(line_of(&buf, 0), "  a lo  ");
}

#[test]
fn input_without_cursor_styles_no_cell() {
    let mut buf = Buffer::empty(Rect::new(0, 0, 4, 1));
    let mut state = InputState::new("ab".to_string(), 1);
    Input::default().cursor_style(Style::default().bg(Color::Red)).render(
        Viewport::new(0, 0, 4, 1),
        &mut buf,
        &mut state,
    );
    assert_eq!(buf.get(1, 0).bg, Color::Reset);
}

#[test]
fn input_can_render_only_where_the_cursor_cell_lies_in_the_buffer() {
    let buf = Buffer::empty(Rect::new(0, 0, 8, 2));
    let shown = Input::default().cursor_visibility(true);
    let area = Viewport::new(1, 0, 6, 1);
    assert!(shown.can_render(area, &buf, &InputState::new("x".to_string(), 6)));
    assert!(!shown.can_render(area, &buf, &InputState::new("x".to_string(), 7)));
    assert!(Input::default().can_render(area, &buf, &InputState::new("x".to_string(), 7)));
    assert!(!shown.can_render(Viewport::new(4, 0, 6, 1), &buf, &InputState::default()));
    assert!(shown.can_render(Viewport::new(40, 0, 0, 1), &buf, &InputState::new("x".to_string(), 9)));
}

#[test]
fn input_may_put_the_cursor_behind_its_area() {
    let mut buf = Buffer::empty(Rect::new(0, 0, 8, 1));
    let input = Input::default().cursor_visibility(true).cursor_style(Style::default().bg(Color::Blue));
    let mut state = InputState::new("abcdef".to_string(), 4);
    input.render(Viewport::new(0, 0, 3, 1), &mut buf, &mut state);
    assert_eq!(line_of(&buf, 0), "abc     ");
    assert_eq!(buf.get(4, 0).bg, Color::Blue);
}

#[test]
fn input_into_an_empty_area_changes_nothing() {
    let mut buf = Buffer::empty(Rect::new(0, 0, 4, 1));
    let before = buf.clone();
    let mut state = InputState::new("ab".to_string(), 1);
    Input::default().cursor_visibility(true).render(Viewport::new(0, 0, 0, 1), &mut buf, &mut state);
    assert_eq!(buf, before);
}

#[test]
fn input_into_an_empty_area_needs_no_sound_buffer() {
    let mut broken = Buffer::empty(Rect::new(0, 0, 4, 1));
    broken.content.pop();
    let before = broken.clone();
    let mut state = InputState::new("ab".to_string(), 9);
    let input = Input::default().cursor_visibility(true);
    assert!(input.can_render(Viewport::new(0, 0, 0, 1), &broken, &state));
    input.render(Viewport::new(0, 0, 0, 1), &mut broken, &mut state);
    assert_eq!(broken, before);
    let input = Input::default();
    assert!(!input.can_render(Viewport::new(0, 0, 1, 1), &broken, &state));
}

#[test]
fn input_draws_its_text_inside_its_block() {
    let mut buf = Buffer::empty(Rect::new(0, 0, 12, 3));
    let block = melody::view::ui::ui_block(" Create ".to_string(), Style::default());
    let input = Input::default()
        .block(block)
        .cursor_visibility(true)
        .cursor_style(Style::default().bg(Color::Blue));
    let mut state = InputState::new("mix".to_string(), 3);
    let area = Viewport::new(0, 0, 12, 3);
    assert!(input.can_render(area, &buf, &state));
    input.render(area, &mut buf, &mut state);
    assert_eq!(line_of(&buf, 0), "\u{250c} Create \u{2500}\u{2500}\u{2510}");
    assert_eq!(line_of(&buf, 1), "\u{2502}mix       \u{2502}");
    assert_eq!(line_of(&buf, 2), "\u{2514}\u{2500}\u{2500}\u{2500}\u{2500}\u{2500}\u{2500}\u{2500}\u{2500}\u{2500}\u{2500}\u{2518}");
    assert_eq!(buf.get(4, 1).bg, Color::Blue);
    assert_eq!(buf.get(3, 1).bg, Color::Reset);
}

#[test]
fn input_in_a_block_without_room_draws_the_block_alone() {
    let mut buf = Buffer::empty(Rect::new(0, 0, 6, 2));
    let block = melody::view::ui::ui_block("".to_string(), Style::default());
    let input = Input::default().block(block).cursor_visibility(true);
    let mut state = InputState::new("mix".to_string(), 40);
    let area = Viewport::new(0, 0, 6, 2);
    assert!(input.can_render(area, &buf, &state));
    input.render(area, &mut buf, &mut state);
    assert_eq!(line_of(&buf, 0), "\u{250c}\u{2500}\u{2500}\u{2500}\u{2500}\u{2510}");
    assert_eq!(line_of(&buf, 1), "\u{2514}\u{2500}\u{2500}\u{2500}\u{2500}\u{2518}");
}
