use melody::view::canvas::{can_draw, surface_is_sound, Viewport};
use melody::view::layout::{are_valid, build_slots, fit_slots, pick_columns, Constraint};
use melody::view::layout::{columns_room, resolve_columns};
use melody::view::widgets::list::select_list::{blank_for, place_columns, SelectList};
use melody::view::widgets::list::{WCell, WRow};
use melody::view::widgets::state::SelectListState;
use ratatui::buffer::Buffer;
use ratatui::layout::Rect;
use ratatui::style::{Color, Style};
use ratatui::text::Text;

fn rows_of_heights(heights: &[u16]) -> Vec<WRow<'static>> {
    heights
        .iter()
        .enumerate()
        .map(|(i, h)| WRow::new(vec![WCell::new(Text::from(format!("r{}", i)))]).with_height(*h))
        .collect()
}

fn line_of(buf: &Buffer, y: u16) -> String {
    let area = *buf.area();
    (area.x..area.x + area.width).map(|x| buf.get(x, y).symbol.clone()).collect()
}

#[test]
fn window_slides_to_cursor_at_the_end() {
    let list = SelectList::new(rows_of_heights(&[1, 1, 1, 1, 1]));
    assert_eq!(list.range_rows(Some(4), 3), (2, 5));
}

#[test]
fn window_attempts_a_row_higher_than_the_viewport() {
    let list = SelectList::new(rows_of_heights(&[5]));
    assert_eq!(list.range_rows(Some(0), 3), (0, 1));
}

#[test]
fn window_without_rows_or_room_is_empty() {
    let list = SelectList::new(Vec::new());
    assert_eq!(list.range_rows(Some(0), 3), (0, 0));
    assert_eq!(list.range_rows(None, 3), (0, 0));
    let list = SelectList::new(rows_of_heights(&[1, 1]));
    assert_eq!(list.range_rows(Some(0), 0), (0, 0));
    assert_eq!(list.range_rows(None, 0), (0, 0));
}

#[test]
fn window_at_the_top_stays_below_the_height() {
    let list = SelectList::new(rows_of_heights(&[1, 1, 1, 1, 1]));
    assert_eq!(list.range_rows(None, 3), (0, 2));
    assert_eq!(list.range_rows(Some(0), 3), (0, 2));
    assert_eq!(list.range_rows(Some(1), 3), (0, 2));
    assert_eq!(list.range_rows(None, 10), (0, 5));
    assert_eq!(list.range_rows(Some(4), 10), (0, 5));
}

#[test]
fn window_holds_the_cursor_just_behind_the_top_window() {
    let list = SelectList::new(rows_of_heights(&[1, 1, 1, 1, 1]));
    assert_eq!(list.range_rows(Some(2), 3), (2, 3));
    assert_eq!(list.range_rows(Some(3), 3), (2, 4));
}

#[test]
fn window_opens_a_new_page_when_the_rows_exceed_the_height() {
    let list = SelectList::new(rows_of_heights(&[1, 1, 1, 1, 1, 1, 1]));
    assert_eq!(list.range_rows(Some(5), 3), (5, 6));
    assert_eq!(list.range_rows(Some(6), 3), (5, 7));
    let list = SelectList::new(rows_of_heights(&[2, 2, 3, 1, 2]));
    assert_eq!(list.range_rows(None, 4), (0, 1));
    assert_eq!(list.range_rows(Some(1), 4), (1, 2));
    assert_eq!(list.range_rows(Some(2), 4), (2, 3));
    assert_eq!(list.range_rows(Some(3), 4), (2, 4));
    assert_eq!(list.range_rows(Some(4), 4), (4, 5));
}

#[test]
fn window_with_a_stale_cursor_ends_with_the_rows() {
    let list = SelectList::new(rows_of_heights(&[1, 1, 1, 1, 1]));
    assert_eq!(list.range_rows(Some(9), 3), (2, 5));
}

#[test]
fn window_always_holds_a_cursor_in_range() {
    let heights = [1u16, 3, 2, 1, 4, 1, 1, 2];
    let list = SelectList::new(rows_of_heights(&heights));
    for limit in 1..8u16 {
        for cursor in 0..heights.len() {
            let (start, end) = list.range_rows(Some(cursor), limit);
            assert!(start <= cursor && cursor < end && end <= heights.len());
            let taken: u16 = heights[start..end].iter().sum();
            assert!(taken <= limit || end == start + 1);
        }
    }
}

#[test]
fn constraints_are_valid_up_to_one_hundred_percent() {
    assert!(Constraint::Percentage(100).is_valid());
    assert!(!Constraint::Percentage(101).is_valid());
    assert!(Constraint::Length(500).is_valid());
    assert!(are_valid(&[Constraint::Percentage(0), Constraint::Min(900), Constraint::Ratio(4, 3)]));
    assert!(!are_valid(&[Constraint::Percentage(10), Constraint::Percentage(200)]));
    assert!(are_valid(&[]));
}

#[test]
fn try_widths_rejects_a_percentage_above_one_hundred() {
    let (list, ok) = SelectList::new(Vec::new()).try_widths(&[Constraint::Percentage(101)]);
    assert!(!ok);
    assert_eq!(list.get_columns_widths(50, false), Vec::<u16>::new());
    let (list, ok) = list.try_widths(&[Constraint::Length(4), Constraint::Length(5)]);
    assert!(ok);
    assert_eq!(list.get_columns_widths(10, false), vec![4, 5]);
}

#[test]
fn slots_put_a_gap_between_columns_and_the_gutter_first() {
    let columns = vec![Constraint::Percentage(50), Constraint::Length(7), Constraint::Min(1)];
    assert_eq!(
        build_slots(&columns, 3, Some(2)),
        vec![
            Constraint::Length(2),
            Constraint::Percentage(50),
            Constraint::Length(3),
            Constraint::Length(7),
            Constraint::Length(3),
            Constraint::Min(1),
        ]
    );
    assert_eq!(build_slots(&columns[..1].to_vec(), 3, None), vec![Constraint::Percentage(50)]);
    assert_eq!(build_slots(&Vec::new(), 3, None), Vec::<Constraint>::new());
    assert_eq!(build_slots(&Vec::new(), 3, Some(4)), vec![Constraint::Length(4)]);
}

#[test]
fn columns_are_every_second_slot_behind_the_gutter() {
    assert_eq!(pick_columns(&vec![2, 10, 1, 20, 1, 30], true), vec![10, 20, 30]);
    assert_eq!(pick_columns(&vec![10, 1, 20, 1, 30], false), vec![10, 20, 30]);
    assert_eq!(pick_columns(&vec![2], true), Vec::<u16>::new());
    assert_eq!(pick_columns(&vec![], true), Vec::<u16>::new());
    assert_eq!(pick_columns(&vec![8], false), vec![8]);
}

#[test]
fn column_widths_of_lengths_that_fill_the_line() {
    let list = SelectList::new(Vec::new())
        .widths(&[Constraint::Length(3), Constraint::Length(4)])
        .column_spacing(2);
    assert_eq!(list.get_columns_widths(9, false), vec![3, 4]);
    assert_eq!(list.get_columns_widths(11, true), vec![3, 4]);
}

#[test]
fn column_widths_never_exceed_the_line() {
    let sets: Vec<Vec<Constraint>> = vec![
        vec![Constraint::Percentage(50), Constraint::Percentage(30), Constraint::Percentage(20)],
        vec![Constraint::Percentage(100)],
        vec![Constraint::Percentage(10), Constraint::Percentage(10)],
        vec![Constraint::Length(40), Constraint::Percentage(70), Constraint::Min(30)],
        vec![],
    ];
    for set in &sets {
        for width in [0u16, 1, 2, 5, 33, 100] {
            for has_selection in [false, true] {
                let list = SelectList::new(Vec::new()).widths(set);
                let widths = list.get_columns_widths(width, has_selection);
                assert_eq!(widths.len(), set.len());
                let total: u32 = widths.iter().map(|w| *w as u32).sum();
                assert!(total <= width as u32);
            }
        }
    }
}

#[test]
fn column_widths_of_three_percentages_with_gutter() {
    let list = SelectList::new(Vec::new()).widths(&[
        Constraint::Percentage(50),
        Constraint::Percentage(30),
        Constraint::Percentage(20),
    ]);
    let widths = list.get_columns_widths(100, true);
    println!("widths with gutter: {:?}", widths);
    assert_eq!(widths.len(), 3);
    let total: u16 = widths.iter().sum();
    assert!(total <= 98);
    assert!(total + 2 + 2 <= 100);
}

#[test]
fn columns_are_placed_with_gaps_and_cut_at_the_right_edge() {
    let band = Viewport::new(10, 4, 12, 2);
    let areas = place_columns(&vec![3, 4, 9, 2], 1, 12, band);
    assert_eq!(
        areas,
        vec![
            Viewport::new(12, 4, 3, 2),
            Viewport::new(16, 4, 4, 2),
            Viewport::new(21, 4, 1, 2),
            Viewport::new(22, 4, 0, 2),
        ]
    );
    assert_eq!(place_columns(&Vec::new(), 1, 10, band), Vec::<Viewport>::new());
}

#[test]
fn blank_has_one_space_for_each_screen_column() {
    assert_eq!(blank_for("> "), "  ");
    assert_eq!(blank_for(""), "");
    assert_eq!(blank_for("\u{1F3B5} "), "   ");
    assert_eq!(blank_for("\u{65e5}\u{672c}"), "    ");
}

#[test]
fn viewport_containment() {
    let outer = Viewport::new(2, 2, 10, 5);
    assert!(Viewport::new(2, 2, 10, 5).fits_in(&outer));
    assert!(Viewport::new(5, 3, 7, 4).fits_in(&outer));
    assert!(!Viewport::new(5, 3, 8, 4).fits_in(&outer));
    assert!(!Viewport::new(1, 3, 2, 1).fits_in(&outer));
    assert!(!Viewport::new(2, 6, 1, 2).fits_in(&outer));
    assert!(Viewport::new(12, 7, 0, 0).fits_in(&outer));
    assert!(Viewport::new(0, 0, 0, 3).has_no_cell());
    assert!(Viewport::new(0, 0, 3, 0).has_no_cell());
    assert!(!Viewport::new(0, 0, 1, 1).has_no_cell());
}

#[test]
fn buffers_from_ratatui_are_sound() {
    let buf = Buffer::empty(Rect::new(3, 4, 20, 10));
    assert!(surface_is_sound(&buf));
    assert!(can_draw(&buf, Viewport::new(3, 4, 20, 10)));
    assert!(can_draw(&buf, Viewport::new(10, 10, 13, 4)));
    assert!(!can_draw(&buf, Viewport::new(10, 10, 14, 4)));
    assert!(can_draw(&buf, Viewport::new(100, 100, 0, 4)));
    let mut broken = Buffer::empty(Rect::new(0, 0, 4, 4));
    broken.content.pop();
    assert!(!surface_is_sound(&broken));
    assert!(!can_draw(&broken, Viewport::new(0, 0, 1, 1)));
}

#[test]
fn cell_draws_its_lines_from_the_top_of_its_area() {
    let mut buf = Buffer::empty(Rect::new(0, 0, 6, 3));
    let cell = WCell::new(Text::from("ab\ncdefgh\nij\nkl")).style(Style::default().fg(Color::Red));
    cell.draw(&mut buf, Viewport::new(1, 0, 4, 3));
    assert_eq!(line_of(&buf, 0), " ab   ");
    assert_eq!(line_of(&buf, 1), " cdef ");
    assert_eq!(line_of(&buf, 2), " ij   ");
    assert_eq!(buf.get(1, 0).fg, Color::Red);
    assert_eq!(buf.get(4, 2).fg, Color::Red);
    assert_eq!(buf.get(0, 0).fg, Color::Reset);
    assert_eq!(buf.get(5, 1).fg, Color::Reset);
}

#[test]
fn row_draws_each_cell_into_its_area() {
    let mut buf = Buffer::empty(Rect::new(0, 0, 8, 1));
    let row = WRow::new(vec![
        WCell::new(Text::from("one")),
        WCell::new(Text::from("two")),
        WCell::new(Text::from("six")),
    ]);
    assert_eq!(row.height(), 1);
    row.draw(&mut buf, &[Viewport::new(0, 0, 2, 1), Viewport::new(4, 0, 4, 1)]);
    assert_eq!(line_of(&buf, 0), "on  two ");
}

#[test]
fn draw_shows_the_symbol_in_the_row_under_the_cursor() {
    let mut buf = Buffer::empty(Rect::new(0, 0, 10, 4));
    let list = SelectList::new(rows_of_heights(&[1, 1, 1, 1, 1]))
        .highlight_style(Style::default().bg(Color::Blue));
    list.draw(Viewport::new(0, 0, 10, 3), &mut buf, Some(4), &vec![4]);
    assert_eq!(line_of(&buf, 0), "  r2      ");
    assert_eq!(line_of(&buf, 1), "  r3      ");
    assert_eq!(line_of(&buf, 2), "> r4      ");
    assert_eq!(line_of(&buf, 3), "          ");
    assert_eq!(buf.get(0, 2).bg, Color::Blue);
    assert_eq!(buf.get(9, 2).bg, Color::Blue);
    assert_eq!(buf.get(0, 1).bg, Color::Reset);
    assert_eq!(buf.get(0, 3).bg, Color::Reset);
}

#[test]
fn draw_without_cursor_has_no_gutter() {
    let mut buf = Buffer::empty(Rect::new(0, 0, 6, 3));
    let list = SelectList::new(rows_of_heights(&[1, 1, 1]));
    list.draw(Viewport::new(0, 0, 6, 3), &mut buf, None, &vec![4]);
    assert_eq!(line_of(&buf, 0), "r0    ");
    assert_eq!(line_of(&buf, 1), "r1    ");
    assert_eq!(line_of(&buf, 2), "      ");
}

#[test]
fn draw_puts_the_header_above_the_rows_and_keeps_its_gutter_empty() {
    let mut buf = Buffer::empty(Rect::new(0, 0, 12, 4));
    let rows = vec![
        WRow::new(vec![WCell::new(Text::from("alpha")), WCell::new(Text::from("1"))]),
        WRow::new(vec![WCell::new(Text::from("beta")), WCell::new(Text::from("2"))]),
        WRow::new(vec![WCell::new(Text::from("gamma")), WCell::new(Text::from("3"))]),
    ];
    let header = WRow::new(vec![WCell::new(Text::from("Name")), WCell::new(Text::from("No"))]);
    let list = SelectList::new(rows).header(header).highlight_symbol("*");
    list.draw(Viewport::new(0, 0, 12, 4), &mut buf, Some(0), &vec![6, 2]);
    assert_eq!(line_of(&buf, 0), " Name   No  ");
    assert_eq!(line_of(&buf, 1), "*alpha  1   ");
    assert_eq!(line_of(&buf, 2), " beta   2   ");
    assert_eq!(line_of(&buf, 3), "            ");
}

#[test]
fn draw_cuts_a_high_row_at_the_bottom_of_the_area() {
    let mut buf = Buffer::empty(Rect::new(0, 0, 6, 5));
    let rows = vec![WRow::new(vec![WCell::new(Text::from("a\nb\nc\nd\ne"))]).with_height(5)];
    let list = SelectList::new(rows);
    list.draw(Viewport::new(1, 1, 4, 3), &mut buf, Some(0), &vec![2]);
    assert_eq!(line_of(&buf, 0), "      ");
    assert_eq!(line_of(&buf, 1), " > a  ");
    assert_eq!(line_of(&buf, 2), "   b  ");
    assert_eq!(line_of(&buf, 3), "   c  ");
    assert_eq!(line_of(&buf, 4), "      ");
}

#[test]
fn draw_leaves_everything_outside_the_area_alone() {
    let mut buf = Buffer::empty(Rect::new(0, 0, 8, 5));
    for y in 0..5 {
        for x in 0..8 {
            buf.get_mut(x, y).set_symbol("#");
        }
    }
    let list = SelectList::new(rows_of_heights(&[1, 2, 1, 1])).style(Style::default().fg(Color::Green));
    list.draw(Viewport::new(2, 1, 4, 3), &mut buf, Some(3), &vec![200]);
    for y in 0..5u16 {
        for x in 0..8u16 {
            let inside = (2..6).contains(&x) && (1..4).contains(&y);
            if !inside {
                assert_eq!(buf.get(x, y).symbol, "#");
                assert_eq!(buf.get(x, y).fg, Color::Reset);
            } else {
                assert_eq!(buf.get(x, y).fg, Color::Green);
            }
        }
    }
}

#[test]
fn draw_into_an_empty_area_changes_nothing() {
    let mut buf = Buffer::empty(Rect::new(0, 0, 4, 2));
    let before = buf.clone();
    let list = SelectList::new(rows_of_heights(&[1])).style(Style::default().fg(Color::Green));
    list.draw(Viewport::new(9, 9, 0, 3), &mut buf, Some(0), &vec![2]);
    assert_eq!(buf, before);
}

#[test]
fn render_draws_the_window_of_the_cursor_and_keeps_the_state() {
    let mut buf = Buffer::empty(Rect::new(0, 0, 10, 3));
    let list = SelectList::new(rows_of_heights(&[1, 1, 1, 1, 1])).widths(&[Constraint::Length(8)]);
    let mut state = SelectListState::default().with_len(5).with_index(Some(4)).with_selecteds(vec![1]);
    list.render(Viewport::new(0, 0, 10, 3), &mut buf, &mut state);
    assert_eq!(line_of(&buf, 0), "  r2      ");
    assert_eq!(line_of(&buf, 1), "  r3      ");
    assert_eq!(line_of(&buf, 2), "> r4      ");
    assert_eq!(state.index(), Some(4));
    assert_eq!(state.len(), 5);
    assert!(state.is_selected(1));
}

#[test]
fn render_into_an_empty_area_changes_nothing() {
    let mut buf = Buffer::empty(Rect::new(0, 0, 4, 2));
    let before = buf.clone();
    let list = SelectList::new(rows_of_heights(&[1]));
    let mut state = SelectListState::default().with_len(1).with_index(Some(0));
    list.render(Viewport::new(0, 0, 4, 0), &mut buf, &mut state);
    assert_eq!(buf, before);
}

#[test]
fn column_widths_fit_whatever_the_solver_picks() {
    for k in 1..60u32 {
        let list = SelectList::new(Vec::new())
            .widths(&[Constraint::Ratio(4 * k, 10 * k), Constraint::Length(7), Constraint::Min(30)])
            .column_spacing(2);
        let widths = list.get_columns_widths(57, false);
        assert_eq!(widths.len(), 3);
        let total: u32 = widths.iter().map(|w| *w as u32).sum();
        assert!(total <= 57);
    }
}

#[test]
fn column_widths_of_three_shares_are_stable() {
    for k in 1..60u32 {
        let list = SelectList::new(Vec::new()).widths(&[
            Constraint::Ratio(5 * k, 10 * k),
            Constraint::Ratio(3 * k, 10 * k),
            Constraint::Ratio(2 * k, 10 * k),
        ]);
        let widths = list.get_columns_widths(100, true);
        let total: u16 = widths.iter().sum();
        assert!(total <= 98);
    }
}

#[test]
fn a_single_column_takes_the_whole_line() {
    let list = SelectList::new(Vec::new()).widths(&[Constraint::Percentage(30)]);
    assert_eq!(list.get_columns_widths(50, false), vec![50]);
    let list = SelectList::new(Vec::new()).widths(&[Constraint::Length(4)]);
    assert_eq!(list.get_columns_widths(9, false), vec![9]);
    assert_eq!(list.get_columns_widths(0, false), vec![0]);
}

#[test]
fn gutter_is_as_wide_as_the_symbol_is_shown() {
    let list = SelectList::new(Vec::new()).highlight_symbol("\u{1F3B5} ");
    assert_eq!(list.symbol_width(), 3);
    assert_eq!(SelectList::new(Vec::new()).symbol_width(), 2);
    assert_eq!(SelectList::new(Vec::new()).highlight_symbol("").symbol_width(), 0);
}

#[test]
fn draw_places_the_columns_behind_a_wide_symbol() {
    let mut buf = Buffer::empty(Rect::new(0, 0, 8, 3));
    let list = SelectList::new(rows_of_heights(&[1, 1])).highlight_symbol("\u{1F3B5} ");
    list.draw(Viewport::new(0, 0, 8, 3), &mut buf, Some(1), &vec![4]);
    assert_eq!(line_of(&buf, 0), "   r0   ");
    assert_eq!(buf.get(0, 1).symbol, "\u{1F3B5}");
    assert_eq!(buf.get(2, 1).symbol, " ");
    assert_eq!(buf.get(3, 1).symbol, "r");
    assert_eq!(buf.get(4, 1).symbol, "1");
}

#[test]
fn draw_cuts_the_gutter_at_the_width_of_the_area() {
    let mut buf = Buffer::empty(Rect::new(0, 0, 4, 1));
    let list = SelectList::new(rows_of_heights(&[1])).highlight_symbol("=>");
    list.draw(Viewport::new(1, 0, 1, 1), &mut buf, Some(0), &vec![4]);
    assert_eq!(line_of(&buf, 0), " =  ");
}

#[test]
fn slots_are_cut_to_what_is_left_of_the_line() {
    assert_eq!(fit_slots(&vec![3, 4, 5], 10), vec![3, 4, 3]);
    assert_eq!(fit_slots(&vec![3, 4, 5], 12), vec![3, 4, 5]);
    assert_eq!(fit_slots(&vec![3, 4, 5], 40), vec![3, 4, 5]);
    assert_eq!(fit_slots(&vec![30, 4, 5], 10), vec![10, 0, 0]);
    assert_eq!(fit_slots(&vec![0, 65535, 65535], 65535), vec![0, 65535, 0]);
    assert_eq!(fit_slots(&vec![3, 4], 0), vec![0, 0]);
    assert_eq!(fit_slots(&Vec::new(), 7), Vec::<u16>::new());
}

#[test]
fn columns_leave_room_for_the_gutter_and_the_gaps_that_were_asked_for() {
    assert_eq!(resolve_columns(&vec![0, 50, 0, 30, 0, 20], true, 2, 1, 100), vec![50, 30, 16]);
    assert_eq!(resolve_columns(&vec![2, 50, 1, 30, 1, 16], true, 2, 1, 100), vec![50, 30, 16]);
    assert_eq!(resolve_columns(&vec![50, 0, 30, 0, 20], false, 0, 1, 100), vec![50, 30, 18]);
    assert_eq!(resolve_columns(&vec![60, 60], false, 0, 3, 100), vec![60]);
    assert_eq!(resolve_columns(&vec![60, 60], true, 7, 3, 100), vec![40]);
    assert_eq!(resolve_columns(&vec![9, 9, 9], false, 0, 0, 10), vec![9, 0]);
    assert_eq!(resolve_columns(&vec![9, 0, 9], false, 0, 0, 10), vec![9, 1]);
    assert_eq!(resolve_columns(&vec![4], true, 4, 1, 10), Vec::<u16>::new());
    assert_eq!(resolve_columns(&Vec::new(), false, 0, 1, 10), Vec::<u16>::new());
}

#[test]
fn columns_stay_as_they_are_where_the_line_cannot_hold_gutter_and_gaps() {
    assert_eq!(resolve_columns(&vec![3, 2, 1, 2], true, 9, 1, 8), vec![2, 2]);
    assert_eq!(resolve_columns(&vec![1, 0, 1, 0, 1], false, 0, 40, 50), vec![1, 1, 1]);
}

#[test]
fn room_is_what_gutter_and_gaps_leave_of_the_line() {
    assert_eq!(columns_room(2, 1, 3, 100), Some(96));
    assert_eq!(columns_room(0, 1, 1, 100), Some(100));
    assert_eq!(columns_room(2, 1, 3, 4), Some(0));
    assert_eq!(columns_room(2, 1, 3, 3), None);
    assert_eq!(columns_room(2, 1, 0, 100), None);
    assert_eq!(columns_room(0, 0, usize::MAX, 0), Some(0));
    assert_eq!(columns_room(0, 65535, usize::MAX, 65535), None);
}

#[test]
fn column_widths_leave_room_for_gutter_and_gaps() {
    let sets: Vec<Vec<Constraint>> = vec![
        vec![Constraint::Percentage(50), Constraint::Percentage(30), Constraint::Percentage(20)],
        vec![Constraint::Percentage(100)],
        vec![Constraint::Percentage(10), Constraint::Percentage(10)],
        vec![Constraint::Min(40), Constraint::Min(40)],
    ];
    for set in &sets {
        for width in [5u16, 33, 100] {
            for spacing in [0u16, 1, 2] {
                let list = SelectList::new(Vec::new()).widths(set).column_spacing(spacing);
                let widths = list.get_columns_widths(width, true);
                assert_eq!(widths.len(), set.len());
                let total: u32 = widths.iter().map(|w| *w as u32).sum();
                let asked = 2 + (set.len() as u32 - 1) * spacing as u32;
                assert!(total <= width as u32);
                if asked <= width as u32 {
                    assert!(total + asked <= width as u32);
                }
            }
        }
    }
}

#[test]
fn an_empty_area_can_be_drawn_to_in_any_buffer() {
    let mut broken = Buffer::empty(Rect::new(0, 0, 4, 4));
    broken.content.pop();
    assert!(can_draw(&broken, Viewport::new(0, 0, 0, 3)));
    let before = broken.clone();
    let list = SelectList::new(rows_of_heights(&[1]));
    let mut state = SelectListState::default().with_len(1).with_index(Some(0));
    list.render(Viewport::new(70, 70, 0, 3), &mut broken, &mut state);
    assert_eq!(broken, before);
}

#[test]
fn render_draws_the_block_around_header_and_rows() {
    let mut buf = Buffer::empty(Rect::new(0, 0, 14, 5));
    for x in 0..14 {
        buf.get_mut(x, 4).set_symbol("#");
    }
    let title = " Songs ".to_string();
    assert!(melody::view::ui::can_title(&title));
    let block = melody::view::ui::ui_block(title, Style::default().fg(Color::Cyan));
    let list = SelectList::new(rows_of_heights(&[1, 1]))
        .widths(&[Constraint::Length(8)])
        .style(Style::default().bg(Color::Black))
        .block(block);
    assert_eq!(list.inner_area(Viewport::new(1, 0, 12, 4)), Viewport::new(2, 1, 10, 2));
    let mut state = SelectListState::default().with_len(2).with_index(Some(0));
    list.render(Viewport::new(1, 0, 12, 4), &mut buf, &mut state);
    assert_eq!(line_of(&buf, 0), " \u{250c} Songs \u{2500}\u{2500}\u{2500}\u{2510} ");
    assert_eq!(line_of(&buf, 1), " \u{2502}> r0      \u{2502} ");
    assert_eq!(line_of(&buf, 2), " \u{2502}          \u{2502} ");
    assert_eq!(line_of(&buf, 3), " \u{2514}\u{2500}\u{2500}\u{2500}\u{2500}\u{2500}\u{2500}\u{2500}\u{2500}\u{2500}\u{2500}\u{2518} ");
    assert_eq!(line_of(&buf, 4), "##############");
    assert_eq!(buf.get(1, 0).fg, Color::Cyan);
    assert_eq!(buf.get(1, 0).bg, Color::Black);
    assert_eq!(buf.get(12, 3).bg, Color::Black);
    assert_eq!(buf.get(0, 0).bg, Color::Reset);
    assert_eq!(buf.get(13, 2).bg, Color::Reset);
}

#[test]
fn a_block_that_leaves_no_room_is_drawn_alone() {
    let mut buf = Buffer::empty(Rect::new(0, 0, 6, 2));
    let block = melody::view::ui::ui_block("ab".to_string(), Style::default());
    let list = SelectList::new(rows_of_heights(&[1])).block(block);
    assert!(list.inner_area(Viewport::new(0, 0, 6, 2)).has_no_cell());
    list.draw(Viewport::new(0, 0, 6, 2), &mut buf, Some(0), &vec![3]);
    assert_eq!(line_of(&buf, 0), "\u{250c}ab\u{2500}\u{2500}\u{2510}");
    assert_eq!(line_of(&buf, 1), "\u{2514}\u{2500}\u{2500}\u{2500}\u{2500}\u{2518}");
}

#[test]
fn titles_fit_up_to_a_bound() {
    assert!(melody::view::ui::can_title(""));
    assert!(melody::view::ui::can_title(" Playlists (3)"));
    assert!(melody::view::ui::can_title(&"x".repeat(0x7000)));
    assert!(!melody::view::ui::can_title(&"x".repeat(0x7001)));
    assert!(!melody::view::ui::can_title(&"\u{65e5}".repeat(0x3801)));
}

#[test]
fn draw_table_draws_header_and_rows_without_the_style_of_the_list() {
    let mut buf = Buffer::empty(Rect::new(0, 0, 6, 3));
    let list = SelectList::new(rows_of_heights(&[1])).style(Style::default().bg(Color::Red));
    list.draw_table(Viewport::new(0, 0, 6, 2), &mut buf, None, &vec![4]);
    assert_eq!(line_of(&buf, 0), "r0    ");
    assert_eq!(buf.get(0, 0).bg, Color::Reset);
}
