use melody::view::widgets::state::input::InputState;

#[test]
fn input_starts_with_its_text_and_cursor() {
    let state = InputState::new("abc".to_string(), 2);
    assert_eq!(state.text(), "abc");
    assert_eq!(state.index(), 2);
    assert_eq!(state.byte_len(), 3);
    let state = InputState::default();
    assert_eq!(state.text(), "");
    assert_eq!(state.index(), 0);
}

#[test]
fn input_cursor_moves_within_the_text() {
    let mut state = InputState::new("ab".to_string(), 0);
    state.back_index();
    assert_eq!(state.index(), 0);
    state.next_index();
    assert_eq!(state.index(), 1);
    state.next_index();
    assert_eq!(state.index(), 2);
    state.next_index();
    assert_eq!(state.index(), 2);
    state.back_index();
    assert_eq!(state.index(), 1);
}

#[test]
fn input_cursor_behind_the_text_does_not_move_right() {
    let mut state = InputState::new("ab".to_string(), 7);
    state.next_index();
    assert_eq!(state.index(), 7);
    state.back_index();
    assert_eq!(state.index(), 6);
}

#[test]
fn input_insert_puts_text_at_the_cursor() {
    let mut state = InputState::new("held".to_string(), 3);
    state.insert("lo wor");
    assert_eq!(state.text(), "hello word");
    assert_eq!(state.index(), 3);
    let mut state = InputState::default();
    state.insert("x");
    state.next_index();
    state.insert("y");
    state.next_index();
    assert_eq!(state.text(), "xy");
    assert_eq!(state.index(), 2);
}

#[test]
fn input_remove_takes_the_character_before_the_cursor() {
    let mut state = InputState::new("abc".to_string(), 2);
    state.remove_ch();
    assert_eq!(state.text(), "ac");
    assert_eq!(state.index(), 2);
    state.back_index();
    state.remove_ch();
    assert_eq!(state.text(), "c");
    state.back_index();
    state.remove_ch();
    assert_eq!(state.text(), "c");
    assert_eq!(state.index(), 0);
}

#[test]
fn input_remove_takes_a_whole_character_of_several_bytes() {
    let mut state = InputState::new("a\u{e9}b".to_string(), 2);
    assert!(state.can_remove());
    state.remove_ch();
    assert_eq!(state.text(), "ab");
}

#[test]
fn input_knows_where_text_can_go_in_and_out() {
    let state = InputState::new("a\u{e9}b".to_string(), 2);
    assert!(!state.can_insert());
    assert!(state.can_remove());
    let state = InputState::new("a\u{e9}b".to_string(), 3);
    assert!(state.can_insert());
    assert!(!state.can_remove());
    let state = InputState::new("ab".to_string(), 2);
    assert!(state.can_insert());
    assert!(state.can_remove());
    let state = InputState::new("ab".to_string(), 3);
    assert!(!state.can_insert());
    assert!(!state.can_remove());
    let state = InputState::new("ab".to_string(), 0);
    assert!(state.can_insert());
    assert!(!state.can_remove());
}

#[test]
fn input_try_insert_and_try_remove_leave_the_text_where_they_cannot_act() {
    let mut state = InputState::new("a\u{e9}b".to_string(), 2);
    assert!(!state.try_insert("x"));
    assert_eq!(state.text(), "a\u{e9}b");
    let mut state = InputState::new("a\u{e9}b".to_string(), 3);
    assert!(!state.try_remove_ch());
    assert_eq!(state.text(), "a\u{e9}b");
    assert!(state.try_insert("x"));
    assert_eq!(state.text(), "a\u{e9}xb");
    let mut state = InputState::new("a\u{e9}b".to_string(), 4);
    assert!(state.try_remove_ch());
    assert_eq!(state.text(), "a\u{e9}");
}
