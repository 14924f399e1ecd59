use melody::app::{is_next_tab, next_tab, tab_kind, tab_title, TabKind};
use melody::component::FinishableComp;
use melody::event::{is_quit, next_focus, AppEvent, KeyCode, KeyEvent};
use melody::tabs::log::LogTab;

fn key(code: KeyCode) -> KeyEvent {
    KeyEvent { code, control: false, press: true }
}

fn control(code: KeyCode) -> KeyEvent {
    KeyEvent { code, control: true, press: true }
}

#[test]
fn quit_is_q_or_control_c() {
    assert!(is_quit(&key(KeyCode::Char('q'))));
    assert!(is_quit(&control(KeyCode::Char('q'))));
    assert!(is_quit(&control(KeyCode::Char('c'))));
    assert!(!is_quit(&key(KeyCode::Char('c'))));
    assert!(!is_quit(&key(KeyCode::Enter)));
    assert!(is_quit(&KeyEvent { code: KeyCode::Char('q'), control: false, press: false }));
}

#[test]
fn control_with_a_digit_moves_the_focus() {
    assert_eq!(next_focus(2, &control(KeyCode::Char('1'))), 0);
    assert_eq!(next_focus(0, &control(KeyCode::Char('2'))), 1);
    assert_eq!(next_focus(0, &control(KeyCode::Char('3'))), 2);
    assert_eq!(next_focus(1, &control(KeyCode::Char('4'))), 1);
    assert_eq!(next_focus(1, &key(KeyCode::Char('1'))), 1);
    assert_eq!(next_focus(1, &control(KeyCode::Enter)), 1);
    assert_eq!(
        next_focus(1, &KeyEvent { code: KeyCode::Char('3'), control: true, press: false }),
        2
    );
}

#[test]
fn tab_key_walks_through_the_tabs() {
    assert_eq!(next_tab(0, 3), 1);
    assert_eq!(next_tab(1, 3), 2);
    assert_eq!(next_tab(2, 3), 0);
    assert_eq!(next_tab(7, 3), 0);
    assert_eq!(next_tab(0, 0), 0);
    assert_eq!(next_tab(usize::MAX, usize::MAX), 0);
    assert!(is_next_tab(&AppEvent::Key(key(KeyCode::Tab))));
    assert!(!is_next_tab(&AppEvent::Key(KeyEvent { code: KeyCode::Tab, control: false, press: false })));
    assert!(!is_next_tab(&AppEvent::Key(key(KeyCode::Enter))));
    assert!(!is_next_tab(&AppEvent::Quit));
}

#[test]
fn tabs_have_their_places_and_titles() {
    assert_eq!(tab_kind(0), Some(TabKind::Player));
    assert_eq!(tab_kind(1), Some(TabKind::Manager));
    assert_eq!(tab_kind(2), Some(TabKind::Log));
    assert_eq!(tab_kind(3), None);
    assert_eq!(tab_title(TabKind::Player), " Player ");
    assert_eq!(tab_title(TabKind::Manager), " Manager ");
    assert_eq!(tab_title(TabKind::Log), " Log ");
}

#[test]
fn log_tab_finishes_without_error() {
    let mut tab = LogTab::build();
    assert_eq!(tab.finish(), Ok(()));
}
