//! The tabs of the application and how the tab key walks through them.

use vstd::prelude::*;
use crate::event::{AppEvent, KeyCode};

verus! {

/// The tabs, in the order in which they stand.
#[derive(Debug, Clone, Copy, PartialEq, Eq, Structural)]
pub enum TabKind {
    Player,
    Manager,
    Log,
}

/// The place of the tab behind the tab at `index` among `len` tabs; behind
/// the last one stands the first.
pub open spec fn tab_after(index: usize, len: usize) -> usize {
    if index + 1 >= len {
        0
    } else {
        (index + 1) as usize
    }
}

/// Whether an event asks for the next tab: the tab key going down.
pub open spec fn asks_for_next_tab(event: AppEvent) -> bool {
    match event {
        AppEvent::Key(key) => key.press && key.code == KeyCode::Tab,
        AppEvent::Quit => false,
    }
}

/// Computes [`tab_after`].
pub fn next_tab(index: usize, len: usize) -> (next: usize)
    ensures
        next == tab_after(index, len),
        len > 0 ==> next < len,
{
    if index >= len || index + 1 >= len {
        0
    } else {
        index + 1
    }
}

/// Decides [`asks_for_next_tab`].
pub fn is_next_tab(event: &AppEvent) -> (asks: bool)
    ensures
        asks == asks_for_next_tab(*event),
{
    match event {
        AppEvent::Key(key) => key.press && match key.code {
            KeyCode::Tab => true,
            _ => false,
        },
        AppEvent::Quit => false,
    }
}

/// The tab that stands at a place, if one does.
pub fn tab_kind(index: usize) -> (kind: Option<TabKind>)
    ensures
        kind == if index == 0 {
            Some(TabKind::Player)
        } else if index == 1 {
            Some(TabKind::Manager)
        } else if index == 2 {
            Some(TabKind::Log)
        } else {
            None
        },
{
    if index == 0 {
        Some(TabKind::Player)
    } else if index == 1 {
        Some(TabKind::Manager)
    } else if index == 2 {
        Some(TabKind::Log)
    } else {
        None
    }
}

/// The title of a tab, as the tab bar shows it.
pub fn tab_title(kind: TabKind) -> (title: &'static str)
    ensures
        title@ == match kind {
            TabKind::Player => " Player "@,
            TabKind::Manager => " Manager "@,
            TabKind::Log => " Log "@,
        },
{
    match kind {
        TabKind::Player => " Player ",
        TabKind::Manager => " Manager ",
        TabKind::Log => " Log ",
    }
}

} // verus!
