//! Widgets and the state that drives them.

pub mod canvas;
pub mod controllers;
pub mod layout;
pub mod ui;
pub mod widgets;
