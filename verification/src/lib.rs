//! The logic of a music player for the terminal: lists with a cursor and
//! multiple selection, the window of rows that follows the cursor, the
//! layout of columns, the renderer that composes them, and what the tabs of
//! the player decide when a key is pressed or a song ends.

pub mod app;
pub mod clock;
pub mod component;
pub mod data;
pub mod event;
pub mod handlers;
pub mod loaders;
pub mod utils;
pub mod tabs;
pub mod view;
