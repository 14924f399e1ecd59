//! The widgets and their state.

pub mod input;
pub mod list;
pub mod state;
