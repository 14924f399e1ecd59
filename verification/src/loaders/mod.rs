//! Loading of what the player shows.

pub mod player;
