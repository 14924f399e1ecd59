//! What is kept on disk, as the player holds it in memory.

pub mod config;
pub mod playlists;
