//! The tab that plays: the playlists, the songs of one of them, and the
//! sound.

pub mod state;
