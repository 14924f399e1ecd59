//! The tab that manages playlists: a field to name a new playlist, the list
//! of playlists, and the list of songs with those of the playlist marked.

pub mod state;
