//! The playlists as they are stored: names, and the paths of the songs.

use vstd::prelude::*;

verus! {

/// All stored playlists.
#[derive(Debug)]
pub struct RawPlaylistToml {
    pub playlists: Vec<RawPlaylist>,
}

/// One stored playlist: its name and the paths of its songs.
#[derive(Debug)]
pub struct RawPlaylist {
    pub name: String,
    pub songs: Vec<String>,
}

/// The store of the playlists.
#[derive(Debug, Clone, Copy, PartialEq, Eq, Structural)]
pub struct PlaylistStore;

impl PlaylistStore {
    /// The name of the file that holds the playlists.
    pub fn file() -> (name: &'static str)
        ensures
            name@ == "data.toml"@,
    {
        "data.toml"
    }

    /// The store without any playlist, as a new file holds it.
    pub fn empty() -> (raw: RawPlaylistToml)
        ensures
            raw.playlists@.len() == 0,
    {
        RawPlaylistToml { playlists: Vec::new() }
    }
}

} // verus!
