//! All stored playlists as the player shows them, whether or not any of
//! their songs could be read.

use vstd::prelude::*;
use crate::handlers::music::{MusicHandler, PlaylistInfo, ReadPlaylist, loaded_from};

verus! {

/// The playlists of the player.
#[derive(Debug)]
pub struct PlaylistsData {
    pub playlists: Vec<PlaylistInfo>,
}

impl PlaylistsData {
    /// One playlist for each that was read, in their order, each with the
    /// songs that could be read.
    pub fn from_read(read: &Vec<ReadPlaylist>) -> (data: PlaylistsData)
        ensures
            data.playlists@.len() == read@.len(),
            forall|i: int|
                0 <= i < read@.len() ==> loaded_from(#[trigger] data.playlists@[i], read@[i]),
    {
        let mut playlists: Vec<PlaylistInfo> = Vec::new();
        let mut k: usize = 0;
        while k < read.len()
            invariant
                k <= read.len(),
                playlists@.len() == k,
                forall|i: int| 0 <= i < k ==> loaded_from(#[trigger] playlists@[i], read@[i]),
            decreases read.len() - k,
        {
            let songs = MusicHandler::load_songs(&read[k].songs);
            playlists.push(PlaylistInfo { name: read[k].name.clone(), songs });
            k += 1;
        }
        PlaylistsData { playlists }
    }
}

} // verus!
