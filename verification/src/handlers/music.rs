//! Songs and playlists: which files count as songs, which playlists are kept
//! after loading, and what of them is stored.

use std::time::Duration;
use vstd::prelude::*;
use vstd::string::*;
use crate::data::playlists::{RawPlaylist, RawPlaylistToml};
use crate::clock::whole_seconds;
use crate::utils::{format_time, time_text};

verus! {

/// One song: its title from the tags, the name and the path of its file,
/// how long it lasts, and that length as a clock reading.
#[derive(Debug)]
pub struct PlaylistSong {
    pub title: Option<String>,
    pub file_name: Option<String>,
    pub path: String,
    pub duration: Duration,
    pub duration_format: String,
}

impl Clone for PlaylistSong {
    fn clone(&self) -> (copy: PlaylistSong)
        ensures
            copy == *self,
    {
        PlaylistSong {
            title: match &self.title {
                Some(title) => Some(title.clone()),
                None => None,
            },
            file_name: match &self.file_name {
                Some(name) => Some(name.clone()),
                None => None,
            },
            path: self.path.clone(),
            duration: self.duration,
            duration_format: self.duration_format.clone(),
        }
    }
}

/// The name under which a song is listed: the name of its file, or four
/// dashes where it has none.
pub open spec fn listed_name(song: PlaylistSong) -> Seq<char> {
    match song.file_name {
        Some(name) => name@,
        None => "----"@,
    }
}

impl PlaylistSong {
    /// The name under which the song is listed.
    pub fn display_name(&self) -> (name: String)
        ensures
            name@ == listed_name(*self),
    {
        match &self.file_name {
            Some(name) => name.clone(),
            None => String::from_str("----"),
        }
    }
}

/// The names under which songs are listed, in their order.
pub fn display_names(songs: &Vec<PlaylistSong>) -> (names: Vec<String>)
    ensures
        names@.len() == songs@.len(),
        forall|i: int| 0 <= i < songs@.len() ==> (#[trigger] names@[i])@ == listed_name(songs@[i]),
{
    let mut names: Vec<String> = Vec::new();
    let mut i: usize = 0;
    while i < songs.len()
        invariant
            i <= songs.len(),
            names@.len() == i,
            forall|k: int| 0 <= k < i ==> (#[trigger] names@[k])@ == listed_name(songs@[k]),
        decreases songs.len() - i,
    {
        names.push(songs[i].display_name());
        i += 1;
    }
    names
}

/// A title with a number in round brackets behind it.
pub open spec fn counted_title(title: Seq<char>, count: nat) -> Seq<char> {
    title + seq!['('] + crate::utils::decimal(count) + seq![')']
}

/// Writes a title with a number in round brackets behind it.
pub fn title_with_count(title: &str, count: usize) -> (text: String)
    ensures
        text@ == counted_title(title@, count as nat),
{
    let mut text = String::from_str(title);
    crate::utils::push_char(&mut text, '(');
    crate::utils::push_decimal(&mut text, count as u64);
    crate::utils::push_char(&mut text, ')');
    assert(text@ =~= counted_title(title@, count as nat));
    text
}

/// One playlist: its name and its songs.
#[derive(Debug)]
pub struct PlaylistInfo {
    pub name: String,
    pub songs: Vec<PlaylistSong>,
}

impl Clone for PlaylistInfo {
    fn clone(&self) -> (copy: PlaylistInfo)
        ensures
            copy.name == self.name,
            copy.songs@ == self.songs@,
    {
        PlaylistInfo { name: self.name.clone(), songs: copy_songs(&self.songs) }
    }
}

/// A copy of a list of songs.
pub fn copy_songs(songs: &Vec<PlaylistSong>) -> (copy: Vec<PlaylistSong>)
    ensures
        copy@ == songs@,
{
    let mut copy: Vec<PlaylistSong> = Vec::new();
    let mut i: usize = 0;
    while i < songs.len()
        invariant
            i <= songs.len(),
            copy@ == songs@.take(i as int),
        decreases songs.len() - i,
    {
        copy.push(songs[i].clone());
        assert(copy@ =~= songs@.take(i + 1));
        i += 1;
    }
    assert(copy@ =~= songs@);
    copy
}

/// What was read for one stored playlist: its name and, for each stored
/// path in order, the song, or none where the file could not be read.
#[derive(Debug)]
pub struct ReadPlaylist {
    pub name: String,
    pub songs: Vec<Option<PlaylistSong>>,
}

/// The values that are present, in their order.
pub open spec fn present<T>(found: Seq<Option<T>>) -> Seq<T>
    decreases found.len(),
{
    if found.len() == 0 {
        Seq::empty()
    } else {
        let rest = present(found.drop_last());
        match found.last() {
            Some(value) => rest.push(value),
            None => rest,
        }
    }
}

/// The playlists that are kept of those that were read: those of which at
/// least one song could be read.
pub open spec fn kept(read: Seq<ReadPlaylist>) -> Seq<ReadPlaylist>
    decreases read.len(),
{
    if read.len() == 0 {
        Seq::empty()
    } else {
        let rest = kept(read.drop_last());
        if present(read.last().songs@).len() > 0 {
            rest.push(read.last())
        } else {
            rest
        }
    }
}

/// Whether a playlist has the name of what was read and the songs of it
/// that could be read.
pub open spec fn loaded_from(info: PlaylistInfo, read: ReadPlaylist) -> bool {
    info.name@ == read.name@ && info.songs@ == present(read.songs@)
}

/// Whether a stored playlist has the name of a playlist and the paths of its
/// songs.
pub open spec fn stored_from(raw: RawPlaylist, info: PlaylistInfo) -> bool {
    &&& raw.name@ == info.name@
    &&& raw.songs@.len() == info.songs@.len()
    &&& forall|i: int| 0 <= i < info.songs@.len() ==> (#[trigger] raw.songs@[i])@ == info.songs@[i].path@
}

/// Whether a file counts as a song: a file it is, and `mp3` its extension.
pub open spec fn is_song_file(is_file: bool, extension: Option<Seq<char>>) -> bool {
    is_file && extension == Some("mp3"@)
}

/// Loading and storing of songs and playlists.
#[derive(Debug, Clone, Copy, PartialEq, Eq, Structural)]
pub struct MusicHandler;

impl MusicHandler {
    /// The playlists that are kept after loading: each with the songs that
    /// could be read, and none without a song.
    pub fn load_playlists(read: &Vec<ReadPlaylist>) -> (playlists: Vec<PlaylistInfo>)
        ensures
            playlists@.len() == kept(read@).len(),
            forall|i: int|
                0 <= i < playlists@.len() ==> loaded_from(
                    #[trigger] playlists@[i],
                    kept(read@)[i],
                ),
    {
        let mut playlists: Vec<PlaylistInfo> = Vec::new();
        let mut k: usize = 0;
        while k < read.len()
            invariant
                k <= read.len(),
                playlists@.len() == kept(read@.take(k as int)).len(),
                forall|i: int|
                    0 <= i < playlists@.len() ==> loaded_from(
                        #[trigger] playlists@[i],
                        kept(read@.take(k as int))[i],
                    ),
            decreases read.len() - k,
        {
            let songs = Self::load_songs(&read[k].songs);
            proof {
                assert(read@.take(k + 1).drop_last() =~= read@.take(k as int));
            }
            if !songs.is_empty() {
                playlists.push(PlaylistInfo { name: read[k].name.clone(), songs });
            }
            k += 1;
        }
        proof {
            assert(read@.take(read.len() as int) =~= read@);
        }
        playlists
    }

    /// What is stored of the playlists: their names and the paths of their
    /// songs.
    pub fn save_playlists(playlists: &[PlaylistInfo]) -> (raw: RawPlaylistToml)
        ensures
            raw.playlists@.len() == playlists@.len(),
            forall|i: int|
                0 <= i < playlists@.len() ==> stored_from(
                    #[trigger] raw.playlists@[i],
                    playlists@[i],
                ),
    {
        let mut data_vec: Vec<RawPlaylist> = Vec::new();
        let mut k: usize = 0;
        while k < playlists.len()
            invariant
                k <= playlists.len(),
                data_vec@.len() == k,
                forall|i: int| 0 <= i < k ==> stored_from(#[trigger] data_vec@[i], playlists@[i]),
            decreases playlists.len() - k,
        {
            let playlist = &playlists[k];
            let mut songs: Vec<String> = Vec::new();
            let mut j: usize = 0;
            while j < playlist.songs.len()
                invariant
                    j <= playlist.songs@.len(),
                    songs@.len() == j,
                    forall|i: int| 0 <= i < j ==> (#[trigger] songs@[i])@ == playlist.songs@[i].path@,
                decreases playlist.songs.len() - j,
            {
                songs.push(playlist.songs[j].path.clone());
                j += 1;
            }
            data_vec.push(RawPlaylist { name: playlist.name.clone(), songs });
            k += 1;
        }
        RawPlaylistToml { playlists: data_vec }
    }

    /// Decides whether a file counts as a song.
    pub fn accepts(is_file: bool, extension: Option<&str>) -> (ok: bool)
        ensures
            ok == is_song_file(
                is_file,
                match extension {
                    Some(ext) => Some(ext@),
                    None => None,
                },
            ),
    {
        match extension {
            Some(ext) => {
                let wanted = String::from_str("mp3");
                let given = String::from_str(ext);
                is_file && given == wanted
            },
            None => false,
        }
    }

    /// The songs that could be read, in the order in which they were found.
    pub fn load_songs(found: &Vec<Option<PlaylistSong>>) -> (songs: Vec<PlaylistSong>)
        ensures
            songs@ == present(found@),
    {
        let mut songs: Vec<PlaylistSong> = Vec::new();
        let mut k: usize = 0;
        while k < found.len()
            invariant
                k <= found.len(),
                songs@ == present(found@.take(k as int)),
            decreases found.len() - k,
        {
            proof {
                assert(found@.take(k + 1).drop_last() =~= found@.take(k as int));
            }
            match &found[k] {
                Some(song) => {
                    songs.push(song.clone());
                },
                None => {},
            }
            k += 1;
        }
        proof {
            assert(found@.take(found.len() as int) =~= found@);
        }
        songs
    }

    /// The song of a file: what was read of it, and its length as a clock
    /// reading.
    pub fn get_audio_data(
        title: Option<String>,
        file_name: Option<String>,
        path: String,
        duration: Duration,
    ) -> (song: PlaylistSong)
        ensures
            song.title == title,
            song.file_name == file_name,
            song.path == path,
            song.duration == duration,
            song.duration_format@ == time_text(whole_seconds(duration)),
    {
        let duration_format = format_time(duration.as_secs());
        PlaylistSong { title, file_name, path, duration, duration_format }
    }
}

} // verus!
