//! The state of the playlist manager and what each key does to it.

use vstd::prelude::*;
use vstd::string::*;
use crate::event::{AppEvent, KeyCode, KeyEvent, focus_after, next_focus};
use crate::handlers::music::{PlaylistInfo, PlaylistSong, counted_title, title_with_count};
use crate::tabs::log::{LogMessage, LogType, is_line_of, kind_name};
use crate::utils::{decimal, push_decimal, push_char};
use crate::view::controllers::list::ListController;
use crate::view::controllers::{step_forward, step_backward};
use crate::view::widgets::state::input::{InputState, text_with, text_without};
use crate::view::widgets::state::input::{on_boundary, starts_char_before};
use crate::view::widgets::state::{SelectListState, toggled, selection_step_backward};

verus! {

/// A playlist as its name and its songs.
#[verifier::ext_equal]
pub struct PlaylistView {
    pub name: Seq<char>,
    pub songs: Seq<PlaylistSong>,
}

/// The state of the manager as plain values.
#[verifier::ext_equal]
pub struct ManagerView {
    /// The songs of the music directory.
    pub songs: Seq<PlaylistSong>,
    /// The playlists.
    pub playlists: Seq<PlaylistView>,
    /// The playlist under the cursor.
    pub playlist_cursor: Option<usize>,
    /// The scroll offset that the list of playlists keeps between frames.
    pub playlist_offset: usize,
    /// The number of rows of the list of songs.
    pub song_count: usize,
    /// The song under the cursor.
    pub song_cursor: Option<usize>,
    /// The songs that are marked.
    pub chosen: Set<usize>,
    /// The text of the input field.
    pub input: Seq<char>,
    /// The byte position of the cursor in the input field.
    pub input_cursor: usize,
    /// The section that has the focus: the input field, the playlists or
    /// the songs.
    pub focus: u8,
}

/// The playlists as names and songs.
pub open spec fn playlists_view(playlists: Seq<PlaylistInfo>) -> Seq<PlaylistView> {
    Seq::new(
        playlists.len(),
        |i: int| PlaylistView { name: playlists[i].name@, songs: playlists[i].songs@ },
    )
}

/// Whether a playlist holds a song with the path of `song`.
pub open spec fn in_playlist(song: PlaylistSong, playlist: Seq<PlaylistSong>) -> bool {
    exists|j: int| 0 <= j < playlist.len() && (#[trigger] playlist[j]).path@ == song.path@
}

/// The indices of the songs that a playlist holds.
pub open spec fn members(songs: Seq<PlaylistSong>, playlist: Seq<PlaylistSong>) -> Set<usize> {
    Set::new(|i: usize| i < songs.len() && in_playlist(songs[i as int], playlist))
}

/// The songs whose indices are marked, in their order.
pub open spec fn picked(songs: Seq<PlaylistSong>, chosen: Set<usize>) -> Seq<PlaylistSong>
    decreases songs.len(),
{
    if songs.len() == 0 {
        Seq::empty()
    } else {
        let rest = picked(songs.drop_last(), chosen);
        if chosen.contains((songs.len() - 1) as usize) {
            rest.push(songs.last())
        } else {
            rest
        }
    }
}

/// Whether a playlist of that name exists.
pub open spec fn has_name(playlists: Seq<PlaylistView>, name: Seq<char>) -> bool {
    exists|j: int| 0 <= j < playlists.len() && (#[trigger] playlists[j]).name == name
}

/// The text of the message about a playlist that was removed.
pub open spec fn removed_text(name: Seq<char>, songs: nat) -> Seq<char> {
    "The playlist '"@ + name + "', with '"@ + decimal(songs) + "' songs, was removed."@
}

/// The text of the message about a playlist that was created.
pub open spec fn created_text(name: Seq<char>) -> Seq<char> {
    "The playlist '"@ + name + "' was created."@
}

/// The text of the message about a playlist that exists already.
pub open spec fn exists_text(name: Seq<char>) -> Seq<char> {
    "The playlist '"@ + name + "' already exists!."@
}

impl ManagerView {
    /// The playlist under the cursor, if the cursor is on one.
    pub open spec fn current(self) -> Option<PlaylistView> {
        match self.playlist_cursor {
            Some(i) => if i < self.playlists.len() {
                Some(self.playlists[i as int])
            } else {
                None
            },
            None => None,
        }
    }

    /// The state after the list of songs was made anew: the songs of the
    /// playlist under the cursor are marked, and the cursor is on the first
    /// song.
    pub open spec fn with_fresh_selection(self) -> ManagerView {
        ManagerView {
            song_count: self.songs.len() as usize,
            song_cursor: if self.songs.len() == 0 {
                None
            } else {
                Some(0usize)
            },
            chosen: match self.current() {
                Some(playlist) => members(self.songs, playlist.songs),
                None => Set::empty(),
            },
            ..self
        }
    }

    /// The state after the playlist under the cursor got the marked songs
    /// as its songs.
    pub open spec fn with_saved_selection(self) -> ManagerView {
        match self.playlist_cursor {
            Some(i) => if i < self.playlists.len() {
                ManagerView {
                    playlists: self.playlists.update(
                        i as int,
                        PlaylistView {
                            name: self.playlists[i as int].name,
                            songs: picked(self.songs, self.chosen),
                        },
                    ),
                    ..self
                }
            } else {
                self
            },
            None => self,
        }
    }

    /// The state after the playlist under the cursor was removed: the cursor
    /// stays on its place, or goes to the last playlist, or to none, and the
    /// list of songs is made anew.
    pub open spec fn without_current(self) -> ManagerView {
        match self.playlist_cursor {
            Some(i) => if i < self.playlists.len() {
                let rest = self.playlists.remove(i as int);
                (ManagerView {
                    playlists: rest,
                    playlist_cursor: if rest.len() == 0 {
                        None
                    } else if i >= rest.len() {
                        Some((rest.len() - 1) as usize)
                    } else {
                        Some(i)
                    },
                    playlist_offset: if rest.len() == 0 {
                        0
                    } else {
                        self.playlist_offset
                    },
                    ..self
                }).with_fresh_selection()
            } else {
                self
            },
            None => self,
        }
    }

    /// The state after a playlist with the text of the input field as its
    /// name was asked for: where no playlist has that name, it is added
    /// without songs and the input field is emptied; the first playlist
    /// there is gets the cursor.
    pub open spec fn with_created(self) -> ManagerView {
        if has_name(self.playlists, self.input) {
            self
        } else {
            ManagerView {
                playlists: self.playlists.push(
                    PlaylistView { name: self.input, songs: Seq::empty() },
                ),
                playlist_cursor: if self.playlists.len() == 0 {
                    Some(0usize)
                } else {
                    self.playlist_cursor
                },
                input: Seq::empty(),
                input_cursor: 0,
                ..self
            }
        }
    }

    /// The state after the cursor of the playlists moved: the marks go to
    /// the playlist that the cursor leaves, and the list of songs is made
    /// anew for the one that it reaches.
    pub open spec fn with_playlist_moved(self, forward: bool) -> ManagerView {
        let saved = self.with_saved_selection();
        let count = saved.playlists.len() as usize;
        (ManagerView {
            playlist_cursor: if forward {
                step_forward(saved.playlist_cursor, count)
            } else {
                step_backward(saved.playlist_cursor, count)
            },
            playlist_offset: if count == 0 {
                0
            } else {
                saved.playlist_offset
            },
            ..saved
        }).with_fresh_selection()
    }

    /// The state after a key went to the list of playlists.
    pub open spec fn after_playlists_key(self, key: KeyEvent) -> ManagerView {
        if !key.press {
            self
        } else {
            match key.code {
                KeyCode::Down => self.with_playlist_moved(true),
                KeyCode::Up => self.with_playlist_moved(false),
                KeyCode::Char(c) => if c == 'd' {
                    self.without_current()
                } else {
                    self
                },
                _ => self,
            }
        }
    }

    /// The state after the cursor of the input field moved one byte to the
    /// right, as far as the text goes.
    pub open spec fn with_input_right(self) -> ManagerView {
        ManagerView {
            input_cursor: if self.input_cursor < vstd::utf8::encode_utf8(self.input).len() {
                (self.input_cursor + 1) as usize
            } else {
                self.input_cursor
            },
            ..self
        }
    }

    /// The state after the cursor of the input field moved one byte to the
    /// left, as far as the text goes.
    pub open spec fn with_input_left(self) -> ManagerView {
        ManagerView {
            input_cursor: if self.input_cursor > 0 {
                (self.input_cursor - 1) as usize
            } else {
                0usize
            },
            ..self
        }
    }

    /// The state after a character was typed: it goes in at the cursor where
    /// the cursor stands on the boundary of a character, and the cursor
    /// moves one byte to the right.
    pub open spec fn with_typed(self, c: char) -> ManagerView {
        (ManagerView {
            input: if on_boundary(self.input, self.input_cursor as int) {
                text_with(self.input, self.input_cursor as int, seq![c])
            } else {
                self.input
            },
            ..self
        }).with_input_right()
    }

    /// The state after the character in front of the cursor was deleted: it
    /// goes where it starts one byte in front of the cursor, and the cursor
    /// moves one byte to the left.
    pub open spec fn with_deleted(self) -> ManagerView {
        (ManagerView {
            input: if starts_char_before(self.input, self.input_cursor as int) {
                text_without(self.input, self.input_cursor - 1)
            } else {
                self.input
            },
            ..self
        }).with_input_left()
    }

    /// The state after a key went to the input field.
    pub open spec fn after_input_key(self, key: KeyEvent) -> ManagerView {
        if !key.press {
            self
        } else {
            match key.code {
                KeyCode::Right => self.with_input_right(),
                KeyCode::Left => self.with_input_left(),
                KeyCode::Char(c) => if key.control && c == '1' {
                    self
                } else {
                    self.with_typed(c)
                },
                KeyCode::Delete => self.with_deleted(),
                KeyCode::Backspace => self.with_deleted(),
                KeyCode::Enter => self.with_created(),
                _ => self,
            }
        }
    }

    /// The state after a key went to the list of songs.
    pub open spec fn after_songs_key(self, key: KeyEvent) -> ManagerView {
        if !key.press {
            self
        } else {
            match key.code {
                KeyCode::Down => ManagerView {
                    song_cursor: step_forward(self.song_cursor, self.song_count),
                    ..self
                },
                KeyCode::Up => ManagerView {
                    song_cursor: selection_step_backward(self.song_cursor, self.song_count),
                    ..self
                },
                KeyCode::Enter => ManagerView {
                    chosen: toggled(self.chosen, self.song_cursor),
                    ..self
                },
                _ => self,
            }
        }
    }

    /// The state after an event: a key with control may move the focus, and
    /// then the key goes to the section that has the focus.
    pub open spec fn after_event(self, event: AppEvent) -> ManagerView {
        match event {
            AppEvent::Key(key) => {
                let focused = ManagerView { focus: focus_after(self.focus, key), ..self };
                if focused.focus == 0 {
                    focused.after_input_key(key)
                } else if focused.focus == 1 {
                    focused.after_playlists_key(key)
                } else if focused.focus == 2 {
                    focused.after_songs_key(key)
                } else {
                    focused
                }
            },
            AppEvent::Quit => self,
        }
    }
}

/// The message that an event leaves in the log, as its kind and its text.
pub open spec fn message_of(before: ManagerView, event: AppEvent) -> Option<(LogType, Seq<char>)> {
    match event {
        AppEvent::Key(key) => {
            let focus = focus_after(before.focus, key);
            if !key.press {
                None
            } else if focus == 0 && key.code == KeyCode::Enter {
                Some(before.created_message())
            } else if focus == 1 && key.code == KeyCode::Char('d') {
                before.removed_message()
            } else {
                None
            }
        },
        AppEvent::Quit => None,
    }
}

impl ManagerView {
    /// The message about the playlist that is asked for: that it was
    /// created, or that it exists already.
    pub open spec fn created_message(self) -> (LogType, Seq<char>) {
        if has_name(self.playlists, self.input) {
            (LogType::Warn, exists_text(self.input))
        } else {
            (LogType::Info, created_text(self.input))
        }
    }

    /// The message about the playlist under the cursor that is removed.
    pub open spec fn removed_message(self) -> Option<(LogType, Seq<char>)> {
        match self.current() {
            Some(playlist) => Some(
                (LogType::Warn, removed_text(playlist.name, playlist.songs.len())),
            ),
            None => None,
        }
    }
}

/// Whether a message of the log is what was announced: none for none, and
/// else a message of that kind and text, written at some time.
pub open spec fn announces(log: Option<LogMessage>, wanted: Option<(LogType, Seq<char>)>) -> bool {
    match wanted {
        None => log.is_none(),
        Some(w) => log.is_some() && log.unwrap().kind_of() == w.0 && is_line_of(
            log.unwrap().line_of(),
            kind_name(w.0),
            w.1,
        ),
    }
}

/// Decides whether a playlist holds a song with the given path.
pub fn holds_path(playlist: &Vec<PlaylistSong>, song: &PlaylistSong) -> (found: bool)
    ensures
        found == in_playlist(*song, playlist@),
{
    let mut j: usize = 0;
    while j < playlist.len()
        invariant
            j <= playlist.len(),
            forall|k: int| 0 <= k < j ==> (#[trigger] playlist@[k]).path@ != song.path@,
        decreases playlist.len() - j,
    {
        if playlist[j].path == song.path {
            return true;
        }
        j += 1;
    }
    false
}

/// The indices of the songs that a playlist holds, in rising order.
pub fn member_indices(songs: &Vec<PlaylistSong>, playlist: &Vec<PlaylistSong>) -> (indices: Vec<
    usize,
>)
    ensures
        indices@.to_set() == members(songs@, playlist@),
{
    let mut indices: Vec<usize> = Vec::new();
    let mut i: usize = 0;
    while i < songs.len()
        invariant
            i <= songs.len(),
            forall|k: int| 0 <= k < indices@.len() ==> (#[trigger] indices@[k]) < i,
            forall|k: int|
                0 <= k < indices@.len() ==> in_playlist(
                    songs@[(#[trigger] indices@[k]) as int],
                    playlist@,
                ),
            forall|s: usize|
                s < i && in_playlist(songs@[s as int], playlist@) ==> indices@.contains(s),
        decreases songs.len() - i,
    {
        if holds_path(playlist, &songs[i]) {
            let ghost before = indices@;
            indices.push(i);
            proof {
                assert forall|s: usize|
                    s < i + 1 && in_playlist(songs@[s as int], playlist@) implies indices@.contains(
                    s,
                ) by {
                    if s < i {
                        assert(before.contains(s));
                        let k = choose|k: int| 0 <= k < before.len() && before[k] == s;
                        assert(indices@[k] == s);
                    } else {
                        assert(indices@[before.len() as int] == s);
                    }
                }
            }
        }
        i += 1;
    }
    proof {
        assert(indices@.to_set() =~= members(songs@, playlist@)) by {
            assert forall|s: usize| indices@.to_set().contains(s) implies members(
                songs@,
                playlist@,
            ).contains(s) by {
                let k = choose|k: int| 0 <= k < indices@.len() && indices@[k] == s;
                assert(indices@[k] < i);
            }
        }
    }
    indices
}

/// The songs whose indices are marked, in their order.
pub fn pick_songs(songs: &Vec<PlaylistSong>, marks: &SelectListState) -> (chosen: Vec<PlaylistSong>)
    ensures
        chosen@ == picked(songs@, marks.chosen()),
{
    let mut chosen: Vec<PlaylistSong> = Vec::new();
    let mut i: usize = 0;
    while i < songs.len()
        invariant
            i <= songs.len(),
            chosen@ == picked(songs@.take(i as int), marks.chosen()),
        decreases songs.len() - i,
    {
        proof {
            assert(songs@.take(i + 1).drop_last() =~= songs@.take(i as int));
        }
        if marks.is_selected(i) {
            chosen.push(songs[i].clone());
        }
        i += 1;
    }
    proof {
        assert(songs@.take(songs.len() as int) =~= songs@);
    }
    chosen
}

/// Decides whether a playlist of that name exists.
pub fn name_taken(playlists: &Vec<PlaylistInfo>, name: &String) -> (taken: bool)
    ensures
        taken == has_name(playlists_view(playlists@), name@),
{
    let mut j: usize = 0;
    while j < playlists.len()
        invariant
            j <= playlists.len(),
            forall|k: int| 0 <= k < j ==> (#[trigger] playlists_view(playlists@)[k]).name != name@,
        decreases playlists.len() - j,
    {
        if playlists[j].name == *name {
            assert(playlists_view(playlists@)[j as int].name == name@);
            return true;
        }
        j += 1;
    }
    false
}

/// Songs, playlists and what the three sections of the manager show of them.
#[derive(Debug)]
pub struct MusicManagerState {
    pub list_songs: SelectListState,
    pub input_state: InputState,
    pub list_playlists: ListController,
    pub playlists: Vec<PlaylistInfo>,
    pub songs: Vec<PlaylistSong>,
    pub focus_i: u8,
}

impl View for MusicManagerState {
    type V = ManagerView;

    open spec fn view(&self) -> ManagerView {
        ManagerView {
            songs: self.songs@,
            playlists: playlists_view(self.playlists@),
            playlist_cursor: self.list_playlists.cursor(),
            playlist_offset: self.list_playlists.offset(),
            song_count: self.list_songs.item_count(),
            song_cursor: self.list_songs.cursor(),
            chosen: self.list_songs.chosen(),
            input: self.input_state.content(),
            input_cursor: self.input_state.cursor(),
            focus: self.focus_i,
        }
    }
}

impl MusicManagerState {
    /// The state to start with: the cursor on the first playlist and the
    /// focus on the playlists where there is one, else the focus on the
    /// input field; the songs of the first playlist marked; an empty input
    /// field.
    pub fn create(songs: Vec<PlaylistSong>, playlists: Vec<PlaylistInfo>) -> (state:
        MusicManagerState)
        ensures
            state@ =~~= (ManagerView {
                songs: songs@,
                playlists: playlists_view(playlists@),
                playlist_cursor: if playlists@.len() == 0 {
                    None
                } else {
                    Some(0usize)
                },
                playlist_offset: 0,
                song_count: 0,
                song_cursor: None,
                chosen: Set::empty(),
                input: Seq::empty(),
                input_cursor: 0,
                focus: if playlists@.len() == 0 {
                    0
                } else {
                    1
                },
            }).with_fresh_selection(),
    {
        let focus_i: u8 = if playlists.is_empty() {
            0
        } else {
            1
        };
        let cursor = if playlists.is_empty() {
            None
        } else {
            Some(0)
        };
        let mut state = MusicManagerState {
            list_songs: SelectListState::default(),
            input_state: InputState::default(),
            list_playlists: ListController::default().with_select(cursor),
            playlists,
            songs,
            focus_i,
        };
        state.update_select_list();
        state
    }

    /// The title of the list of playlists, with their number.
    pub fn playlists_title(&self) -> (title: String)
        ensures
            title@ == counted_title(" Playlists "@, self.playlists@.len()),
    {
        title_with_count(" Playlists ", self.playlists.len())
    }

    /// The title of the list of songs, with their number.
    pub fn songs_title(&self) -> (title: String)
        ensures
            title@ == counted_title(" Songs "@, self.songs@.len()),
    {
        title_with_count(" Songs ", self.songs.len())
    }

    /// Makes the list of songs anew: as many rows as there are songs, the
    /// songs of the playlist under the cursor marked, the cursor on the
    /// first song.
    pub fn update_select_list(&mut self)
        ensures
            final(self)@ =~~= old(self)@.with_fresh_selection(),
    {
        let selecteds: Vec<usize> = match self.list_playlists.selected() {
            Some(i) => {
                if i < self.playlists.len() {
                    member_indices(&self.songs, &self.playlists[i].songs)
                } else {
                    Vec::new()
                }
            },
            None => Vec::new(),
        };
        proof {
            assert(Seq::<usize>::empty().to_set() =~= Set::<usize>::empty());
        }
        let index = if self.songs.is_empty() {
            None
        } else {
            Some(0)
        };
        self.list_songs = SelectListState::default().with_len(self.songs.len()).with_selecteds(
            selecteds,
        ).with_index(index);
    }

    /// Removes the playlist under the cursor, makes the list of songs anew,
    /// and returns the message about it. Without a playlist under the
    /// cursor nothing changes.
    pub fn delete_playlist(&mut self) -> (log: Option<LogMessage>)
        ensures
            final(self)@ =~~= old(self)@.without_current(),
            announces(log, old(self)@.removed_message()),
    {
        match self.list_playlists.selected() {
            Some(i) => {
                if i < self.playlists.len() {
                    let ghost before = playlists_view(self.playlists@);
                    let play = self.playlists.remove(i);
                    assert(playlists_view(self.playlists@) =~= before.remove(i as int));
                    if self.playlists.is_empty() {
                        self.list_playlists.select(None);
                    } else if i >= self.playlists.len() {
                        self.list_playlists.select(Some(self.playlists.len() - 1));
                    }
                    self.update_select_list();
                    let mut text = String::from_str("The playlist '");
                    text.append(play.name.as_str());
                    text.append("', with '");
                    push_decimal(&mut text, play.songs.len() as u64);
                    text.append("' songs, was removed.");
                    assert(text@ =~= removed_text(play.name@, play.songs@.len()));
                    Some(LogMessage::stamped(text, LogType::Warn))
                } else {
                    None
                }
            },
            None => None,
        }
    }

    /// Gives the playlist under the cursor the marked songs as its songs.
    pub fn update_playlist(&mut self)
        ensures
            final(self)@ =~~= old(self)@.with_saved_selection(),
    {
        if let Some(i) = self.list_playlists.selected() {
            if i < self.playlists.len() {
                let ghost before = playlists_view(self.playlists@);
                let songs = pick_songs(&self.songs, &self.list_songs);
                let name = self.playlists[i].name.clone();
                self.playlists.set(i, PlaylistInfo { name, songs });
                assert(playlists_view(self.playlists@) =~= before.update(
                    i as int,
                    PlaylistView {
                        name: before[i as int].name,
                        songs: picked(self.songs@, self.list_songs.chosen()),
                    },
                ));
            }
        }
    }

    /// Adds a playlist without songs, named by the text of the input field,
    /// unless a playlist has that name already, and returns the message
    /// about it.
    pub fn create_playlist(&mut self) -> (log: LogMessage)
        ensures
            final(self)@ =~~= old(self)@.with_created(),
            announces(Some(log), Some(old(self)@.created_message())),
    {
        let input = String::from_str(self.input_state.text());
        let contains = name_taken(&self.playlists, &input);
        if !contains {
            let ghost before = playlists_view(self.playlists@);
            if self.playlists.is_empty() {
                self.list_playlists.select(Some(0));
            }
            let mut text = String::from_str("The playlist '");
            text.append(input.as_str());
            text.append("' was created.");
            assert(text@ =~= created_text(input@));
            self.playlists.push(PlaylistInfo { name: input, songs: Vec::new() });
            assert(playlists_view(self.playlists@) =~= before.push(
                PlaylistView { name: old(self).input_state.content(), songs: Seq::empty() },
            ));
            self.input_state = InputState::default();
            LogMessage::stamped(text, LogType::Info)
        } else {
            let mut text = String::from_str("The playlist '");
            text.append(input.as_str());
            text.append("' already exists!.");
            assert(text@ =~= exists_text(input@));
            LogMessage::stamped(text, LogType::Warn)
        }
    }

    /// What a key does that goes to the list of playlists: up and down move
    /// the cursor, `d` removes the playlist under it.
    pub fn playlists_on_key(&mut self, key: &KeyEvent) -> (log: Option<LogMessage>)
        ensures
            final(self)@ =~~= old(self)@.after_playlists_key(*key),
            announces(
                log,
                if key.press && key.code == KeyCode::Char('d') {
                    old(self)@.removed_message()
                } else {
                    None
                },
            ),
    {
        if !key.press {
            return None;
        }
        match key.code {
            KeyCode::Down => {
                self.update_playlist();
                self.list_playlists.next(self.playlists.len());
                self.update_select_list();
                None
            },
            KeyCode::Up => {
                self.update_playlist();
                self.list_playlists.previous(self.playlists.len());
                self.update_select_list();
                None
            },
            KeyCode::Char(c) => {
                if c == 'd' {
                    self.delete_playlist()
                } else {
                    None
                }
            },
            _ => None,
        }
    }

    /// What a key does that goes to the input field: left and right move the
    /// cursor, a character is typed, delete and backspace take one out, and
    /// enter asks for the playlist.
    pub fn input_on_key(&mut self, key: &KeyEvent) -> (log: Option<LogMessage>)
        ensures
            final(self)@ =~~= old(self)@.after_input_key(*key),
            announces(
                log,
                if key.press && key.code == KeyCode::Enter {
                    Some(old(self)@.created_message())
                } else {
                    None
                },
            ),
    {
        if !key.press {
            return None;
        }
        match key.code {
            KeyCode::Right => {
                self.input_state.next_index();
                None
            },
            KeyCode::Left => {
                self.input_state.back_index();
                None
            },
            KeyCode::Char(l) => {
                if key.control && l == '1' {
                    return None;
                }
                let mut typed = String::new();
                push_char(&mut typed, l);
                assert(typed@ =~= seq![l]);
                self.input_state.try_insert(typed.as_str());
                self.input_state.next_index();
                None
            },
            KeyCode::Delete => {
                self.input_state.try_remove_ch();
                self.input_state.back_index();
                None
            },
            KeyCode::Backspace => {
                self.input_state.try_remove_ch();
                self.input_state.back_index();
                None
            },
            KeyCode::Enter => Some(self.create_playlist()),
            _ => None,
        }
    }

    /// What a key does that goes to the list of songs: up and down move the
    /// cursor, enter marks or unmarks the song under it.
    pub fn songs_on_key(&mut self, key: &KeyEvent)
        ensures
            final(self)@ =~~= old(self)@.after_songs_key(*key),
    {
        if !key.press {
            return ;
        }
        match key.code {
            KeyCode::Down => {
                self.list_songs.next();
            },
            KeyCode::Up => {
                self.list_songs.previous();
            },
            KeyCode::Enter => {
                self.list_songs.toggle_select();
            },
            _ => {},
        }
    }

    /// What an event does: a key with control and `1`, `2` or `3` moves the
    /// focus, and every key goes on to the section that has the focus then.
    /// The message, if there is one, is for the log.
    pub fn on_event(&mut self, event: &AppEvent) -> (log: Option<LogMessage>)
        ensures
            final(self)@ =~~= old(self)@.after_event(*event),
            announces(log, message_of(old(self)@, *event)),
    {
        match event {
            AppEvent::Key(key) => {
                self.focus_i = next_focus(self.focus_i, key);
                if self.focus_i == 0 {
                    self.input_on_key(key)
                } else if self.focus_i == 1 {
                    self.playlists_on_key(key)
                } else if self.focus_i == 2 {
                    self.songs_on_key(key);
                    None
                } else {
                    None
                }
            },
            AppEvent::Quit => None,
        }
    }
}

} // verus!
