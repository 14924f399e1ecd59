//! The state of the player: how far a song has been played, what is known
//! of the sound, the cursors on playlists and songs, and what each key does.

use std::time::{Duration, Instant};
use vstd::prelude::*;
use crate::clock::{duration_nanos, second, whole_seconds, lemma_seconds_grow};
use crate::event::{AppEvent, KeyCode, KeyEvent, focus_after, next_focus};
use crate::handlers::music::{PlaylistInfo, PlaylistSong, display_names, listed_name};
use crate::utils::{decimal, push_decimal};
use vstd::string::*;
use crate::utils::{format_time, time_text};
use crate::view::controllers::list::ListController;
use crate::view::controllers::table::TableController;
use crate::view::controllers::{step_forward, step_backward};

verus! {

/// Whether a song plays or rests.
#[derive(Debug, Clone, Copy, PartialEq, Eq, Structural)]
pub enum AudioStatus {
    Pause,
    Play,
}

impl AudioStatus {
    /// The other status.
    pub fn toggled(self) -> (other: AudioStatus)
        ensures
            other == match self {
                AudioStatus::Pause => AudioStatus::Play,
                AudioStatus::Play => AudioStatus::Pause,
            },
    {
        match self {
            AudioStatus::Pause => AudioStatus::Play,
            AudioStatus::Play => AudioStatus::Pause,
        }
    }
}

/// The share of `total` that `seconds` are, in whole hundredths and at most
/// one hundred.
pub open spec fn percent_of(seconds: nat, total: nat) -> nat {
    if seconds * 100 / total >= 100 {
        100
    } else {
        seconds * 100 / total
    }
}

/// The nanoseconds played after a span of `elapsed` more: their sum, or
/// what was played before where the seconds of the sum leave 64 bits.
pub open spec fn played_after(spent: nat, elapsed: nat) -> nat {
    if (spent + elapsed) / second() > u64::MAX {
        spent
    } else {
        spent + elapsed
    }
}

/// Computes [`percent_of`].
pub fn percent(seconds: u64, total: u64) -> (p: u8)
    requires
        total > 0,
    ensures
        p == percent_of(seconds as nat, total as nat),
        p <= 100,
{
    let share: u128 = (seconds as u128 * 100) / (total as u128);
    if share >= 100 {
        100
    } else {
        share as u8
    }
}

/// The time played up to the last pause, and the moment since which the
/// song plays, if it does.
#[derive(Debug)]
pub struct Progress {
    duration: Duration,
    timer: Option<Instant>,
}

impl Default for Progress {
    fn default() -> (progress: Progress)
        ensures
            progress.spent() == 0,
            !progress.running(),
    {
        Progress::new(Duration::default(), None)
    }
}

impl Progress {
    /// The nanoseconds played up to the last pause.
    pub closed spec fn spent(&self) -> nat {
        duration_nanos(self.duration)
    }

    /// Whether the song plays.
    pub closed spec fn running(&self) -> bool {
        self.timer.is_some()
    }

    /// The moment since which the song plays.
    pub closed spec fn since(&self) -> Option<Instant> {
        self.timer
    }

    /// A progress of `duration` played, playing since `timer` or resting.
    pub fn new(duration: Duration, timer: Option<Instant>) -> (progress: Progress)
        ensures
            progress.spent() == duration_nanos(duration),
            progress.since() == timer,
            progress.running() == timer.is_some(),
    {
        Progress { duration, timer }
    }

    /// Stops the clock after a span of `elapsed` since the song began to
    /// play: the span counts as played. A progress that rests stays as it is.
    pub fn pause_after(&mut self, elapsed: Duration)
        ensures
            !final(self).running(),
            final(self).spent() == if old(self).running() {
                played_after(old(self).spent(), duration_nanos(elapsed))
            } else {
                old(self).spent()
            },
    {
        if self.timer.is_some() {
            if let Some(total) = self.duration.checked_add(elapsed) {
                self.duration = total;
            }
            self.timer = None;
        }
    }

    /// Stops the clock: the time since the song began to play counts as
    /// played. A progress that rests stays as it is.
    pub fn pause(&mut self)
        ensures
            !final(self).running(),
            final(self).spent() >= old(self).spent(),
            !old(self).running() ==> final(self).spent() == old(self).spent(),
    {
        if let Some(timer) = self.timer {
            let elapsed = timer.elapsed();
            self.pause_after(elapsed);
        }
    }

    /// Starts the clock now. What was played before stays.
    pub fn start(&mut self)
        ensures
            final(self).running(),
            final(self).spent() == old(self).spent(),
    {
        self.timer = Some(Instant::now())
    }

    /// The time played where `elapsed` is the span since the song began to
    /// play, or none for a progress that rests.
    pub fn total_after(&self, elapsed: Option<Duration>) -> (total: Duration)
        ensures
            duration_nanos(total) == match elapsed {
                Some(span) => played_after(self.spent(), duration_nanos(span)),
                None => self.spent(),
            },
    {
        match elapsed {
            Some(span) => match self.duration.checked_add(span) {
                Some(total) => total,
                None => self.duration,
            },
            None => self.duration,
        }
    }

    /// The time played up to now.
    pub fn total_duration(&self) -> (total: Duration)
        ensures
            duration_nanos(total) >= self.spent(),
            !self.running() ==> duration_nanos(total) == self.spent(),
    {
        match self.timer {
            Some(timer) => self.total_after(Some(timer.elapsed())),
            None => self.total_after(None),
        }
    }

    /// The whole seconds played up to now.
    pub fn seconds(&self) -> (secs: u64)
        ensures
            secs >= self.spent() / second(),
            !self.running() ==> secs == self.spent() / second(),
    {
        let total = self.total_duration();
        proof {
            lemma_seconds_grow(self.spent(), duration_nanos(total));
        }
        total.as_secs()
    }

    /// The share of `other` that was played up to now, in whole hundredths
    /// and at most one hundred. `other` lasts a second at least.
    pub fn percentage(&self, other: Duration) -> (p: u8)
        requires
            whole_seconds(other) > 0,
        ensures
            p <= 100,
            !self.running() ==> p == percent_of(self.spent() / second(), whole_seconds(other)),
    {
        percent(self.seconds(), other.as_secs())
    }
}

/// What is known of the sound: the song that is loaded, whether it plays,
/// and how far it has been played.
#[derive(Debug)]
pub struct AudioState {
    song: Option<PlaylistSong>,
    status: AudioStatus,
    progress: Progress,
}

impl Default for AudioState {
    fn default() -> (audio: AudioState)
        ensures
            audio.song_of().is_none(),
            audio.status_of() == AudioStatus::Pause,
            audio.progress_of().spent() == 0,
            !audio.progress_of().running(),
    {
        AudioState { song: None, status: AudioStatus::Pause, progress: Progress::default() }
    }
}

impl AudioState {
    /// The song that is loaded.
    pub closed spec fn song_of(&self) -> Option<PlaylistSong> {
        self.song
    }

    /// Whether the song plays or rests.
    pub closed spec fn status_of(&self) -> AudioStatus {
        self.status
    }

    /// How far the song has been played.
    pub closed spec fn progress_of(&self) -> Progress {
        self.progress
    }

    /// Whether the end of the song can be told: no song is loaded, or the
    /// song lasts a second at least.
    pub open spec fn measurable(&self) -> bool {
        match self.song_of() {
            Some(song) => whole_seconds(song.duration) > 0,
            None => true,
        }
    }

    /// The song that is loaded.
    pub fn song(&self) -> (song: Option<&PlaylistSong>)
        ensures
            match song {
                Some(s) => self.song_of() == Some(*s),
                None => self.song_of().is_none(),
            },
    {
        self.song.as_ref()
    }

    /// Whether the song plays or rests.
    pub fn status(&self) -> (status: AudioStatus)
        ensures
            status == self.status_of(),
    {
        self.status
    }

    /// How far the song has been played.
    pub fn progress(&self) -> (progress: &Progress)
        ensures
            *progress == self.progress_of(),
    {
        &self.progress
    }

    /// The song rests from now on: the clock stops.
    pub fn pause(&mut self)
        ensures
            final(self).status_of() == AudioStatus::Pause,
            final(self).song_of() == old(self).song_of(),
            !final(self).progress_of().running(),
            final(self).progress_of().spent() >= old(self).progress_of().spent(),
            !old(self).progress_of().running() ==> final(self).progress_of().spent() == old(self).progress_of().spent(),
    {
        self.progress.pause();
        self.status = AudioStatus::Pause;
    }

    /// The song plays from now on: the clock starts.
    pub fn play(&mut self)
        ensures
            final(self).status_of() == AudioStatus::Play,
            final(self).song_of() == old(self).song_of(),
            final(self).progress_of().running(),
            final(self).progress_of().spent() == old(self).progress_of().spent(),
    {
        self.progress.start();
        self.status = AudioStatus::Play;
    }

    /// The time played up to now, as a clock reading.
    pub fn time_format(&self) -> (text: String)
        ensures
            exists|seconds: u64|
                seconds >= self.progress_of().spent() / second() && text@ == #[trigger] time_text(
                    seconds as nat,
                ),
            !self.progress_of().running() ==> text@ == time_text(
                self.progress_of().spent() / second(),
            ),
    {
        let seconds = self.progress.seconds();
        let text = format_time(seconds);
        assert(text@ == time_text(seconds as nat));
        text
    }

    /// The label of the gauge for a song: the time played up to now, a
    /// slash, and the length of the song, both as clock readings.
    pub fn gauge_label(&self, song: &PlaylistSong) -> (text: String)
        ensures
            exists|seconds: u64|
                seconds >= self.progress_of().spent() / second() && text@ == #[trigger] time_text(
                    seconds as nat,
                ) + " / "@ + song.duration_format@,
            !self.progress_of().running() ==> text@ == time_text(
                self.progress_of().spent() / second(),
            ) + " / "@ + song.duration_format@,
    {
        let seconds = self.progress.seconds();
        let mut text = format_time(seconds);
        text.append(" / ");
        text.append(song.duration_format.as_str());
        assert(text@ == time_text(seconds as nat) + " / "@ + song.duration_format@);
        text
    }

    /// The share of `other` that was played up to now. At one hundred the
    /// song rests.
    pub fn percentage(&mut self, other: Duration) -> (p: u8)
        requires
            whole_seconds(other) > 0,
        ensures
            p <= 100,
            final(self).song_of() == old(self).song_of(),
            final(self).status_of() == if p >= 100 {
                AudioStatus::Pause
            } else {
                old(self).status_of()
            },
            p < 100 ==> final(self).progress_of() == old(self).progress_of(),
            p >= 100 ==> !final(self).progress_of().running(),
            !old(self).progress_of().running() ==> p == percent_of(
                old(self).progress_of().spent() / second(),
                whole_seconds(other),
            ),
    {
        let percentage = self.progress.percentage(other);
        if percentage >= 100 {
            self.pause();
        }
        percentage
    }

    /// Whether the song has come to its end. Without a song it has.
    pub fn is_end_song(&self) -> (ended: bool)
        requires
            self.measurable(),
        ensures
            self.song_of().is_none() ==> ended,
            self.song_of().is_some() && !self.progress_of().running() ==> ended == (percent_of(
                self.progress_of().spent() / second(),
                whole_seconds(self.song_of().unwrap().duration),
            ) >= 100),
    {
        match &self.song {
            Some(song) => {
                let p = self.progress.percentage(song.duration);
                p >= 100
            },
            None => true,
        }
    }

    /// Decides whether the end of the song can be told.
    pub fn can_measure(&self) -> (ok: bool)
        ensures
            ok == self.measurable(),
    {
        match &self.song {
            Some(song) => song.duration.as_secs() > 0,
            None => true,
        }
    }

    /// A new sound was handed to the player: nothing of it has been played,
    /// and it plays at once where the player was playing.
    pub fn append(&mut self)
        ensures
            final(self).song_of() == old(self).song_of(),
            final(self).status_of() == old(self).status_of(),
            final(self).progress_of().spent() == 0,
            final(self).progress_of().running() == (old(self).status_of() == AudioStatus::Play),
    {
        self.progress = Progress::default();
        match self.status {
            AudioStatus::Play => {
                self.play();
            },
            AudioStatus::Pause => {},
        }
    }

    /// Takes `song_opt` as the song that is loaded. With a song, its sound
    /// counts as handed to the player; with none, the progress stays.
    pub fn set_song(&mut self, song_opt: Option<PlaylistSong>)
        ensures
            final(self).song_of() == song_opt,
            final(self).status_of() == old(self).status_of(),
            song_opt.is_none() ==> final(self).progress_of() == old(self).progress_of(),
            song_opt.is_some() ==> final(self).progress_of().spent() == 0 && final(self).progress_of().running() == (old(self).status_of() == AudioStatus::Play),
    {
        if song_opt.is_some() {
            self.append();
        }
        self.song = song_opt;
    }

    /// Plays where it rested, and rests where it played.
    pub fn toggle_action(&mut self)
        ensures
            final(self).song_of() == old(self).song_of(),
            final(self).status_of() == match old(self).status_of() {
                AudioStatus::Pause => AudioStatus::Play,
                AudioStatus::Play => AudioStatus::Pause,
            },
            final(self).progress_of().running() == (old(self).status_of() == AudioStatus::Pause),
            final(self).progress_of().spent() >= old(self).progress_of().spent(),
    {
        match self.status {
            AudioStatus::Pause => self.play(),
            AudioStatus::Play => self.pause(),
        }
    }
}

/// The title of the section of the sound: that a song plays, with the
/// volume in hundredths, or that there is no song.
pub open spec fn sound_title(has_song: bool, volume: u8) -> Seq<char> {
    if has_song {
        " Playing (volume: "@ + decimal(volume as nat) + "%) "@
    } else {
        "Not Song"@
    }
}

/// Writes the title of the section of the sound.
pub fn write_sound_title(has_song: bool, volume: u8) -> (title: String)
    ensures
        title@ == sound_title(has_song, volume),
{
    if has_song {
        let mut title = String::from_str(" Playing (volume: ");
        push_decimal(&mut title, volume as u64);
        title.append("%) ");
        assert(title@ =~= sound_title(has_song, volume));
        title
    } else {
        String::from_str("Not Song")
    }
}

/// What is left to do outside the state after an event.
#[derive(Debug)]
pub enum PlayerCommand {
    /// Nothing.
    Nothing,
    /// Load the sound of this song, or of none, and tell the state with
    /// [`AudioState::set_song`] once it is loaded.
    SetSong(Option<PlaylistSong>),
    /// Let the sound play.
    Play,
    /// Let the sound rest.
    Pause,
    /// Switch the volume between silent and full.
    ToggleVolume,
    /// Turn the volume down one step.
    VolumeDown,
    /// Turn the volume up one step.
    VolumeUp,
    /// Stop the sound for good.
    Finish,
}

/// The song at place `index` of the playlist at place `playlist`, wherever
/// both exist.
pub open spec fn song_at(
    playlists: Seq<PlaylistInfo>,
    playlist: Option<usize>,
    index: Option<usize>,
) -> Option<PlaylistSong> {
    match (playlist, index) {
        (Some(p), Some(i)) => if p < playlists.len() && i < playlists[p as int].songs@.len() {
            Some(playlists[p as int].songs@[i as int])
        } else {
            None
        },
        _ => None,
    }
}

/// The cursor on the first song of the playlist at place `playlist`, or on
/// none where the playlist has no song.
pub open spec fn first_song(playlists: Seq<PlaylistInfo>, playlist: usize) -> Option<usize> {
    if playlist < playlists.len() && playlists[playlist as int].songs@.len() > 0 {
        Some(0usize)
    } else {
        None
    }
}

/// The number of songs of the playlist at place `playlist`, or none where
/// no such playlist exists.
pub open spec fn songs_in(playlists: Seq<PlaylistInfo>, playlist: Option<usize>) -> Option<usize> {
    match playlist {
        Some(p) => if p < playlists.len() {
            Some(playlists[p as int].songs@.len() as usize)
        } else {
            None
        },
        None => None,
    }
}

/// The number of songs of the playlist at place `playlist`, or zero where
/// no such playlist exists.
pub open spec fn song_count(playlists: Seq<PlaylistInfo>, playlist: Option<usize>) -> usize {
    match songs_in(playlists, playlist) {
        Some(n) => n,
        None => 0,
    }
}

/// Whether the cursor of the songs has a song behind it in a playlist of
/// `songs` songs.
pub open spec fn has_next_song(cursor: Option<usize>, songs: Option<usize>) -> bool {
    match (cursor, songs) {
        (Some(s), Some(n)) => s + 1 < n,
        _ => false,
    }
}

/// The playlists, the cursors on a playlist and on one of its songs, the
/// sound, and the section that has the focus.
#[derive(Debug)]
pub struct PlayerState {
    pub playlists: Vec<PlaylistInfo>,
    pub list_playlists: ListController,
    pub table_songs: TableController,
    pub audio_handler: AudioState,
    pub focus_i: u8,
}

impl PlayerState {
    /// The command that asks for the song under the cursors: the song under
    /// the cursor of the playlist under the cursor, or none where the cursor
    /// is on no song. Without a playlist under the cursor there is nothing
    /// to do.
    pub open spec fn request(&self) -> PlayerCommand {
        match songs_in(self.playlists@, self.list_playlists.cursor()) {
            Some(_) => PlayerCommand::SetSong(
                song_at(self.playlists@, self.list_playlists.cursor(), self.table_songs.cursor()),
            ),
            None => PlayerCommand::Nothing,
        }
    }

    /// Whether `after` differs from the state in the cursor of the songs at
    /// most.
    pub open spec fn same_but_songs(&self, after: PlayerState) -> bool {
        &&& after.playlists@ == self.playlists@
        &&& after.list_playlists == self.list_playlists
        &&& after.audio_handler == self.audio_handler
        &&& after.focus_i == self.focus_i
    }

    /// Whether `after` and `command` are what opening the playlist under the
    /// cursor leads to: a new cursor of the songs on the first song, which
    /// is asked for; or nothing, where no playlist is under the cursor.
    pub open spec fn opens_to(&self, after: PlayerState, command: PlayerCommand) -> bool {
        &&& self.same_but_songs(after)
        &&& match songs_in(self.playlists@, self.list_playlists.cursor()) {
            Some(_) => {
                &&& after.table_songs.cursor() == first_song(
                    self.playlists@,
                    self.list_playlists.cursor().unwrap(),
                )
                &&& after.table_songs.offset() == 0
                &&& command == after.request()
            },
            None => after.table_songs == self.table_songs && command == PlayerCommand::Nothing,
        }
    }

    /// Whether `after` and `command` are what a key to the playlists leads
    /// to: up and down move the cursor, enter opens the playlist under it.
    pub open spec fn library_key_leads_to(
        &self,
        key: KeyEvent,
        after: PlayerState,
        command: PlayerCommand,
    ) -> bool {
        let count = self.playlists@.len() as usize;
        if key.press && key.code == KeyCode::Enter {
            self.opens_to(after, command)
        } else if key.press && (key.code == KeyCode::Down || key.code == KeyCode::Up) {
            &&& after.playlists@ == self.playlists@
            &&& after.table_songs == self.table_songs
            &&& after.audio_handler == self.audio_handler
            &&& after.focus_i == self.focus_i
            &&& command == PlayerCommand::Nothing
            &&& after.list_playlists.cursor() == if key.code == KeyCode::Down {
                step_forward(self.list_playlists.cursor(), count)
            } else {
                step_backward(self.list_playlists.cursor(), count)
            }
            &&& after.list_playlists.offset() == if count == 0 {
                0
            } else {
                self.list_playlists.offset()
            }
        } else {
            after == *self && command == PlayerCommand::Nothing
        }
    }

    /// Whether `after` and `command` are what a key to the songs leads to:
    /// up and down move the cursor over the songs of the playlist under the
    /// cursor, enter asks for the song under it.
    pub open spec fn playlist_key_leads_to(
        &self,
        key: KeyEvent,
        after: PlayerState,
        command: PlayerCommand,
    ) -> bool {
        let count = song_count(self.playlists@, self.list_playlists.cursor());
        if key.press && key.code == KeyCode::Enter {
            after == *self && command == self.request()
        } else if key.press && (key.code == KeyCode::Down || key.code == KeyCode::Up) {
            &&& self.same_but_songs(after)
            &&& command == PlayerCommand::Nothing
            &&& after.table_songs.cursor() == if key.code == KeyCode::Down {
                step_forward(self.table_songs.cursor(), count)
            } else {
                step_backward(self.table_songs.cursor(), count)
            }
            &&& after.table_songs.offset() == if count == 0 {
                0
            } else {
                self.table_songs.offset()
            }
        } else {
            after == *self && command == PlayerCommand::Nothing
        }
    }

    /// Whether `after` and `command` are what a key to the sound leads to:
    /// space plays or rests, `m` switches the volume, up and down turn it.
    pub open spec fn audio_key_leads_to(
        &self,
        key: KeyEvent,
        after: PlayerState,
        command: PlayerCommand,
    ) -> bool {
        if key.press && key.code == KeyCode::Char(' ') {
            &&& after.playlists@ == self.playlists@
            &&& after.list_playlists == self.list_playlists
            &&& after.table_songs == self.table_songs
            &&& after.focus_i == self.focus_i
            &&& after.audio_handler.song_of() == self.audio_handler.song_of()
            &&& after.audio_handler.progress_of().spent()
                >= self.audio_handler.progress_of().spent()
            &&& match self.audio_handler.status_of() {
                AudioStatus::Pause => {
                    &&& after.audio_handler.status_of() == AudioStatus::Play
                    &&& after.audio_handler.progress_of().running()
                    &&& command == PlayerCommand::Play
                },
                AudioStatus::Play => {
                    &&& after.audio_handler.status_of() == AudioStatus::Pause
                    &&& !after.audio_handler.progress_of().running()
                    &&& command == PlayerCommand::Pause
                },
            }
        } else {
            &&& after == *self
            &&& command == if !key.press {
                PlayerCommand::Nothing
            } else if key.code == KeyCode::Char('m') {
                PlayerCommand::ToggleVolume
            } else if key.code == KeyCode::Down {
                PlayerCommand::VolumeDown
            } else if key.code == KeyCode::Up {
                PlayerCommand::VolumeUp
            } else {
                PlayerCommand::Nothing
            }
        }
    }

    /// Whether `after` and `command` are what going on to the next song
    /// leads to, where `ended` says whether the song has come to its end:
    /// with a song behind the one under the cursor, the cursor moves to it
    /// and it is asked for; else nothing happens.
    pub open spec fn advances_to(
        &self,
        ended: bool,
        after: PlayerState,
        command: PlayerCommand,
    ) -> bool {
        if ended && has_next_song(
            self.table_songs.cursor(),
            songs_in(self.playlists@, self.list_playlists.cursor()),
        ) {
            &&& self.same_but_songs(after)
            &&& after.table_songs.cursor() == Some((self.table_songs.cursor().unwrap() + 1) as usize)
            &&& after.table_songs.offset() == self.table_songs.offset()
            &&& command == after.request()
        } else {
            after == *self && command == PlayerCommand::Nothing
        }
    }

    /// The state with the focus on another section.
    pub open spec fn focused(&self, focus: u8) -> PlayerState {
        PlayerState { focus_i: focus, ..*self }
    }

    /// Whether `after` and `command` are what an event leads to: the wish to
    /// quit stops the sound; a key with control and `1`, `2` or `3` moves
    /// the focus, and every key goes on to the section that has the focus
    /// then.
    pub open spec fn event_leads_to(
        &self,
        event: AppEvent,
        after: PlayerState,
        command: PlayerCommand,
    ) -> bool {
        match event {
            AppEvent::Quit => after == *self && command == PlayerCommand::Finish,
            AppEvent::Key(key) => {
                let focus = focus_after(self.focus_i, key);
                if focus == 0 {
                    self.focused(focus).library_key_leads_to(key, after, command)
                } else if focus == 1 {
                    self.focused(focus).playlist_key_leads_to(key, after, command)
                } else if focus == 2 {
                    self.focused(focus).audio_key_leads_to(key, after, command)
                } else {
                    after == self.focused(focus) && command == PlayerCommand::Nothing
                }
            },
        }
    }

    /// The state to start with, and the song to load first: the cursors on
    /// the first playlist and on its first song, as far as they exist, no
    /// song loaded yet, and the focus on the playlists.
    pub fn create(playlists: Vec<PlaylistInfo>) -> (start: (PlayerState, Option<PlaylistSong>))
        ensures
            start.0.playlists@ == playlists@,
            start.0.list_playlists.cursor() == if playlists@.len() > 0 {
                Some(0usize)
            } else {
                None
            },
            start.0.list_playlists.offset() == 0,
            start.0.table_songs.cursor() == first_song(playlists@, 0),
            start.0.table_songs.offset() == 0,
            start.0.focus_i == 0,
            start.0.audio_handler.song_of().is_none(),
            start.0.audio_handler.status_of() == AudioStatus::Pause,
            start.0.audio_handler.progress_of().spent() == 0,
            !start.0.audio_handler.progress_of().running(),
            start.1 == song_at(playlists@, Some(0usize), Some(0usize)),
    {
        let list_i = if playlists.len() > 0 {
            Some(0)
        } else {
            None
        };
        let table_i = if playlists.len() > 0 && playlists[0].songs.len() > 0 {
            Some(0)
        } else {
            None
        };
        let first = if playlists.len() > 0 && playlists[0].songs.len() > 0 {
            Some(playlists[0].songs[0].clone())
        } else {
            None
        };
        let state = PlayerState {
            list_playlists: ListController::default().with_select(list_i),
            table_songs: TableController::default().with_select(table_i),
            audio_handler: AudioState::default(),
            playlists,
            focus_i: 0,
        };
        (state, first)
    }

    /// The playlist under the cursor.
    pub fn current_playlist(&self) -> (playlist: Option<&PlaylistInfo>)
        ensures
            match playlist {
                Some(p) => {
                    &&& self.list_playlists.cursor().is_some()
                    &&& self.list_playlists.cursor().unwrap() < self.playlists@.len()
                    &&& *p == self.playlists@[self.list_playlists.cursor().unwrap() as int]
                },
                None => songs_in(self.playlists@, self.list_playlists.cursor()).is_none(),
            },
    {
        match self.list_playlists.selected() {
            Some(i) => {
                if i < self.playlists.len() {
                    Some(&self.playlists[i])
                } else {
                    None
                }
            },
            None => None,
        }
    }

    /// What the table of songs shows: the name of the playlist under the
    /// cursor as its title and the names of its songs as its rows, or the
    /// title `List` and no row where no playlist is under the cursor.
    pub fn playlist_table(&self) -> (table: (String, Vec<String>))
        ensures
            match songs_in(self.playlists@, self.list_playlists.cursor()) {
                Some(_) => {
                    let playlist = self.playlists@[self.list_playlists.cursor().unwrap() as int];
                    &&& table.0@ == playlist.name@
                    &&& table.1@.len() == playlist.songs@.len()
                    &&& forall|i: int|
                        0 <= i < playlist.songs@.len() ==> (#[trigger] table.1@[i])@
                            == listed_name(playlist.songs@[i])
                },
                None => table.0@ == "List"@ && table.1@.len() == 0,
            },
    {
        match self.current_playlist() {
            Some(playlist) => (playlist.name.clone(), display_names(&playlist.songs)),
            None => (String::from_str("List"), Vec::new()),
        }
    }

    /// Asks for the song under the cursors.
    pub fn append_song(&self) -> (command: PlayerCommand)
        ensures
            command == self.request(),
    {
        match self.current_playlist() {
            Some(play) => {
                let song_opt = match self.table_songs.selected() {
                    Some(i) => {
                        if i < play.songs.len() {
                            Some(play.songs[i].clone())
                        } else {
                            None
                        }
                    },
                    None => None,
                };
                PlayerCommand::SetSong(song_opt)
            },
            None => PlayerCommand::Nothing,
        }
    }

    /// Opens the playlist under the cursor: the cursor of the songs goes to
    /// its first song, which is asked for. Without a playlist under the
    /// cursor nothing changes.
    pub fn update_songs(&mut self) -> (command: PlayerCommand)
        ensures
            old(self).opens_to(*final(self), command),
    {
        let first = match self.current_playlist() {
            Some(play) => Some(
                if play.songs.is_empty() {
                    None
                } else {
                    Some(0)
                },
            ),
            None => None,
        };
        match first {
            Some(index) => {
                self.table_songs = TableController::default().with_select(index);
                self.append_song()
            },
            None => PlayerCommand::Nothing,
        }
    }

    /// What a key does that goes to the playlists.
    pub fn library_on_key(&mut self, key: &KeyEvent) -> (command: PlayerCommand)
        ensures
            old(self).library_key_leads_to(*key, *final(self), command),
    {
        if !key.press {
            return PlayerCommand::Nothing;
        }
        match key.code {
            KeyCode::Down => {
                self.list_playlists.next(self.playlists.len());
                PlayerCommand::Nothing
            },
            KeyCode::Up => {
                self.list_playlists.previous(self.playlists.len());
                PlayerCommand::Nothing
            },
            KeyCode::Enter => self.update_songs(),
            _ => PlayerCommand::Nothing,
        }
    }

    /// The number of songs of the playlist under the cursor, or zero.
    pub fn songs_len(&self) -> (count: usize)
        ensures
            count == song_count(self.playlists@, self.list_playlists.cursor()),
    {
        match self.current_playlist() {
            Some(play) => play.songs.len(),
            None => 0,
        }
    }

    /// What a key does that goes to the songs.
    pub fn playlist_on_key(&mut self, key: &KeyEvent) -> (command: PlayerCommand)
        ensures
            old(self).playlist_key_leads_to(*key, *final(self), command),
    {
        if !key.press {
            return PlayerCommand::Nothing;
        }
        let songs = self.songs_len();
        match key.code {
            KeyCode::Down => {
                self.table_songs.next(songs);
                PlayerCommand::Nothing
            },
            KeyCode::Up => {
                self.table_songs.previous(songs);
                PlayerCommand::Nothing
            },
            KeyCode::Enter => self.append_song(),
            _ => PlayerCommand::Nothing,
        }
    }

    /// Goes on to the next song where `ended` says that the song has come
    /// to its end and the playlist under the cursor has a song behind the
    /// one under the cursor.
    pub fn advance(&mut self, ended: bool) -> (command: PlayerCommand)
        ensures
            old(self).advances_to(ended, *final(self), command),
    {
        if !ended {
            return PlayerCommand::Nothing;
        }
        let songs_len = match self.current_playlist() {
            Some(play) => play.songs.len(),
            None => {
                return PlayerCommand::Nothing;
            },
        };
        let not_is_last = match self.table_songs.selected() {
            Some(s) => songs_len > 0 && s < songs_len - 1,
            None => false,
        };
        if not_is_last {
            self.table_songs.next(songs_len);
            self.append_song()
        } else {
            PlayerCommand::Nothing
        }
    }

    /// Looks whether the song has come to its end, and goes on to the next
    /// one if it has. Without a song loaded it has; with a song that rests,
    /// it has where all of the song was played.
    pub fn check_audio(&mut self) -> (command: PlayerCommand)
        requires
            old(self).audio_handler.measurable(),
        ensures
            exists|ended: bool| #[trigger] old(self).advances_to(ended, *final(self), command),
            old(self).audio_handler.song_of().is_none() ==> old(self).advances_to(
                true,
                *final(self),
                command,
            ),
            old(self).audio_handler.song_of().is_some() && !old(
                self,
            ).audio_handler.progress_of().running() ==> old(self).advances_to(
                percent_of(
                    old(self).audio_handler.progress_of().spent() / second(),
                    whole_seconds(old(self).audio_handler.song_of().unwrap().duration),
                ) >= 100,
                *final(self),
                command,
            ),
    {
        let ended = self.audio_handler.is_end_song();
        let command = self.advance(ended);
        assert(old(self).advances_to(ended, *self, command));
        command
    }

    /// What a key does that goes to the sound.
    pub fn audio_on_key(&mut self, key: &KeyEvent) -> (command: PlayerCommand)
        ensures
            old(self).audio_key_leads_to(*key, *final(self), command),
    {
        if !key.press {
            return PlayerCommand::Nothing;
        }
        match key.code {
            KeyCode::Char(c) => {
                if c == ' ' {
                    self.audio_handler.toggle_action();
                    match self.audio_handler.status() {
                        AudioStatus::Play => PlayerCommand::Play,
                        AudioStatus::Pause => PlayerCommand::Pause,
                    }
                } else if c == 'm' {
                    PlayerCommand::ToggleVolume
                } else {
                    PlayerCommand::Nothing
                }
            },
            KeyCode::Down => PlayerCommand::VolumeDown,
            KeyCode::Up => PlayerCommand::VolumeUp,
            _ => PlayerCommand::Nothing,
        }
    }

    /// What an event does, and what it leaves to do outside the state.
    pub fn on_event(&mut self, event: &AppEvent) -> (command: PlayerCommand)
        ensures
            old(self).event_leads_to(*event, *final(self), command),
    {
        match event {
            AppEvent::Quit => PlayerCommand::Finish,
            AppEvent::Key(key) => {
                self.focus_i = next_focus(self.focus_i, key);
                if self.focus_i == 0 {
                    self.library_on_key(key)
                } else if self.focus_i == 1 {
                    self.playlist_on_key(key)
                } else if self.focus_i == 2 {
                    self.audio_on_key(key)
                } else {
                    PlayerCommand::Nothing
                }
            },
        }
    }
}

} // verus!
