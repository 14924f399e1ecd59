use melody::event::{AppEvent, KeyCode, KeyEvent};
use melody::handlers::music::{MusicHandler, PlaylistInfo, PlaylistSong};
use melody::tabs::player::state::{write_sound_title, AudioState, AudioStatus, PlayerCommand, PlayerState};
use std::time::Duration;

fn song(name: &str, seconds: u64) -> PlaylistSong {
    MusicHandler::get_audio_data(None, Some(name.to_string()), format!("/m/{}", name), Duration::from_secs(seconds))
}

fn press(code: KeyCode) -> AppEvent {
    AppEvent::Key(KeyEvent { code, control: false, press: true })
}

fn control(c: char) -> AppEvent {
    AppEvent::Key(KeyEvent { code: KeyCode::Char(c), control: true, press: true })
}

fn player() -> PlayerState {
    let playlists = vec![
        PlaylistInfo { name: "first".to_string(), songs: vec![song("a", 10), song("b", 20)] },
        PlaylistInfo { name: "empty".to_string(), songs: vec![] },
        PlaylistInfo { name: "third".to_string(), songs: vec![song("c", 30)] },
    ];
    PlayerState::create(playlists).0
}

fn path_of(command: &PlayerCommand) -> Option<Option<String>> {
    match command {
        PlayerCommand::SetSong(song) => Some(song.as_ref().map(|s| s.path.clone())),
        _ => None,
    }
}

#[test]
fn create_points_at_the_first_song() {
    let (state, first) = PlayerState::create(vec![PlaylistInfo {
        name: "p".to_string(),
        songs: vec![song("a", 1), song("b", 1)],
    }]);
    assert_eq!(state.list_playlists.selected(), Some(0));
    assert_eq!(state.table_songs.selected(), Some(0));
    assert_eq!(state.focus_i, 0);
    assert_eq!(first.unwrap().path, "/m/a");
    assert!(state.audio_handler.song().is_none());
    assert_eq!(state.audio_handler.status(), AudioStatus::Pause);
    let (state, first) = PlayerState::create(vec![PlaylistInfo { name: "p".to_string(), songs: vec![] }]);
    assert_eq!(state.list_playlists.selected(), Some(0));
    assert_eq!(state.table_songs.selected(), None);
    assert!(first.is_none());
    let (state, first) = PlayerState::create(Vec::new());
    assert_eq!(state.list_playlists.selected(), None);
    assert_eq!(state.table_songs.selected(), None);
    assert!(first.is_none());
    assert!(state.current_playlist().is_none());
    assert_eq!(state.songs_len(), 0);
}

#[test]
fn library_keys_move_the_cursor_and_open_a_playlist() {
    let mut state = player();
    assert!(matches!(state.on_event(&press(KeyCode::Down)), PlayerCommand::Nothing));
    assert!(matches!(state.on_event(&press(KeyCode::Down)), PlayerCommand::Nothing));
    assert_eq!(state.list_playlists.selected(), Some(2));
    assert_eq!(state.table_songs.selected(), Some(0));
    let command = state.on_event(&press(KeyCode::Enter));
    assert_eq!(path_of(&command), Some(Some("/m/c".to_string())));
    assert_eq!(state.table_songs.selected(), Some(0));
    state.on_event(&press(KeyCode::Up));
    assert_eq!(state.list_playlists.selected(), Some(1));
    let command = state.on_event(&press(KeyCode::Enter));
    assert_eq!(path_of(&command), Some(None));
    assert_eq!(state.table_songs.selected(), None);
    assert_eq!(state.current_playlist().unwrap().name, "empty");
}

#[test]
fn opening_without_a_playlist_does_nothing() {
    let mut state = player();
    state.list_playlists.select(Some(8));
    state.table_songs.select(Some(1));
    assert!(matches!(state.update_songs(), PlayerCommand::Nothing));
    assert_eq!(state.table_songs.selected(), Some(1));
    assert!(matches!(state.append_song(), PlayerCommand::Nothing));
}

#[test]
fn playlist_keys_move_over_the_songs_and_ask_for_one() {
    let mut state = player();
    state.on_event(&control('2'));
    assert_eq!(state.focus_i, 1);
    state.on_event(&press(KeyCode::Down));
    assert_eq!(state.table_songs.selected(), Some(1));
    let command = state.on_event(&press(KeyCode::Enter));
    assert_eq!(path_of(&command), Some(Some("/m/b".to_string())));
    state.on_event(&press(KeyCode::Down));
    assert_eq!(state.table_songs.selected(), Some(0));
    state.on_event(&press(KeyCode::Up));
    assert_eq!(state.table_songs.selected(), Some(1));
    state.table_songs.select(Some(7));
    let command = state.on_event(&press(KeyCode::Enter));
    assert_eq!(path_of(&command), Some(None));
    state.on_event(&AppEvent::Key(KeyEvent { code: KeyCode::Down, control: false, press: false }));
    assert_eq!(state.table_songs.selected(), Some(7));
}

#[test]
fn audio_keys_toggle_and_turn_the_volume() {
    let mut state = player();
    state.on_event(&control('3'));
    assert!(matches!(state.on_event(&press(KeyCode::Char(' '))), PlayerCommand::Play));
    assert_eq!(state.audio_handler.status(), AudioStatus::Play);
    assert!(matches!(state.on_event(&press(KeyCode::Char(' '))), PlayerCommand::Pause));
    assert_eq!(state.audio_handler.status(), AudioStatus::Pause);
    assert!(matches!(state.on_event(&press(KeyCode::Char('m'))), PlayerCommand::ToggleVolume));
    assert!(matches!(state.on_event(&press(KeyCode::Up)), PlayerCommand::VolumeUp));
    assert!(matches!(state.on_event(&press(KeyCode::Down)), PlayerCommand::VolumeDown));
    assert!(matches!(state.on_event(&press(KeyCode::Char('x'))), PlayerCommand::Nothing));
    assert!(matches!(state.on_event(&press(KeyCode::Enter)), PlayerCommand::Nothing));
    assert_eq!(state.list_playlists.selected(), Some(0));
    assert_eq!(state.table_songs.selected(), Some(0));
}

#[test]
fn quit_stops_the_sound() {
    let mut state = player();
    assert!(matches!(state.on_event(&AppEvent::Quit), PlayerCommand::Finish));
    assert_eq!(state.focus_i, 0);
}

#[test]
fn the_end_of_a_song_leads_to_the_next_one() {
    let mut state = player();
    let command = state.advance(true);
    assert_eq!(path_of(&command), Some(Some("/m/b".to_string())));
    assert_eq!(state.table_songs.selected(), Some(1));
    assert!(matches!(state.advance(true), PlayerCommand::Nothing));
    assert_eq!(state.table_songs.selected(), Some(1));
    state.table_songs.select(Some(0));
    assert!(matches!(state.advance(false), PlayerCommand::Nothing));
    assert_eq!(state.table_songs.selected(), Some(0));
    state.table_songs.select(None);
    assert!(matches!(state.advance(true), PlayerCommand::Nothing));
    state.list_playlists.select(Some(1));
    state.table_songs.select(Some(0));
    assert!(matches!(state.advance(true), PlayerCommand::Nothing));
}

#[test]
fn check_audio_goes_on_when_no_song_is_loaded_or_the_song_is_over() {
    let mut state = player();
    assert!(state.audio_handler.can_measure());
    let command = state.check_audio();
    assert_eq!(path_of(&command), Some(Some("/m/b".to_string())));
    state.audio_handler.set_song(Some(song("b", 20)));
    assert!(matches!(state.check_audio(), PlayerCommand::Nothing));
    assert_eq!(state.table_songs.selected(), Some(1));
}

#[test]
fn audio_state_follows_play_pause_and_new_songs() {
    let mut audio = AudioState::default();
    assert!(audio.is_end_song());
    assert_eq!(audio.time_format(), "00:00");
    audio.set_song(Some(song("a", 10)));
    assert_eq!(audio.song().unwrap().path, "/m/a");
    assert_eq!(audio.status(), AudioStatus::Pause);
    assert!(!audio.is_end_song());
    assert_eq!(audio.percentage(Duration::from_secs(10)), 0);
    audio.toggle_action();
    assert_eq!(audio.status(), AudioStatus::Play);
    audio.set_song(Some(song("b", 20)));
    assert_eq!(audio.status(), AudioStatus::Play);
    assert!(audio.progress().seconds() < 5);
    audio.pause();
    assert_eq!(audio.status(), AudioStatus::Pause);
    audio.play();
    assert_eq!(audio.status(), AudioStatus::Play);
    audio.set_song(None);
    assert!(audio.song().is_none());
    assert!(audio.is_end_song());
    assert_eq!(audio.status(), AudioStatus::Play);
}

#[test]
fn a_song_of_less_than_a_second_cannot_be_measured() {
    let mut audio = AudioState::default();
    audio.set_song(Some(MusicHandler::get_audio_data(None, None, "s".to_string(), Duration::from_millis(900))));
    assert!(!audio.can_measure());
    audio.set_song(Some(song("a", 1)));
    assert!(audio.can_measure());
}

#[test]
fn the_table_shows_the_playlist_under_the_cursor() {
    let mut state = player();
    let (title, rows) = state.playlist_table();
    assert_eq!(title, "first");
    assert_eq!(rows, vec!["a", "b"]);
    state.list_playlists.select(Some(1));
    assert_eq!(state.playlist_table(), ("empty".to_string(), Vec::<String>::new()));
    state.list_playlists.select(None);
    assert_eq!(state.playlist_table(), ("List".to_string(), Vec::<String>::new()));
}

#[test]
fn the_sound_section_names_the_volume() {
    assert_eq!(write_sound_title(true, 70), " Playing (volume: 70%) ");
    assert_eq!(write_sound_title(true, 0), " Playing (volume: 0%) ");
    assert_eq!(write_sound_title(false, 70), "Not Song");
}

#[test]
fn the_gauge_label_shows_time_played_and_length() {
    let audio = AudioState::default();
    assert_eq!(audio.gauge_label(&song("a", 125)), "00:00 / 02:05");
}
