use rust_music_player::audio::{AudioError, AudioManager, SinkCommand};
use rust_music_player::ui::{MusicPlayerUI, PlayerAction, Status, GRACE_MILLIS};

const NOTHING: PlayerAction = PlayerAction::Sink(SinkCommand::Nothing);

fn player_with(n: usize) -> MusicPlayerUI {
    let mut ui = MusicPlayerUI::new();
    for i in 0..n {
        ui.add_song(format!("/music/track{}.mp3", i));
    }
    ui
}

/// A player that plays the song at `index` since `now`, with the given length.
fn playing(n: usize, index: usize, total: Option<u64>, now: u64) -> (MusicPlayerUI, AudioManager) {
    let mut ui = player_with(n);
    let mut audio = AudioManager::new();
    ui.click_song(index, false);
    assert_eq!(ui.handle_play_pause(&mut audio, now), PlayerAction::Load(index));
    assert_eq!(ui.play_selected_song(&mut audio, Ok(total), now), Ok(()));
    (ui, audio)
}

#[test]
fn new_player_is_idle() {
    let ui = MusicPlayerUI::new();
    assert!(ui.songs().is_empty());
    assert_eq!(ui.selected_song_index(), None);
    assert!(ui.selected_songs().is_empty());
    assert!(!ui.is_playing() && !ui.is_paused() && !ui.is_pending());
    assert_eq!(ui.current_position(), 0);
    assert_eq!(ui.total_duration(), None);
    assert_eq!(ui.status(), Status::Stopped);
    assert_eq!(ui.elapsed(12345), 0);
}

#[test]
fn next_goes_around_the_list() {
    for n in 1..6usize {
        let mut ui = player_with(n);
        for step in 0..n {
            assert_eq!(ui.handle_next(), NOTHING);
            assert_eq!(ui.selected_song_index(), Some(step));
        }
        ui.handle_next();
        assert_eq!(ui.selected_song_index(), Some(0));
    }
}

#[test]
fn next_on_empty_list_selects_nothing() {
    let mut ui = MusicPlayerUI::new();
    assert_eq!(ui.handle_next(), NOTHING);
    assert_eq!(ui.selected_song_index(), None);
    assert_eq!(ui.handle_previous(), NOTHING);
    assert_eq!(ui.selected_song_index(), None);
}

#[test]
fn previous_from_unselected_selects_last() {
    for n in 1..6usize {
        let mut ui = player_with(n);
        assert_eq!(ui.handle_previous(), NOTHING);
        assert_eq!(ui.selected_song_index(), Some(n - 1));
    }
}

#[test]
fn previous_goes_around_the_list() {
    let mut ui = player_with(3);
    ui.click_song(1, false);
    ui.handle_previous();
    assert_eq!(ui.selected_song_index(), Some(0));
    ui.handle_previous();
    assert_eq!(ui.selected_song_index(), Some(2));
}

#[test]
fn step_while_playing_asks_for_the_song() {
    let (mut ui, mut audio) = playing(3, 2, Some(10_000), 100);
    assert_eq!(ui.handle_next(), PlayerAction::Load(0));
    assert_eq!(ui.play_selected_song(&mut audio, Ok(Some(7_000)), 500), Ok(()));
    assert_eq!(audio.current_file(), Some(&"/music/track0.mp3".to_string()));
    assert_eq!(ui.total_duration(), Some(7_000));
    assert_eq!(ui.current_position(), 0);
    assert_eq!(ui.elapsed(1_500), 1_000);
    assert_eq!(ui.handle_previous(), PlayerAction::Load(2));
}

#[test]
fn step_while_paused_asks_for_nothing() {
    let (mut ui, mut audio) = playing(3, 0, None, 0);
    ui.handle_play_pause(&mut audio, 10);
    assert_eq!(ui.handle_next(), NOTHING);
    assert_eq!(ui.selected_song_index(), Some(1));
}

#[test]
fn play_button_without_selection_does_nothing() {
    let mut ui = player_with(2);
    let mut audio = AudioManager::new();
    assert_eq!(ui.handle_play_pause(&mut audio, 5), NOTHING);
    assert_eq!(ui.start_selected_song(&mut audio, Ok(None), 5), Ok(()));
    assert!(!ui.is_playing());
    assert!(!audio.is_playing());
}

#[test]
fn play_button_starts_the_selected_song() {
    let mut ui = player_with(2);
    let mut audio = AudioManager::new();
    ui.click_song(1, false);
    assert_eq!(ui.handle_play_pause(&mut audio, 1_000), PlayerAction::Load(1));
    assert!(!ui.is_playing());
    assert_eq!(ui.start_selected_song(&mut audio, Ok(Some(60_000)), 1_000), Ok(()));
    assert!(ui.is_playing() && !ui.is_paused());
    assert_eq!(ui.status(), Status::Playing);
    assert!(audio.is_playing());
    assert_eq!(audio.current_file(), Some(&"/music/track1.mp3".to_string()));
    assert_eq!(ui.elapsed(1_250), 250);
}

#[test]
fn failed_load_is_reported_and_nothing_plays() {
    let mut ui = player_with(2);
    let mut audio = AudioManager::new();
    ui.click_song(0, false);
    assert_eq!(ui.handle_play_pause(&mut audio, 0), PlayerAction::Load(0));
    assert_eq!(
        ui.start_selected_song(&mut audio, Err(AudioError::DecodeFailed), 0),
        Err(AudioError::DecodeFailed)
    );
    assert!(!ui.is_playing());
    assert!(!audio.is_playing());
    assert_eq!(ui.status(), Status::Stopped);
    assert_eq!(
        ui.play_selected_song(&mut audio, Err(AudioError::OpenFailed), 0),
        Err(AudioError::OpenFailed)
    );
    assert!(!ui.is_playing());
}

#[test]
fn pause_then_resume_keeps_the_elapsed_time() {
    for pause_length in [0u64, 1, 999, 60_000, 86_400_000] {
        let (mut ui, mut audio) = playing(2, 0, Some(300_000), 1_000);
        let paused_time = 43_000;
        let before = ui.elapsed(paused_time);
        assert_eq!(before, 42_000);
        assert_eq!(
            ui.handle_play_pause(&mut audio, paused_time),
            PlayerAction::Sink(SinkCommand::Pause)
        );
        assert_eq!(ui.status(), Status::Paused);
        assert!(audio.is_paused());
        assert_eq!(ui.elapsed(paused_time + pause_length / 2), before);
        let resumed_time = paused_time + pause_length;
        assert_eq!(
            ui.handle_play_pause(&mut audio, resumed_time),
            PlayerAction::Sink(SinkCommand::Play)
        );
        assert_eq!(ui.status(), Status::Playing);
        assert!(audio.is_playing());
        assert_eq!(ui.elapsed(resumed_time), before);
        assert_eq!(ui.elapsed(resumed_time + 500), before + 500);
    }
}

#[test]
fn elapsed_is_held_at_the_length() {
    let (ui, _audio) = playing(1, 0, Some(5_000), 0);
    assert_eq!(ui.elapsed(4_999), 4_999);
    assert_eq!(ui.elapsed(5_000), 5_000);
    assert_eq!(ui.elapsed(9_000), 5_000);
}

#[test]
fn stop_resets_the_timers() {
    let (mut ui, mut audio) = playing(2, 1, Some(5_000), 0);
    assert_eq!(ui.handle_stop(&mut audio), PlayerAction::Sink(SinkCommand::Stop));
    assert!(!ui.is_playing() && !ui.is_paused());
    assert_eq!(ui.current_position(), 0);
    assert_eq!(ui.total_duration(), None);
    assert_eq!(ui.elapsed(3_000), 0);
    assert_eq!(ui.status(), Status::Stopped);
    assert_eq!(ui.selected_song_index(), Some(1));
    assert!(!audio.has_sink());
    assert_eq!(ui.handle_stop(&mut audio), NOTHING);
}

#[test]
fn tick_reads_position_while_playing() {
    let (mut ui, mut audio) = playing(2, 0, Some(8_000), 0);
    assert_eq!(ui.update_playback_state(&mut audio, 100, 44100, false), NOTHING);
    assert_eq!(ui.current_position(), 1_000);
    assert_eq!(ui.total_duration(), Some(8_000));
    assert!(!ui.is_pending());
}

#[test]
fn tick_follows_the_audio_state() {
    let (mut ui, mut audio) = playing(2, 0, None, 0);
    audio.pause();
    ui.update_playback_state(&mut audio, 10, 500, true);
    assert!(ui.is_paused() && !ui.is_playing());
    audio.stop();
    ui.update_playback_state(&mut audio, 20, 0, false);
    assert!(!ui.is_paused() && !ui.is_playing() && !ui.is_pending());
}

#[test]
fn finished_track_advances_after_the_grace_time() {
    assert_eq!(GRACE_MILLIS, 2_000);
    let (mut ui, mut audio) = playing(3, 0, Some(8_000), 0);
    assert_eq!(ui.update_playback_state(&mut audio, 8_100, 0, false), NOTHING);
    assert!(ui.is_pending());
    assert_eq!(ui.status(), Status::Waiting);
    assert_eq!(ui.current_position(), 8_000);
    assert_eq!(ui.elapsed(8_200), 8_000);
    assert_eq!(ui.selected_song_index(), Some(0));

    assert_eq!(ui.update_playback_state(&mut audio, 10_099, 0, false), NOTHING);
    assert!(ui.is_pending());
    assert_eq!(ui.selected_song_index(), Some(0));

    assert_eq!(ui.update_playback_state(&mut audio, 10_100, 0, false), PlayerAction::Load(1));
    assert!(!ui.is_pending());
    assert_eq!(ui.selected_song_index(), Some(1));
    assert_eq!(ui.play_selected_song(&mut audio, Ok(Some(4_000)), 10_100), Ok(()));
    assert!(ui.is_playing());
    assert_eq!(audio.current_file(), Some(&"/music/track1.mp3".to_string()));
    assert_eq!(ui.elapsed(10_100), 0);
    assert_eq!(ui.total_duration(), Some(4_000));
}

#[test]
fn finished_last_track_stops() {
    let (mut ui, mut audio) = playing(3, 2, Some(8_000), 0);
    assert_eq!(ui.update_playback_state(&mut audio, 8_000, 0, false), NOTHING);
    assert!(ui.is_pending());
    assert_eq!(
        ui.update_playback_state(&mut audio, 10_000, 0, false),
        PlayerAction::Sink(SinkCommand::Stop)
    );
    assert!(!ui.is_pending());
    assert!(!ui.is_playing() && !ui.is_paused());
    assert_eq!(ui.status(), Status::Stopped);
    assert_eq!(ui.elapsed(10_000), 0);
    assert_eq!(ui.current_position(), 0);
    assert_eq!(ui.total_duration(), None);
    assert_eq!(ui.selected_song_index(), Some(2));
    assert!(!audio.has_sink() && !audio.is_playing());
}

#[test]
fn waiting_without_known_length_shows_one_second() {
    let (mut ui, mut audio) = playing(2, 0, None, 0);
    ui.update_playback_state(&mut audio, 3_000, 0, false);
    assert!(ui.is_pending());
    assert_eq!(ui.elapsed(3_500), 1_000);
}

#[test]
fn auto_advance_from_unselected_takes_the_first() {
    let mut ui = player_with(2);
    let mut audio = AudioManager::new();
    assert_eq!(ui.auto_advance_to_next_song(&mut audio), PlayerAction::Load(0));
    assert_eq!(ui.selected_song_index(), Some(0));
    let mut empty = MusicPlayerUI::new();
    assert_eq!(empty.auto_advance_to_next_song(&mut audio), NOTHING);
    assert_eq!(empty.selected_song_index(), None);
}

#[test]
fn plain_click_selects_and_marks_alone() {
    let mut ui = player_with(4);
    ui.click_song(1, true);
    ui.click_song(3, true);
    assert_eq!(ui.selected_songs(), &vec![1, 3]);
    assert_eq!(ui.selected_song_index(), None);
    ui.click_song(2, false);
    assert_eq!(ui.selected_songs(), &vec![2]);
    assert_eq!(ui.selected_song_index(), Some(2));
}

#[test]
fn modified_click_flips_the_mark() {
    let mut ui = player_with(4);
    ui.click_song(0, false);
    ui.click_song(2, true);
    ui.click_song(3, true);
    assert_eq!(ui.selected_songs(), &vec![0, 2, 3]);
    assert!(ui.is_marked(2));
    ui.click_song(2, true);
    assert_eq!(ui.selected_songs(), &vec![0, 3]);
    assert!(!ui.is_marked(2));
    assert_eq!(ui.selected_song_index(), Some(0));
}

#[test]
fn marked_songs_are_removed() {
    let mut ui = player_with(5);
    ui.click_song(4, false);
    ui.click_song(1, true);
    ui.click_song(0, true);
    ui.remove_selected_songs();
    let titles: Vec<&str> = ui.songs().iter().map(|s| s.title.as_str()).collect();
    assert_eq!(titles, vec!["track2", "track3"]);
    assert!(ui.selected_songs().is_empty());
    assert_eq!(ui.selected_song_index(), None);
}

#[test]
fn removal_without_marks_changes_nothing() {
    let mut ui = player_with(2);
    ui.handle_next();
    ui.remove_selected_songs();
    assert_eq!(ui.songs().len(), 2);
    assert_eq!(ui.selected_song_index(), Some(0));
}

#[test]
fn clear_empties_the_list() {
    let mut ui = player_with(3);
    ui.click_song(1, false);
    ui.clear_all_songs();
    assert!(ui.songs().is_empty());
    assert!(ui.selected_songs().is_empty());
    assert_eq!(ui.selected_song_index(), None);
}

#[test]
fn picked_file_is_titled_by_its_stem() {
    let mut ui = MusicPlayerUI::new();
    ui.add_song("/home/me/Some Song.flac".to_string());
    ui.add_song("".to_string());
    assert_eq!(ui.songs()[0].title, "Some Song");
    assert_eq!(ui.songs()[0].artist, "Unknown");
    assert_eq!(ui.songs()[0].file_path, "/home/me/Some Song.flac");
    assert_eq!(ui.songs()[0].duration, None);
    assert_eq!(ui.songs()[1].title, "Unknown");
}

#[test]
fn folder_takes_lowercase_extensions_only() {
    let mut ui = player_with(1);
    let files = vec![
        "f/a.mp3".to_string(),
        "f/b.MP3".to_string(),
        "f/c.txt".to_string(),
        "f/d".to_string(),
        "f/e.ogg".to_string(),
        "f/g.aac".to_string(),
    ];
    ui.add_folder_songs(&files);
    let titles: Vec<&str> = ui.songs().iter().map(|s| s.title.as_str()).collect();
    assert_eq!(titles, vec!["track0", "a", "e"]);
    assert_eq!(ui.songs()[1].file_path, "f/a.mp3");
    assert_eq!(ui.songs()[1].artist, "Unknown");
}
