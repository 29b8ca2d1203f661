use rust_music_player::playlist::{Playlist, PlaylistError, PlaylistManager, Song, Timestamp};

fn song(title: &str) -> Song {
    Song {
        title: title.to_string(),
        artist: "Someone".to_string(),
        file_path: format!("/music/{}.mp3", title),
        duration: Some(1500),
    }
}

#[test]
fn new_playlist_is_empty_and_dated() {
    let playlist = Playlist::new("mix".to_string());
    assert_eq!(playlist.name, "mix");
    assert!(playlist.is_empty());
    assert_eq!(playlist.len(), 0);
    assert!(playlist.created_at.secs > 1_500_000_000);
}

#[test]
fn playlist_with_given_creation_time() {
    let at = Timestamp { secs: 42, nanos: 7 };
    let playlist = Playlist::created_at("mix".to_string(), at);
    assert_eq!(playlist.created_at, at);
    assert!(playlist.songs.is_empty());
}

#[test]
fn playlist_add_get_remove() {
    let mut playlist = Playlist::created_at("mix".to_string(), Timestamp { secs: 0, nanos: 0 });
    playlist.add_song(song("a"));
    playlist.add_song(song("b"));
    playlist.add_song(song("c"));
    assert_eq!(playlist.len(), 3);
    assert!(!playlist.is_empty());
    assert_eq!(playlist.get_song(1), Some(&song("b")));
    assert_eq!(playlist.get_song(3), None);
    assert_eq!(playlist.remove_song(1), Some(song("b")));
    assert_eq!(playlist.songs, vec![song("a"), song("c")]);
    assert_eq!(playlist.remove_song(2), None);
    assert_eq!(playlist.len(), 2);
}

#[test]
fn duplicates_are_equal() {
    let mut playlist = Playlist::created_at("mix".to_string(), Timestamp { secs: 9, nanos: 1 });
    playlist.add_song(song("a"));
    playlist.add_song(song("b"));
    assert_eq!(playlist.duplicate(), playlist);
    assert_eq!(song("a").duplicate(), song("a"));
}

#[test]
fn untagged_song_has_unknown_artist() {
    let s = Song::untagged("a".to_string(), "/m/a.mp3".to_string());
    assert_eq!(s.title, "a");
    assert_eq!(s.artist, "Unknown");
    assert_eq!(s.file_path, "/m/a.mp3");
    assert_eq!(s.duration, None);
}

#[test]
fn create_makes_current() {
    let mut manager = PlaylistManager::new();
    assert!(manager.get_current_playlist().is_none());
    assert!(manager.get_playlist_names().is_empty());
    assert_eq!(manager.create_playlist("one".to_string()), Ok(()));
    assert_eq!(manager.get_current_playlist().unwrap().name, "one");
    assert_eq!(manager.create_playlist("two".to_string()), Ok(()));
    assert_eq!(manager.get_current_playlist().unwrap().name, "two");
    let mut names = manager.get_playlist_names();
    names.sort();
    assert_eq!(names, vec!["one".to_string(), "two".to_string()]);
}

#[test]
fn create_twice_fails_and_keeps_songs() {
    let mut manager = PlaylistManager::new();
    assert_eq!(manager.create_playlist("mix".to_string()), Ok(()));
    manager.add_song_to_current_playlist(song("a")).unwrap();
    manager.add_song_to_current_playlist(song("b")).unwrap();
    assert_eq!(
        manager.create_playlist("mix".to_string()),
        Err(PlaylistError::AlreadyExists("mix".to_string()))
    );
    let current = manager.get_current_playlist().unwrap();
    assert_eq!(current.songs, vec![song("a"), song("b")]);
    assert_eq!(manager.get_playlist_names(), vec!["mix".to_string()]);
}

#[test]
fn add_without_current_fails() {
    let mut manager = PlaylistManager::new();
    assert_eq!(
        manager.add_song_to_current_playlist(song("a")),
        Err(PlaylistError::NoCurrentPlaylist)
    );
}

#[test]
fn add_goes_to_current_only() {
    let mut manager = PlaylistManager::new();
    manager.create_playlist("one".to_string()).unwrap();
    manager.create_playlist("two".to_string()).unwrap();
    manager.add_song_to_current_playlist(song("a")).unwrap();
    assert_eq!(manager.get_current_playlist().unwrap().songs, vec![song("a")]);
    manager.set_current_playlist("one").unwrap();
    assert!(manager.get_current_playlist().unwrap().songs.is_empty());
}

#[test]
fn remove_returns_the_song() {
    let mut manager = PlaylistManager::new();
    manager.create_playlist("mix".to_string()).unwrap();
    manager.add_song_to_current_playlist(song("a")).unwrap();
    manager.add_song_to_current_playlist(song("b")).unwrap();
    manager.add_song_to_current_playlist(song("c")).unwrap();
    assert_eq!(manager.remove_song_from_current_playlist(0), Ok(song("a")));
    assert_eq!(manager.get_current_playlist().unwrap().songs, vec![song("b"), song("c")]);
}

#[test]
fn remove_out_of_range_fails_and_keeps_length() {
    let mut manager = PlaylistManager::new();
    manager.create_playlist("mix".to_string()).unwrap();
    manager.add_song_to_current_playlist(song("a")).unwrap();
    manager.add_song_to_current_playlist(song("b")).unwrap();
    assert_eq!(manager.remove_song_from_current_playlist(2), Err(PlaylistError::RemoveFailed));
    assert_eq!(
        manager.remove_song_from_current_playlist(usize::MAX),
        Err(PlaylistError::RemoveFailed)
    );
    assert_eq!(manager.get_current_playlist().unwrap().len(), 2);
}

#[test]
fn remove_without_current_fails() {
    let mut manager = PlaylistManager::new();
    assert_eq!(manager.remove_song_from_current_playlist(0), Err(PlaylistError::RemoveFailed));
}

#[test]
fn set_current_needs_a_known_name() {
    let mut manager = PlaylistManager::new();
    manager.create_playlist("one".to_string()).unwrap();
    assert_eq!(
        manager.set_current_playlist("none"),
        Err(PlaylistError::NotFound("none".to_string()))
    );
    assert_eq!(manager.get_current_playlist().unwrap().name, "one");
    assert_eq!(manager.set_current_playlist("one"), Ok(()));
}

#[test]
fn current_playlist_can_be_changed_in_place() {
    let mut manager = PlaylistManager::new();
    assert!(manager.get_current_playlist_mut().is_none());
    manager.create_playlist("mix".to_string()).unwrap();
    manager.get_current_playlist_mut().unwrap().add_song(song("a"));
    assert_eq!(manager.get_current_playlist().unwrap().songs, vec![song("a")]);
}

#[test]
fn error_messages() {
    assert_eq!(
        PlaylistError::AlreadyExists("mix".to_string()).message(),
        "Playlist 'mix' already exists"
    );
    assert_eq!(PlaylistError::NotFound("mix".to_string()).message(), "Playlist 'mix' not found");
    assert_eq!(PlaylistError::NoCurrentPlaylist.message(), "No current playlist selected");
    assert_eq!(PlaylistError::RemoveFailed.message(), "Failed to remove song");
}

#[test]
fn save_unknown_name_fails() {
    let manager = PlaylistManager::new();
    assert_eq!(
        manager.save_playlist("none").err(),
        Some(PlaylistError::NotFound("none".to_string()))
    );
}

#[test]
fn save_then_load_keeps_name_and_songs() {
    let mut manager = PlaylistManager::new();
    manager.create_playlist("mix".to_string()).unwrap();
    manager.add_song_to_current_playlist(song("a")).unwrap();
    manager.add_song_to_current_playlist(song("b")).unwrap();
    manager.add_song_to_current_playlist(song("c")).unwrap();
    let written = manager.save_playlist("mix").unwrap().duplicate();

    let mut other = PlaylistManager::new();
    other.load_playlist(written);
    assert_eq!(other.get_playlist_names(), vec!["mix".to_string()]);
    assert!(other.get_current_playlist().is_none());
    other.set_current_playlist("mix").unwrap();
    let loaded = other.get_current_playlist().unwrap();
    assert_eq!(loaded.name, "mix");
    assert_eq!(loaded.songs, vec![song("a"), song("b"), song("c")]);
}

#[test]
fn load_replaces_the_playlist_of_that_name() {
    let mut manager = PlaylistManager::new();
    manager.create_playlist("mix".to_string()).unwrap();
    manager.add_song_to_current_playlist(song("a")).unwrap();
    manager.create_playlist("other".to_string()).unwrap();
    let mut fresh = Playlist::created_at("mix".to_string(), Timestamp { secs: 1, nanos: 2 });
    fresh.add_song(song("z"));
    manager.load_playlist(fresh);
    assert_eq!(manager.get_playlist_names().len(), 2);
    assert_eq!(manager.get_current_playlist().unwrap().name, "other");
    manager.set_current_playlist("mix").unwrap();
    assert_eq!(manager.get_current_playlist().unwrap().songs, vec![song("z")]);
    assert_eq!(manager.get_current_playlist().unwrap().created_at, Timestamp { secs: 1, nanos: 2 });
}

#[test]
fn scan_takes_audio_files_only() {
    let mut manager = PlaylistManager::new();
    let files = vec!["dir/a.mp3".to_string(), "dir/b.txt".to_string(), "dir/c.flac".to_string()];
    let songs = manager.scan_music_directory(&files).unwrap();
    assert_eq!(songs.len(), 2);
    assert_eq!(songs[0].title, "a");
    assert_eq!(songs[1].title, "c");
    for s in &songs {
        assert_eq!(s.artist, "Unknown");
        assert_eq!(s.duration, None);
    }
    assert_eq!(songs[0].file_path, "dir/a.mp3");
    assert_eq!(songs[1].file_path, "dir/c.flac");
    assert!(manager.get_playlist_names().is_empty());
}

#[test]
fn scan_ignores_case_and_leaves_out_aac() {
    let mut manager = PlaylistManager::new();
    let files = vec![
        "x/One.MP3".to_string(),
        "x/two.aac".to_string(),
        "x/three.Ogg".to_string(),
        "x/four".to_string(),
        "x/five.wav".to_string(),
        "x/six.m4a".to_string(),
    ];
    let songs = manager.scan_music_directory(&files).unwrap();
    let titles: Vec<&str> = songs.iter().map(|s| s.title.as_str()).collect();
    assert_eq!(titles, vec!["One", "three", "five", "six"]);
}

#[test]
fn scan_of_nothing_is_empty() {
    let mut manager = PlaylistManager::new();
    assert_eq!(manager.scan_music_directory(&Vec::new()), Ok(Vec::new()));
}
