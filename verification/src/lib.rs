//! A music player's core: playlists, the state of the audio output, and the
//! playback controller that ties selection, timers and auto-advance together.
//!
//! Everything here works on plain values. Whatever touches a sound device, a
//! file or a window lives with the caller, which reports what happened and
//! carries out the actions that the controller hands back.

pub mod audio;
pub mod playlist;
pub mod text;
pub mod ui;
pub mod utils;

pub use audio::AudioManager;
pub use playlist::{Playlist, PlaylistManager, Song};
pub use ui::MusicPlayerUI;
