//! The state of the audio output: which file is loaded, and whether it plays.
//!
//! The output itself belongs to the caller. Each method here says what the
//! state becomes, and hands back what the caller has to do to the output.

use crate::text::opt_chars;
use vstd::prelude::*;

verus! {

/// Why a file could not be played.
#[derive(Debug, Clone, Copy, PartialEq, Eq, Structural)]
pub enum AudioError {
    /// No output could be opened for the file.
    OutputUnavailable,
    /// The file could not be opened.
    OpenFailed,
    /// The file could not be decoded.
    DecodeFailed,
}

/// What the caller has to do to the output after a call.
#[derive(Debug, Clone, Copy, PartialEq, Eq, Structural)]
pub enum SinkCommand {
    /// Nothing.
    Nothing,
    /// Pause the output.
    Pause,
    /// Let the output play.
    Play,
    /// Stop the output and release it.
    Stop,
}

/// The audio state. Durations are in milliseconds.
pub struct AudioManager {
    sink_loaded: bool,
    current_file: Option<String>,
    is_playing: bool,
    is_paused: bool,
    current_duration: Option<u64>,
}

/// The audio state as plain values.
pub struct AudioView {
    pub loaded: bool,
    pub file: Option<Seq<char>>,
    pub playing: bool,
    pub paused: bool,
    pub duration: Option<u64>,
}

impl View for AudioManager {
    type V = AudioView;

    closed spec fn view(&self) -> AudioView {
        AudioView {
            loaded: self.sink_loaded,
            file: opt_chars(self.current_file),
            playing: self.is_playing,
            paused: self.is_paused,
            duration: self.current_duration,
        }
    }
}

/// The state in which nothing is loaded.
pub open spec fn stopped() -> AudioView {
    AudioView { loaded: false, file: None, playing: false, paused: false, duration: None }
}

/// The state right after `file` began to play.
pub open spec fn playing_file(file: Seq<char>, duration: Option<u64>) -> AudioView {
    AudioView { loaded: true, file: Some(file), playing: true, paused: false, duration }
}

/// The state after a request to pause: unchanged where nothing is loaded.
pub open spec fn paused(state: AudioView) -> AudioView {
    if state.loaded {
        AudioView { playing: false, paused: true, ..state }
    } else {
        state
    }
}

/// The state after a request to resume: unchanged where nothing is loaded.
pub open spec fn resumed(state: AudioView) -> AudioView {
    if state.loaded {
        AudioView { playing: true, paused: false, ..state }
    } else {
        state
    }
}

/// A file is loaded exactly when an output exists; with an output, exactly
/// one of playing and paused holds; without one, neither does, and no
/// duration is kept.
pub open spec fn consistent(state: AudioView) -> bool {
    &&& state.loaded <==> state.file is Some
    &&& state.loaded ==> state.playing != state.paused
    &&& !state.loaded ==> !state.playing && !state.paused && state.duration is None
}

/// The time, in milliseconds, that `queued` samples stand for.
pub open spec fn samples_to_millis(queued: nat) -> nat {
    queued * 1000 / 44100
}

/// The length, in milliseconds, of `frames` frames at `rate` frames per
/// second, where both are known.
pub open spec fn frames_to_millis(frames: Option<u64>, rate: Option<u32>) -> Option<nat> {
    match (frames, rate) {
        (Some(frames), Some(rate)) => Some(frames as nat * 1000 / rate as nat),
        _ => None,
    }
}

/// The length of a track in milliseconds, from the frame count and the rate
/// that a probe of the file found. A length beyond the range of `u64` is
/// reported as `u64::MAX`.
pub fn duration_from_frames(frames: Option<u64>, rate: Option<u32>) -> (duration: Option<u64>)
    requires
        frames is Some ==> rate != Some(0u32),
    ensures
        match frames_to_millis(frames, rate) {
            Some(millis) => duration == Some(
                if millis <= u64::MAX {
                    millis as u64
                } else {
                    u64::MAX
                },
            ),
            None => duration is None,
        },
{
    match (frames, rate) {
        (Some(frames), Some(rate)) => {
            let millis: u128 = frames as u128 * 1000 / rate as u128;
            if millis <= u64::MAX as u128 {
                Some(millis as u64)
            } else {
                Some(u64::MAX)
            }
        },
        _ => None,
    }
}

impl AudioManager {
    /// The invariant of the audio state.
    pub open spec fn wf(&self) -> bool {
        consistent(self@)
    }

    /// A manager with nothing loaded.
    pub fn new() -> (manager: AudioManager)
        ensures
            manager@ == stopped(),
            manager.wf(),
    {
        AudioManager {
            sink_loaded: false,
            current_file: None,
            is_playing: false,
            is_paused: false,
            current_duration: None,
        }
    }

    /// Records the outcome of loading `file_path` into a fresh output, any
    /// earlier playback having been stopped: on success the file plays, with
    /// the duration that the probe found; on failure nothing is loaded, and
    /// the error is handed on.
    pub fn play_file(&mut self, file_path: &str, loaded: Result<Option<u64>, AudioError>) -> (result:
        Result<(), AudioError>)
        ensures
            final(self).wf(),
            match loaded {
                Ok(duration) => result is Ok && final(self)@ == playing_file(file_path@, duration),
                Err(error) => result == Err::<(), AudioError>(error) && final(self)@ == stopped(),
            },
    {
        self.stop();
        match loaded {
            Ok(duration) => {
                self.sink_loaded = true;
                self.current_file = Some(file_path.to_owned());
                self.is_playing = true;
                self.is_paused = false;
                self.current_duration = duration;
                Ok(())
            },
            Err(error) => Err(error),
        }
    }

    /// Pauses, where a file is loaded.
    pub fn pause(&mut self) -> (command: SinkCommand)
        ensures
            final(self)@ == paused(old(self)@),
            command == if old(self)@.loaded {
                SinkCommand::Pause
            } else {
                SinkCommand::Nothing
            },
            old(self).wf() ==> final(self).wf(),
    {
        if self.sink_loaded {
            self.is_paused = true;
            self.is_playing = false;
            SinkCommand::Pause
        } else {
            SinkCommand::Nothing
        }
    }

    /// Resumes, where a file is loaded.
    pub fn resume(&mut self) -> (command: SinkCommand)
        ensures
            final(self)@ == resumed(old(self)@),
            command == if old(self)@.loaded {
                SinkCommand::Play
            } else {
                SinkCommand::Nothing
            },
            old(self).wf() ==> final(self).wf(),
    {
        if self.sink_loaded {
            self.is_playing = true;
            self.is_paused = false;
            SinkCommand::Play
        } else {
            SinkCommand::Nothing
        }
    }

    /// Stops: whatever was loaded is gone, with all that was known of it.
    pub fn stop(&mut self) -> (command: SinkCommand)
        ensures
            final(self)@ == stopped(),
            final(self).wf(),
            command == if old(self)@.loaded {
                SinkCommand::Stop
            } else {
                SinkCommand::Nothing
            },
    {
        let command = if self.sink_loaded {
            SinkCommand::Stop
        } else {
            SinkCommand::Nothing
        };
        self.sink_loaded = false;
        self.current_file = None;
        self.is_playing = false;
        self.is_paused = false;
        self.current_duration = None;
        command
    }

    /// Whether an output exists, to which a change of volume would apply.
    pub fn has_sink(&self) -> (loaded: bool)
        ensures
            loaded == self@.loaded,
    {
        self.sink_loaded
    }

    /// Whether the loaded file plays.
    pub fn is_playing(&self) -> (playing: bool)
        ensures
            playing == self@.playing,
    {
        self.is_playing
    }

    /// Whether the loaded file is paused.
    pub fn is_paused(&self) -> (paused: bool)
        ensures
            paused == self@.paused,
    {
        self.is_paused
    }

    /// The path of the loaded file.
    pub fn current_file(&self) -> (file: Option<&String>)
        ensures
            match file {
                Some(path) => self@.file == Some(path@),
                None => self@.file is None,
            },
    {
        self.current_file.as_ref()
    }

    /// The position that `queued` samples in the output stand for, in
    /// milliseconds; zero where nothing is loaded.
    pub fn get_position(&self, queued: usize) -> (millis: u64)
        ensures
            millis == if self@.loaded {
                samples_to_millis(queued as nat)
            } else {
                0
            },
    {
        self.get_current_position(queued)
    }

    /// The position that `queued` samples in the output stand for, in
    /// milliseconds; zero where nothing is loaded.
    pub fn get_current_position(&self, queued: usize) -> (millis: u64)
        ensures
            millis == if self@.loaded {
                samples_to_millis(queued as nat)
            } else {
                0
            },
    {
        if self.sink_loaded {
            (queued as u128 * 1000 / 44100) as u64
        } else {
            0
        }
    }

    /// The length of the loaded file, where the probe found one.
    pub fn get_total_duration(&self) -> (duration: Option<u64>)
        ensures
            duration == self@.duration,
    {
        self.current_duration
    }

    /// Whether the loaded file has played to its end: the output holds no
    /// more samples and is not paused.
    pub fn is_finished(&self, queued: usize, sink_paused: bool) -> (finished: bool)
        ensures
            finished == (self@.loaded && queued == 0 && !sink_paused),
    {
        self.sink_loaded && queued == 0 && !sink_paused
    }
}

} // verus!
