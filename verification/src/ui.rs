//! The playback controller: the song list, the selection, the timers that
//! track the position, and the decisions on what to play next.
//!
//! Times are in milliseconds on a clock that the caller reads. Where a song
//! has to be loaded, the controller says so in the action it returns; the
//! caller loads it and reports the outcome.

use crate::audio::{paused, playing_file, resumed, samples_to_millis, stopped, AudioError, AudioManager, AudioView, SinkCommand};
use crate::playlist::{is_scanned_extension, songs_view, strings_view, untagged_song, Song, SongView};
use crate::text::{extension, file_stem, path_extension, path_file_stem};
use crate::utils::{file_name_or_unknown, name_or_unknown};
use crate::playlist::scanned_extension_matches;
use vstd::prelude::*;
use vstd::string::*;

verus! {

/// How long, in milliseconds, the controller waits after a track's end
/// before it moves on.
pub const GRACE_MILLIS: u64 = 2000;

/// What the caller has to do after a call.
#[derive(Debug, Clone, Copy, PartialEq, Eq, Structural)]
pub enum PlayerAction {
    /// Pass this on to the output.
    Sink(SinkCommand),
    /// Load the song at this index of the list, play it, and report the
    /// outcome.
    Load(usize),
}

/// What the status line shows.
#[derive(Debug, Clone, Copy, PartialEq, Eq, Structural)]
pub enum Status {
    Waiting,
    Playing,
    Paused,
    Stopped,
}

/// The controller's state.
pub struct MusicPlayerUI {
    selected_song_index: Option<usize>,
    is_playing: bool,
    is_paused: bool,
    songs: Vec<Song>,
    selected_songs: Vec<usize>,
    current_position: u64,
    total_duration: Option<u64>,
    playback_start: Option<u64>,
    paused_at: Option<u64>,
    pending_next: bool,
    pending_next_time: Option<u64>,
}

/// The controller's state as plain values.
pub struct PlayerView {
    /// The song that plays, or is to play.
    pub selected: Option<usize>,
    pub playing: bool,
    pub paused: bool,
    pub songs: Seq<SongView>,
    /// The songs marked for removal.
    pub marked: Seq<usize>,
    pub position: u64,
    pub total: Option<u64>,
    /// When playback began, moved forward by the time spent paused.
    pub start: Option<u64>,
    /// The time played when playback was paused.
    pub paused_at: Option<u64>,
    /// Whether a track has ended and the next one waits for its turn.
    pub pending: bool,
    pub pending_since: Option<u64>,
}

impl View for MusicPlayerUI {
    type V = PlayerView;

    closed spec fn view(&self) -> PlayerView {
        PlayerView {
            selected: self.selected_song_index,
            playing: self.is_playing,
            paused: self.is_paused,
            songs: songs_view(self.songs@),
            marked: self.selected_songs@,
            position: self.current_position,
            total: self.total_duration,
            start: self.playback_start,
            paused_at: self.paused_at,
            pending: self.pending_next,
            pending_since: self.pending_next_time,
        }
    }
}

/// The state of a controller that was just made.
pub open spec fn initial() -> PlayerView {
    PlayerView {
        selected: None,
        playing: false,
        paused: false,
        songs: Seq::empty(),
        marked: Seq::empty(),
        position: 0,
        total: None,
        start: None,
        paused_at: None,
        pending: false,
        pending_since: None,
    }
}

/// The selection and every mark point at a song of the list, and a time
/// played is kept only for playback that has begun.
pub open spec fn valid(state: PlayerView) -> bool {
    &&& state.selected is Some ==> state.selected->0 < state.songs.len()
    &&& forall|k: int| 0 <= k < state.marked.len() ==> #[trigger] state.marked[k] < state.songs.len()
    &&& state.paused_at is Some ==> state.start is Some
}

/// The time from `start` to `now`; zero where `now` is the earlier.
pub open spec fn elapsed_since(start: u64, now: u64) -> u64 {
    if now >= start {
        (now - start) as u64
    } else {
        0
    }
}

/// The selection after a step forward through `len` songs, around the end.
pub open spec fn next_index(selected: Option<usize>, len: nat) -> Option<usize> {
    if len == 0 {
        selected
    } else {
        match selected {
            None => Some(0),
            Some(i) => if i == len - 1 {
                Some(0)
            } else {
                Some((i + 1) as usize)
            },
        }
    }
}

/// The selection after a step back through `len` songs, around the start.
pub open spec fn previous_index(selected: Option<usize>, len: nat) -> Option<usize> {
    if len == 0 {
        selected
    } else {
        match selected {
            None => Some((len - 1) as usize),
            Some(i) => if i == 0 {
                Some((len - 1) as usize)
            } else {
                Some((i - 1) as usize)
            },
        }
    }
}

/// The selection after `steps` steps forward.
pub open spec fn next_times(selected: Option<usize>, len: nat, steps: nat) -> Option<usize>
    decreases steps,
{
    if steps == 0 {
        selected
    } else {
        next_index(next_times(selected, len, (steps - 1) as nat), len)
    }
}

/// What a step in the list asks of the caller: to load the newly selected
/// song where one plays, else nothing.
pub open spec fn step_action(before: PlayerView, selected: Option<usize>) -> PlayerAction {
    if before.songs.len() > 0 && before.playing && !before.paused && selected is Some {
        PlayerAction::Load(selected->0)
    } else {
        PlayerAction::Sink(SinkCommand::Nothing)
    }
}

/// The state after a stop: no flags, no timers, the position at zero.
pub open spec fn halted(state: PlayerView) -> PlayerView {
    PlayerView {
        playing: false,
        paused: false,
        position: 0,
        total: None,
        start: None,
        paused_at: None,
        ..state
    }
}

/// The state after playback began at `now`.
pub open spec fn began(state: PlayerView, now: u64) -> PlayerView {
    PlayerView { playing: true, paused: false, start: Some(now), paused_at: None, ..state }
}

/// The state after playback switched to another song at `now`.
pub open spec fn switched(state: PlayerView, now: u64, total: Option<u64>) -> PlayerView {
    PlayerView { position: 0, total, ..began(state, now) }
}

/// The state after a pause at `now`: the time played so far is kept.
pub open spec fn pause_at(state: PlayerView, now: u64) -> PlayerView {
    PlayerView {
        playing: false,
        paused: true,
        paused_at: match state.start {
            Some(start) => Some(elapsed_since(start, now)),
            None => state.paused_at,
        },
        ..state
    }
}

/// The state after a resume at `now`: playback counts as begun as long ago
/// as had been played at the pause.
pub open spec fn resume_at(state: PlayerView, now: u64) -> PlayerView {
    PlayerView {
        playing: true,
        paused: false,
        start: match state.paused_at {
            Some(played) => Some((now - played) as u64),
            None => state.start,
        },
        paused_at: None,
        ..state
    }
}

/// Whether the play button pauses in this state.
pub open spec fn button_pauses(state: PlayerView) -> bool {
    state.playing && !state.paused
}

/// Whether a press of the play button at `now` can be handled: a resume
/// needs the time played to lie within the clock's past.
pub open spec fn can_toggle(state: PlayerView, now: u64) -> bool {
    !button_pauses(state) && state.paused && state.paused_at is Some ==> state.paused_at->0 <= now
}

/// The elapsed time to display at `now`.
pub open spec fn shown_elapsed(state: PlayerView, now: u64) -> u64 {
    if state.pending {
        match state.total {
            Some(total) => total,
            None => 1000,
        }
    } else {
        let elapsed = if state.playing && !state.paused {
            match state.start {
                Some(start) => elapsed_since(start, now),
                None => 0,
            }
        } else if state.paused {
            match state.paused_at {
                Some(played) => played,
                None => 0,
            }
        } else {
            0
        };
        match state.total {
            Some(total) if elapsed > total => total,
            _ => elapsed,
        }
    }
}

/// The status to display.
pub open spec fn shown_status(state: PlayerView) -> Status {
    if state.pending {
        Status::Waiting
    } else if state.playing && !state.paused {
        Status::Playing
    } else if state.paused {
        Status::Paused
    } else {
        Status::Stopped
    }
}

/// Whether moving on after a track's end stops playback: the list has songs
/// and the selected one is the last.
pub open spec fn advance_stops(state: PlayerView) -> bool {
    state.songs.len() > 0 && state.selected is Some && state.selected->0 >= state.songs.len() - 1
}

/// The state after moving on from a track's end: the next song is selected,
/// or, after the last one, playback is halted.
pub open spec fn advanced(state: PlayerView) -> PlayerView {
    if state.songs.len() == 0 {
        state
    } else if advance_stops(state) {
        halted(state)
    } else {
        PlayerView {
            selected: match state.selected {
                None => Some(0),
                Some(i) => Some((i + 1) as usize),
            },
            ..state
        }
    }
}

/// What moving on after a track's end asks of the caller.
pub open spec fn advance_action(state: PlayerView, audio: AudioView) -> PlayerAction {
    if state.songs.len() == 0 {
        PlayerAction::Sink(SinkCommand::Nothing)
    } else if advance_stops(state) {
        PlayerAction::Sink(
            if audio.loaded {
                SinkCommand::Stop
            } else {
                SinkCommand::Nothing
            },
        )
    } else {
        PlayerAction::Load(advanced(state).selected->0)
    }
}

/// The audio state after moving on from a track's end.
pub open spec fn advance_audio(state: PlayerView, audio: AudioView) -> AudioView {
    if advance_stops(state) {
        stopped()
    } else {
        audio
    }
}

/// The state after a tick at `now`, with `queued` samples left in the
/// output, which reports `sink_paused`.
///
/// While the next track waits, nothing changes until the grace time is over;
/// then the controller moves on. Otherwise the flags follow the audio state;
/// a track that plays and has ended starts the wait, with the position at the
/// track's length; one that still plays has its position and length read.
pub open spec fn ticked(
    state: PlayerView,
    audio: AudioView,
    now: u64,
    queued: usize,
    sink_paused: bool,
) -> PlayerView {
    if state.pending {
        if grace_over(state, now) {
            advanced(PlayerView { pending: false, pending_since: None, ..state })
        } else {
            state
        }
    } else {
        let synced = PlayerView { playing: audio.playing, paused: audio.paused, ..state };
        if synced.playing && !synced.paused {
            if audio.loaded && queued == 0 && !sink_paused {
                PlayerView {
                    position: match synced.total {
                        Some(total) => total,
                        None => synced.position,
                    },
                    pending: true,
                    pending_since: Some(now),
                    ..synced
                }
            } else {
                PlayerView {
                    position: if audio.loaded {
                        samples_to_millis(queued as nat) as u64
                    } else {
                        0
                    },
                    total: audio.duration,
                    ..synced
                }
            }
        } else {
            synced
        }
    }
}

/// Whether the wait after a track's end is over at `now`.
pub open spec fn grace_over(state: PlayerView, now: u64) -> bool {
    state.pending && state.pending_since is Some && elapsed_since(state.pending_since->0, now)
        >= GRACE_MILLIS
}

impl MusicPlayerUI {
    /// The invariant of the controller.
    pub open spec fn wf(&self) -> bool {
        valid(self@)
    }

    /// A controller with no songs, nothing selected and nothing playing.
    pub fn new() -> (ui: MusicPlayerUI)
        ensures
            ui@ == initial(),
            ui.wf(),
    {
        let ui = MusicPlayerUI {
            selected_song_index: None,
            is_playing: false,
            is_paused: false,
            songs: Vec::new(),
            selected_songs: Vec::new(),
            current_position: 0,
            total_duration: None,
            playback_start: None,
            paused_at: None,
            pending_next: false,
            pending_next_time: None,
        };
        assert(ui@.songs =~= Seq::empty());
        ui
    }

    /// The songs of the list.
    pub fn songs(&self) -> (songs: &Vec<Song>)
        ensures
            songs_view(songs@) == self@.songs,
    {
        &self.songs
    }

    /// The index of the selected song.
    pub fn selected_song_index(&self) -> (selected: Option<usize>)
        ensures
            selected == self@.selected,
    {
        self.selected_song_index
    }

    /// The indices of the songs marked for removal.
    pub fn selected_songs(&self) -> (marked: &Vec<usize>)
        ensures
            marked@ == self@.marked,
    {
        &self.selected_songs
    }

    /// Whether playback is on.
    pub fn is_playing(&self) -> (playing: bool)
        ensures
            playing == self@.playing,
    {
        self.is_playing
    }

    /// Whether playback is paused.
    pub fn is_paused(&self) -> (paused: bool)
        ensures
            paused == self@.paused,
    {
        self.is_paused
    }

    /// Whether a track has ended and the next one waits for its turn.
    pub fn is_pending(&self) -> (pending: bool)
        ensures
            pending == self@.pending,
    {
        self.pending_next
    }

    /// The position last read from the output, in milliseconds.
    pub fn current_position(&self) -> (position: u64)
        ensures
            position == self@.position,
    {
        self.current_position
    }

    /// The length of the track, where known, in milliseconds.
    pub fn total_duration(&self) -> (total: Option<u64>)
        ensures
            total == self@.total,
    {
        self.total_duration
    }

    /// Steps back in the list, around its start; with nothing selected, to
    /// the last song. An empty list is left alone.
    pub fn handle_previous(&mut self) -> (action: PlayerAction)
        requires
            old(self).wf(),
        ensures
            final(self).wf(),
            final(self)@ == (PlayerView {
                selected: previous_index(old(self)@.selected, old(self)@.songs.len()),
                ..old(self)@
            }),
            action == step_action(old(self)@, final(self)@.selected),
    {
        if self.songs.len() == 0 {
            return PlayerAction::Sink(SinkCommand::Nothing);
        }
        let target: usize = match self.selected_song_index {
            None => self.songs.len() - 1,
            Some(current) => if current == 0 {
                self.songs.len() - 1
            } else {
                current - 1
            },
        };
        self.selected_song_index = Some(target);
        if self.is_playing && !self.is_paused {
            PlayerAction::Load(target)
        } else {
            PlayerAction::Sink(SinkCommand::Nothing)
        }
    }

    /// Steps forward in the list, around its end; with nothing selected, to
    /// the first song. An empty list is left alone.
    pub fn handle_next(&mut self) -> (action: PlayerAction)
        requires
            old(self).wf(),
        ensures
            final(self).wf(),
            final(self)@ == (PlayerView {
                selected: next_index(old(self)@.selected, old(self)@.songs.len()),
                ..old(self)@
            }),
            action == step_action(old(self)@, final(self)@.selected),
    {
        if self.songs.len() == 0 {
            return PlayerAction::Sink(SinkCommand::Nothing);
        }
        let target: usize = match self.selected_song_index {
            None => 0,
            Some(current) => if current == self.songs.len() - 1 {
                0
            } else {
                current + 1
            },
        };
        self.selected_song_index = Some(target);
        if self.is_playing && !self.is_paused {
            PlayerAction::Load(target)
        } else {
            PlayerAction::Sink(SinkCommand::Nothing)
        }
    }

    /// Stops playback and clears the timers.
    pub fn handle_stop(&mut self, audio: &mut AudioManager) -> (action: PlayerAction)
        ensures
            final(self)@ == halted(old(self)@),
            final(audio)@ == stopped(),
            final(audio).wf(),
            old(self).wf() ==> final(self).wf(),
            action == PlayerAction::Sink(
                if old(audio)@.loaded {
                    SinkCommand::Stop
                } else {
                    SinkCommand::Nothing
                },
            ),
    {
        let command = audio.stop();
        self.halt();
        PlayerAction::Sink(command)
    }

    fn halt(&mut self)
        ensures
            final(self)@ == halted(old(self)@),
    {
        self.is_playing = false;
        self.is_paused = false;
        self.current_position = 0;
        self.total_duration = None;
        self.playback_start = None;
        self.paused_at = None;
    }

    /// Whether a press of the play button at `now` can be handled.
    pub fn can_toggle_at(&self, now: u64) -> (possible: bool)
        ensures
            possible == can_toggle(self@, now),
    {
        if !(self.is_playing && !self.is_paused) && self.is_paused {
            match self.paused_at {
                Some(played) => played <= now,
                None => true,
            }
        } else {
            true
        }
    }

    /// Handles the play button at `now`: pauses what plays, resumes what is
    /// paused, and else asks for the selected song to be loaded; the outcome
    /// of that goes to `start_selected_song`.
    pub fn handle_play_pause(&mut self, audio: &mut AudioManager, now: u64) -> (action:
        PlayerAction)
        requires
            can_toggle(old(self)@, now),
        ensures
            old(self).wf() ==> final(self).wf(),
            old(audio).wf() ==> final(audio).wf(),
            button_pauses(old(self)@) ==> {
                &&& final(self)@ == pause_at(old(self)@, now)
                &&& final(audio)@ == paused(old(audio)@)
                &&& action == PlayerAction::Sink(
                    if old(audio)@.loaded {
                        SinkCommand::Pause
                    } else {
                        SinkCommand::Nothing
                    },
                )
            },
            !button_pauses(old(self)@) && old(self)@.paused ==> {
                &&& final(self)@ == resume_at(old(self)@, now)
                &&& final(audio)@ == resumed(old(audio)@)
                &&& action == PlayerAction::Sink(
                    if old(audio)@.loaded {
                        SinkCommand::Play
                    } else {
                        SinkCommand::Nothing
                    },
                )
            },
            !button_pauses(old(self)@) && !old(self)@.paused ==> {
                &&& final(self)@ == old(self)@
                &&& final(audio)@ == old(audio)@
                &&& action == match old(self)@.selected {
                    Some(index) => PlayerAction::Load(index),
                    None => PlayerAction::Sink(SinkCommand::Nothing),
                }
            },
    {
        if self.is_playing && !self.is_paused {
            let command = audio.pause();
            self.is_paused = true;
            self.is_playing = false;
            if let Some(start) = self.playback_start {
                self.paused_at = Some(
                    if now >= start {
                        now - start
                    } else {
                        0
                    },
                );
            }
            PlayerAction::Sink(command)
        } else if self.is_paused {
            let command = audio.resume();
            self.is_playing = true;
            self.is_paused = false;
            if let Some(played) = self.paused_at {
                self.playback_start = Some(now - played);
            }
            self.paused_at = None;
            PlayerAction::Sink(command)
        } else {
            match self.selected_song_index {
                Some(index) => PlayerAction::Load(index),
                None => PlayerAction::Sink(SinkCommand::Nothing),
            }
        }
    }

    /// Records, at `now`, the outcome of loading the selected song after the
    /// play button asked for it. On success playback has begun; on failure
    /// the controller stays as it is and the error goes to the caller. With
    /// nothing selected, nothing happens.
    pub fn start_selected_song(
        &mut self,
        audio: &mut AudioManager,
        loaded: Result<Option<u64>, AudioError>,
        now: u64,
    ) -> (result: Result<(), AudioError>)
        requires
            old(self).wf(),
        ensures
            final(self).wf(),
            old(audio).wf() ==> final(audio).wf(),
            match (old(self)@.selected, loaded) {
                (Some(index), Ok(duration)) => {
                    &&& result is Ok
                    &&& final(self)@ == began(old(self)@, now)
                    &&& final(audio)@ == playing_file(
                        old(self)@.songs[index as int].file_path,
                        duration,
                    )
                },
                (Some(_), Err(error)) => {
                    &&& result == Err::<(), AudioError>(error)
                    &&& final(self)@ == old(self)@
                    &&& final(audio)@ == stopped()
                },
                (None, _) => {
                    &&& result is Ok
                    &&& final(self)@ == old(self)@
                    &&& final(audio)@ == old(audio)@
                },
            },
    {
        if let Some(index) = self.selected_song_index {
            match audio.play_file(self.songs[index].file_path.as_str(), loaded) {
                Ok(()) => {
                    self.is_playing = true;
                    self.is_paused = false;
                    self.playback_start = Some(now);
                    self.paused_at = None;
                    Ok(())
                },
                Err(error) => Err(error),
            }
        } else {
            Ok(())
        }
    }

    /// Records, at `now`, the outcome of loading the selected song after a
    /// step in the list or a move to the next track. On success playback has
    /// begun anew, with the position at zero and the length that was found;
    /// on failure the controller stays as it is and the error goes to the
    /// caller. With nothing selected, nothing happens.
    pub fn play_selected_song(
        &mut self,
        audio: &mut AudioManager,
        loaded: Result<Option<u64>, AudioError>,
        now: u64,
    ) -> (result: Result<(), AudioError>)
        requires
            old(self).wf(),
        ensures
            final(self).wf(),
            old(audio).wf() ==> final(audio).wf(),
            match (old(self)@.selected, loaded) {
                (Some(index), Ok(duration)) => {
                    &&& result is Ok
                    &&& final(self)@ == switched(old(self)@, now, duration)
                    &&& final(audio)@ == playing_file(
                        old(self)@.songs[index as int].file_path,
                        duration,
                    )
                },
                (Some(_), Err(error)) => {
                    &&& result == Err::<(), AudioError>(error)
                    &&& final(self)@ == old(self)@
                    &&& final(audio)@ == stopped()
                },
                (None, _) => {
                    &&& result is Ok
                    &&& final(self)@ == old(self)@
                    &&& final(audio)@ == old(audio)@
                },
            },
    {
        if let Some(index) = self.selected_song_index {
            match audio.play_file(self.songs[index].file_path.as_str(), loaded) {
                Ok(()) => {
                    self.is_playing = true;
                    self.is_paused = false;
                    self.playback_start = Some(now);
                    self.paused_at = None;
                    self.current_position = 0;
                    self.total_duration = audio.get_total_duration();
                    Ok(())
                },
                Err(error) => Err(error),
            }
        } else {
            Ok(())
        }
    }

    /// Moves on after a track's end: selects the next song and asks for it
    /// to be loaded, or, after the last song, stops playback. The outcome of
    /// a load goes to `play_selected_song`.
    pub fn auto_advance_to_next_song(&mut self, audio: &mut AudioManager) -> (action:
        PlayerAction)
        requires
            old(self).wf(),
        ensures
            final(self).wf(),
            old(audio).wf() ==> final(audio).wf(),
            final(self)@ == advanced(old(self)@),
            final(audio)@ == advance_audio(old(self)@, old(audio)@),
            action == advance_action(old(self)@, old(audio)@),
    {
        if self.songs.len() == 0 {
            return PlayerAction::Sink(SinkCommand::Nothing);
        }
        match self.selected_song_index {
            None => {
                self.selected_song_index = Some(0);
                PlayerAction::Load(0)
            },
            Some(current) => {
                if current < self.songs.len() - 1 {
                    self.selected_song_index = Some(current + 1);
                    PlayerAction::Load(current + 1)
                } else {
                    let command = audio.stop();
                    self.halt();
                    PlayerAction::Sink(command)
                }
            },
        }
    }

    /// One tick at `now`. `queued` is the number of samples left in the
    /// output and `sink_paused` whether the output reports a pause.
    pub fn update_playback_state(
        &mut self,
        audio: &mut AudioManager,
        now: u64,
        queued: usize,
        sink_paused: bool,
    ) -> (action: PlayerAction)
        requires
            old(self).wf(),
        ensures
            final(self).wf(),
            old(audio).wf() ==> final(audio).wf(),
            final(self)@ == ticked(old(self)@, old(audio)@, now, queued, sink_paused),
            grace_over(old(self)@, now) ==> {
                &&& final(audio)@ == advance_audio(old(self)@, old(audio)@)
                &&& action == advance_action(old(self)@, old(audio)@)
            },
            !grace_over(old(self)@, now) ==> {
                &&& final(audio)@ == old(audio)@
                &&& action == PlayerAction::Sink(SinkCommand::Nothing)
            },
    {
        if self.pending_next {
            if let Some(since) = self.pending_next_time {
                let waited: u64 = if now >= since {
                    now - since
                } else {
                    0
                };
                if waited >= GRACE_MILLIS {
                    self.pending_next = false;
                    self.pending_next_time = None;
                    return self.auto_advance_to_next_song(audio);
                }
            }
            return PlayerAction::Sink(SinkCommand::Nothing);
        }
        self.is_playing = audio.is_playing();
        self.is_paused = audio.is_paused();
        if self.is_playing && !self.is_paused {
            if audio.is_finished(queued, sink_paused) {
                if let Some(total) = self.total_duration {
                    self.current_position = total;
                }
                self.pending_next = true;
                self.pending_next_time = Some(now);
            } else {
                self.current_position = audio.get_current_position(queued);
                self.total_duration = audio.get_total_duration();
            }
        }
        PlayerAction::Sink(SinkCommand::Nothing)
    }

    /// Whether the song at `index` is marked for removal.
    pub fn is_marked(&self, index: usize) -> (marked: bool)
        ensures
            marked == self@.marked.contains(index),
    {
        let mut k: usize = 0;
        while k < self.selected_songs.len()
            invariant
                k <= self.selected_songs@.len(),
                forall|j: int| 0 <= j < k ==> self.selected_songs@[j] != index,
            decreases self.selected_songs.len() - k,
        {
            if self.selected_songs[k] == index {
                return true;
            }
            k += 1;
        }
        false
    }

    /// Handles a click on the song at `index`. A plain click selects the song
    /// and marks it alone; a click with the modifier held only flips the
    /// song's mark.
    pub fn click_song(&mut self, index: usize, modifier: bool)
        requires
            old(self).wf(),
            index < old(self)@.songs.len(),
        ensures
            final(self).wf(),
            final(self)@ == clicked(old(self)@, index, modifier),
    {
        if modifier {
            if self.is_marked(index) {
                let mut kept: Vec<usize> = Vec::new();
                let mut k: usize = 0;
                while k < self.selected_songs.len()
                    invariant
                        k <= self.selected_songs@.len(),
                        kept@ == without_mark(self.selected_songs@.take(k as int), index),
                        forall|j: int| 0 <= j < kept@.len() ==> #[trigger] kept@[j] < self.songs@.len(),
                        self.wf(),
                    decreases self.selected_songs.len() - k,
                {
                    let mark = self.selected_songs[k];
                    proof {
                        let upto = self.selected_songs@.take(k + 1);
                        assert(upto.drop_last() =~= self.selected_songs@.take(k as int));
                        assert(upto.last() == mark);
                        assert(self@.marked[k as int] < self@.songs.len());
                    }
                    if mark != index {
                        kept.push(mark);
                    }
                    k += 1;
                }
                assert(self.selected_songs@.take(k as int) =~= self.selected_songs@);
                self.selected_songs = kept;
            } else {
                self.selected_songs.push(index);
            }
        } else {
            self.selected_songs.clear();
            self.selected_songs.push(index);
            self.selected_song_index = Some(index);
            assert(self.selected_songs@ =~= seq![index]);
        }
    }

    /// Adds the audio file at `file_path` to the list, titled by its stem.
    pub fn add_song(&mut self, file_path: String)
        requires
            old(self).wf(),
        ensures
            final(self).wf(),
            final(self)@ == (PlayerView {
                songs: old(self)@.songs.push(picked_song(file_path@)),
                ..old(self)@
            }),
    {
        let title = file_name_or_unknown(file_stem(file_path.as_str()));
        let song = Song::untagged(title, file_path);
        self.songs.push(song);
        assert(songs_view(self.songs@) =~= songs_view(old(self).songs@).push(song@));
    }

    /// Adds the files that a walk through a folder met: each one whose
    /// extension is a scanned format, spelled in lowercase, titled by its
    /// stem.
    pub fn add_folder_songs(&mut self, files: &Vec<String>)
        requires
            old(self).wf(),
        ensures
            final(self).wf(),
            final(self)@ == (PlayerView {
                songs: old(self)@.songs + folder_songs(strings_view(files@)),
                ..old(self)@
            }),
    {
        let ghost paths = strings_view(files@);
        let ghost before = self@;
        let mut i: usize = 0;
        assert(before.songs + folder_songs(paths.take(0)) =~= before.songs);
        while i < files.len()
            invariant
                i <= files@.len(),
                paths == strings_view(files@),
                self@ == (PlayerView {
                    songs: before.songs + folder_songs(paths.take(i as int)),
                    ..before
                }),
                valid(before),
            decreases files.len() - i,
        {
            let path = files[i].as_str();
            let ext = match extension(path) {
                Some(ext) => ext,
                None => String::new(),
            };
            proof {
                assert(paths.take(i + 1).drop_last() =~= paths.take(i as int));
                assert(paths.take(i + 1).last() == path@);
            }
            if scanned_extension_matches(ext.as_str()) {
                let title = file_name_or_unknown(file_stem(path));
                let song = Song::untagged(title, files[i].clone());
                let ghost listed = songs_view(self.songs@);
                self.songs.push(song);
                assert(songs_view(self.songs@) =~= listed.push(song@));
                assert(listed.push(song@) =~= before.songs + folder_songs(paths.take(i + 1)));
            }
            i += 1;
        }
        assert(paths.take(i as int) =~= paths);
    }

    /// Removes the marked songs, and with them all marks and the selection.
    /// Without marks nothing changes.
    pub fn remove_selected_songs(&mut self)
        ensures
            old(self).wf() ==> final(self).wf(),
            final(self)@ == without_marked(old(self)@),
    {
        if self.selected_songs.len() == 0 {
            proof {
                assert(self@.marked =~= Seq::empty());
            }
            return ;
        }
        let mut kept: Vec<Song> = Vec::new();
        let ghost all = songs_view(self.songs@);
        let mut i: usize = 0;
        while i < self.songs.len()
            invariant
                i <= self.songs@.len(),
                all == songs_view(self.songs@),
                songs_view(kept@) == unmarked(all.take(i as int), self@.marked),
            decreases self.songs.len() - i,
        {
            let ghost listed = songs_view(kept@);
            proof {
                assert(all.take(i + 1).drop_last() =~= all.take(i as int));
                assert(all.take(i + 1).last() == self.songs@[i as int]@);
            }
            if !self.is_marked(i) {
                let song = self.songs[i].duplicate();
                kept.push(song);
                assert(songs_view(kept@) =~= listed.push(song@));
            }
            i += 1;
        }
        assert(all.take(i as int) =~= all);
        self.songs = kept;
        self.selected_songs.clear();
        self.selected_song_index = None;
    }

    /// Empties the list, and with it all marks and the selection.
    pub fn clear_all_songs(&mut self)
        ensures
            old(self).wf() ==> final(self).wf(),
            final(self)@ == (PlayerView {
                songs: Seq::empty(),
                marked: Seq::empty(),
                selected: None,
                ..old(self)@
            }),
    {
        self.songs.clear();
        self.selected_songs.clear();
        self.selected_song_index = None;
        assert(songs_view(self.songs@) =~= Seq::empty());
    }

    /// The elapsed time to display at `now`, in milliseconds: the time
    /// played, held at the track's length.
    pub fn elapsed(&self, now: u64) -> (millis: u64)
        ensures
            millis == shown_elapsed(self@, now),
    {
        if self.pending_next {
            return match self.total_duration {
                Some(total) => total,
                None => 1000,
            };
        }
        let elapsed: u64 = if self.is_playing && !self.is_paused {
            match self.playback_start {
                Some(start) => if now >= start {
                    now - start
                } else {
                    0
                },
                None => 0,
            }
        } else if self.is_paused {
            match self.paused_at {
                Some(played) => played,
                None => 0,
            }
        } else {
            0
        };
        match self.total_duration {
            Some(total) => if elapsed > total {
                total
            } else {
                elapsed
            },
            None => elapsed,
        }
    }

    /// The status to display.
    pub fn status(&self) -> (status: Status)
        ensures
            status == shown_status(self@),
    {
        if self.pending_next {
            Status::Waiting
        } else if self.is_playing && !self.is_paused {
            Status::Playing
        } else if self.is_paused {
            Status::Paused
        } else {
            Status::Stopped
        }
    }
}

/// The marks without `index`, in their order.
pub open spec fn without_mark(marked: Seq<usize>, index: usize) -> Seq<usize>
    decreases marked.len(),
{
    if marked.len() == 0 {
        Seq::empty()
    } else {
        let before = without_mark(marked.drop_last(), index);
        if marked.last() == index {
            before
        } else {
            before.push(marked.last())
        }
    }
}

/// The state after a click on the song at `index`.
pub open spec fn clicked(state: PlayerView, index: usize, modifier: bool) -> PlayerView {
    if modifier {
        PlayerView {
            marked: if state.marked.contains(index) {
                without_mark(state.marked, index)
            } else {
                state.marked.push(index)
            },
            ..state
        }
    } else {
        PlayerView { marked: seq![index], selected: Some(index), ..state }
    }
}

/// The song made of a file that was picked by hand.
pub open spec fn picked_song(path: Seq<char>) -> SongView {
    untagged_song(name_or_unknown(path_file_stem(path)), path)
}

/// Whether a file met in a folder is taken in: its extension, as it is
/// spelled, is a scanned format.
pub open spec fn folder_accepts(path: Seq<char>) -> bool {
    is_scanned_extension(
        match path_extension(path) {
            Some(ext) => ext,
            None => Seq::empty(),
        },
    )
}

/// The songs made of the files met in a folder, in the order met.
pub open spec fn folder_songs(files: Seq<Seq<char>>) -> Seq<SongView>
    decreases files.len(),
{
    if files.len() == 0 {
        Seq::empty()
    } else {
        let before = folder_songs(files.drop_last());
        if folder_accepts(files.last()) {
            before.push(picked_song(files.last()))
        } else {
            before
        }
    }
}

/// The songs that no mark points at, in their order.
pub open spec fn unmarked(songs: Seq<SongView>, marked: Seq<usize>) -> Seq<SongView>
    decreases songs.len(),
{
    if songs.len() == 0 {
        Seq::empty()
    } else {
        let before = unmarked(songs.drop_last(), marked);
        if marked.contains((songs.len() - 1) as usize) {
            before
        } else {
            before.push(songs.last())
        }
    }
}

/// The state after the marked songs were removed.
pub open spec fn without_marked(state: PlayerView) -> PlayerView {
    if state.marked.len() == 0 {
        state
    } else {
        PlayerView {
            songs: unmarked(state.songs, state.marked),
            marked: Seq::empty(),
            selected: None,
            ..state
        }
    }
}

/// From an unselected state, as many steps forward as the list is long, and
/// one more, lead to the first song: the steps go around the list.
pub proof fn lemma_next_goes_around(len: nat)
    requires
        0 < len <= usize::MAX,
    ensures
        next_times(None, len, len + 1) == Some(0usize),
{
    lemma_next_from_unselected(len, len);
    reveal_with_fuel(next_times, 2);
}

/// From an unselected state, `steps` steps forward within the list's length
/// lead to the song at `steps - 1`.
pub proof fn lemma_next_from_unselected(len: nat, steps: nat)
    requires
        0 < steps <= len <= usize::MAX,
    ensures
        next_times(None, len, steps) == Some((steps - 1) as usize),
    decreases steps,
{
    reveal_with_fuel(next_times, 2);
    if steps > 1 {
        lemma_next_from_unselected(len, (steps - 1) as nat);
    }
}

/// A step back from an unselected state selects the last song.
pub proof fn lemma_previous_from_unselected(len: nat)
    requires
        0 < len <= usize::MAX,
    ensures
        previous_index(None, len) == Some((len - 1) as usize),
{
}

/// The elapsed time shown right after a resume is the one shown right
/// before the pause, however long the pause lasted.
pub proof fn lemma_pause_resume_continuity(state: PlayerView, paused_time: u64, resumed_time: u64)
    requires
        valid(state),
        button_pauses(state),
        paused_time <= resumed_time,
    ensures
        valid(resume_at(pause_at(state, paused_time), resumed_time)),
        can_toggle(pause_at(state, paused_time), resumed_time),
        shown_elapsed(resume_at(pause_at(state, paused_time), resumed_time), resumed_time)
            == shown_elapsed(state, paused_time),
{
}

} // verus!
