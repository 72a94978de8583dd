//! The audio worker: command handling for an audio backend.
//!
//! The backend itself (a library that pauses, resumes, mutes, rewinds and
//! stops a playing track) lives outside the crate, behind the
//! [`AudioPlayerControls`] trait that an embedding implements. The worker
//! here is the decision part: which backend call each command becomes, and
//! how the playback state moves. The channel loop lives in the shell.
use crate::errors::MyError;
use crate::runner::{toggled, State};
use vstd::prelude::*;

verus! {

/// The control commands the audio worker consumes.
#[derive(Debug, PartialEq, Eq, Structural, Clone, Copy)]
pub enum Control {
    /// Toggle between pause and continue.
    PauseContinue,
    /// Restart the track from its beginning.
    Replay,
    /// Toggle between mute and unmute.
    MuteUnmute,
    /// Stop playback and exit.
    Exit,
}

/// The operations an audio backend must offer. Implementations live outside
/// the crate, so nothing is assumed of them beyond their signatures.
pub trait AudioPlayerControls {
    /// Pauses playback.
    fn pause(&mut self) -> Result<(), MyError>;

    /// Resumes playback.
    fn resume(&mut self) -> Result<(), MyError>;

    /// Stops playback for good.
    fn stop(&mut self) -> Result<(), MyError>;

    /// Toggles between playing and paused.
    fn toggle_play(&mut self) -> Result<(), MyError>;

    /// Silences the output.
    fn mute(&mut self) -> Result<(), MyError>;

    /// Restores the output volume.
    fn unmute(&mut self) -> Result<(), MyError>;

    /// Rewinds to the start of the track.
    fn rewind(&mut self) -> Result<(), MyError>;

    /// Toggles between muted and audible.
    fn toggle_mute(&mut self) -> Result<(), MyError>;
}

/// The audio player: a thin holder for whichever backend the embedding
/// chose.
pub struct AudioPlayer<P: AudioPlayerControls> {
    pub player: P,
}

impl<P: AudioPlayerControls> AudioPlayer<P> {
    /// Wraps a backend instance.
    pub fn new(player: P) -> (r: Self)
        ensures
            r.player == player,
    {
        Self { player }
    }
}

/// How one command moves the audio worker's playback state: pause toggles
/// it, exit stops it for good, mute and replay leave it alone.
pub open spec fn audio_step(s: State, c: Control) -> State {
    match c {
        Control::PauseContinue => toggled(s),
        Control::Exit => State::Stopped,
        Control::MuteUnmute => s,
        Control::Replay => s,
    }
}

/// Stopping the audio worker is final: no later command revives it.
pub proof fn lemma_audio_stopped_absorbing(c: Control)
    ensures
        audio_step(State::Stopped, c) == State::Stopped,
{
}

/// The audio worker: the backend and the playback state.
pub struct Runner<P: AudioPlayerControls> {
    /// The audio player driving the backend.
    pub audio_player: AudioPlayer<P>,
    /// The playback state; `Stopped` ends the worker's loop.
    pub state: State,
}

impl<P: AudioPlayerControls> Runner<P> {
    /// A worker around the given player, in the `Running` state.
    pub fn new(audio_player: AudioPlayer<P>) -> (r: Self)
        ensures
            r.state == State::Running,
            r.audio_player == audio_player,
    {
        Self { audio_player, state: State::Running }
    }

    /// Serves one command: moves the playback state as [`audio_step`] says
    /// and makes the matching backend call, whose error is handed back.
    pub fn step(&mut self, control: Control) -> (r: Result<(), MyError>)
        ensures
            final(self).state == audio_step(old(self).state, control),
    {
        match control {
            Control::PauseContinue => {
                match self.state {
                    State::Running => self.state = State::Paused,
                    State::Paused => self.state = State::Running,
                    State::Stopped => {},
                }
                self.audio_player.player.toggle_play()
            },
            Control::MuteUnmute => self.audio_player.player.toggle_mute(),
            Control::Replay => self.audio_player.player.rewind(),
            Control::Exit => {
                self.state = State::Stopped;
                self.audio_player.player.stop()
            },
        }
    }
}

} // verus!
