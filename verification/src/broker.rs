//! The command broker: fans user commands out to the workers.
//!
//! The terminal stays ignorant of which downstream workers exist for a given
//! media source; the broker knows, and routes each command to the frame
//! producer, the audio worker, both, or neither. Commands bound for a worker
//! that does not exist are silently dropped. The channel loop around this
//! logic lives in the shell.
use crate::audio::Control as AudioControl;
use crate::runner::Control as PipelineControl;
use vstd::prelude::*;

verus! {

/// The commands the terminal produces.
#[derive(Debug, PartialEq, Eq, Structural, Clone, Copy)]
pub enum Control {
    /// Toggle between pause and continue.
    PauseContinue,
    /// Stop playback and exit.
    Exit,
    /// Toggle between mute and unmute.
    MuteUnmute,
    /// Select the character map with the given index.
    SetCharMap(u32),
    /// Resize the target resolution of the frame producer, in terminal
    /// cells.
    Resize(u16, u16),
    /// Set grayscale mode; the terminal decides the render mode, the frame
    /// producer carries the flag.
    SetGrayscale(bool),
    /// Restart the audio track from its beginning.
    Replay,
}

/// What the frame producer receives for each user command, when a producer
/// exists: pause, exit, resize, character map and grayscale changes pass
/// through; mute and replay do not concern it.
pub open spec fn route_pipeline(c: Control) -> Option<PipelineControl> {
    match c {
        Control::PauseContinue => Some(PipelineControl::PauseContinue),
        Control::Exit => Some(PipelineControl::Exit),
        Control::Resize(w, h) => Some(PipelineControl::Resize(w, h)),
        Control::SetCharMap(k) => Some(PipelineControl::SetCharMap(k)),
        Control::SetGrayscale(g) => Some(PipelineControl::SetGrayscale(g)),
        Control::MuteUnmute => None,
        Control::Replay => None,
    }
}

/// What the audio worker receives for each user command, when an audio
/// channel exists: pause, exit, mute and replay pass through; the visual
/// commands do not concern it.
pub open spec fn route_audio(c: Control) -> Option<AudioControl> {
    match c {
        Control::PauseContinue => Some(AudioControl::PauseContinue),
        Control::Exit => Some(AudioControl::Exit),
        Control::MuteUnmute => Some(AudioControl::MuteUnmute),
        Control::Replay => Some(AudioControl::Replay),
        Control::Resize(_, _) => None,
        Control::SetCharMap(_) => None,
        Control::SetGrayscale(_) => None,
    }
}

/// The broker: which downstream workers exist, and whether it still runs.
pub struct MessageBroker {
    /// Whether a frame-producer channel exists.
    pub has_pipeline: bool,
    /// Whether an audio channel exists; without one, audio-bound commands
    /// are dropped.
    pub has_audio: bool,
    /// Whether the broker keeps serving; an `Exit` ends it.
    pub running: bool,
}

impl MessageBroker {
    /// A broker for the given downstream topology, ready to serve.
    pub fn new(has_pipeline: bool, has_audio: bool) -> (r: Self)
        ensures
            r.has_pipeline == has_pipeline,
            r.has_audio == has_audio,
            r.running,
    {
        Self { has_pipeline, has_audio, running: true }
    }

    /// Routes one user command: what to forward to the frame producer and to
    /// the audio worker. Nothing is ever bound for a worker that does not
    /// exist; after `Exit` the broker stops serving.
    pub fn handle(&mut self, c: Control) -> (r: (Option<PipelineControl>, Option<AudioControl>))
        ensures
            r.0 == if old(self).has_pipeline {
                route_pipeline(c)
            } else {
                None::<PipelineControl>
            },
            r.1 == if old(self).has_audio {
                route_audio(c)
            } else {
                None::<AudioControl>
            },
            !old(self).has_audio ==> r.1 is None,
            !old(self).has_pipeline ==> r.0 is None,
            final(self).has_pipeline == old(self).has_pipeline,
            final(self).has_audio == old(self).has_audio,
            final(self).running == (old(self).running && !(c matches Control::Exit)),
    {
        if matches!(c, Control::Exit) {
            self.running = false;
        }
        let to_pipeline = if self.has_pipeline {
            match c {
                Control::PauseContinue => Some(PipelineControl::PauseContinue),
                Control::Exit => Some(PipelineControl::Exit),
                Control::Resize(w, h) => Some(PipelineControl::Resize(w, h)),
                Control::SetCharMap(k) => Some(PipelineControl::SetCharMap(k)),
                Control::SetGrayscale(g) => Some(PipelineControl::SetGrayscale(g)),
                Control::MuteUnmute => None,
                Control::Replay => None,
            }
        } else {
            None
        };
        let to_audio = if self.has_audio {
            match c {
                Control::PauseContinue => Some(AudioControl::PauseContinue),
                Control::Exit => Some(AudioControl::Exit),
                Control::MuteUnmute => Some(AudioControl::MuteUnmute),
                Control::Replay => Some(AudioControl::Replay),
                Control::Resize(_, _) => None,
                Control::SetCharMap(_) => None,
                Control::SetGrayscale(_) => None,
            }
        } else {
            None
        };
        (to_pipeline, to_audio)
    }
}

} // verus!
