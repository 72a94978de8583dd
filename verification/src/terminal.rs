//! The terminal's decision surface: the key map and the local state.
//!
//! The TTY itself — raw mode, the alternate screen, drawing, event polling —
//! belongs to the shell. The shell translates what it reads into a
//! [`TermEvent`] and asks [`Terminal::handle_event`] what to do: how the
//! local state moves and which command to send toward the broker.
use crate::broker::Control as MediaControl;
use crate::runner::{toggled, State};
use vstd::prelude::*;

verus! {

/// A keyboard or window event, as the shell reads it from the TTY.
#[derive(Debug, PartialEq, Eq, Structural, Clone, Copy)]
pub enum TermEvent {
    /// A character key, with the state of the control modifier.
    Key { ch: char, ctrl: bool },
    /// The escape key.
    Esc,
    /// The window was resized to the given width and height in cells.
    Resize(u16, u16),
    /// Any other event; it is ignored.
    Other,
}

/// The terminal's state: the window title, the playback state it mirrors,
/// and whether it renders in grayscale.
pub struct Terminal {
    /// The title of the terminal window.
    pub title: String,
    /// The playback state; `Stopped` ends the drawing loop.
    pub state: State,
    /// Whether frames are drawn without per-cell color.
    pub use_grayscale: bool,
}

/// The key map: what one event does to the terminal's state and which
/// command it sends.
///
/// * `q`, `Q`, control-`c`, control-`C`, escape: stop and send `Exit`.
/// * Space: toggle the local pause state and send `PauseContinue`.
/// * `g`, `G`: flip the grayscale flag and send it as `SetGrayscale`.
/// * `m`, `M`: send `MuteUnmute`.
/// * A decimal digit `d`: send `SetCharMap(d)`.
/// * A window resize: send `Resize` with the new extents.
/// * Everything else: do nothing.
pub open spec fn event_step(s: State, gray: bool, ev: TermEvent) -> (
    State,
    bool,
    Option<MediaControl>,
) {
    match ev {
        TermEvent::Esc => (State::Stopped, gray, Some(MediaControl::Exit)),
        TermEvent::Key { ch, ctrl } => {
            if ch == 'q' || ch == 'Q' || (ctrl && (ch == 'c' || ch == 'C')) {
                (State::Stopped, gray, Some(MediaControl::Exit))
            } else if ch == ' ' {
                (toggled(s), gray, Some(MediaControl::PauseContinue))
            } else if ch == 'g' || ch == 'G' {
                (s, !gray, Some(MediaControl::SetGrayscale(!gray)))
            } else if ch == 'm' || ch == 'M' {
                (s, gray, Some(MediaControl::MuteUnmute))
            } else if 48 <= ch as u32 && ch as u32 <= 57 {
                (s, gray, Some(MediaControl::SetCharMap((ch as u32 - 48) as u32)))
            } else {
                (s, gray, None)
            }
        },
        TermEvent::Resize(w, h) => (s, gray, Some(MediaControl::Resize(w, h))),
        TermEvent::Other => (s, gray, None),
    }
}

/// A stopped terminal stays stopped: no event revives the drawing loop.
pub proof fn lemma_terminal_stopped_absorbing(gray: bool, ev: TermEvent)
    ensures
        event_step(State::Stopped, gray, ev).0 == State::Stopped,
{
}

impl Terminal {
    /// A terminal in the `Running` state with the given title and render
    /// mode.
    pub fn new(title: String, use_grayscale: bool) -> (r: Self)
        ensures
            r.title@ == title@,
            r.state == State::Running,
            r.use_grayscale == use_grayscale,
    {
        Self { title, state: State::Running, use_grayscale }
    }

    /// Applies one event per the key map and returns the command to send,
    /// if any.
    pub fn handle_event(&mut self, event: TermEvent) -> (cmd: Option<MediaControl>)
        ensures
            ({
                let (s2, g2, c2) = event_step(
                    old(self).state,
                    old(self).use_grayscale,
                    event,
                );
                &&& final(self).state == s2
                &&& final(self).use_grayscale == g2
                &&& cmd == c2
                &&& final(self).title@ == old(self).title@
            }),
    {
        match event {
            TermEvent::Esc => {
                self.state = State::Stopped;
                Some(MediaControl::Exit)
            },
            TermEvent::Key { ch, ctrl } => {
                let code: u32 = ch as u32;
                if ch == 'q' || ch == 'Q' || (ctrl && (ch == 'c' || ch == 'C')) {
                    self.state = State::Stopped;
                    Some(MediaControl::Exit)
                } else if ch == ' ' {
                    match self.state {
                        State::Running => self.state = State::Paused,
                        State::Paused => self.state = State::Running,
                        State::Stopped => {},
                    }
                    Some(MediaControl::PauseContinue)
                } else if ch == 'g' || ch == 'G' {
                    self.use_grayscale = !self.use_grayscale;
                    Some(MediaControl::SetGrayscale(self.use_grayscale))
                } else if ch == 'm' || ch == 'M' {
                    Some(MediaControl::MuteUnmute)
                } else if 48 <= code && code <= 57 {
                    Some(MediaControl::SetCharMap(code - 48))
                } else {
                    None
                }
            },
            TermEvent::Resize(w, h) => Some(MediaControl::Resize(w, h)),
            TermEvent::Other => None,
        }
    }
}

} // verus!
