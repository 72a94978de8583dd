//! Tests of the command broker's fan-out and the terminal's key map.
use tplay::audio::Control as AudioControl;
use tplay::broker::{Control, MessageBroker};
use tplay::runner::Control as PipelineControl;
use tplay::runner::State;
use tplay::terminal::{TermEvent, Terminal};

#[test]
fn broker_routes_per_table() {
    let mut broker = MessageBroker::new(true, true);
    assert_eq!(
        broker.handle(Control::PauseContinue),
        (
            Some(PipelineControl::PauseContinue),
            Some(AudioControl::PauseContinue)
        )
    );
    assert_eq!(
        broker.handle(Control::Resize(80, 24)),
        (Some(PipelineControl::Resize(80, 24)), None)
    );
    assert_eq!(
        broker.handle(Control::SetCharMap(4)),
        (Some(PipelineControl::SetCharMap(4)), None)
    );
    assert_eq!(
        broker.handle(Control::SetGrayscale(true)),
        (Some(PipelineControl::SetGrayscale(true)), None)
    );
    assert_eq!(
        broker.handle(Control::MuteUnmute),
        (None, Some(AudioControl::MuteUnmute))
    );
    assert_eq!(
        broker.handle(Control::Replay),
        (None, Some(AudioControl::Replay))
    );
    assert!(broker.running);
    assert_eq!(
        broker.handle(Control::Exit),
        (Some(PipelineControl::Exit), Some(AudioControl::Exit))
    );
    assert!(!broker.running);
}

#[test]
fn broker_without_audio_stays_silent() {
    // No audio channel: nothing is ever bound for the audio worker.
    let mut broker = MessageBroker::new(true, false);
    assert_eq!(broker.handle(Control::MuteUnmute), (None, None));
    assert_eq!(broker.handle(Control::Replay), (None, None));
    assert_eq!(
        broker.handle(Control::PauseContinue),
        (Some(PipelineControl::PauseContinue), None)
    );
    assert_eq!(
        broker.handle(Control::Exit),
        (Some(PipelineControl::Exit), None)
    );
}

#[test]
fn broker_without_pipeline_stays_silent() {
    let mut broker = MessageBroker::new(false, true);
    assert_eq!(broker.handle(Control::Resize(10, 10)), (None, None));
    assert_eq!(
        broker.handle(Control::PauseContinue),
        (None, Some(AudioControl::PauseContinue))
    );
}

fn key(ch: char) -> TermEvent {
    TermEvent::Key { ch, ctrl: false }
}

#[test]
fn terminal_quit_keys() {
    for ev in [
        key('q'),
        key('Q'),
        TermEvent::Key { ch: 'c', ctrl: true },
        TermEvent::Key { ch: 'C', ctrl: true },
        TermEvent::Esc,
    ] {
        let mut term = Terminal::new("clip".to_string(), false);
        assert_eq!(term.handle_event(ev), Some(Control::Exit));
        assert_eq!(term.state, State::Stopped);
    }
    // A plain `c` is no quit key.
    let mut term = Terminal::new("clip".to_string(), false);
    assert_eq!(term.handle_event(key('c')), None);
    assert_eq!(term.state, State::Running);
}

#[test]
fn terminal_space_toggles_pause() {
    let mut term = Terminal::new("clip".to_string(), false);
    assert_eq!(term.handle_event(key(' ')), Some(Control::PauseContinue));
    assert_eq!(term.state, State::Paused);
    assert_eq!(term.handle_event(key(' ')), Some(Control::PauseContinue));
    assert_eq!(term.state, State::Running);
}

#[test]
fn terminal_grayscale_toggle() {
    let mut term = Terminal::new("clip".to_string(), false);
    assert_eq!(
        term.handle_event(key('g')),
        Some(Control::SetGrayscale(true))
    );
    assert!(term.use_grayscale);
    assert_eq!(
        term.handle_event(key('G')),
        Some(Control::SetGrayscale(false))
    );
    assert!(!term.use_grayscale);
}

#[test]
fn terminal_mute_and_digits() {
    let mut term = Terminal::new("clip".to_string(), false);
    assert_eq!(term.handle_event(key('m')), Some(Control::MuteUnmute));
    assert_eq!(term.handle_event(key('M')), Some(Control::MuteUnmute));
    assert_eq!(term.handle_event(key('0')), Some(Control::SetCharMap(0)));
    assert_eq!(term.handle_event(key('7')), Some(Control::SetCharMap(7)));
    assert_eq!(term.handle_event(key('9')), Some(Control::SetCharMap(9)));
    assert_eq!(term.handle_event(key('x')), None);
}

#[test]
fn terminal_resize_event() {
    let mut term = Terminal::new("clip".to_string(), false);
    assert_eq!(
        term.handle_event(TermEvent::Resize(132, 43)),
        Some(Control::Resize(132, 43))
    );
    assert_eq!(term.state, State::Running);
}

#[test]
fn terminal_stopped_stays_stopped() {
    let mut term = Terminal::new("clip".to_string(), false);
    term.handle_event(key('q'));
    assert_eq!(term.state, State::Stopped);
    term.handle_event(key(' '));
    assert_eq!(term.state, State::Stopped);
    term.handle_event(TermEvent::Resize(1, 1));
    assert_eq!(term.state, State::Stopped);
}
