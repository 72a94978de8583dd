//! Tests of the probe-reply parsers, the open plan, the frame source and
//! the audio worker.
use tplay::audio::{AudioPlayer, AudioPlayerControls, Control as AudioControl, Runner as AudioRunner};
use tplay::errors::MyError;
use tplay::frame::Frame;
use tplay::frames::{FrameIterator, MediaKind, OpenPlan};
use tplay::char_maps::{
    blackwhite, braille, bw_dotted, chars1, chars2, chars3, dotted, gradient, solid,
};
use tplay::frames::{classify_media, plan_open};
use tplay::probe::{extract_fps, has_audio, parse_rational};
use tplay::runner::State;

#[test]
fn extract_fps_reads_the_probe_reply() {
    let reply = "{\"streams\":[{\"r_frame_rate\":\"30000/1001\"}]}";
    assert_eq!(extract_fps(reply), Some((30000, 1001)));
    let whole = "{\"streams\":[{\"r_frame_rate\":\"25\"}]}";
    assert_eq!(extract_fps(whole), Some((25, 1)));
}

#[test]
fn extract_fps_rejects_bad_replies() {
    assert_eq!(extract_fps("not json at all"), None);
    assert_eq!(extract_fps("{}"), None);
    assert_eq!(extract_fps("{\"streams\":[]}"), None);
    assert_eq!(extract_fps("{\"streams\":[{\"r_frame_rate\":24}]}"), None);
    // A zero denominator is no frame rate.
    assert_eq!(
        extract_fps("{\"streams\":[{\"r_frame_rate\":\"30/0\"}]}"),
        None
    );
}

#[test]
fn parse_rational_shapes() {
    assert_eq!(parse_rational("25"), Some((25, 1)));
    assert_eq!(parse_rational("30000/1001"), Some((30000, 1001)));
    assert_eq!(parse_rational("0/1"), Some((0, 1)));
    assert_eq!(parse_rational(""), None);
    assert_eq!(parse_rational("/2"), None);
    assert_eq!(parse_rational("2/"), None);
    assert_eq!(parse_rational("a/b"), None);
    assert_eq!(parse_rational("1/2/3"), None);
    assert_eq!(parse_rational("-1/2"), None);
    assert_eq!(parse_rational("1.5"), None);
    // More than a machine word holds.
    assert_eq!(parse_rational("99999999999999999999999"), None);
    assert_eq!(parse_rational("18446744073709551615"), Some((u64::MAX, 1)));
}

#[test]
fn has_audio_counts_streams() {
    assert_eq!(
        has_audio("{\"streams\":[{\"codec_name\":\"aac\"}]}").unwrap(),
        true
    );
    assert_eq!(has_audio("{\"streams\":[]}").unwrap(), false);
    assert_eq!(has_audio("{}").unwrap(), false);
    assert!(matches!(
        has_audio("no json here"),
        Err(MyError::Application(_))
    ));
}

#[test]
fn plan_open_dispatches_by_input() {
    assert_eq!(
        plan_open("https://www.youtube.com/watch?v=abc"),
        OpenPlan::Youtube
    );
    assert_eq!(
        plan_open("https://youtu.be/abc"),
        OpenPlan::Youtube
    );
    assert_eq!(
        plan_open("https://example.com/clip.png"),
        OpenPlan::RemoteFetch
    );
    assert_eq!(
        plan_open("movie.mp4"),
        OpenPlan::Local(MediaKind::Video)
    );
    assert_eq!(
        plan_open("/tmp/picture.jpeg"),
        OpenPlan::Local(MediaKind::Image)
    );
}

#[test]
fn classify_media_by_extension() {
    for p in ["a.png", "a.bmp", "a.ico", "a.tif", "a.tiff", "a.jpg", "a.jpeg"] {
        assert_eq!(classify_media(p), MediaKind::Image);
    }
    for p in ["a.mp4", "a.avi", "a.webm", "a.mkv", "a.mov", "a.flv", "a.ogg"] {
        assert_eq!(classify_media(p), MediaKind::Video);
    }
    assert_eq!(classify_media("a.gif"), MediaKind::AnimatedGif);
    assert_eq!(classify_media("a.webp"), MediaKind::AnimatedWebp);
    // Unknown or missing extensions are tried as video.
    assert_eq!(classify_media("a.unknown"), MediaKind::Video);
    assert_eq!(classify_media("noext"), MediaKind::Video);
    assert_eq!(classify_media(".hidden"), MediaKind::Video);
    assert_eq!(classify_media("dir.d/file"), MediaKind::Video);
    assert_eq!(classify_media("dir.d/pic.png"), MediaKind::Image);
}

fn tiny(level: u8) -> Frame {
    Frame::new(1, 1, vec![level, level, level]).unwrap()
}

#[test]
fn frame_iterator_yields_in_order() {
    let mut still = FrameIterator::Image(Some(tiny(9)));
    let first = still.next().unwrap();
    assert_eq!(first.data, vec![9, 9, 9]);
    assert!(still.next().is_none());

    let mut anim = FrameIterator::AnimatedImage {
        frames: vec![tiny(0), tiny(1), tiny(2)],
        current_frame: 0,
    };
    assert_eq!(anim.next().unwrap().data[0], 0);
    assert_eq!(anim.next().unwrap().data[0], 1);
    assert_eq!(anim.next().unwrap().data[0], 2);
    assert!(anim.next().is_none());
    anim.reset();
    assert_eq!(anim.next().unwrap().data[0], 0);
}

#[test]
fn frame_iterator_skip_wraps() {
    let mut anim = FrameIterator::AnimatedImage {
        frames: vec![tiny(0), tiny(1), tiny(2)],
        current_frame: 0,
    };
    anim.skip_frames(2);
    assert_eq!(anim.next().unwrap().data[0], 2);
    anim.skip_frames(4);
    // Cursor was 3 (past the end); 3 + 4 wraps to 1.
    assert_eq!(anim.next().unwrap().data[0], 1);

    let mut still = FrameIterator::Image(Some(tiny(5)));
    still.skip_frames(10);
    assert_eq!(still.next().unwrap().data[0], 5);
}

/// A backend that records which calls it received.
struct ScriptedBackend {
    calls: Vec<&'static str>,
}

impl AudioPlayerControls for ScriptedBackend {
    fn pause(&mut self) -> Result<(), MyError> {
        self.calls.push("pause");
        Ok(())
    }
    fn resume(&mut self) -> Result<(), MyError> {
        self.calls.push("resume");
        Ok(())
    }
    fn stop(&mut self) -> Result<(), MyError> {
        self.calls.push("stop");
        Ok(())
    }
    fn toggle_play(&mut self) -> Result<(), MyError> {
        self.calls.push("toggle_play");
        Ok(())
    }
    fn mute(&mut self) -> Result<(), MyError> {
        self.calls.push("mute");
        Ok(())
    }
    fn unmute(&mut self) -> Result<(), MyError> {
        self.calls.push("unmute");
        Ok(())
    }
    fn rewind(&mut self) -> Result<(), MyError> {
        self.calls.push("rewind");
        Ok(())
    }
    fn toggle_mute(&mut self) -> Result<(), MyError> {
        self.calls.push("toggle_mute");
        Ok(())
    }
}

#[test]
fn audio_worker_translates_commands() {
    let player = AudioPlayer::new(ScriptedBackend { calls: Vec::new() });
    let mut worker = AudioRunner::new(player);
    assert_eq!(worker.state, State::Running);
    worker.step(AudioControl::PauseContinue).unwrap();
    assert_eq!(worker.state, State::Paused);
    worker.step(AudioControl::MuteUnmute).unwrap();
    worker.step(AudioControl::Replay).unwrap();
    worker.step(AudioControl::PauseContinue).unwrap();
    assert_eq!(worker.state, State::Running);
    worker.step(AudioControl::Exit).unwrap();
    assert_eq!(worker.state, State::Stopped);
    // Stopped is final for the audio worker too.
    worker.step(AudioControl::PauseContinue).unwrap();
    assert_eq!(worker.state, State::Stopped);
    assert_eq!(
        worker.audio_player.player.calls,
        vec!["toggle_play", "toggle_mute", "rewind", "toggle_play", "stop", "toggle_play"]
    );
}

#[test]
fn error_messages_carry_their_text() {
    let e = MyError::Audio("backend gone".to_string());
    assert_eq!(e.message(), "backend gone".to_string());
    let e = MyError::Terminal("tty lost".to_string());
    assert_eq!(e.message(), "tty lost".to_string());
}

#[test]
fn char_maps_have_documented_sizes() {
    assert_eq!(chars1().len(), 10);
    assert_eq!(chars1(), vec![' ', '.', ':', '-', '=', '+', '*', '#', '%', '@']);
    assert_eq!(chars2().len(), 67);
    assert_eq!(chars3().len(), 92);
    assert_eq!(solid().len(), 1);
    assert_eq!(dotted().len(), 1);
    assert_eq!(gradient().len(), 5);
    assert_eq!(blackwhite().len(), 2);
    assert_eq!(bw_dotted().len(), 2);
    assert_eq!(braille().len(), 18);
}
