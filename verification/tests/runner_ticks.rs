//! Tests of the frame producer, driven by a simulated monotonic clock.
use tplay::channel::FrameChannel;
use tplay::char_maps::chars1;
use tplay::frame::Frame;
use tplay::frames::FrameIterator;
use tplay::image_pipeline::ImagePipeline;
use tplay::runner::{Control, Runner, State};

/// A 1x1 frame of the given gray level.
fn gray_frame(level: u8) -> Frame {
    Frame::new(1, 1, vec![level, level, level]).unwrap()
}

/// An animated source of `n` one-pixel frames with distinct gray levels.
fn counting_source(n: usize) -> FrameIterator {
    let mut frames = Vec::new();
    for i in 0..n {
        frames.push(gray_frame((i % 256) as u8));
    }
    FrameIterator::AnimatedImage { frames, current_frame: 0 }
}

fn make_runner(fps: u64, frames: usize) -> Runner {
    Runner::init(
        ImagePipeline::new((4, 2), chars1()),
        counting_source(frames),
        fps,
        1,
    )
}

const MS: u64 = 1_000_000;

#[test]
fn fps_throttling_ten_per_second() {
    // A source with a fresh frame on every pull, fps = 10, one second of
    // simulated time polled every millisecond: exactly ten artifacts.
    let mut runner = make_runner(10, 100);
    let mut produced: usize = 0;
    for t in 0..=1000u64 {
        if runner.tick(t * MS, vec![], false).is_some() {
            produced += 1;
        }
    }
    assert_eq!(produced, 10);
}

#[test]
fn consumer_stall_drops_at_the_send() {
    // The consumer empties the slot only every 500 ms; the producer's
    // artifacts find the slot full in between and are dropped there.
    let mut runner = make_runner(10, 100);
    let mut channel = FrameChannel::new();
    let mut produced: usize = 0;
    let mut accepted: usize = 0;
    let mut dropped: usize = 0;
    let mut received: usize = 0;
    for t in 0..=1000u64 {
        if let Some(artifact) = runner.tick(t * MS, vec![], false) {
            produced += 1;
            if channel.try_send(artifact) {
                accepted += 1;
            } else {
                dropped += 1;
            }
        }
        if t > 0 && t % 500 == 0 {
            if channel.try_recv().is_some() {
                received += 1;
            }
        }
    }
    assert_eq!(produced, 10);
    assert_eq!(received, 2);
    assert_eq!(accepted, 2);
    assert_eq!(dropped, 8);
}

#[test]
fn pause_and_resume_freeze_the_frame() {
    // Pause at t = 0.5 s, resume at t = 1.0 s: every artifact between is
    // byte-identical to the last pre-pause artifact.
    let mut runner = make_runner(10, 100);
    let mut last_before_pause = None;
    let mut paused_artifacts = Vec::new();
    let mut after_resume = None;
    for t in 0..=1500u64 {
        let cmds = if t == 500 || t == 1000 {
            vec![Control::PauseContinue]
        } else {
            vec![]
        };
        if let Some(a) = runner.tick(t * MS, cmds, false) {
            if t < 500 {
                last_before_pause = Some(a);
            } else if t < 1000 {
                paused_artifacts.push(a);
            } else if after_resume.is_none() {
                after_resume = Some(a);
            }
        }
    }
    let frozen = last_before_pause.unwrap();
    assert!(!paused_artifacts.is_empty());
    for a in &paused_artifacts {
        assert_eq!(a.0, frozen.0);
        assert_eq!(a.1, frozen.1);
    }
    // After the resume the source advances again.
    assert!(after_resume.unwrap().1 != frozen.1);
}

#[test]
fn resize_during_playback() {
    // Resize(80, 24) at t = 0.3 s, Resize(40, 12) at t = 0.6 s: artifacts
    // in between hold 80 * 24 cells, artifacts after hold 40 * 12.
    let mut runner = make_runner(10, 100);
    for t in 0..=300u64 {
        let cmds = if t == 300 {
            vec![Control::Resize(80, 24)]
        } else {
            vec![]
        };
        runner.tick(t * MS, cmds, false);
    }
    let mut middle = Vec::new();
    for t in 301..=600u64 {
        let cmds = if t == 600 {
            vec![Control::Resize(40, 12)]
        } else {
            vec![]
        };
        if let Some(a) = runner.tick(t * MS, cmds, false) {
            if t < 600 {
                middle.push(a);
            }
        }
    }
    let mut late = Vec::new();
    for t in 601..=900u64 {
        if let Some(a) = runner.tick(t * MS, vec![], false) {
            late.push(a);
        }
    }
    assert!(!middle.is_empty());
    for a in &middle {
        assert_eq!(a.0.chars().count(), 80 * 24);
        assert_eq!(a.1.len(), 3 * 80 * 24);
    }
    assert!(!late.is_empty());
    for a in &late {
        assert_eq!(a.0.chars().count(), 40 * 12);
        assert_eq!(a.1.len(), 3 * 40 * 12);
    }
}

#[test]
fn char_map_indices_wrap() {
    // With ten registered maps, SetCharMap(3) and SetCharMap(13) select the
    // same map: the artifacts for the same frame are byte-identical.
    let mut a = make_runner(10, 3);
    let mut b = make_runner(10, 3);
    let first = a.tick(100 * MS, vec![Control::SetCharMap(3)], false).unwrap();
    let second = b.tick(100 * MS, vec![Control::SetCharMap(13)], false).unwrap();
    assert_eq!(first.0, second.0);
    assert_eq!(first.1, second.1);
}

#[test]
fn exit_stops_for_good() {
    // Stopped is absorbing: after Exit no artifact is ever produced again,
    // whatever commands follow.
    let mut runner = make_runner(10, 100);
    assert!(runner.tick(100 * MS, vec![], false).is_some());
    assert!(runner.tick(200 * MS, vec![Control::Exit], false).is_none());
    assert_eq!(runner.state, State::Stopped);
    assert!(runner.tick(300 * MS, vec![Control::PauseContinue], false).is_none());
    assert!(runner.tick(400 * MS, vec![], false).is_none());
    assert_eq!(runner.state, State::Stopped);
}

#[test]
fn frame_skip_advances_the_source() {
    // With skipping allowed and the clock jumping three frame slots, the
    // source advances past the skipped frames: the artifact after the jump
    // shows a later gray level than the next in line.
    let mut with_skip = make_runner(10, 100);
    let mut without_skip = make_runner(10, 100);
    assert!(with_skip.tick(100 * MS, vec![], true).is_some());
    assert!(without_skip.tick(100 * MS, vec![], false).is_some());
    // Jump to t = 0.5 s: four periods late, three slots skipped.
    let jumped = with_skip.tick(500 * MS, vec![], true).unwrap();
    let plain = without_skip.tick(500 * MS, vec![], false).unwrap();
    // Gray level of the first color byte reveals which frame was pulled.
    assert_eq!(plain.1[0], 1);
    assert_eq!(jumped.1[0], 4);
}

#[test]
fn grayscale_command_is_carried_not_applied() {
    // SetGrayscale reaches the producer but changes nothing there.
    let mut a = make_runner(10, 3);
    let mut b = make_runner(10, 3);
    let plain = a.tick(100 * MS, vec![], false).unwrap();
    let toggled = b.tick(100 * MS, vec![Control::SetGrayscale(true)], false).unwrap();
    assert_eq!(plain.0, toggled.0);
    assert_eq!(plain.1, toggled.1);
}

#[test]
fn paused_source_untouched() {
    // While paused the source is not pulled: after a pause-resume pair the
    // next artifact continues where playback left off.
    let mut runner = make_runner(10, 100);
    let first = runner.tick(100 * MS, vec![], false).unwrap();
    assert_eq!(first.1[0], 0);
    runner.tick(200 * MS, vec![Control::PauseContinue], false);
    runner.tick(300 * MS, vec![], false);
    runner.tick(400 * MS, vec![Control::PauseContinue], false);
    let next = runner.tick(500 * MS, vec![], false).unwrap();
    assert_eq!(next.1[0], 2);
}

#[test]
fn still_image_stops_after_one_frame() {
    // A still image yields its one frame; later ticks without a refresh
    // produce nothing, but a control command re-processes the cache.
    let frame = gray_frame(7);
    let mut runner = Runner::init(
        ImagePipeline::new((2, 1), chars1()),
        FrameIterator::Image(Some(frame)),
        10,
        1,
    );
    let first = runner.tick(100 * MS, vec![], false).unwrap();
    assert_eq!(first.1.len(), 6);
    assert!(runner.tick(200 * MS, vec![], false).is_none());
    let refreshed = runner.tick(300 * MS, vec![Control::Resize(3, 1)], false).unwrap();
    assert_eq!(refreshed.1.len(), 9);
}

#[test]
fn resize_twice_is_resize_once() {
    // Receiving the same Resize(w, h) twice in sequence produces identical
    // subsequent artifacts.
    let mut once = make_runner(10, 3);
    let mut twice = make_runner(10, 3);
    let a = once.tick(100 * MS, vec![Control::Resize(31, 7)], false).unwrap();
    let b = twice
        .tick(
            100 * MS,
            vec![Control::Resize(31, 7), Control::Resize(31, 7)],
            false,
        )
        .unwrap();
    assert_eq!(a.0, b.0);
    assert_eq!(a.1, b.1);
    // And the artifacts after those ticks stay identical too.
    let a2 = once.tick(200 * MS, vec![], false).unwrap();
    let b2 = twice.tick(200 * MS, vec![], false).unwrap();
    assert_eq!(a2.0, b2.0);
    assert_eq!(a2.1, b2.1);
}
