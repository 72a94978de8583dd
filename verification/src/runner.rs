//! The frame producer: playback state, control handling, frame-rate gating,
//! frame skipping and quantization, one tick at a time.
//!
//! The [`Runner`] owns the frame source and the quantizer. Its driving shell
//! calls [`Runner::tick`] with the monotonic clock reading and the drained
//! control commands; the tick applies the commands, decides by the clock
//! whether a frame is due, skips what the wall clock already passed, pulls or
//! re-uses a frame by playback state, and quantizes it. Channels, threads and
//! the clock itself live in the shell.
use crate::char_maps::{
    blackwhite, blackwhite_seq, braille, braille_seq, bw_dotted, bw_dotted_seq, chars1, chars1_seq,
    chars2, chars2_seq, chars3, chars3_seq, dotted, dotted_seq, gradient, gradient_seq, solid,
    solid_seq,
};
use crate::errors::MyError;
use crate::frame::{opt_frame_view, Frame, FrameV};
use crate::frames::{
    lemma_media_step_wf, media_after_next, media_after_skip, media_frames_wf, media_next_frame,
    FrameIterator, MediaV,
};
use crate::image_pipeline::{quantized, ImagePipeline};
use crate::StringInfo;
use vstd::prelude::*;

verus! {

/// The playback state of the producer.
///
/// * `Running`: new frames are read and processed.
/// * `Paused`: no new frames are read; the cached frame is re-processed, so
///   that character map or resolution changes still reach the screen.
/// * `Stopped`: the producer ceases processing and exits. Stopped is final.
#[derive(Debug, PartialEq, Eq, Structural, Clone, Copy)]
pub enum State {
    Running,
    Paused,
    Stopped,
}

/// The control commands the producer consumes.
#[derive(Debug, PartialEq, Eq, Structural, Clone, Copy)]
pub enum Control {
    /// Toggle between pause and continue.
    PauseContinue,
    /// Stop playback and exit.
    Exit,
    /// Select the character map with the given index, modulo the number of
    /// registered maps.
    SetCharMap(u32),
    /// Set the target resolution, in terminal cells.
    Resize(u16, u16),
    /// Set grayscale mode. The producer always extracts both glyphs and
    /// colors; the terminal chooses the render mode, so this is carried but
    /// ignored here.
    SetGrayscale(bool),
}

/// The mathematical content of the producer's state.
pub struct RunnerV {
    /// The quantizer's target resolution, in cells.
    pub target: (u32, u32),
    /// The quantizer's current character map.
    pub char_map: Seq<char>,
    /// The target whole frames per second.
    pub fps: int,
    /// The playback state.
    pub state: State,
    /// The cell-width compensation divisor.
    pub w_mod: int,
    /// The registered character maps, selectable by index.
    pub char_maps: Seq<Seq<char>>,
    /// The frame source.
    pub media: MediaV,
    /// The frame cached for re-processing while paused.
    pub last_frame: Option<FrameV>,
    /// The scheduled instant of the next frame, in nanoseconds of the
    /// driving shell's monotonic clock.
    pub next_tick_ns: int,
}

/// The frame producer.
pub struct Runner {
    /// The quantizer.
    pub pipeline: ImagePipeline,
    /// The frame source.
    pub media: FrameIterator,
    /// The target whole frames per second.
    pub fps: u64,
    /// The playback state.
    pub state: State,
    /// The cell-width compensation divisor (2 for double-width glyphs).
    pub w_mod: u32,
    /// The registered character maps, selectable by `Control::SetCharMap`.
    pub char_maps: Vec<Vec<char>>,
    /// The frame cached for re-processing while paused.
    pub last_frame: Option<Frame>,
    /// The scheduled instant of the next frame, in clock nanoseconds.
    pub next_tick_ns: u64,
}

impl View for Runner {
    type V = RunnerV;

    open spec fn view(&self) -> RunnerV {
        RunnerV {
            target: self.pipeline.target_resolution,
            char_map: self.pipeline.char_map@,
            fps: self.fps as int,
            state: self.state,
            w_mod: self.w_mod as int,
            char_maps: self.char_maps@.map_values(|m: Vec<char>| m@),
            media: self.media@,
            last_frame: opt_frame_view(self.last_frame),
            next_tick_ns: self.next_tick_ns as int,
        }
    }
}

/// The pause toggle: `Running` and `Paused` swap; `Stopped` stays.
pub open spec fn toggled(s: State) -> State {
    match s {
        State::Running => State::Paused,
        State::Paused => State::Running,
        State::Stopped => State::Stopped,
    }
}

/// What one control command does to the producer.
///
/// * `PauseContinue` toggles the playback state.
/// * `Exit` stops it.
/// * `Resize(w, h)` points the quantizer at `(w / w_mod, h)` cells.
/// * `SetCharMap(k)` selects registered map `k`, modulo their number.
/// * `SetGrayscale` changes nothing here.
pub open spec fn step_control(r: RunnerV, c: Control) -> RunnerV {
    match c {
        Control::PauseContinue => RunnerV { state: toggled(r.state), ..r },
        Control::Exit => RunnerV { state: State::Stopped, ..r },
        Control::Resize(w, h) => RunnerV {
            target: (((w as int) / r.w_mod) as u32, h as u32),
            ..r
        },
        Control::SetCharMap(k) => RunnerV {
            char_map: r.char_maps[(k as int) % (r.char_maps.len() as int)],
            ..r
        },
        Control::SetGrayscale(_) => r,
    }
}

/// The effect of a whole command sequence, first command first.
pub open spec fn steps(r: RunnerV, cs: Seq<Control>) -> RunnerV
    decreases cs.len(),
{
    if cs.len() == 0 {
        r
    } else {
        steps(step_control(r, cs[0]), cs.skip(1))
    }
}

/// Commands compose: running `a` then `b` equals running `a + b`.
pub proof fn lemma_steps_app(r: RunnerV, a: Seq<Control>, b: Seq<Control>)
    ensures
        steps(r, a + b) == steps(steps(r, a), b),
    decreases a.len(),
{
    if a.len() == 0 {
        assert(a + b =~= b);
    } else {
        assert((a + b).skip(1) =~= a.skip(1) + b);
        lemma_steps_app(step_control(r, a[0]), a.skip(1), b);
    }
}

/// One more command extends the fold by one step.
pub proof fn lemma_steps_snoc(r: RunnerV, cs: Seq<Control>, i: int)
    requires
        0 <= i < cs.len(),
    ensures
        steps(r, cs.take(i + 1)) == step_control(steps(r, cs.take(i)), cs[i]),
{
    assert(cs.take(i + 1) =~= cs.take(i) + seq![cs[i]]);
    lemma_steps_app(r, cs.take(i), seq![cs[i]]);
    let m = steps(r, cs.take(i));
    assert(seq![cs[i]].skip(1) =~= Seq::<Control>::empty());
    assert(steps(m, seq![cs[i]]) == steps(step_control(m, cs[i]), seq![cs[i]].skip(1)));
    assert(steps(step_control(m, cs[i]), Seq::<Control>::empty()) == step_control(m, cs[i]));
}

/// Control commands never touch the source, the cache, the clock schedule,
/// the frame rate, the width divisor or the registered maps.
pub proof fn lemma_steps_preserves(r: RunnerV, cs: Seq<Control>)
    ensures
        steps(r, cs).fps == r.fps,
        steps(r, cs).w_mod == r.w_mod,
        steps(r, cs).char_maps == r.char_maps,
        steps(r, cs).media == r.media,
        steps(r, cs).last_frame == r.last_frame,
        steps(r, cs).next_tick_ns == r.next_tick_ns,
    decreases cs.len(),
{
    if cs.len() > 0 {
        lemma_steps_preserves(step_control(r, cs[0]), cs.skip(1));
    }
}

/// The nanoseconds between two scheduled frames at `fps` whole frames per
/// second.
pub open spec fn period_of(fps: int) -> int {
    1_000_000_000int / fps
}

/// One whole tick of the producer, at the level of mathematical values: what
/// the state becomes and which artifact, if any, is produced.
///
/// The commands are applied first; the clock gate then advances the schedule
/// past every frame slot the wall clock has already passed; when a frame is
/// due and playback is not stopped, the source may skip, the frame is pulled
/// (or, paused, the cache is re-used) and quantized.
pub open spec fn tick_spec(r0: RunnerV, cs: Seq<Control>, now: int, allow_skip: bool) -> (
    RunnerV,
    Option<(Seq<char>, Seq<u8>)>,
) {
    let r1 = steps(r0, cs);
    let refresh = cs.len() > 0;
    let period = period_of(r1.fps);
    let elapsed = now - r1.next_tick_ns;
    if elapsed >= period {
        let r2 = RunnerV { next_tick_ns: r1.next_tick_ns + period * (elapsed / period), ..r1 };
        let skips = elapsed / period - 1;
        if r2.state == State::Running || r2.state == State::Paused {
            let r3 = if skips > 0 && allow_skip {
                RunnerV { media: media_after_skip(r2.media, skips), ..r2 }
            } else {
                r2
            };
            let pulled = if r3.state == State::Running {
                media_next_frame(r3.media)
            } else {
                r3.last_frame
            };
            let r4 = if r3.state == State::Running {
                RunnerV { media: media_after_next(r3.media), ..r3 }
            } else {
                r3
            };
            match pulled {
                Some(f) => (
                    RunnerV { last_frame: Some(f), ..r4 },
                    quantized(r4.target, r4.char_map, f),
                ),
                None => if refresh && r4.last_frame is Some {
                    (r4, quantized(r4.target, r4.char_map, r4.last_frame.unwrap()))
                } else {
                    (r4, None)
                },
            }
        } else {
            (r2, None)
        }
    } else {
        (r1, None)
    }
}

/// What the producer owes for one processed frame: exactly the quantization
/// of that frame under the given target and character map, or nothing when
/// the quantizer rejects it.
pub open spec fn emits(
    target: (u32, u32),
    char_map: Seq<char>,
    f: FrameV,
    r: Option<StringInfo>,
) -> bool {
    match quantized(target, char_map, f) {
        Some(a) => r matches Some(si) && (si.0@, si.1@) == a,
        None => r is None,
    }
}


/// No control command leaves the stopped state: stopping is final.
pub proof fn lemma_stopped_absorbing_controls(r: RunnerV, cs: Seq<Control>)
    requires
        r.state == State::Stopped,
    ensures
        steps(r, cs).state == State::Stopped,
    decreases cs.len(),
{
    if cs.len() > 0 {
        lemma_stopped_absorbing_controls(step_control(r, cs[0]), cs.skip(1));
    }
}

/// Stopped is absorbing: once the producer has stopped, a tick emits no
/// artifact and leaves the source and the cached frame untouched, whatever
/// commands and clock readings arrive.
pub proof fn lemma_stopped_absorbing(r: RunnerV, cs: Seq<Control>, now: int, allow_skip: bool)
    requires
        steps(r, cs).state == State::Stopped,
    ensures
        tick_spec(r, cs, now, allow_skip).1 is None,
        tick_spec(r, cs, now, allow_skip).0.state == State::Stopped,
        tick_spec(r, cs, now, allow_skip).0.media == r.media,
        tick_spec(r, cs, now, allow_skip).0.last_frame == r.last_frame,
{
    lemma_steps_preserves(r, cs);
}

/// Resizing is idempotent: a repeated `Resize(w, h)` changes nothing, so the
/// artifacts produced after the second command equal those after the first.
pub proof fn lemma_resize_idempotent(r: RunnerV, w: u16, h: u16, f: FrameV)
    ensures
        step_control(step_control(r, Control::Resize(w, h)), Control::Resize(w, h))
            == step_control(r, Control::Resize(w, h)),
        ({
            let once = step_control(r, Control::Resize(w, h));
            let twice = step_control(once, Control::Resize(w, h));
            quantized(twice.target, twice.char_map, f) == quantized(once.target, once.char_map, f)
        }),
{
}

/// Character-map selection cycles: `SetCharMap(k)` and `SetCharMap(k + N)`,
/// with `N` the number of registered maps, select the same map, so the same
/// frame quantizes to byte-identical artifacts.
pub proof fn lemma_char_map_cycling(r: RunnerV, k: u32, n: u32, f: FrameV)
    requires
        r.char_maps.len() == n,
        1 <= n,
        k + n <= u32::MAX,
    ensures
        step_control(r, Control::SetCharMap(k)) == step_control(
            r,
            Control::SetCharMap((k + n) as u32),
        ),
        ({
            let once = step_control(r, Control::SetCharMap(k));
            let other = step_control(r, Control::SetCharMap((k + n) as u32));
            quantized(once.target, once.char_map, f) == quantized(
                other.target,
                other.char_map,
                f,
            )
        }),
{
    vstd::arithmetic::div_mod::lemma_mod_add_multiples_vanish(k as int, n as int);
}

/// Pause is observational: while paused with no incoming commands, every
/// tick that emits an artifact emits the quantization of the cached frame
/// under the current target and character map, so successive artifacts are
/// byte-identical.
pub proof fn lemma_pause_observational(r: RunnerV, now1: int, now2: int, allow_skip: bool)
    requires
        r.state == State::Paused,
    ensures
        ({
            let (ra, out1) = tick_spec(r, Seq::<Control>::empty(), now1, allow_skip);
            let (rb, out2) = tick_spec(ra, Seq::<Control>::empty(), now2, allow_skip);
            &&& ra.state == State::Paused
            &&& ra.target == r.target
            &&& ra.char_map == r.char_map
            &&& ra.last_frame == r.last_frame
            &&& (out1 is Some ==> r.last_frame is Some && out1 == quantized(
                r.target,
                r.char_map,
                r.last_frame.unwrap(),
            ))
            &&& (out2 is Some ==> r.last_frame is Some && out2 == quantized(
                r.target,
                r.char_map,
                r.last_frame.unwrap(),
            ))
            &&& (out1 is Some && out2 is Some ==> out1 == out2)
        }),
{
}


/// Back-pressure at the producer: a tick emits at most one artifact however
/// far the clock has run ahead; of the `floor(elapsed / period)` frame
/// slots the clock passed, all but one are skipped rather than emitted, and
/// the schedule catches up to within one period of the clock.
pub proof fn lemma_backpressure(r: RunnerV, cs: Seq<Control>, now: int, allow_skip: bool)
    requires
        1 <= r.fps <= 1_000_000_000,
        r.next_tick_ns <= now,
        now - r.next_tick_ns >= period_of(r.fps),
    ensures
        ({
            let (rv, out) = tick_spec(r, cs, now, allow_skip);
            let period = period_of(r.fps);
            let elapsed = now - r.next_tick_ns;
            &&& rv.next_tick_ns == r.next_tick_ns + period * (elapsed / period)
            &&& rv.next_tick_ns <= now
            &&& now - rv.next_tick_ns < period
        }),
{
    lemma_steps_preserves(r, cs);
    let period = period_of(r.fps);
    let elapsed = now - r.next_tick_ns;
    vstd::arithmetic::div_mod::lemma_div_is_ordered_by_denominator(
        1_000_000_000,
        r.fps,
        1_000_000_000,
    );
    vstd::arithmetic::div_mod::lemma_div_by_self(1_000_000_000);
    vstd::arithmetic::div_mod::lemma_fundamental_div_mod(elapsed, period);
    vstd::arithmetic::div_mod::lemma_mod_division_less_than_divisor(elapsed, period);
    assert(elapsed / period * period == period * (elapsed / period)) by (nonlinear_arith);
}

impl Runner {
    /// The producer's invariant: a usable quantizer, a frame rate between one
    /// frame per second and one per nanosecond, a width divisor of 1 or 2, at
    /// least one registered non-empty character map, and a well-formed,
    /// non-empty source.
    pub open spec fn wf(&self) -> bool {
        &&& self.pipeline.wf()
        &&& 1 <= self.fps <= 1_000_000_000
        &&& (self.w_mod == 1 || self.w_mod == 2)
        &&& 1 <= self.char_maps@.len() <= 0xffff_ffff
        &&& forall|i: int|
            0 <= i < self.char_maps@.len() ==> #[trigger] self.char_maps@[i]@.len() >= 1
        &&& self.media.wf()
        &&& (self.media matches FrameIterator::AnimatedImage { frames, .. } ==> frames@.len()
            >= 1)
    }

    /// Builds a producer in the `Running` state, with the schedule origin at
    /// clock zero and the given user map registered ahead of the nine
    /// built-in maps.
    pub fn init(pipeline: ImagePipeline, media: FrameIterator, fps: u64, w_mod: u32) -> (r:
        Runner)
        requires
            pipeline.wf(),
            1 <= fps <= 1_000_000_000,
            w_mod == 1 || w_mod == 2,
            media.wf(),
            media matches FrameIterator::AnimatedImage { frames, .. } ==> frames@.len() >= 1,
        ensures
            r.wf(),
            r@.target == pipeline.target_resolution,
            r@.char_map == pipeline.char_map@,
            r@.fps == fps as int,
            r@.state == State::Running,
            r@.w_mod == w_mod as int,
            r@.media == media@,
            r@.last_frame is None,
            r@.next_tick_ns == 0,
            r@.char_maps == seq![
                pipeline.char_map@,
                chars1_seq(),
                chars2_seq(),
                chars3_seq(),
                solid_seq(),
                dotted_seq(),
                gradient_seq(),
                blackwhite_seq(),
                bw_dotted_seq(),
                braille_seq(),
            ],
    {
        let user_map: Vec<char> = pipeline.char_map.clone();
        proof {
            assert(user_map@ =~= pipeline.char_map@);
        }
        let mut char_maps: Vec<Vec<char>> = Vec::new();
        char_maps.push(user_map);
        char_maps.push(chars1());
        char_maps.push(chars2());
        char_maps.push(chars3());
        char_maps.push(solid());
        char_maps.push(dotted());
        char_maps.push(gradient());
        char_maps.push(blackwhite());
        char_maps.push(bw_dotted());
        char_maps.push(braille());
        let r = Runner {
            pipeline,
            media,
            fps,
            state: State::Running,
            w_mod,
            char_maps,
            last_frame: None,
            next_tick_ns: 0,
        };
        proof {
            assert(r@.char_maps =~= seq![
                r.pipeline.char_map@,
                chars1_seq(),
                chars2_seq(),
                chars3_seq(),
                solid_seq(),
                dotted_seq(),
                gradient_seq(),
                blackwhite_seq(),
                bw_dotted_seq(),
                braille_seq(),
            ]);
        }
        r
    }

    /// Toggles between `Running` and `Paused`; `Stopped` stays stopped.
    fn toggle_pause(&mut self)
        ensures
            final(self)@ == (RunnerV { state: toggled(old(self)@.state), ..old(self)@ }),
            final(self).wf() == old(self).wf(),
    {
        match self.state {
            State::Running => self.state = State::Paused,
            State::Paused => self.state = State::Running,
            State::Stopped => {},
        }
    }

    /// Points the quantizer at `(width / w_mod, height)` cells.
    fn resize_pipeline(&mut self, width: u16, height: u16)
        requires
            old(self).wf(),
        ensures
            final(self)@ == (RunnerV {
                target: (((width as int) / old(self)@.w_mod) as u32, height as u32),
                ..old(self)@
            }),
            final(self).wf(),
    {
        let new_w: u16 = width / (self.w_mod as u16);
        self.pipeline.set_target_resolution(new_w as u32, height as u32);
    }

    /// Selects registered character map `char_map`, modulo their number.
    fn set_char_map(&mut self, char_map: u32)
        requires
            old(self).wf(),
        ensures
            final(self)@ == (RunnerV {
                char_map: old(self)@.char_maps[(char_map as int) % (old(
                    self,
                )@.char_maps.len() as int)],
                ..old(self)@
            }),
            final(self).wf(),
    {
        let n: u32 = self.char_maps.len() as u32;
        let idx: usize = (char_map % n) as usize;
        let chosen: Vec<char> = self.char_maps[idx].clone();
        proof {
            assert(chosen@ =~= self.char_maps@[idx as int]@);
            assert(self@.char_maps[idx as int] == self.char_maps@[idx as int]@);
        }
        self.pipeline.char_map = chosen;
    }

    /// Applies every drained control command, in order; reports whether any
    /// arrived, so the tick re-processes the cached frame even while paused.
    pub fn process_control_commands(&mut self, controls: Vec<Control>) -> (needs_refresh: bool)
        requires
            old(self).wf(),
        ensures
            final(self)@ == steps(old(self)@, controls@),
            final(self).wf(),
            needs_refresh == (controls@.len() > 0),
    {
        let needs_refresh: bool = controls.len() > 0;
        let n: usize = controls.len();
        let mut i: usize = 0;
        while i < n
            invariant
                self.wf(),
                n == controls@.len(),
                i <= n,
                self@ == steps(old(self)@, controls@.take(i as int)),
            decreases n - i,
        {
            let c: Control = controls[i];
            proof {
                lemma_steps_snoc(old(self)@, controls@, i as int);
            }
            match c {
                Control::PauseContinue => self.toggle_pause(),
                Control::Exit => {
                    self.state = State::Stopped;
                },
                Control::Resize(width, height) => self.resize_pipeline(width, height),
                Control::SetCharMap(k) => self.set_char_map(k),
                Control::SetGrayscale(_) => {},
            }
            i = i + 1;
        }
        proof {
            assert(controls@.take(n as int) =~= controls@);
        }
        needs_refresh
    }

    /// Decides by the monotonic clock whether the next frame is due. When it
    /// is, reports how many frame slots the wall clock already passed and
    /// advances the schedule past all of them, so the schedule never lags the
    /// clock by a full period.
    fn time_to_send_next_frame(&mut self, now_ns: u64) -> (r: (bool, u64))
        requires
            old(self).wf(),
            old(self).next_tick_ns <= now_ns,
        ensures
            final(self).wf(),
            final(self).next_tick_ns <= now_ns,
            ({
                let period = period_of(old(self)@.fps);
                let elapsed = now_ns - old(self)@.next_tick_ns;
                if elapsed >= period {
                    &&& r.0 == true
                    &&& r.1 == elapsed / period - 1
                    &&& final(self)@ == (RunnerV {
                        next_tick_ns: old(self)@.next_tick_ns + period * (elapsed / period),
                        ..old(self)@
                    })
                    &&& now_ns - final(self).next_tick_ns < period
                } else {
                    r == (false, 0u64) && *final(self) == *old(self)
                }
            }),
    {
        let period: u64 = 1_000_000_000u64 / self.fps;
        proof {
            vstd::arithmetic::div_mod::lemma_div_is_ordered_by_denominator(
                1_000_000_000,
                self.fps as int,
                1_000_000_000,
            );
            vstd::arithmetic::div_mod::lemma_div_by_self(1_000_000_000);
        }
        let elapsed: u64 = now_ns - self.next_tick_ns;
        if elapsed >= period {
            let q: u64 = elapsed / period;
            proof {
                vstd::arithmetic::div_mod::lemma_fundamental_div_mod(
                    elapsed as int,
                    period as int,
                );
                vstd::arithmetic::div_mod::lemma_mod_division_less_than_divisor(
                    elapsed as int,
                    period as int,
                );
                vstd::arithmetic::div_mod::lemma_div_is_ordered(
                    period as int,
                    elapsed as int,
                    period as int,
                );
                vstd::arithmetic::div_mod::lemma_div_by_self(period as int);
                assert((elapsed as int) / (period as int) * (period as int) == (period as int) * (
                (elapsed as int) / (period as int))) by (nonlinear_arith);
            }
            let skips: u64 = q - 1;
            self.next_tick_ns = self.next_tick_ns + period * q;
            (true, skips)
        } else {
            (false, 0)
        }
    }

    /// Whether a frame should be processed now: the clock gate has opened and
    /// playback is not stopped. The schedule advances in either case, as the
    /// clock does not pause.
    fn should_process_frame(&mut self, now_ns: u64) -> (r: (bool, u64))
        requires
            old(self).wf(),
            old(self).next_tick_ns <= now_ns,
        ensures
            final(self).wf(),
            final(self).next_tick_ns <= now_ns,
            ({
                let period = period_of(old(self)@.fps);
                let elapsed = now_ns - old(self)@.next_tick_ns;
                if elapsed >= period {
                    &&& final(self)@ == (RunnerV {
                        next_tick_ns: old(self)@.next_tick_ns + period * (elapsed / period),
                        ..old(self)@
                    })
                    &&& if old(self).state == State::Running || old(self).state == State::Paused {
                        r.0 == true && r.1 == elapsed / period - 1
                    } else {
                        r == (false, 0u64)
                    }
                } else {
                    r == (false, 0u64) && *final(self) == *old(self)
                }
            }),
    {
        let (time_due, frames_to_skip) = self.time_to_send_next_frame(now_ns);
        if time_due && (self.state == State::Running || self.state == State::Paused) {
            (true, frames_to_skip)
        } else {
            (false, 0)
        }
    }

    /// The frame for this tick: the next source frame while running, the
    /// cached frame while paused or stopped.
    fn get_current_frame(&mut self) -> (r: Option<Frame>)
        requires
            old(self).wf(),
        ensures
            final(self).wf(),
            if old(self).state == State::Running {
                opt_frame_view(r) == media_next_frame(old(self)@.media) && final(self)@ == (
                RunnerV { media: media_after_next(old(self)@.media), ..old(self)@ })
            } else {
                opt_frame_view(r) == old(self)@.last_frame && *final(self) == *old(self)
            },
    {
        match self.state {
            State::Running => self.media.next(),
            State::Paused | State::Stopped => self.last_frame.clone(),
        }
    }

    /// Quantizes one frame with the current target resolution and character
    /// map: the resized frame's glyph string and its RGB bytes.
    pub fn process_frame(&self, frame: &Frame) -> (r: Result<StringInfo, MyError>)
        requires
            self.wf(),
            frame.wf(),
        ensures
            r is Ok <==> quantized(self@.target, self@.char_map, frame@) is Some,
            r matches Ok(si) ==> Some((si.0@, si.1@)) == quantized(
                self@.target,
                self@.char_map,
                frame@,
            ),
            r matches Err(e) ==> e matches MyError::Pipeline(_),
    {
        match self.pipeline.resize(frame) {
            Ok(resized) => {
                let gray = resized.to_gray();
                let glyphs = self.pipeline.to_ascii(&gray);
                proof {
                    let rv = FrameV {
                        width: self.pipeline.target_resolution.0 as int,
                        height: self.pipeline.target_resolution.1 as int,
                        data: crate::image_pipeline::resized_seq(
                            frame@,
                            self.pipeline.target_resolution.0 as int,
                            self.pipeline.target_resolution.1 as int,
                        ),
                    };
                    assert(resized@ == rv);
                    assert(glyphs@ =~= crate::image_pipeline::glyphs_of(
                        self@.char_map,
                        crate::image_pipeline::gray_seq(rv),
                    ));
                }
                Ok((glyphs, resized.data))
            },
            Err(e) => Err(e),
        }
    }

    /// Processes the frame of this tick, if there is one. A fresh frame is
    /// cached and quantized; with none, the cached frame is re-quantized when
    /// a control command made a refresh necessary. A frame the quantizer
    /// rejects is dropped and playback continues.
    fn process_current_frame(&mut self, frame: Option<Frame>, refresh: bool) -> (r: Option<
        StringInfo,
    >)
        requires
            old(self).wf(),
            frame matches Some(f) ==> f.wf(),
            old(self).last_frame matches Some(f) ==> f.wf(),
        ensures
            final(self).wf(),
            final(self)@ == (RunnerV {
                last_frame: match frame {
                    Some(f) => Some(f@),
                    None => old(self)@.last_frame,
                },
                ..old(self)@
            }),
            match frame {
                Some(f) => emits(old(self)@.target, old(self)@.char_map, f@, r),
                None => if refresh && old(self)@.last_frame is Some {
                    emits(
                        old(self)@.target,
                        old(self)@.char_map,
                        old(self)@.last_frame.unwrap(),
                        r,
                    )
                } else {
                    r is None
                },
            },
    {
        match frame {
            Some(f) => {
                let out = match self.process_frame(&f) {
                    Ok(si) => Some(si),
                    Err(_) => None,
                };
                self.last_frame = Some(f);
                out
            },
            None => {
                if refresh {
                    match &self.last_frame {
                        Some(f) => match self.process_frame(f) {
                            Ok(si) => Some(si),
                            Err(_) => None,
                        },
                        None => None,
                    }
                } else {
                    None
                }
            },
        }
    }

    /// One iteration of the producer's loop: apply the drained control
    /// commands, gate on the clock, skip what the wall clock already passed,
    /// acquire a frame by playback state, and quantize it. Returns the
    /// artifact to send, if one is due; the caller owns the channel and the
    /// clock.
    pub fn tick(&mut self, now_ns: u64, controls: Vec<Control>, allow_frame_skip: bool) -> (r:
        Option<StringInfo>)
        requires
            old(self).wf(),
            old(self).next_tick_ns <= now_ns,
            old(self)@.last_frame matches Some(f) ==> f.wf(),
            media_frames_wf(old(self)@.media),
        ensures
            final(self).wf(),
            final(self).next_tick_ns <= now_ns,
            final(self)@.last_frame matches Some(f) ==> f.wf(),
            media_frames_wf(final(self)@.media),
            ({
                let (rv, out) = tick_spec(
                    old(self)@,
                    controls@,
                    now_ns as int,
                    allow_frame_skip,
                );
                &&& final(self)@ == rv
                &&& match r {
                    Some(si) => out == Some((si.0@, si.1@)),
                    None => out is None,
                }
            }),
    {
        let ghost r0 = self@;
        let ghost cs = controls@;
        let refresh = self.process_control_commands(controls);
        proof {
            lemma_steps_preserves(r0, cs);
        }
        let (should, skips) = self.should_process_frame(now_ns);
        let ghost r2 = self@;
        if should {
            if skips > 0 && allow_frame_skip {
                proof {
                    lemma_media_step_wf(r2.media, skips as int);
                }
                self.media.skip_frames(skips);
                proof {
                    assert(self@ == (RunnerV {
                        media: media_after_skip(r2.media, skips as int),
                        ..r2
                    }));
                }
            }
            let ghost r3 = self@;
            proof {
                lemma_media_step_wf(r3.media, 0);
            }
            let frame = self.get_current_frame();
            proof {
                if self.state == State::Running {
                    assert(self@ == (RunnerV { media: media_after_next(r3.media), ..r3 }));
                }
            }
            self.process_current_frame(frame, refresh)
        } else {
            None
        }
    }
}

} // verus!
