//! A terminal media player core: decoded frames are quantized into character
//! art and streamed to a terminal at a target frame rate, steered by
//! asynchronous user commands.
//!
//! The crate holds the playback engine itself: the quantizer that turns an RGB
//! frame into a glyph string plus per-cell colors, the frame-producer state
//! machine with pause/resume, re-quantization, frame skipping and frame-rate
//! gating, the command broker's fan-out rules, the bounded frame slot that
//! gives back-pressure, the terminal key map, and the parsers for the probe
//! tool output. Decoding of media containers, the TTY, audio backends and all
//! other I/O live outside, in thin unverified shells that feed this crate
//! plain values.
use vstd::prelude::*;

pub mod audio;
pub mod broker;
pub mod channel;
pub mod char_maps;
pub mod errors;
pub mod frame;
pub mod frames;
pub mod image_pipeline;
pub mod probe;
pub mod runner;
pub mod terminal;
pub mod text;

verus! {

/// A processed frame as handed to the terminal: the glyph string (one
/// character per cell, row-major, no line terminators) and the RGB bytes
/// (three per cell, row-major).
pub type StringInfo = (String, Vec<u8>);

} // verus!
