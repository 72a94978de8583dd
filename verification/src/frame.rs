//! Decoded frames as plain byte buffers.
//!
//! A [`Frame`] is an RGB image in row-major order, three bytes per pixel; a
//! [`GrayFrame`] is its luminance image, one byte per pixel. The decoding
//! shells construct `Frame`s from whatever container they read; everything
//! downstream works on these buffers alone.
use crate::errors::MyError;
use vstd::prelude::*;

verus! {

/// An RGB image: `data` holds `3 * width * height` bytes, row-major, three
/// bytes (red, green, blue) per pixel.
#[derive(Debug)]
pub struct Frame {
    pub width: u32,
    pub height: u32,
    pub data: Vec<u8>,
}

/// A grayscale image: `data` holds `width * height` luminance bytes,
/// row-major.
#[derive(Debug)]
pub struct GrayFrame {
    pub width: u32,
    pub height: u32,
    pub data: Vec<u8>,
}

/// The luminance of one RGB pixel: the Rec. 709 weighting
/// `(2126 R + 7152 G + 722 B) / 10000`, in integer arithmetic. The weights
/// sum to 10000, so a gray pixel keeps its value.
pub open spec fn luma_of(r: u8, g: u8, b: u8) -> int {
    (2126 * r + 7152 * g + 722 * b) / 10000
}

/// The luminance of every pixel lies in a byte's range.
pub proof fn lemma_luma_in_range(r: u8, g: u8, b: u8)
    ensures
        0 <= luma_of(r, g, b) <= 255,
{
}

/// The mathematical content of a frame: its extents and its bytes.
pub struct FrameV {
    pub width: int,
    pub height: int,
    pub data: Seq<u8>,
}

impl FrameV {
    /// The buffer holds exactly three bytes per pixel.
    pub open spec fn wf(&self) -> bool {
        self.data.len() == 3 * self.width * self.height
    }
}

impl View for Frame {
    type V = FrameV;

    open spec fn view(&self) -> FrameV {
        FrameV { width: self.width as int, height: self.height as int, data: self.data@ }
    }
}

/// Two frames carry the same image: same extents, same bytes.
pub open spec fn frame_eq(a: Frame, b: Frame) -> bool {
    a@ == b@
}

/// The views of an optional frame, for contracts over cached frames.
pub open spec fn opt_frame_view(f: Option<Frame>) -> Option<FrameV> {
    match f {
        Some(fr) => Some(fr@),
        None => None,
    }
}

impl Clone for Frame {
    /// A clone carries the same image.
    fn clone(&self) -> (r: Self)
        ensures
            frame_eq(r, *self),
    {
        let data = self.data.clone();
        proof {
            assert(data@ =~= self.data@);
        }
        Frame { width: self.width, height: self.height, data }
    }
}

impl Frame {
    /// The frame's buffer holds exactly three bytes per pixel.
    pub open spec fn wf(&self) -> bool {
        self.data@.len() == 3 * self.width * self.height
    }

    /// Color channel `c` of the pixel at column `x`, row `y`.
    pub open spec fn pixel(&self, x: int, y: int, c: int) -> u8 {
        self.data@[3 * (y * self.width + x) + c]
    }

    /// Builds a frame from a raw RGB buffer; the buffer must hold exactly
    /// three bytes per pixel.
    pub fn new(width: u32, height: u32, data: Vec<u8>) -> (r: Result<Frame, MyError>)
        ensures
            r is Ok <==> data@.len() == 3 * width * height,
            r matches Ok(f) ==> f.width == width && f.height == height && f.data@ == data@,
    {
        proof {
            assert((width as int) * (height as int) < 0x10000000000000000) by (nonlinear_arith);
            assert(3 * ((width as int) * (height as int)) == 3 * width * height)
                by (nonlinear_arith);
        }
        if (data.len() as u128) == 3u128 * ((width as u128) * (height as u128)) {
            Ok(Frame { width, height, data })
        } else {
            Err(MyError::Pipeline("Data error".to_owned()))
        }
    }

    /// The luminance image of the frame, pixel for pixel.
    pub fn to_gray(&self) -> (r: GrayFrame)
        requires
            self.wf(),
        ensures
            r.width == self.width,
            r.height == self.height,
            r.wf(),
            r.data@ == crate::image_pipeline::gray_seq(self@),
            forall|i: int|
                0 <= i < self.width * self.height ==> r.data@[i] == luma_of(
                    self.data@[3 * i],
                    self.data@[3 * i + 1],
                    self.data@[3 * i + 2],
                ),
    {
        let len: usize = self.data.len();
        let n: usize = len / 3;
        proof {
            assert(3 * ((self.width as int) * (self.height as int)) == 3 * self.width
                * self.height) by (nonlinear_arith);
            vstd::arithmetic::div_mod::lemma_div_multiples_vanish(
                (self.width as int) * (self.height as int),
                3,
            );
        }
        let mut out: Vec<u8> = Vec::new();
        let mut i: usize = 0;
        while i < n
            invariant
                self.wf(),
                n == self.width * self.height,
                i <= n,
                3 * n == self.data@.len(),
                self.data@.len() <= usize::MAX,
                out@.len() == i,
                forall|j: int|
                    0 <= j < i ==> out@[j] == luma_of(
                        self.data@[3 * j],
                        self.data@[3 * j + 1],
                        self.data@[3 * j + 2],
                    ),
            decreases n - i,
        {
            let rc = self.data[3 * i];
            let gc = self.data[3 * i + 1];
            let bc = self.data[3 * i + 2];
            let lum: u32 = (2126 * (rc as u32) + 7152 * (gc as u32) + 722 * (bc as u32)) / 10000;
            out.push(lum as u8);
            i = i + 1;
        }
        proof {
            assert(out@ =~= crate::image_pipeline::gray_seq(self@));
        }
        GrayFrame { width: self.width, height: self.height, data: out }
    }
}

impl GrayFrame {
    /// The buffer holds exactly one byte per pixel.
    pub open spec fn wf(&self) -> bool {
        self.data@.len() == self.width * self.height
    }
}

} // verus!
