//! The image-to-character quantizer.
//!
//! An [`ImagePipeline`] holds the target resolution in terminal cells and the
//! character map. Quantization resizes a frame to the target with
//! nearest-neighbor sampling, derives a luminance byte per cell, and maps each
//! luminance into the character map by bucketing: index `K * L / 256` for a
//! map of `K` glyphs.
use crate::errors::MyError;
use crate::frame::{luma_of, Frame, FrameV, GrayFrame};
use crate::text::chars_to_string;
use vstd::prelude::*;

verus! {

/// The quantizer: target resolution (width, height) in cells and the
/// character lookup table.
#[derive(Debug)]
pub struct ImagePipeline {
    pub target_resolution: (u32, u32),
    pub char_map: Vec<char>,
}

/// The nearest-neighbor source coordinate for target coordinate `t`, with
/// `dst` the target extent and `src` the source extent: the source sample
/// nearest to the center of target cell `t`, `floor((2t + 1) * src / (2 dst))`.
pub open spec fn src_coord(t: int, dst: int, src: int) -> int {
    ((2 * t + 1) * src) / (2 * dst)
}

/// Nearest-neighbor sampling never leaves the source extent.
pub proof fn lemma_src_coord_bounds(t: int, dst: int, src: int)
    requires
        0 <= t < dst,
        1 <= src,
    ensures
        0 <= src_coord(t, dst, src) < src,
{
    let num = (2 * t + 1) * src;
    assert(0 <= (2 * t + 1) * src && (2 * t + 1) * src < (2 * dst) * src) by (nonlinear_arith)
        requires
            0 <= t < dst,
            1 <= src,
    ;
    vstd::arithmetic::div_mod::lemma_div_pos_is_pos(num, 2 * dst);
    vstd::arithmetic::div_mod::lemma_multiply_divide_lt(num, 2 * dst, src);
}

/// The character-map index chosen for luminance `lum` by a map of `k` glyphs.
pub open spec fn lookup_index(k: int, lum: u8) -> int {
    k * lum / 256
}

/// For every luminance and every non-empty map, the chosen index lies within
/// the map.
pub proof fn lemma_lookup_index_in_range(k: int, lum: u8)
    requires
        1 <= k,
    ensures
        0 <= lookup_index(k, lum) < k,
{
    assert(0 <= k * lum && k * lum < 256 * k) by (nonlinear_arith)
        requires
            1 <= k,
            0 <= lum < 256,
    ;
    vstd::arithmetic::div_mod::lemma_div_pos_is_pos(k * lum, 256);
    vstd::arithmetic::div_mod::lemma_multiply_divide_lt(k * lum, 256, k);
}

/// Color channel `c` of the pixel at column `x`, row `y` of a frame.
pub open spec fn pixel_v(f: FrameV, x: int, y: int, c: int) -> u8 {
    f.data[3 * (y * f.width + x) + c]
}

/// What resizing `f` to `w` by `h` cells yields at channel `c` of cell
/// `(x, y)`: the channel of the nearest source pixel.
pub open spec fn resized_pixel(f: FrameV, w: int, h: int, x: int, y: int, c: int) -> u8 {
    pixel_v(f, src_coord(x, w, f.width), src_coord(y, h, f.height), c)
}

/// The column a flat RGB buffer index falls in, for row width `w`.
pub open spec fn flat_x(i: int, w: int) -> int {
    (i / 3) % w
}

/// The row a flat RGB buffer index falls in, for row width `w`.
pub open spec fn flat_y(i: int, w: int) -> int {
    i / (3 * w)
}

/// The color channel a flat RGB buffer index falls on.
pub open spec fn flat_c(i: int) -> int {
    i % 3
}

/// The full RGB buffer of `f` resized to `w` by `h` cells with
/// nearest-neighbor sampling, flattened row-major, three bytes per cell.
pub open spec fn resized_seq(f: FrameV, w: int, h: int) -> Seq<u8> {
    Seq::new(
        (3 * w * h) as nat,
        |i: int| resized_pixel(f, w, h, flat_x(i, w), flat_y(i, w), flat_c(i)),
    )
}

/// The luminance image of a frame, one byte per pixel, row-major.
pub open spec fn gray_seq(f: FrameV) -> Seq<u8> {
    Seq::new(
        (f.width * f.height) as nat,
        |i: int| luma_of(f.data[3 * i], f.data[3 * i + 1], f.data[3 * i + 2]) as u8,
    )
}

/// The glyph chosen for every luminance byte, in order: luminance `L` selects
/// glyph `K * L / 256` of a map of `K` glyphs.
pub open spec fn glyphs_of(char_map: Seq<char>, gray: Seq<u8>) -> Seq<char> {
    Seq::new(gray.len(), |i: int| char_map[lookup_index(char_map.len() as int, gray[i])])
}

/// The full quantization of frame `f` for target resolution `target` and
/// character map `char_map`: the glyph string and the RGB bytes of the
/// resized frame, or `None` when a source or target extent is zero.
pub open spec fn quantized(target: (u32, u32), char_map: Seq<char>, f: FrameV) -> Option<
    (Seq<char>, Seq<u8>),
> {
    let w = target.0 as int;
    let h = target.1 as int;
    if f.width > 0 && f.height > 0 && w > 0 && h > 0 {
        let rgb = resized_seq(f, w, h);
        let resized = FrameV { width: w, height: h, data: rgb };
        Some((glyphs_of(char_map, gray_seq(resized)), rgb))
    } else {
        None
    }
}

/// Every emitted artifact pairs one glyph per cell with three color bytes
/// per cell: `len(glyphs) == len(colors) / 3 == W * H` for the target
/// resolution `(W, H)` in effect at emission time.
pub proof fn lemma_artifact_dims(target: (u32, u32), char_map: Seq<char>, f: FrameV)
    requires
        quantized(target, char_map, f) is Some,
    ensures
        ({
            let (g, c) = quantized(target, char_map, f).unwrap();
            &&& g.len() == target.0 * target.1
            &&& c.len() == 3 * target.0 * target.1
            &&& g.len() == c.len() / 3
        }),
{
    let w = target.0 as int;
    let h = target.1 as int;
    assert(3 * (w * h) == 3 * w * h) by (nonlinear_arith)
        requires
            w == target.0 as int,
            h == target.1 as int,
    ;
    vstd::arithmetic::div_mod::lemma_div_multiples_vanish(w * h, 3);
}

/// A flat RGB buffer index decomposes uniquely into row, column and channel.
pub proof fn lemma_flat_decode(x: int, y: int, c: int, w: int, h: int)
    requires
        0 <= x < w,
        0 <= y < h,
        0 <= c < 3,
    ensures
        0 <= 3 * (y * w + x) + c < 3 * w * h,
        flat_y(3 * (y * w + x) + c, w) == y,
        flat_x(3 * (y * w + x) + c, w) == x,
        flat_c(3 * (y * w + x) + c) == c,
{
    let p = 3 * (y * w + x) + c;
    assert(p == y * (3 * w) + (3 * x + c) && 0 <= 3 * x + c < 3 * w && p == (y * w + x) * 3 + c
        && y * w + x == y * w + x && p + (3 - c) <= 3 * (w * h) && 3 * (w * h) == 3 * w * h)
        by (nonlinear_arith)
        requires
            0 <= x < w,
            0 <= y < h,
            0 <= c < 3,
            p == 3 * (y * w + x) + c,
    ;
    vstd::arithmetic::div_mod::lemma_fundamental_div_mod_converse(p, 3 * w, y, 3 * x + c);
    vstd::arithmetic::div_mod::lemma_fundamental_div_mod_converse(p, 3, y * w + x, c);
    vstd::arithmetic::div_mod::lemma_fundamental_div_mod_converse(y * w + x, w, y, x);
}

/// Each entry of the resized buffer is the nearest-neighbor sample for its
/// cell: at index `3 (y w + x) + c` stands channel `c` of cell `(x, y)`.
pub proof fn lemma_resized_seq_pixel(f: FrameV, w: int, h: int, x: int, y: int, c: int)
    requires
        0 <= x < w,
        0 <= y < h,
        0 <= c < 3,
    ensures
        resized_seq(f, w, h)[3 * (y * w + x) + c] == resized_pixel(f, w, h, x, y, c),
{
    lemma_flat_decode(x, y, c, w, h);
}

impl ImagePipeline {
    /// The character map is never empty.
    pub open spec fn wf(&self) -> bool {
        self.char_map@.len() >= 1
    }

    /// Constructs a quantizer with the given target resolution in cells and
    /// character lookup table.
    pub fn new(target_resolution: (u32, u32), char_map: Vec<char>) -> (r: Self)
        requires
            char_map@.len() >= 1,
        ensures
            r.target_resolution == target_resolution,
            r.char_map@ == char_map@,
            r.wf(),
    {
        Self { target_resolution, char_map }
    }

    /// Sets the target resolution in cells; the character map is kept.
    pub fn set_target_resolution(&mut self, width: u32, height: u32)
        ensures
            final(self).target_resolution == (width, height),
            final(self).char_map@ == old(self).char_map@,
    {
        self.target_resolution = (width, height);
    }

    /// Resizes a frame to the target resolution with nearest-neighbor
    /// sampling on the RGB bytes. A source or target extent of zero is an
    /// error; otherwise every output pixel is the source pixel nearest to the
    /// center of its cell.
    pub fn resize(&self, img: &Frame) -> (r: Result<Frame, MyError>)
        requires
            img.wf(),
        ensures
            r is Ok <==> (img.width > 0 && img.height > 0 && self.target_resolution.0 > 0
                && self.target_resolution.1 > 0),
            r matches Ok(out) ==> {
                &&& out.width == self.target_resolution.0
                &&& out.height == self.target_resolution.1
                &&& out.wf()
                &&& out.data@ == resized_seq(img@, out.width as int, out.height as int)
            },
            r matches Err(e) ==> e matches MyError::Pipeline(_),
    {
        let w: u32 = self.target_resolution.0;
        let h: u32 = self.target_resolution.1;
        if img.width == 0 || img.height == 0 || w == 0 || h == 0 {
            return Err(MyError::Pipeline("Data error".to_owned()));
        }
        let src_len: usize = img.data.len();
        let ghost expect: Seq<u8> = resized_seq(img@, w as int, h as int);
        proof {
            assert(3 * ((w as int) * (h as int)) == 3 * w * h) by (nonlinear_arith);
        }
        let mut out: Vec<u8> = Vec::new();
        let mut y: u32 = 0;
        while y < h
            invariant
                img.wf(),
                img.width > 0,
                img.height > 0,
                w > 0,
                h > 0,
                y <= h,
                src_len == img.data@.len(),
                expect == resized_seq(img@, w as int, h as int),
                expect.len() == 3 * ((w as int) * (h as int)),
                out@.len() == 3 * ((y as int) * (w as int)),
                out@ == expect.subrange(0, out@.len() as int),
            decreases h - y,
        {
            let sy: u32 = Self::nearest(y, h, img.height);
            let mut x: u32 = 0;
            while x < w
                invariant
                    img.wf(),
                    img.width > 0,
                    img.height > 0,
                    w > 0,
                    h > 0,
                    y < h,
                    x <= w,
                    src_len == img.data@.len(),
                    sy == src_coord(y as int, h as int, img.height as int),
                    0 <= sy < img.height,
                    expect == resized_seq(img@, w as int, h as int),
                    expect.len() == 3 * ((w as int) * (h as int)),
                    out@.len() == 3 * ((y as int) * (w as int) + (x as int)),
                    out@ == expect.subrange(0, out@.len() as int),
                decreases w - x,
            {
                let sx: u32 = Self::nearest(x, w, img.width);
                proof {
                    assert((sy as int) * (img.width as int) + (sx as int) + 1 <= (img.height as int)
                        * (img.width as int)) by (nonlinear_arith)
                        requires
                            0 <= sx < img.width,
                            0 <= sy < img.height,
                    ;
                    assert(3 * ((img.height as int) * (img.width as int)) == 3 * img.width
                        * img.height) by (nonlinear_arith);
                }
                let base: u64 = 3 * ((sy as u64) * (img.width as u64) + (sx as u64));
                let mut c: usize = 0;
                while c < 3
                    invariant
                        img.wf(),
                        img.width > 0,
                        img.height > 0,
                        w > 0,
                        h > 0,
                        x < w,
                        y < h,
                        c <= 3,
                        src_len == img.data@.len(),
                        sx == src_coord(x as int, w as int, img.width as int),
                        sy == src_coord(y as int, h as int, img.height as int),
                        base == 3 * ((sy as int) * (img.width as int) + (sx as int)),
                        base + 3 <= img.data@.len(),
                        expect == resized_seq(img@, w as int, h as int),
                        expect.len() == 3 * ((w as int) * (h as int)),
                        out@.len() == 3 * ((y as int) * (w as int) + (x as int)) + c,
                        out@ == expect.subrange(0, out@.len() as int),
                    decreases 3 - c,
                {
                    let b: u8 = img.data[(base as usize) + c];
                    proof {
                        lemma_flat_decode(x as int, y as int, c as int, w as int, h as int);
                        assert(expect[out@.len() as int] == b);
                        assert(out@.push(b) =~= expect.subrange(0, out@.len() as int + 1));
                    }
                    out.push(b);
                    c = c + 1;
                }
                proof {
                    assert(3 * ((y as int) * (w as int) + ((x as int) + 1)) == 3 * ((y as int) * (w
                        as int) + (x as int)) + 3) by (nonlinear_arith);
                }
                x = x + 1;
            }
            proof {
                assert(3 * (((y as int) + 1) * (w as int)) == 3 * ((y as int) * (w as int) + (w
                    as int))) by (nonlinear_arith);
            }
            y = y + 1;
        }
        proof {
            assert(3 * ((h as int) * (w as int)) == 3 * ((w as int) * (h as int)))
                by (nonlinear_arith);
            assert(out@ =~= expect);
        }
        Ok(Frame { width: w, height: h, data: out })
    }

    /// The nearest source coordinate for target coordinate `t` of `dst`
    /// cells over a source extent of `src`.
    fn nearest(t: u32, dst: u32, src: u32) -> (r: u32)
        requires
            t < dst,
            src >= 1,
        ensures
            r == src_coord(t as int, dst as int, src as int),
            r < src,
    {
        proof {
            lemma_src_coord_bounds(t as int, dst as int, src as int);
            assert((2 * (t as int) + 1) * (src as int) < 0x40000000000000000) by (nonlinear_arith)
                requires
                    t < 0x100000000,
                    src < 0x100000000,
            ;
        }
        let num: u128 = (2 * (t as u128) + 1) * (src as u128);
        let den: u128 = 2 * (dst as u128);
        (num / den) as u32
    }

    /// Converts a grayscale frame to one glyph per pixel, row-major, using
    /// the character lookup table: luminance `L` selects glyph
    /// `K * L / 256` of a map of `K` glyphs.
    pub fn to_ascii(&self, input: &GrayFrame) -> (r: String)
        requires
            self.wf(),
            input.wf(),
        ensures
            r@.len() == input.width * input.height,
            forall|i: int|
                0 <= i < r@.len() ==> r@[i] == self.char_map@[lookup_index(
                    self.char_map@.len() as int,
                    input.data@[i],
                )],
    {
        let n: usize = input.data.len();
        let k: usize = self.char_map.len();
        let mut glyphs: Vec<char> = Vec::new();
        let mut i: usize = 0;
        while i < n
            invariant
                input.wf(),
                self.wf(),
                k == self.char_map@.len(),
                n == input.data@.len(),
                i <= n,
                glyphs@.len() == i,
                forall|j: int|
                    0 <= j < i ==> glyphs@[j] == self.char_map@[lookup_index(
                        k as int,
                        input.data@[j],
                    )],
            decreases n - i,
        {
            let lum: u8 = input.data[i];
            proof {
                lemma_lookup_index_in_range(k as int, lum);
            }
            proof {
                assert((k as int) * (lum as int) < 0x100000000000000000000) by (nonlinear_arith)
                    requires
                        k <= 0xffffffffffffffff,
                        lum < 256,
                ;
            }
            let idx: usize = ((k as u128) * (lum as u128) / 256) as usize;
            glyphs.push(self.char_map[idx]);
            i = i + 1;
        }
        chars_to_string(&glyphs)
    }
}

} // verus!
