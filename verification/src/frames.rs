//! The frame source: a lazy, finite sequence of decoded frames.
//!
//! A still image yields its one frame and ends. An animated image holds its
//! pre-decoded frames and a cursor, yields them in order and ends; skipping
//! wraps around the sequence. Container decoding itself happens outside the
//! crate: the decoding shell builds the variant and the frames.
use crate::frame::{frame_eq, opt_frame_view, Frame, FrameV};
use crate::text::{chars_end_with, chars_eq, chars_of, ends_with, find_last, last_index_of};
use vstd::prelude::*;

verus! {

/// An iterator over the frames of an opened media source.
///
/// * `Image`: a single-frame still image; the frame is yielded once.
/// * `AnimatedImage`: a pre-decoded ordered frame list and the cursor of the
///   next frame to yield.
pub enum FrameIterator {
    Image(Option<Frame>),
    AnimatedImage { frames: Vec<Frame>, current_frame: usize },
}

/// The mathematical content of a frame source: the frames it still holds and,
/// for an animated sequence, the cursor.
pub enum MediaV {
    Image(Option<FrameV>),
    Animated { frames: Seq<FrameV>, cursor: int },
}

impl View for FrameIterator {
    type V = MediaV;

    open spec fn view(&self) -> MediaV {
        match self {
            FrameIterator::Image(img) => MediaV::Image(
                match img {
                    Some(f) => Some(f@),
                    None => None,
                },
            ),
            FrameIterator::AnimatedImage { frames, current_frame } => MediaV::Animated {
                frames: frames@.map_values(|f: Frame| f@),
                cursor: current_frame as int,
            },
        }
    }
}

/// The frame a source yields next, if any: a still image's frame, or the
/// frame under an animated sequence's cursor.
pub open spec fn media_next_frame(m: MediaV) -> Option<FrameV> {
    match m {
        MediaV::Image(img) => img,
        MediaV::Animated { frames, cursor } => if cursor < frames.len() {
            Some(frames[cursor])
        } else {
            None
        },
    }
}

/// The source after yielding one frame: a still image is spent, an animated
/// sequence's cursor advances while frames remain.
pub open spec fn media_after_next(m: MediaV) -> MediaV {
    match m {
        MediaV::Image(_) => MediaV::Image(None),
        MediaV::Animated { frames, cursor } => MediaV::Animated {
            frames,
            cursor: if cursor < frames.len() {
                cursor + 1
            } else {
                cursor
            },
        },
    }
}

/// The source after skipping `n` frames: a still image is unchanged, an
/// animated sequence's cursor advances by `n`, wrapping around.
pub open spec fn media_after_skip(m: MediaV, n: int) -> MediaV {
    match m {
        MediaV::Image(img) => MediaV::Image(img),
        MediaV::Animated { frames, cursor } => MediaV::Animated {
            frames,
            cursor: (cursor + n) % (frames.len() as int),
        },
    }
}

/// Every frame a source holds is well-formed: three bytes per pixel.
pub open spec fn media_frames_wf(m: MediaV) -> bool {
    match m {
        MediaV::Image(img) => img matches Some(f) ==> f.wf(),
        MediaV::Animated { frames, .. } => forall|i: int|
            0 <= i < frames.len() ==> (#[trigger] frames[i]).wf(),
    }
}

/// Yielding and skipping keep every held frame well-formed, and the yielded
/// frame is well-formed.
pub proof fn lemma_media_step_wf(m: MediaV, n: int)
    requires
        media_frames_wf(m),
        m matches MediaV::Animated { cursor, .. } ==> cursor >= 0,
    ensures
        media_frames_wf(media_after_next(m)),
        media_frames_wf(media_after_skip(m, n)),
        media_next_frame(m) matches Some(f) ==> f.wf(),
{
}

impl FrameIterator {
    /// The cursor never points past the end of an animated sequence.
    pub open spec fn wf(&self) -> bool {
        match self {
            FrameIterator::Image(_) => true,
            FrameIterator::AnimatedImage { frames, current_frame } => current_frame
                <= frames@.len(),
        }
    }

    /// Yields the next frame, or `None` past the end.
    ///
    /// A still image hands out its frame and becomes empty; an animated
    /// sequence yields the frame under the cursor and advances it.
    pub fn next(&mut self) -> (r: Option<Frame>)
        ensures
            opt_frame_view(r) == media_next_frame(old(self)@),
            final(self)@ == media_after_next(old(self)@),
            match *old(self) {
                FrameIterator::Image(img) => r == img && *final(self)
                    == FrameIterator::Image(None::<Frame>),
                FrameIterator::AnimatedImage { frames, current_frame } => {
                    &&& (*final(self)) matches FrameIterator::AnimatedImage {
                        frames: f2,
                        current_frame: c2,
                    } && f2@ == frames@ && if current_frame < frames@.len() {
                        &&& c2 == current_frame + 1
                        &&& r matches Some(fr) && frame_eq(fr, frames@[current_frame as int])
                    } else {
                        c2 == current_frame && r is None
                    }
                },
            },
            final(self).wf() || !old(self).wf(),
    {
        match self {
            FrameIterator::Image(img) => img.take(),
            FrameIterator::AnimatedImage { frames, current_frame } => {
                if *current_frame < frames.len() {
                    let f = frames[*current_frame].clone();
                    *current_frame = *current_frame + 1;
                    Some(f)
                } else {
                    None
                }
            },
        }
    }

    /// Skips `n` frames without producing them.
    ///
    /// On a still image this is a no-op: there is only one frame. On an
    /// animated sequence the cursor advances by `n`, wrapping around the
    /// frame list.
    pub fn skip_frames(&mut self, n: u64)
        requires
            (*old(self)) matches FrameIterator::AnimatedImage { frames, .. } ==> frames@.len() >= 1,
        ensures
            final(self)@ == media_after_skip(old(self)@, n as int),
            match *old(self) {
                FrameIterator::Image(img) => *final(self) == *old(self),
                FrameIterator::AnimatedImage { frames, current_frame } => (*final(self))
                    matches FrameIterator::AnimatedImage { frames: f2, current_frame: c2 } && f2@
                    == frames@ && c2 == (current_frame + n) % (frames@.len() as int),
            },
            final(self).wf(),
    {
        match self {
            FrameIterator::Image(_) => {},
            FrameIterator::AnimatedImage { frames, current_frame } => {
                let len: usize = frames.len();
                let next: u128 = ((*current_frame as u128) + (n as u128)) % (len as u128);
                proof {
                    vstd::arithmetic::div_mod::lemma_mod_division_less_than_divisor(
                        (*current_frame + n) as int,
                        len as int,
                    );
                }
                *current_frame = next as usize;
            },
        }
    }

    /// Rewinds the source to its start. A still image is unchanged (its one
    /// frame may already have been taken); an animated sequence moves the
    /// cursor back to the first frame.
    pub fn reset(&mut self)
        ensures
            match *old(self) {
                FrameIterator::Image(img) => *final(self) == *old(self),
                FrameIterator::AnimatedImage { frames, current_frame } => (*final(self))
                    matches FrameIterator::AnimatedImage { frames: f2, current_frame: c2 } && f2@
                    == frames@ && c2 == 0,
            },
            final(self).wf(),
    {
        match self {
            FrameIterator::Image(_) => {},
            FrameIterator::AnimatedImage { frames: _, current_frame } => {
                *current_frame = 0;
            },
        }
    }
}


/// What kind of media a path names, by its extension.
#[derive(Debug, PartialEq, Eq, Structural, Clone, Copy)]
pub enum MediaKind {
    /// A single still image.
    Image,
    /// A video container; unknown extensions are tried as video too.
    Video,
    /// An animated image in the GIF container.
    AnimatedGif,
    /// An animated image in the WEBP container.
    AnimatedWebp,
}

/// How an input string is to be opened.
#[derive(Debug, PartialEq, Eq, Structural, Clone, Copy)]
pub enum OpenPlan {
    /// A URL on a youtube domain: hand it to the downloader tool first.
    Youtube,
    /// Any other URL with a domain: fetch it to a file, then open that.
    RemoteFetch,
    /// A local path (or a URL without a domain, tried as a path): open it
    /// as the kind its extension names.
    Local(MediaKind),
}

/// What parsing the input as an absolute URL yields: nothing when it is no
/// URL, `Some(None)` for a URL without a domain, and the domain otherwise.
pub uninterp spec fn url_domain(s: Seq<char>) -> Option<Option<Seq<char>>>;

/// Relies on `url::Url::parse` and `Url::domain`: whether the text parses
/// as an absolute URL and, if so, its domain, a function of the text alone.
#[verifier::external_body]
fn read_url_domain(s: &str) -> (r: Option<Option<String>>)
    ensures
        r is Some <==> url_domain(s@) is Some,
        r matches Some(d) ==> (d is Some <==> url_domain(s@).unwrap() is Some),
        r matches Some(d) ==> (d matches Some(t) ==> url_domain(s@).unwrap() == Some(t@)),
{
    match url::Url::parse(s) {
        Ok(u) => Some(u.domain().map(|d| d.to_string())),
        Err(_) => None,
    }
}

/// Whether a domain belongs to youtube: it ends in `youtube.com` or in
/// `youtu.be`.
pub open spec fn youtube_domain(d: Seq<char>) -> bool {
    ends_with(d, seq!['y', 'o', 'u', 't', 'u', 'b', 'e', '.', 'c', 'o', 'm']) || ends_with(
        d,
        seq!['y', 'o', 'u', 't', 'u', '.', 'b', 'e'],
    )
}

/// The extension of a path: what follows the last dot of the last path
/// segment, unless that dot starts the segment or is missing.
pub open spec fn extension_of(p: Seq<char>) -> Option<Seq<char>> {
    let f = p.skip(last_index_of(p, '/') + 1);
    let d = last_index_of(f, '.');
    if d <= 0 {
        None
    } else {
        Some(f.skip(d + 1))
    }
}

/// The media kind a path's extension names: the known image extensions, the
/// known video extensions, `gif` and `webp`; anything else, or no
/// extension, is tried as video.
pub open spec fn media_kind_of(p: Seq<char>) -> MediaKind {
    match extension_of(p) {
        None => MediaKind::Video,
        Some(e) => if e == seq!['p', 'n', 'g'] || e == seq!['b', 'm', 'p'] || e == seq![
            'i',
            'c',
            'o',
        ] || e == seq!['t', 'i', 'f'] || e == seq!['t', 'i', 'f', 'f'] || e == seq![
            'j',
            'p',
            'g',
        ] || e == seq!['j', 'p', 'e', 'g'] {
            MediaKind::Image
        } else if e == seq!['g', 'i', 'f'] {
            MediaKind::AnimatedGif
        } else if e == seq!['w', 'e', 'b', 'p'] {
            MediaKind::AnimatedWebp
        } else {
            MediaKind::Video
        },
    }
}

/// How an input string is opened: a youtube URL goes to the downloader
/// tool, another URL with a domain is fetched to a file, everything else is
/// opened as a local path of the kind its extension names.
pub open spec fn plan_of(s: Seq<char>) -> OpenPlan {
    match url_domain(s) {
        Some(Some(d)) => if youtube_domain(d) {
            OpenPlan::Youtube
        } else {
            OpenPlan::RemoteFetch
        },
        Some(None) => OpenPlan::Local(media_kind_of(s)),
        None => OpenPlan::Local(media_kind_of(s)),
    }
}

/// Classifies a path by its extension.
pub fn classify_media(path: &str) -> (r: MediaKind)
    ensures
        r == media_kind_of(path@),
{
    let chars = chars_of(path);
    let n: usize = chars.len();
    proof {
        crate::text::lemma_last_index_bounds(chars@, '/');
    }
    let fstart: usize = match find_last(&chars, '/') {
        Some(i) => i + 1,
        None => 0,
    };
    let mut file: Vec<char> = Vec::new();
    let mut i: usize = fstart;
    while i < n
        invariant
            fstart <= i <= n,
            n == chars@.len(),
            file@ == chars@.subrange(fstart as int, i as int),
        decreases n - i,
    {
        file.push(chars[i]);
        proof {
            assert(file@ =~= chars@.subrange(fstart as int, i as int + 1));
        }
        i = i + 1;
    }
    proof {
        assert(file@ =~= chars@.skip(fstart as int));
    }
    let m: usize = file.len();
    proof {
        crate::text::lemma_last_index_bounds(file@, '.');
    }
    let ext_kind: MediaKind = match find_last(&file, '.') {
        Some(d) if d > 0 => {
            let mut ext: Vec<char> = Vec::new();
            let mut j: usize = d + 1;
            while j < m
                invariant
                    d + 1 <= j <= m,
                    m == file@.len(),
                    ext@ == file@.subrange(d as int + 1, j as int),
                decreases m - j,
            {
                ext.push(file[j]);
                proof {
                    assert(ext@ =~= file@.subrange(d as int + 1, j as int + 1));
                }
                j = j + 1;
            }
            proof {
                assert(ext@ =~= file@.skip(d as int + 1));
            }
            kind_of_extension(&ext)
        },
        _ => MediaKind::Video,
    };
    ext_kind
}


/// The media kind a bare extension names.
fn kind_of_extension(ext: &Vec<char>) -> (r: MediaKind)
    ensures
        ({
            let e = ext@;
            r == (if e == seq!['p', 'n', 'g'] || e == seq!['b', 'm', 'p'] || e == seq![
                'i',
                'c',
                'o',
            ] || e == seq!['t', 'i', 'f'] || e == seq!['t', 'i', 'f', 'f'] || e == seq![
                'j',
                'p',
                'g',
            ] || e == seq!['j', 'p', 'e', 'g'] {
                MediaKind::Image
            } else if e == seq!['g', 'i', 'f'] {
                MediaKind::AnimatedGif
            } else if e == seq!['w', 'e', 'b', 'p'] {
                MediaKind::AnimatedWebp
            } else {
                MediaKind::Video
            })
        }),
{
    let png: Vec<char> = vec!['p', 'n', 'g'];
    let bmp: Vec<char> = vec!['b', 'm', 'p'];
    let ico: Vec<char> = vec!['i', 'c', 'o'];
    let tif: Vec<char> = vec!['t', 'i', 'f'];
    let tiff: Vec<char> = vec!['t', 'i', 'f', 'f'];
    let jpg: Vec<char> = vec!['j', 'p', 'g'];
    let jpeg: Vec<char> = vec!['j', 'p', 'e', 'g'];
    let gif: Vec<char> = vec!['g', 'i', 'f'];
    let webp: Vec<char> = vec!['w', 'e', 'b', 'p'];
    proof {
        assert(png@ =~= seq!['p', 'n', 'g']);
        assert(bmp@ =~= seq!['b', 'm', 'p']);
        assert(ico@ =~= seq!['i', 'c', 'o']);
        assert(tif@ =~= seq!['t', 'i', 'f']);
        assert(tiff@ =~= seq!['t', 'i', 'f', 'f']);
        assert(jpg@ =~= seq!['j', 'p', 'g']);
        assert(jpeg@ =~= seq!['j', 'p', 'e', 'g']);
        assert(gif@ =~= seq!['g', 'i', 'f']);
        assert(webp@ =~= seq!['w', 'e', 'b', 'p']);
    }
    if chars_eq(ext, &png) || chars_eq(ext, &bmp) || chars_eq(ext, &ico) || chars_eq(ext, &tif)
        || chars_eq(ext, &tiff) || chars_eq(ext, &jpg) || chars_eq(ext, &jpeg) {
        MediaKind::Image
    } else if chars_eq(ext, &gif) {
        MediaKind::AnimatedGif
    } else if chars_eq(ext, &webp) {
        MediaKind::AnimatedWebp
    } else {
        MediaKind::Video
    }
}

/// Decides how to open an input string: youtube URLs go to the downloader,
/// other URLs with a domain are fetched, the rest is opened locally by
/// extension. The opening itself — download, decode, file I/O — happens in
/// the shell, which follows this plan.
pub fn plan_open(path: &str) -> (r: OpenPlan)
    ensures
        r == plan_of(path@),
{
    match read_url_domain(path) {
        Some(Some(domain)) => {
            let dchars = chars_of(domain.as_str());
            let ytc: Vec<char> = vec!['y', 'o', 'u', 't', 'u', 'b', 'e', '.', 'c', 'o', 'm'];
            let ytb: Vec<char> = vec!['y', 'o', 'u', 't', 'u', '.', 'b', 'e'];
            proof {
                assert(ytc@ =~= seq!['y', 'o', 'u', 't', 'u', 'b', 'e', '.', 'c', 'o', 'm']);
                assert(ytb@ =~= seq!['y', 'o', 'u', 't', 'u', '.', 'b', 'e']);
            }
            if chars_end_with(&dchars, &ytc) || chars_end_with(&dchars, &ytb) {
                OpenPlan::Youtube
            } else {
                OpenPlan::RemoteFetch
            }
        },
        Some(None) => OpenPlan::Local(classify_media(path)),
        None => OpenPlan::Local(classify_media(path)),
    }
}

} // verus!
