//! The built-in character maps.
//!
//! Each map is an ordered, non-empty sequence of display glyphs; luminance
//! buckets map onto it from darkest to brightest. The runner registers these
//! maps, keyed by digit, behind the user-supplied map.
use vstd::prelude::*;

verus! {

/// The glyphs of the `chars1` map: ten ASCII glyphs from blank to dense.
pub open spec fn chars1_seq() -> Seq<char> {
    seq![' ', '.', ':', '-', '=', '+', '*', '#', '%', '@']
}

/// The `chars1` character map: ten ASCII glyphs from blank to dense.
pub fn chars1() -> (r: Vec<char>)
    ensures
        r@ == chars1_seq(),
        r@.len() == 10,
{
    let r: Vec<char> = vec![' ', '.', ':', '-', '=', '+', '*', '#', '%', '@'];
    proof {
        assert(r@ =~= chars1_seq());
    }
    r
}

/// The glyphs of the `chars2` map: sixty-seven ASCII glyphs from blank to dense.
pub open spec fn chars2_seq() -> Seq<char> {
    seq![' ', '.', '\'', '`', '^', '"', ',', ':', ';', 'I', 'l', '!', 'i', '~', '+', '_', '-', '?', ']', '[', '}', '{', '1', ')', '(', '|', '/', 't', 'f', 'j', 'r', 'x', 'n', 'u', 'v', 'c', 'z', 'X', 'Y', 'U', 'J', 'C', 'L', 'Q', '0', 'O', 'Z', 'm', 'w', 'q', 'p', 'd', 'b', 'k', 'h', 'a', 'o', '*', '#', 'M', 'W', '&', '8', '%', 'B', '@', '$']
}

/// The `chars2` character map: sixty-seven ASCII glyphs from blank to dense.
pub fn chars2() -> (r: Vec<char>)
    ensures
        r@ == chars2_seq(),
        r@.len() == 67,
{
    let r: Vec<char> = vec![' ', '.', '\'', '`', '^', '"', ',', ':', ';', 'I', 'l', '!', 'i', '~', '+', '_', '-', '?', ']', '[', '}', '{', '1', ')', '(', '|', '/', 't', 'f', 'j', 'r', 'x', 'n', 'u', 'v', 'c', 'z', 'X', 'Y', 'U', 'J', 'C', 'L', 'Q', '0', 'O', 'Z', 'm', 'w', 'q', 'p', 'd', 'b', 'k', 'h', 'a', 'o', '*', '#', 'M', 'W', '&', '8', '%', 'B', '@', '$'];
    proof {
        assert(r@ =~= chars2_seq());
    }
    r
}

/// The glyphs of the `chars3` map: ninety-two ASCII glyphs from blank to dense.
pub open spec fn chars3_seq() -> Seq<char> {
    seq![' ', '`', '.', '-', '\'', ':', '_', ',', '^', '=', ';', '>', '<', '+', '!', 'r', 'c', '*', '/', 'z', '?', 's', 'L', 'T', 'v', ')', 'J', '7', '(', '|', 'F', 'i', '{', 'C', '}', 'f', 'I', '3', '1', 't', 'l', 'u', '[', 'n', 'e', 'o', 'Z', '5', 'Y', 'x', 'j', 'y', 'a', ']', '2', 'E', 'S', 'w', 'q', 'k', 'P', '6', 'h', '9', 'd', '4', 'V', 'p', 'O', 'G', 'b', 'U', 'A', 'K', 'X', 'H', 'm', '8', 'R', 'D', '#', '$', 'B', 'g', '0', 'M', 'N', 'W', 'Q', '%', '&', '@']
}

/// The `chars3` character map: ninety-two ASCII glyphs from blank to dense.
pub fn chars3() -> (r: Vec<char>)
    ensures
        r@ == chars3_seq(),
        r@.len() == 92,
{
    let r: Vec<char> = vec![' ', '`', '.', '-', '\'', ':', '_', ',', '^', '=', ';', '>', '<', '+', '!', 'r', 'c', '*', '/', 'z', '?', 's', 'L', 'T', 'v', ')', 'J', '7', '(', '|', 'F', 'i', '{', 'C', '}', 'f', 'I', '3', '1', 't', 'l', 'u', '[', 'n', 'e', 'o', 'Z', '5', 'Y', 'x', 'j', 'y', 'a', ']', '2', 'E', 'S', 'w', 'q', 'k', 'P', '6', 'h', '9', 'd', '4', 'V', 'p', 'O', 'G', 'b', 'U', 'A', 'K', 'X', 'H', 'm', '8', 'R', 'D', '#', '$', 'B', 'g', '0', 'M', 'N', 'W', 'Q', '%', '&', '@'];
    proof {
        assert(r@ =~= chars3_seq());
    }
    r
}

/// The glyphs of the `solid` map: a single solid block.
pub open spec fn solid_seq() -> Seq<char> {
    seq!['█']
}

/// The `solid` character map: a single solid block.
pub fn solid() -> (r: Vec<char>)
    ensures
        r@ == solid_seq(),
        r@.len() == 1,
{
    let r: Vec<char> = vec!['█'];
    proof {
        assert(r@ =~= solid_seq());
    }
    r
}

/// The glyphs of the `dotted` map: a single dotted block.
pub open spec fn dotted_seq() -> Seq<char> {
    seq!['⣿']
}

/// The `dotted` character map: a single dotted block.
pub fn dotted() -> (r: Vec<char>)
    ensures
        r@ == dotted_seq(),
        r@.len() == 1,
{
    let r: Vec<char> = vec!['⣿'];
    proof {
        assert(r@ =~= dotted_seq());
    }
    r
}

/// The glyphs of the `gradient` map: five block glyphs of rising fill.
pub open spec fn gradient_seq() -> Seq<char> {
    seq![' ', '░', '▒', '▓', '█']
}

/// The `gradient` character map: five block glyphs of rising fill.
pub fn gradient() -> (r: Vec<char>)
    ensures
        r@ == gradient_seq(),
        r@.len() == 5,
{
    let r: Vec<char> = vec![' ', '░', '▒', '▓', '█'];
    proof {
        assert(r@ =~= gradient_seq());
    }
    r
}

/// The glyphs of the `blackwhite` map: blank and solid block.
pub open spec fn blackwhite_seq() -> Seq<char> {
    seq![' ', '█']
}

/// The `blackwhite` character map: blank and solid block.
pub fn blackwhite() -> (r: Vec<char>)
    ensures
        r@ == blackwhite_seq(),
        r@.len() == 2,
{
    let r: Vec<char> = vec![' ', '█'];
    proof {
        assert(r@ =~= blackwhite_seq());
    }
    r
}

/// The glyphs of the `bw_dotted` map: blank and dotted block.
pub open spec fn bw_dotted_seq() -> Seq<char> {
    seq![' ', '⣿']
}

/// The `bw_dotted` character map: blank and dotted block.
pub fn bw_dotted() -> (r: Vec<char>)
    ensures
        r@ == bw_dotted_seq(),
        r@.len() == 2,
{
    let r: Vec<char> = vec![' ', '⣿'];
    proof {
        assert(r@ =~= bw_dotted_seq());
    }
    r
}

/// The glyphs of the `braille` map: a braille-based ramp.
pub open spec fn braille_seq() -> Seq<char> {
    seq![' ', '·', '·', '⣀', '⣀', '⣤', '⣤', '⣤', '⣀', '⡀', '⢀', '⠠', '⠔', '⠒', '⠑', '⠊', '⠉', '⠁']
}

/// The `braille` character map: a braille-based ramp.
pub fn braille() -> (r: Vec<char>)
    ensures
        r@ == braille_seq(),
        r@.len() == 18,
{
    let r: Vec<char> = vec![' ', '·', '·', '⣀', '⣀', '⣤', '⣤', '⣤', '⣀', '⡀', '⢀', '⠠', '⠔', '⠒', '⠑', '⠊', '⠉', '⠁'];
    proof {
        assert(r@ =~= braille_seq());
    }
    r
}

} // verus!
