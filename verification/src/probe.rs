//! Parsers for the probe tool's replies.
//!
//! The frame rate and the presence of an audio stream come from an external
//! probe invoked by the shell; its reply is JSON text. The shell runs the
//! probe, this module decides what the reply means: the `streams[0].
//! r_frame_rate` field is a rational `num/den` in decimal digits, and a
//! non-empty `streams` array means the media has sound. The JSON reading
//! itself goes through `serde_json` behind trusted wrappers; the rational
//! parser is verified here.
use crate::errors::MyError;
use crate::text::chars_of;
use vstd::prelude::*;

verus! {

/// What the `streams[0].r_frame_rate` field of a probe reply holds: `None`
/// when the text is not JSON or the field is missing or not a string.
pub uninterp spec fn frame_rate_field(s: Seq<char>) -> Option<Seq<char>>;

/// How many entries the `streams` array of a probe reply holds: `None` when
/// the text is not JSON; zero when `streams` is missing or not an array.
pub uninterp spec fn audio_stream_count(s: Seq<char>) -> Option<int>;

/// Relies on `serde_json::from_str` and `Value::get` / `Value::as_str`: the
/// `streams[0].r_frame_rate` string of the probe reply, a function of the
/// text alone.
#[verifier::external_body]
fn read_frame_rate_field(json: &str) -> (r: Option<String>)
    ensures
        r is Some <==> frame_rate_field(json@) is Some,
        r matches Some(t) ==> frame_rate_field(json@) == Some(t@),
{
    match serde_json::from_str::<serde_json::Value>(json) {
        Ok(v) => v
            .get("streams")
            .and_then(|s| s.get(0))
            .and_then(|s| s.get("r_frame_rate"))
            .and_then(|s| s.as_str())
            .map(|t| t.to_string()),
        Err(_) => None,
    }
}

/// Relies on `serde_json::from_str` and `Value::get` / `Value::as_array`:
/// the length of the `streams` array of the probe reply, a function of the
/// text alone.
#[verifier::external_body]
fn read_stream_count(json: &str) -> (r: Option<usize>)
    ensures
        r is Some <==> audio_stream_count(json@) is Some,
        r matches Some(n) ==> audio_stream_count(json@) == Some(n as int),
{
    match serde_json::from_str::<serde_json::Value>(json) {
        Ok(v) => Some(
            v.get("streams").and_then(|s| s.as_array()).map(|a| a.len()).unwrap_or(0),
        ),
        Err(_) => None,
    }
}

/// Whether the character is a decimal digit.
pub open spec fn is_digit(c: char) -> bool {
    48 <= c as u32 <= 57
}

/// The value of a decimal digit.
pub open spec fn digit_val(c: char) -> int {
    c as u32 - 48
}

/// Whether every character is a decimal digit.
pub open spec fn all_digits(s: Seq<char>) -> bool {
    forall|i: int| 0 <= i < s.len() ==> is_digit(#[trigger] s[i])
}

/// The number the digit string denotes, most significant digit first.
pub open spec fn digits_val(s: Seq<char>) -> int
    decreases s.len(),
{
    if s.len() == 0 {
        0
    } else {
        digits_val(s.drop_last()) * 10 + digit_val(s.last())
    }
}

/// A digit string denotes a number at least zero, and no prefix denotes
/// more than the whole.
pub proof fn lemma_digits_val_monotone(s: Seq<char>, i: int)
    requires
        all_digits(s),
        0 <= i <= s.len(),
    ensures
        0 <= digits_val(s.take(i)) <= digits_val(s),
    decreases s.len() - i,
{
    if i == s.len() {
        assert(s.take(i) =~= s);
        lemma_digits_val_nonneg(s);
    } else {
        assert(s.take(i + 1).drop_last() =~= s.take(i));
        assert(s.take(i + 1).last() == s[i]);
        lemma_digits_val_nonneg(s.take(i));
        lemma_digits_val_monotone(s, i + 1);
    }
}

/// A digit string denotes a number at least zero.
pub proof fn lemma_digits_val_nonneg(s: Seq<char>)
    requires
        all_digits(s),
    ensures
        digits_val(s) >= 0,
    decreases s.len(),
{
    if s.len() > 0 {
        assert(all_digits(s.drop_last())) by {
            assert(forall|i: int|
                0 <= i < s.len() - 1 ==> s.drop_last()[i] == #[trigger] s[i]);
        }
        lemma_digits_val_nonneg(s.drop_last());
    }
}

/// The position of the first `/` in `s`, or `s`'s length when there is
/// none.
pub open spec fn first_slash(s: Seq<char>) -> int
    decreases s.len(),
{
    if s.len() == 0 {
        0
    } else if s[0] == '/' {
        0
    } else {
        1 + first_slash(s.skip(1))
    }
}

/// The first slash is found exactly where the scan finds it.
pub proof fn lemma_first_slash_at(s: Seq<char>, i: int)
    requires
        0 <= i <= s.len(),
        forall|j: int| 0 <= j < i ==> s[j] != '/',
        i < s.len() ==> s[i] == '/',
    ensures
        first_slash(s) == if i < s.len() {
            i
        } else {
            s.len() as int
        },
    decreases i,
{
    if s.len() > 0 {
        if i == 0 {
        } else {
            assert(s[0] != '/');
            assert(forall|j: int| 0 <= j < i - 1 ==> s.skip(1)[j] == #[trigger] s[j + 1]);
            lemma_first_slash_at(s.skip(1), i - 1);
        }
    }
}

/// The meaning of a frame-rate string: a whole number `n` denotes `n / 1`,
/// and `num/den` splits at the first slash; both parts must be non-empty
/// strings of decimal digits.
pub open spec fn rational_of(s: Seq<char>) -> Option<(int, int)> {
    let k = first_slash(s);
    if k == s.len() {
        if s.len() > 0 && all_digits(s) {
            Some((digits_val(s), 1int))
        } else {
            None
        }
    } else {
        let num = s.take(k);
        let den = s.skip(k + 1);
        if num.len() > 0 && den.len() > 0 && all_digits(num) && all_digits(den) {
            Some((digits_val(num), digits_val(den)))
        } else {
            None
        }
    }
}

/// Parses the digit run `chars[start..end]` into a number, or nothing when
/// the run is empty, holds a non-digit, or denotes more than a machine
/// word holds.
fn parse_digits(chars: &Vec<char>, start: usize, end: usize) -> (r: Option<u64>)
    requires
        start <= end <= chars@.len(),
    ensures
        ({
            let seg = chars@.subrange(start as int, end as int);
            match r {
                Some(v) => seg.len() > 0 && all_digits(seg) && v == digits_val(seg),
                None => seg.len() == 0 || !all_digits(seg) || digits_val(seg) > u64::MAX,
            }
        }),
{
    let ghost seg = chars@.subrange(start as int, end as int);
    if start == end {
        return None;
    }
    let mut v: u64 = 0;
    let mut i: usize = start;
    while i < end
        invariant
            start <= i <= end <= chars@.len(),
            seg == chars@.subrange(start as int, end as int),
            all_digits(seg.take(i - start)),
            v == digits_val(seg.take(i - start)),
        decreases end - i,
    {
        let c: char = chars[i];
        let code: u32 = c as u32;
        proof {
            assert(seg[i - start] == chars@[i as int]);
            assert(seg.take(i - start + 1).drop_last() =~= seg.take(i - start));
            assert(seg.take(i - start + 1).last() == seg[i - start]);
        }
        if code < 48 || code > 57 {
            proof {
                assert(!is_digit(seg[i - start]));
            }
            return None;
        }
        let d: u64 = (code - 48) as u64;
        if v > (u64::MAX - d) / 10 {
            proof {
                vstd::arithmetic::div_mod::lemma_fundamental_div_mod(
                    (u64::MAX - d) as int,
                    10,
                );
                assert(v * 10 + d > u64::MAX) by (nonlinear_arith)
                    requires
                        v as int > ((u64::MAX - d) as int) / 10,
                        ((u64::MAX - d) as int) == 10 * (((u64::MAX - d) as int) / 10) + (((
                        u64::MAX - d) as int) % 10),
                        0 <= ((u64::MAX - d) as int) % 10 < 10,
                        0 <= d <= 9,
                ;
                assert(digits_val(seg.take(i - start + 1)) == v * 10 + d);
                lemma_all_digits_extend(seg, i - start + 1);
                if all_digits(seg) {
                    lemma_digits_val_monotone(seg, i - start + 1);
                }
            }
            return None;
        }
        proof {
            assert(v * 10 + d <= u64::MAX) by (nonlinear_arith)
                requires
                    v as int <= ((u64::MAX - d) as int) / 10,
                    0 <= v,
                    0 <= d <= 9,
                    ((u64::MAX - d) as int) / 10 * 10 <= (u64::MAX - d) as int,
            ;
            vstd::arithmetic::div_mod::lemma_fundamental_div_mod((u64::MAX - d) as int, 10);
            vstd::arithmetic::div_mod::lemma_mod_division_less_than_divisor(
                (u64::MAX - d) as int,
                10,
            );
        }
        v = v * 10 + d;
        i = i + 1;
    }
    proof {
        assert(seg.take(end - start) =~= seg);
    }
    Some(v)
}

/// When a prefix of `s` holds only digits but `s` does not, the flaw lies
/// at or past the prefix; conversely a flaw inside the prefix refutes the
/// whole. Used to pass digit-ness between a prefix and the whole string.
proof fn lemma_all_digits_extend(s: Seq<char>, i: int)
    requires
        0 <= i <= s.len(),
        all_digits(s.take(i)),
    ensures
        all_digits(s) ==> all_digits(s.take(i)),
        forall|k: int| 0 <= k < i ==> is_digit(#[trigger] s[k]),
{
    assert(forall|k: int| 0 <= k < i ==> s.take(i)[k] == #[trigger] s[k]);
}

/// Parses a frame-rate string: `num` or `num/den` in decimal digits. The
/// result is the parsed pair, or nothing when the string has another shape
/// or a part denotes more than a machine word holds.
pub fn parse_rational(s: &str) -> (r: Option<(u64, u64)>)
    ensures
        ({
            match r {
                Some(p) => rational_of(s@) == Some((p.0 as int, p.1 as int)),
                None => rational_of(s@) is None || rational_of(s@).unwrap().0 > u64::MAX
                    || rational_of(s@).unwrap().1 > u64::MAX,
            }
        }),
{
    let chars = chars_of(s);
    let n: usize = chars.len();
    let mut slash: usize = n;
    let mut i: usize = 0;
    while i < n
        invariant
            n == chars@.len(),
            i <= n,
            slash <= n,
            slash == n ==> forall|j: int| 0 <= j < i ==> chars@[j] != '/',
            slash < n ==> slash < i && chars@[slash as int] == '/' && (forall|j: int|
                0 <= j < slash ==> chars@[j] != '/'),
        decreases n - i,
    {
        if slash == n && chars[i] == '/' {
            slash = i;
        }
        i = i + 1;
    }
    proof {
        if slash == n {
            lemma_first_slash_at(chars@, n as int);
        } else {
            lemma_first_slash_at(chars@, slash as int);
        }
    }
    if slash == n {
        proof {
            assert(chars@.subrange(0, n as int) =~= chars@);
        }
        match parse_digits(&chars, 0, n) {
            Some(v) => Some((v, 1)),
            None => None,
        }
    } else {
        proof {
            assert(chars@.subrange(0, slash as int) =~= chars@.take(slash as int));
            assert(chars@.subrange(slash as int + 1, n as int) =~= chars@.skip(
                slash as int + 1,
            ));
        }
        let num = parse_digits(&chars, 0, slash);
        let den = parse_digits(&chars, slash + 1, n);
        match (num, den) {
            (Some(a), Some(b)) => Some((a, b)),
            _ => None,
        }
    }
}

/// The frame rate a probe reply reports, as a rational number: the parsed
/// `streams[0].r_frame_rate` field, kept only when its denominator is at
/// least one and both parts fit a machine word.
pub open spec fn fps_of(field: Option<Seq<char>>) -> Option<(int, int)> {
    match field {
        None => None,
        Some(t) => match rational_of(t) {
            None => None,
            Some((n, d)) => if 1 <= d <= u64::MAX && 0 <= n <= u64::MAX {
                Some((n, d))
            } else {
                None
            },
        },
    }
}

/// Extracts the frame rate from a probe reply: the `streams[0].
/// r_frame_rate` field parsed as `num/den`. A missing field, a malformed
/// string, or a zero denominator yields nothing.
pub fn extract_fps(probe_json: &str) -> (r: Option<(u64, u64)>)
    ensures
        match r {
            Some(p) => fps_of(frame_rate_field(probe_json@)) == Some((p.0 as int, p.1 as int)),
            None => fps_of(frame_rate_field(probe_json@)) is None,
        },
{
    match read_frame_rate_field(probe_json) {
        Some(field) => {
            match parse_rational(field.as_str()) {
                Some((n, d)) => {
                    if d >= 1 {
                        Some((n, d))
                    } else {
                        None
                    }
                },
                None => None,
            }
        },
        None => None,
    }
}

/// Whether the probed media has an audio stream: its probe reply holds a
/// non-empty `streams` array. A reply that is not JSON is an error.
pub fn has_audio(probe_json: &str) -> (r: Result<bool, MyError>)
    ensures
        r is Ok <==> audio_stream_count(probe_json@) is Some,
        r matches Ok(b) ==> audio_stream_count(probe_json@) matches Some(n) && b == (n > 0),
        r matches Err(e) ==> e matches MyError::Application(_),
{
    match read_stream_count(probe_json) {
        Some(n) => Ok(n > 0),
        None => Err(MyError::Application("Data error".to_owned())),
    }
}

} // verus!
