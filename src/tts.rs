use vstd::prelude::*;

use crate::text::{chars_of, string_of};
use vstd::string::*;

verus! {

/// Longest text, in UTF-8 bytes after trimming, that is sent to speech synthesis.
pub const MAX_TTS_BYTES: usize = 500;

/// A request for speech synthesis.
pub struct TtsRequest {
    pub text: String,
    pub voice: Option<String>,
}

/// Unicode `White_Space`, the set that `char::is_whitespace` tests.
pub open spec fn is_white_space(c: char) -> bool {
    let u = c as u32;
    ||| 0x09 <= u <= 0x0D
    ||| u == 0x20
    ||| u == 0x85
    ||| u == 0xA0
    ||| u == 0x1680
    ||| 0x2000 <= u <= 0x200A
    ||| u == 0x2028
    ||| u == 0x2029
    ||| u == 0x202F
    ||| u == 0x205F
    ||| u == 0x3000
}

/// Characters kept by sanitising: printable ASCII and ASCII whitespace
/// (space, tab, line feed, form feed, carriage return).
pub open spec fn is_kept(c: char) -> bool {
    let u = c as u32;
    ||| 0x21 <= u <= 0x7E
    ||| u == 0x20
    ||| u == 0x09
    ||| u == 0x0A
    ||| u == 0x0C
    ||| u == 0x0D
}

/// Number of bytes of `c` in UTF-8.
pub open spec fn utf8_width(c: char) -> nat {
    let u = c as u32;
    if u < 0x80 {
        1
    } else if u < 0x800 {
        2
    } else if u < 0x10000 {
        3
    } else {
        4
    }
}

/// Number of bytes of `s` in UTF-8.
pub open spec fn utf8_len(s: Seq<char>) -> nat
    decreases s.len(),
{
    if s.len() == 0 {
        0
    } else {
        utf8_len(s.drop_last()) + utf8_width(s.last())
    }
}

/// `s` without its leading white space.
pub open spec fn trim_start(s: Seq<char>) -> Seq<char>
    decreases s.len(),
{
    if s.len() > 0 && is_white_space(s[0]) {
        trim_start(s.drop_first())
    } else {
        s
    }
}

/// `s` without its trailing white space.
pub open spec fn trim_end(s: Seq<char>) -> Seq<char>
    decreases s.len(),
{
    if s.len() > 0 && is_white_space(s.last()) {
        trim_end(s.drop_last())
    } else {
        s
    }
}

/// `s` without leading or trailing white space, as `str::trim` gives it.
pub open spec fn trimmed(s: Seq<char>) -> Seq<char> {
    trim_end(trim_start(s))
}

/// The characters of `s` that sanitising keeps, in order.
pub open spec fn sanitized(s: Seq<char>) -> Seq<char>
    decreases s.len(),
{
    if s.len() == 0 {
        s
    } else if is_kept(s.last()) {
        sanitized(s.drop_last()).push(s.last())
    } else {
        sanitized(s.drop_last())
    }
}

fn white_space(c: char) -> (r: bool)
    ensures
        r == is_white_space(c),
{
    let u = c as u32;
    (0x09 <= u && u <= 0x0D) || u == 0x20 || u == 0x85 || u == 0xA0 || u == 0x1680 || (0x2000
        <= u && u <= 0x200A) || u == 0x2028 || u == 0x2029 || u == 0x202F || u == 0x205F || u
        == 0x3000
}

fn kept(c: char) -> (r: bool)
    ensures
        r == is_kept(c),
{
    let u = c as u32;
    (0x21 <= u && u <= 0x7E) || u == 0x20 || u == 0x09 || u == 0x0A || u == 0x0C || u == 0x0D
}

fn width(c: char) -> (r: usize)
    ensures
        r == utf8_width(c),
{
    let u = c as u32;
    if u < 0x80 {
        1
    } else if u < 0x800 {
        2
    } else if u < 0x10000 {
        3
    } else {
        4
    }
}

proof fn lemma_trim_start_suffix(s: Seq<char>, i: int)
    requires
        0 <= i <= s.len(),
        forall|k: int| 0 <= k < i ==> is_white_space(#[trigger] s[k]),
    ensures
        trim_start(s) == trim_start(s.subrange(i, s.len() as int)),
    decreases i,
{
    if i > 0 {
        assert(s.drop_first() =~= s.subrange(1, s.len() as int));
        lemma_trim_start_suffix(s.drop_first(), i - 1);
        assert(s.drop_first().subrange(i - 1, s.drop_first().len() as int) =~= s.subrange(
            i,
            s.len() as int,
        ));
    } else {
        assert(s.subrange(0, s.len() as int) =~= s);
    }
}

proof fn lemma_trim_end_prefix(s: Seq<char>, j: int)
    requires
        0 <= j <= s.len(),
        forall|k: int| j <= k < s.len() ==> is_white_space(#[trigger] s[k]),
    ensures
        trim_end(s) == trim_end(s.subrange(0, j)),
    decreases s.len() - j,
{
    if j < s.len() {
        lemma_trim_end_prefix(s.drop_last(), j);
        assert(s.drop_last().subrange(0, j) =~= s.subrange(0, j));
    } else {
        assert(s.subrange(0, j) =~= s);
    }
}

/// Trims `text`, refuses it if nothing is left or if more than
/// `MAX_TTS_BYTES` UTF-8 bytes are left, and otherwise keeps only its
/// printable ASCII and ASCII whitespace characters.
pub fn validate_and_sanitize_tts_text(text: &str) -> (r: Option<String>)
    ensures
        trimmed(text@).len() == 0 || utf8_len(trimmed(text@)) > MAX_TTS_BYTES ==> r is None,
        trimmed(text@).len() > 0 && utf8_len(trimmed(text@)) <= MAX_TTS_BYTES ==> (r matches Some(
            out) && out@ == sanitized(trimmed(text@))),
{
    let cs = chars_of(text);
    let n = cs.len();
    let mut start: usize = 0;
    while start < n && white_space(cs[start])
        invariant
            n == cs@.len(),
            start <= n,
            forall|k: int| 0 <= k < start ==> is_white_space(#[trigger] cs@[k]),
        decreases n - start,
    {
        start = start + 1;
    }
    proof {
        lemma_trim_start_suffix(cs@, start as int);
        assert(start == n || !is_white_space(cs@[start as int]));
    }
    let ghost front = cs@.subrange(start as int, n as int);
    assert(trim_start(front) == front);
    let mut end: usize = n;
    while end > start && white_space(cs[end - 1])
        invariant
            n == cs@.len(),
            start <= end <= n,
            forall|k: int| end <= k < n ==> is_white_space(#[trigger] cs@[k]),
        decreases end - start,
    {
        end = end - 1;
    }
    proof {
        let fr = front;
        lemma_trim_end_prefix(fr, end - start);
        assert(fr.subrange(0, end - start) =~= cs@.subrange(start as int, end as int));
    }
    let ghost t = cs@.subrange(start as int, end as int);
    assert(trim_end(t) == t);
    assert(trimmed(text@) == t);
    if end == start {
        return None;
    }
    let mut bytes: usize = 0;
    let mut i: usize = start;
    while i < end
        invariant
            start <= i <= end <= n == cs@.len(),
            t == cs@.subrange(start as int, end as int),
            bytes == utf8_len(cs@.subrange(start as int, i as int)),
            bytes <= MAX_TTS_BYTES,
            trimmed(text@) == t,
        decreases end - i,
    {
        assert(cs@.subrange(start as int, i + 1).drop_last() =~= cs@.subrange(
            start as int,
            i as int,
        ));
        bytes = bytes + width(cs[i]);
        i = i + 1;
        if bytes > MAX_TTS_BYTES {
            proof {
                lemma_utf8_len_prefix(t, i - start);
                assert(t.subrange(0, i - start) =~= cs@.subrange(start as int, i as int));
            }
            return None;
        }
    }
    assert(cs@.subrange(start as int, i as int) =~= t);
    let mut out: Vec<char> = Vec::new();
    let mut i: usize = start;
    while i < end
        invariant
            start <= i <= end <= n == cs@.len(),
            out@ == sanitized(cs@.subrange(start as int, i as int)),
            t == cs@.subrange(start as int, end as int),
            trimmed(text@) == t,
            utf8_len(t) <= MAX_TTS_BYTES,
        decreases end - i,
    {
        assert(cs@.subrange(start as int, i + 1).drop_last() =~= cs@.subrange(
            start as int,
            i as int,
        ));
        let c = cs[i];
        if kept(c) {
            out.push(c);
        }
        i = i + 1;
    }
    assert(cs@.subrange(start as int, end as int) =~= t);
    Some(string_of(&out))
}

proof fn lemma_utf8_len_prefix(s: Seq<char>, k: int)
    requires
        0 <= k <= s.len(),
    ensures
        utf8_len(s.subrange(0, k)) <= utf8_len(s),
    decreases s.len() - k,
{
    if k < s.len() {
        lemma_utf8_len_prefix(s, k + 1);
        assert(s.subrange(0, k + 1).drop_last() =~= s.subrange(0, k));
    } else {
        assert(s.subrange(0, k) =~= s);
    }
}

/// The voices offered when the synthesis server cannot list its own.
pub open spec fn fallback_voices() -> Seq<Seq<char>> {
    seq!["Samantha"@, "Alex"@, "Daniel"@, "Victoria"@, "Tom"@]
}

/// The voices to offer: those the synthesis server listed, or the fallback
/// list when it could not be reached or its answer could not be read.
pub fn voices_or_default(listed: Option<Vec<String>>) -> (r: Vec<String>)
    ensures
        match listed {
            Some(v) => r == v,
            None => r@.map_values(|s: String| s@) == fallback_voices(),
        },
{
    match listed {
        Some(v) => v,
        None => {
            let mut r: Vec<String> = Vec::new();
            r.push(String::from_str("Samantha"));
            r.push(String::from_str("Alex"));
            r.push(String::from_str("Daniel"));
            r.push(String::from_str("Victoria"));
            r.push(String::from_str("Tom"));
            assert(r@.map_values(|s: String| s@) =~= fallback_voices());
            r
        },
    }
}

} // verus!
