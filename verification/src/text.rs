//! Verified text utilities: substring search, prefix and suffix tests,
//! whitespace trimming, and concatenation, all specified over `Seq<char>`.

use vstd::prelude::*;
use vstd::string::StrSliceExecFns;
use vstd::string::StringExecFns;
use vstd::string::StringSliceAdditionalSpecFns;
use vstd::utf8::encode_scalar;
use vstd::utf8::encode_utf8;

verus! {

/// Whether `p` stands at the front of `s`.
pub open spec fn starts_with_spec(s: Seq<char>, p: Seq<char>) -> bool {
    p.len() <= s.len() && s.subrange(0, p.len() as int) == p
}

/// Whether `p` stands at the end of `s`.
pub open spec fn ends_with_spec(s: Seq<char>, p: Seq<char>) -> bool {
    p.len() <= s.len() && s.subrange(s.len() - p.len(), s.len() as int) == p
}

/// Whether `p` stands in `s` at offset `i`.
pub open spec fn contains_at(s: Seq<char>, p: Seq<char>, i: int) -> bool {
    0 <= i && i + p.len() <= s.len() && s.subrange(i, i + p.len()) == p
}

/// Whether `p` occurs anywhere in `s`.
pub open spec fn contains_spec(s: Seq<char>, p: Seq<char>) -> bool {
    exists|i: int| contains_at(s, p, i)
}

/// The Unicode white-space code points.
pub open spec fn is_ws_code(u: u32) -> bool {
    u == 0x20 || (0x9 <= u && u <= 0xD) || u == 0x85 || u == 0xA0 || u == 0x1680 || (0x2000 <= u
        && u <= 0x200A) || u == 0x2028 || u == 0x2029 || u == 0x202F || u == 0x205F || u == 0x3000
}

/// The Unicode white-space characters.
pub open spec fn is_ws_char(c: char) -> bool {
    is_ws_code(c as u32)
}

/// Whether `c` is a Unicode white-space character.
pub fn is_ws(c: char) -> (b: bool)
    ensures
        b == is_ws_char(c),
{
    let u = c as u32;
    u == 0x20 || (0x9 <= u && u <= 0xD) || u == 0x85 || u == 0xA0 || u == 0x1680 || (0x2000 <= u
        && u <= 0x200A) || u == 0x2028 || u == 0x2029 || u == 0x202F || u == 0x205F || u == 0x3000
}

/// The first offset in `[start, end)` holding a non-white-space character,
/// or `end` when the whole range is white space.
pub open spec fn skip_ws(s: Seq<char>, start: int, end: int) -> int
    decreases end - start,
{
    if start < end && is_ws_char(s[start]) {
        skip_ws(s, start + 1, end)
    } else {
        start
    }
}

pub proof fn lemma_skip_ws(s: Seq<char>, start: int, end: int)
    requires
        0 <= start <= end <= s.len(),
    ensures
        start <= skip_ws(s, start, end) <= end,
        forall|i: int| start <= i < skip_ws(s, start, end) ==> is_ws_char(s[i]),
        skip_ws(s, start, end) < end ==> !is_ws_char(s[skip_ws(s, start, end)]),
    decreases end - start,
{
    if start < end && is_ws_char(s[start]) {
        lemma_skip_ws(s, start + 1, end);
    }
}

/// The past-the-end offset of the range `[start, end)` with its trailing
/// white space removed, never moving below `start`.
pub open spec fn skip_ws_back(s: Seq<char>, start: int, end: int) -> int
    decreases end - start,
{
    if start < end && is_ws_char(s[end - 1]) {
        skip_ws_back(s, start, end - 1)
    } else {
        end
    }
}

/// `s` with leading and trailing white space removed.
pub open spec fn trim_spec(s: Seq<char>) -> Seq<char> {
    let a = skip_ws(s, 0, s.len() as int);
    let b = skip_ws_back(s, a, s.len() as int);
    s.subrange(a, b)
}

/// `s` with every repetition of the prefix `p` removed from its front.
pub open spec fn trim_start_matches_spec(s: Seq<char>, p: Seq<char>) -> Seq<char>
    decreases s.len(),
{
    if p.len() > 0 && starts_with_spec(s, p) {
        trim_start_matches_spec(s.subrange(p.len() as int, s.len() as int), p)
    } else {
        s
    }
}

/// `s` with every trailing occurrence of the character `c` removed.
pub open spec fn trim_end_matches_spec(s: Seq<char>, c: char) -> Seq<char>
    decreases s.len(),
{
    if s.len() > 0 && s[s.len() - 1] == c {
        trim_end_matches_spec(s.drop_last(), c)
    } else {
        s
    }
}

/// Whether the characters of `p` stand in `s` at offset `i`.
fn eq_at(s: &str, p: &str, s_len: usize, p_len: usize, i: usize) -> (b: bool)
    requires
        s_len == s@.len(),
        p_len == p@.len(),
        i + p_len <= s_len,
    ensures
        b == contains_at(s@, p@, i as int),
{
    let mut j: usize = 0;
    while j < p_len
        invariant
            0 <= j <= p_len,
            s_len == s@.len(),
            p_len == p@.len(),
            i + p_len <= s_len,
            forall|k: int| 0 <= k < j ==> s@[i + k] == p@[k],
        decreases p_len - j,
    {
        if s.get_char(i + j) != p.get_char(j) {
            assert(s@.subrange(i as int, i + p@.len()) != p@) by {
                assert(s@.subrange(i as int, i + p@.len())[j as int] != p@[j as int]);
            }
            return false;
        }
        j = j + 1;
    }
    assert(s@.subrange(i as int, i + p@.len()) =~= p@);
    true
}

/// Whether `p` occurs anywhere in `s`.
pub fn str_contains(s: &str, p: &str) -> (b: bool)
    ensures
        b == contains_spec(s@, p@),
{
    let s_len = s.unicode_len();
    let p_len = p.unicode_len();
    if p_len > s_len {
        assert(forall|i: int| !contains_at(s@, p@, i));
        return false;
    }
    if p_len == 0 {
        proof {
            assert(s@.subrange(0, 0) =~= p@);
        }
        assert(contains_at(s@, p@, 0));
        return true;
    }
    let mut i: usize = 0;
    while i <= s_len - p_len
        invariant
            s_len == s@.len(),
            p_len == p@.len(),
            1 <= p_len <= s_len,
            0 <= i <= s_len - p_len + 1,
            forall|j: int| 0 <= j < i ==> !contains_at(s@, p@, j),
        decreases s_len - p_len - i + 1,
    {
        if eq_at(s, p, s_len, p_len, i) {
            return true;
        }
        i = i + 1;
    }
    assert(forall|j: int| 0 <= j ==> !contains_at(s@, p@, j));
    false
}

/// Whether `p` stands at the front of `s`.
pub fn str_starts_with(s: &str, p: &str) -> (b: bool)
    ensures
        b == starts_with_spec(s@, p@),
{
    let s_len = s.unicode_len();
    let p_len = p.unicode_len();
    if p_len > s_len {
        return false;
    }
    eq_at(s, p, s_len, p_len, 0)
}

/// Whether `p` stands at the end of `s`.
pub fn str_ends_with(s: &str, p: &str) -> (b: bool)
    ensures
        b == ends_with_spec(s@, p@),
{
    let s_len = s.unicode_len();
    let p_len = p.unicode_len();
    if p_len > s_len {
        return false;
    }
    eq_at(s, p, s_len, p_len, s_len - p_len)
}

/// The first offset in `[start, end)` of `s` holding a non-white-space
/// character, or `end` when the whole range is white space.
pub fn skip_ws_exec(s: &str, start: usize, end: usize) -> (r: usize)
    requires
        start <= end <= s@.len(),
    ensures
        r as int == skip_ws(s@, start as int, end as int),
{
    let mut a = start;
    while a < end && is_ws(s.get_char(a))
        invariant
            start <= a <= end <= s@.len(),
            skip_ws(s@, start as int, end as int) == skip_ws(s@, a as int, end as int),
        decreases end - a,
    {
        a = a + 1;
    }
    a
}

/// `s` with leading and trailing white space removed.
pub fn str_trim<'a>(s: &'a str) -> (r: &'a str)
    ensures
        r@ == trim_spec(s@),
{
    let len = s.unicode_len();
    let a = skip_ws_exec(s, 0, len);
    proof {
        lemma_skip_ws(s@, 0, len as int);
    }
    let mut b = len;
    while b > a && is_ws(s.get_char(b - 1))
        invariant
            a <= b <= len,
            len == s@.len(),
            skip_ws_back(s@, a as int, len as int) == skip_ws_back(s@, a as int, b as int),
        decreases b,
    {
        b = b - 1;
    }
    s.substring_char(a, b)
}

/// `s` with every repetition of the prefix `p` removed from its front.
pub fn str_trim_start_matches<'a>(s: &'a str, p: &str) -> (r: &'a str)
    ensures
        r@ == trim_start_matches_spec(s@, p@),
{
    let p_len = p.unicode_len();
    if p_len == 0 {
        return s;
    }
    let mut cur: &str = s;
    let mut cur_len = s.unicode_len();
    while str_starts_with(cur, p)
        invariant
            p_len == p@.len(),
            p_len > 0,
            cur_len == cur@.len(),
            trim_start_matches_spec(s@, p@) == trim_start_matches_spec(cur@, p@),
        decreases cur_len,
    {
        cur = cur.substring_char(p_len, cur_len);
        cur_len = cur_len - p_len;
    }
    cur
}

/// `s` with every trailing occurrence of the character `c` removed.
pub fn str_trim_end_matches<'a>(s: &'a str, c: char) -> (r: &'a str)
    ensures
        r@ == trim_end_matches_spec(s@, c),
{
    let len = s.unicode_len();
    proof {
        assert(s@.subrange(0, s@.len() as int) =~= s@);
    }
    let mut b = len;
    while b > 0 && s.get_char(b - 1) == c
        invariant
            0 <= b <= len,
            len == s@.len(),
            trim_end_matches_spec(s@, c) == trim_end_matches_spec(s@.subrange(0, b as int), c),
        decreases b,
    {
        proof {
            assert(s@.subrange(0, b as int).drop_last() =~= s@.subrange(0, b - 1));
            assert(s@.subrange(0, b as int)[b - 1] == s@[b - 1]);
        }
        b = b - 1;
    }
    proof {
        if b > 0 {
            assert(s@.subrange(0, b as int)[b - 1] == s@[b - 1]);
        }
    }
    s.substring_char(0, b)
}

/// Whether two pieces of text hold the same characters.
pub fn str_eq(a: &str, b: &str) -> (r: bool)
    ensures
        r == (a@ == b@),
{
    let a_len = a.unicode_len();
    let b_len = b.unicode_len();
    if a_len != b_len {
        return false;
    }
    let r = eq_at(a, b, a_len, b_len, 0);
    proof {
        assert(a@.subrange(0, a@.len() as int) =~= a@);
    }
    r
}

/// The concatenation of three pieces of text.
pub fn str_concat3(a: &str, b: &str, c: &str) -> (r: String)
    ensures
        r@ == a@ + b@ + c@,
{
    let mut s = a.to_owned();
    s.append(b);
    s.append(c);
    s
}

/// The concatenation of five pieces of text.
pub fn str_concat5(a: &str, b: &str, c: &str, d: &str, e: &str) -> (r: String)
    ensures
        r@ == a@ + b@ + c@ + d@ + e@,
{
    let mut s = a.to_owned();
    s.append(b);
    s.append(c);
    s.append(d);
    s.append(e);
    s
}

/// A UTF-8 encoding is empty exactly when the character sequence is.
pub proof fn lemma_encode_utf8_empty(chars: Seq<char>)
    ensures
        chars.len() == 0 ==> encode_utf8(chars).len() == 0,
{
}

/// The byte width of one character's UTF-8 encoding.
pub fn char_width(c: char) -> (w: usize)
    ensures
        1 <= w <= 4,
        w as int == encode_scalar(c as u32).len(),
{
    proof {
        vstd::utf8::char_is_scalar(c);
    }
    let u = c as u32;
    if u < 0x80 {
        1
    } else if u < 0x800 {
        2
    } else if u < 0x10000 {
        3
    } else {
        4
    }
}

/// The first offset at or after `start`, but not past `end`, that begins a
/// non-white-space character, reached by stepping over one white-space
/// character at a time.  Offsets are byte positions in a UTF-8 encoding;
/// each step moves by the width of the character it skips, and only onto a
/// character boundary.
pub open spec fn skip_ws_bytes(bytes: Seq<u8>, start: int, end: int) -> int
    decreases end - start,
{
    let w = vstd::utf8::length_of_first_scalar(bytes.skip(start));
    if start < end && vstd::utf8::is_char_boundary(bytes, start) && is_ws_code(
        vstd::utf8::decode_first_scalar(bytes.skip(start)),
    ) && 1 <= w && start + w <= end && vstd::utf8::is_char_boundary(bytes, start + w) {
        skip_ws_bytes(bytes, start + w, end)
    } else {
        start
    }
}

/// In a valid UTF-8 encoding, a character boundary below the length is
/// followed by its character's width worth of non-boundary positions and
/// then the next boundary.
pub proof fn lemma_next_boundary(bytes: Seq<u8>, s: int)
    requires
        vstd::utf8::valid_utf8(bytes),
        vstd::utf8::is_char_boundary(bytes, s),
        0 <= s < bytes.len(),
    ensures
        ({
            let w = vstd::utf8::length_of_first_scalar(bytes.skip(s));
            &&& 1 <= w
            &&& s + w <= bytes.len()
            &&& vstd::utf8::is_char_boundary(bytes, s + w)
            &&& forall|p: int| s < p < s + w ==> !vstd::utf8::is_char_boundary(bytes, p)
        }),
{
    let tail = bytes.skip(s);
    assert(tail =~= bytes.subrange(s, bytes.len() as int));
    vstd::utf8::valid_utf8_split(bytes, s);
    assert(vstd::utf8::valid_utf8(tail));
    assert(vstd::utf8::valid_first_scalar(tail));
    let w = vstd::utf8::length_of_first_scalar(tail);
    assert(1 <= w <= 4 && w <= tail.len() && forall|q: int|
        0 < q < w ==> vstd::utf8::is_continuation_byte(tail[q]));
    assert forall|p: int| s < p < s + w implies !vstd::utf8::is_char_boundary(bytes, p) by {
        assert(bytes[p] == tail[p - s]);
        vstd::utf8::is_char_boundary_iff_not_is_continuation_byte(bytes, p);
    }
    if s + w == bytes.len() {
        vstd::utf8::is_char_boundary_start_end_of_seq(bytes);
    } else {
        assert(vstd::utf8::valid_utf8(vstd::utf8::pop_first_scalar(tail)));
        assert(vstd::utf8::is_char_boundary(vstd::utf8::pop_first_scalar(tail), 0));
        assert(vstd::utf8::is_char_boundary(tail, w));
        vstd::utf8::is_char_boundary_iff_not_is_continuation_byte(tail, w);
        assert(bytes[s + w] == tail[w]);
        vstd::utf8::is_char_boundary_iff_not_is_continuation_byte(bytes, s + w);
    }
}

/// What the byte-offset white-space skip reaches in a valid UTF-8 encoding
/// whose range ends sit on character boundaries: a boundary between `start`
/// and `end`, with a white-space character beginning at every boundary
/// before it, and a non-white-space character at its front unless it reached
/// `end`.
pub proof fn lemma_skip_ws_bytes(bytes: Seq<u8>, start: int, end: int)
    requires
        vstd::utf8::valid_utf8(bytes),
        0 <= start <= end <= bytes.len(),
        vstd::utf8::is_char_boundary(bytes, start),
        vstd::utf8::is_char_boundary(bytes, end),
    ensures
        ({
            let r = skip_ws_bytes(bytes, start, end);
            &&& start <= r <= end
            &&& vstd::utf8::is_char_boundary(bytes, r)
            &&& forall|p: int|
                start <= p < r && vstd::utf8::is_char_boundary(bytes, p) ==> is_ws_code(
                    vstd::utf8::decode_first_scalar(bytes.skip(p)),
                )
            &&& r < end ==> !is_ws_code(vstd::utf8::decode_first_scalar(bytes.skip(r)))
        }),
    decreases end - start,
{
    if start < end {
        lemma_next_boundary(bytes, start);
        let w = vstd::utf8::length_of_first_scalar(bytes.skip(start));
        if start + w > end {
            assert(!vstd::utf8::is_char_boundary(bytes, end));
            assert(false);
        }
        if is_ws_code(vstd::utf8::decode_first_scalar(bytes.skip(start))) {
            lemma_skip_ws_bytes(bytes, start + w, end);
            let r = skip_ws_bytes(bytes, start, end);
            assert(r == skip_ws_bytes(bytes, start + w, end));
            assert forall|p: int|
                start <= p < r && vstd::utf8::is_char_boundary(bytes, p) implies is_ws_code(
                vstd::utf8::decode_first_scalar(bytes.skip(p)),
            ) by {
                if p != start {
                    assert(start < p < start + w ==> !vstd::utf8::is_char_boundary(bytes, p));
                }
            }
        }
    }
}

/// The byte-offset white-space skip over a text slice, from `start` up to at
/// most `end`, both byte offsets into the slice's UTF-8 encoding.
pub fn skip_ws_bytes_exec(s: &str, start: usize, end: usize) -> (r: usize)
    requires
        start <= end,
        end as int <= s.spec_bytes().len(),
    ensures
        r as int == skip_ws_bytes(s.spec_bytes(), start as int, end as int),
        start <= r <= end,
{
    let mut a = start;
    let mut done: bool = false;
    while !done
        invariant
            start <= a <= end,
            end as int <= s.spec_bytes().len(),
            skip_ws_bytes(s.spec_bytes(), start as int, end as int) == skip_ws_bytes(
                s.spec_bytes(),
                a as int,
                end as int,
            ),
            done ==> skip_ws_bytes(s.spec_bytes(), a as int, end as int) == a as int,
        decreases end - a + (if done {
            0int
        } else {
            1int
        }),
    {
        if a < end && s.is_char_boundary(a) {
            let tail = s.split_at(a).1;
            proof {
                assert(s.spec_bytes().subrange(a as int, s.spec_bytes().len() as int)
                    =~= s.spec_bytes().skip(a as int));
                lemma_encode_utf8_empty(tail@);
                assert(tail@.len() > 0);
                vstd::utf8::encode_utf8_first_scalar(tail@);
            }
            let c = tail.get_char(0);
            let w = char_width(c);
            proof {
                assert(vstd::utf8::decode_first_scalar(s.spec_bytes().skip(a as int)) == c as u32);
                assert(vstd::utf8::length_of_first_scalar(s.spec_bytes().skip(a as int))
                    == w as int);
            }
            if is_ws(c) && w <= end - a && s.is_char_boundary(a + w) {
                a = a + w;
            } else {
                done = true;
            }
        } else {
            done = true;
        }
    }
    a
}

} // verus!
