//! Verified text helpers: hexadecimal rendering and parsing, decimal
//! rendering, ASCII trimming and case folding, and substring search.
//!
//! Strings are built one character at a time through [`push_char`], the
//! only trusted item of this module.

use vstd::prelude::*;

verus! {

/// Relies on `String::push`: appends exactly one character to the string.
#[verifier::external_body]
pub(crate) fn push_char(s: &mut String, c: char)
    ensures
        final(s)@ == old(s)@ + seq![c],
{
    s.push(c);
}

/// The lowercase hexadecimal digit for a value below 16.
pub open spec fn spec_hex_digit_char(d: int) -> char
    recommends
        0 <= d < 16,
{
    if d < 10 {
        (48 + d) as char
    } else {
        (87 + d) as char
    }
}

/// The lowercase hexadecimal rendering of a byte string, two digits per byte.
pub open spec fn spec_hex_chars(bytes: Seq<u8>) -> Seq<char> {
    Seq::new(
        2 * bytes.len(),
        |i: int|
            if i % 2 == 0 {
                spec_hex_digit_char((bytes[i / 2] as int) / 16)
            } else {
                spec_hex_digit_char((bytes[i / 2] as int) % 16)
            },
    )
}

fn hex_digit_char(d: u8) -> (c: char)
    requires
        d < 16,
    ensures
        c == spec_hex_digit_char(d as int),
{
    if d < 10 {
        (48 + d) as char
    } else {
        (87 + d) as char
    }
}

/// Renders a byte string in lowercase hexadecimal, two digits per byte.
pub fn hex_chars(bytes: &[u8]) -> (r: String)
    ensures
        r@ == spec_hex_chars(bytes@),
{
    let mut out = String::new();
    let mut i: usize = 0;
    while i < bytes.len()
        invariant
            i <= bytes@.len(),
            out@ =~= spec_hex_chars(bytes@.take(i as int)),
        decreases bytes@.len() - i,
    {
        let b = bytes[i];
        push_char(&mut out, hex_digit_char(b / 16));
        push_char(&mut out, hex_digit_char(b % 16));
        i = i + 1;
        proof {
            assert(out@ =~= spec_hex_chars(bytes@.take(i as int)));
        }
    }
    proof {
        assert(bytes@.take(bytes@.len() as int) =~= bytes@);
    }
    out
}

/// The value of a hexadecimal digit, upper or lower case, or `None`.
pub open spec fn spec_hex_char_val(c: char) -> Option<u8> {
    let v = c as int;
    if 48 <= v <= 57 {
        Some((v - 48) as u8)
    } else if 97 <= v <= 102 {
        Some((v - 87) as u8)
    } else if 65 <= v <= 70 {
        Some((v - 55) as u8)
    } else {
        None
    }
}

fn hex_char_val(c: char) -> (r: Option<u8>)
    ensures
        r == spec_hex_char_val(c),
{
    let v = c as u32;
    if 48 <= v && v <= 57 {
        Some((v - 48) as u8)
    } else if 97 <= v && v <= 102 {
        Some((v - 87) as u8)
    } else if 65 <= v && v <= 70 {
        Some((v - 55) as u8)
    } else {
        None
    }
}

/// The bytes a hexadecimal text denotes: `None` unless the length is even
/// and every character is a hexadecimal digit.
pub open spec fn spec_hex_parse(s: Seq<char>) -> Option<Seq<u8>> {
    if s.len() % 2 != 0 {
        None
    } else if exists|i: int| 0 <= i < s.len() && spec_hex_char_val(#[trigger] s[i]) is None {
        None
    } else {
        Some(
            Seq::new(
                s.len() / 2,
                |i: int| (16 * spec_hex_char_val(s[2 * i]).unwrap() + spec_hex_char_val(
                    s[2 * i + 1],
                ).unwrap()) as u8,
            ),
        )
    }
}

/// Parses hexadecimal text into bytes; accepts both digit cases.
pub fn parse_hex(s: &str) -> (r: Option<Vec<u8>>)
    ensures
        r matches Some(v) ==> spec_hex_parse(s@) == Some(v@),
        r is None ==> spec_hex_parse(s@) is None,
{
    let n = s.unicode_len();
    if n % 2 != 0 {
        return None;
    }
    let mut out: Vec<u8> = Vec::new();
    let mut i: usize = 0;
    while i < n
        invariant
            n == s@.len(),
            n % 2 == 0,
            i % 2 == 0,
            i <= n,
            out@.len() == i / 2,
            forall|k: int| 0 <= k < i ==> spec_hex_char_val(#[trigger] s@[k]) is Some,
            forall|k: int|
                0 <= k < i / 2 ==> out@[k] == (16 * spec_hex_char_val(s@[2 * k]).unwrap()
                    + spec_hex_char_val(#[trigger] s@[2 * k + 1]).unwrap()) as u8,
        decreases n - i,
    {
        let hi = match hex_char_val(s.get_char(i)) {
            Some(v) => v,
            None => {
                return None;
            },
        };
        let lo = match hex_char_val(s.get_char(i + 1)) {
            Some(v) => v,
            None => {
                return None;
            },
        };
        out.push(16 * hi + lo);
        i = i + 2;
    }
    proof {
        let parsed = spec_hex_parse(s@);
        assert(parsed is Some);
        assert(out@ =~= parsed.unwrap());
    }
    Some(out)
}

/// The decimal digits of a non-negative number, most significant first.
pub open spec fn spec_dec_chars_nat(n: nat) -> Seq<char>
    decreases n,
{
    if n < 10 {
        seq![(48 + n) as char]
    } else {
        spec_dec_chars_nat(n / 10) + seq![(48 + n % 10) as char]
    }
}

/// The decimal rendering of an integer, with a leading minus when negative.
pub open spec fn spec_dec_chars(n: int) -> Seq<char> {
    if n < 0 {
        seq!['-'] + spec_dec_chars_nat((-n) as nat)
    } else {
        spec_dec_chars_nat(n as nat)
    }
}

fn append_dec_u64(out: &mut String, n: u64)
    ensures
        final(out)@ == old(out)@ + spec_dec_chars_nat(n as nat),
    decreases n,
{
    if n >= 10 {
        append_dec_u64(out, n / 10);
    }
    push_char(out, (48 + (n % 10) as u8) as char);
}

/// Renders a signed 64-bit number in decimal.
pub fn dec_i64(n: i64) -> (r: String)
    ensures
        r@ == spec_dec_chars(n as int),
{
    let mut out = String::new();
    if n < 0 {
        push_char(&mut out, '-');
        let mag: u64 = (-(n + 1)) as u64 + 1;
        assert(mag == -(n as int));
        append_dec_u64(&mut out, mag);
    } else {
        append_dec_u64(&mut out, n as u64);
    }
    out
}

/// Renders an unsigned 64-bit number in decimal.
pub fn dec_u64(n: u64) -> (r: String)
    ensures
        r@ == spec_dec_chars_nat(n as nat),
{
    let mut out = String::new();
    append_dec_u64(&mut out, n);
    out
}

/// Whether two texts hold the same characters.
pub fn str_eq(a: &str, b: &str) -> (r: bool)
    ensures
        r == (a@ == b@),
{
    let na = a.unicode_len();
    let nb = b.unicode_len();
    if na != nb {
        return false;
    }
    let mut i: usize = 0;
    while i < na
        invariant
            na == a@.len(),
            na == b@.len(),
            i <= na,
            forall|k: int| 0 <= k < i ==> a@[k] == b@[k],
        decreases na - i,
    {
        if a.get_char(i) != b.get_char(i) {
            return false;
        }
        i = i + 1;
    }
    proof {
        assert(a@ =~= b@);
    }
    true
}

/// The ASCII lowercase of a character; other characters stand unchanged.
pub open spec fn spec_ascii_lower_char(c: char) -> char {
    if 'A' <= c && c <= 'Z' {
        ((c as u8) + 32) as char
    } else {
        c
    }
}

/// The ASCII-lowercase folding of a text.
pub open spec fn spec_ascii_lower(s: Seq<char>) -> Seq<char> {
    s.map_values(|c: char| spec_ascii_lower_char(c))
}

fn ascii_lower_char(c: char) -> (r: char)
    ensures
        r == spec_ascii_lower_char(c),
{
    if 'A' <= c && c <= 'Z' {
        ((c as u8) + 32) as char
    } else {
        c
    }
}

/// Folds a text to ASCII lowercase; characters outside `A`..`Z` stand
/// unchanged.
pub fn ascii_lower(s: &str) -> (r: String)
    ensures
        r@ == spec_ascii_lower(s@),
{
    let n = s.unicode_len();
    let mut out = String::new();
    let mut i: usize = 0;
    while i < n
        invariant
            n == s@.len(),
            i <= n,
            out@ =~= spec_ascii_lower(s@.take(i as int)),
        decreases n - i,
    {
        push_char(&mut out, ascii_lower_char(s.get_char(i)));
        i = i + 1;
        proof {
            assert(out@ =~= spec_ascii_lower(s@.take(i as int)));
        }
    }
    proof {
        assert(s@.take(n as int) =~= s@);
    }
    out
}

/// Whether a character is ASCII whitespace.
pub open spec fn spec_is_ascii_ws(c: char) -> bool {
    c == ' ' || c == '\t' || c == '\n' || c == '\r'
}

fn is_ascii_ws(c: char) -> (r: bool)
    ensures
        r == spec_is_ascii_ws(c),
{
    c == ' ' || c == '\t' || c == '\n' || c == '\r'
}

/// A text with its leading ASCII whitespace dropped.
pub open spec fn spec_trim_front(s: Seq<char>) -> Seq<char>
    decreases s.len(),
{
    if s.len() == 0 {
        s
    } else if spec_is_ascii_ws(s[0]) {
        spec_trim_front(s.drop_first())
    } else {
        s
    }
}

/// A text with its trailing ASCII whitespace dropped.
pub open spec fn spec_trim_back(s: Seq<char>) -> Seq<char>
    decreases s.len(),
{
    if s.len() == 0 {
        s
    } else if spec_is_ascii_ws(s.last()) {
        spec_trim_back(s.drop_last())
    } else {
        s
    }
}

/// A text with ASCII whitespace dropped from both ends.
pub open spec fn spec_trimmed(s: Seq<char>) -> Seq<char> {
    spec_trim_back(spec_trim_front(s))
}

/// Drops ASCII whitespace from both ends of a text.
pub fn trim_ascii<'a>(s: &'a str) -> (r: &'a str)
    ensures
        r@ == spec_trimmed(s@),
{
    let n = s.unicode_len();
    let mut lo: usize = 0;
    proof {
        assert(s@.skip(0) =~= s@);
    }
    while lo < n && is_ascii_ws(s.get_char(lo))
        invariant
            n == s@.len(),
            lo <= n,
            spec_trim_front(s@) == spec_trim_front(s@.skip(lo as int)),
        decreases n - lo,
    {
        proof {
            assert(s@.skip(lo as int).drop_first() =~= s@.skip(lo as int + 1));
        }
        lo = lo + 1;
    }
    proof {
        assert(spec_trim_front(s@) =~= s@.skip(lo as int));
    }
    let mut hi: usize = n;
    while hi > lo && is_ascii_ws(s.get_char(hi - 1))
        invariant
            n == s@.len(),
            lo <= hi <= n,
            spec_trim_front(s@) == s@.skip(lo as int),
            spec_trim_back(s@.skip(lo as int)) == spec_trim_back(
                s@.subrange(lo as int, hi as int),
            ),
        decreases hi,
    {
        proof {
            assert(s@.subrange(lo as int, hi as int).last() == s@[hi - 1]);
            assert(s@.subrange(lo as int, hi as int).drop_last() =~= s@.subrange(
                lo as int,
                hi as int - 1,
            ));
        }
        hi = hi - 1;
    }
    proof {
        assert(s@.skip(lo as int) =~= s@.subrange(lo as int, n as int));
        assert(spec_trim_back(s@.subrange(lo as int, hi as int)) =~= s@.subrange(
            lo as int,
            hi as int,
        ));
    }
    s.substring_char(lo, hi)
}

/// Whether `needle` occurs as a contiguous run inside `hay`.
pub open spec fn spec_contains_sub(hay: Seq<char>, needle: Seq<char>) -> bool {
    exists|i: int|
        0 <= i && i + needle.len() <= hay.len() && #[trigger] hay.subrange(i, i + needle.len())
            == needle
}

fn matches_at(hay: &str, i: usize, needle: &str) -> (r: bool)
    requires
        i + needle@.len() <= hay@.len(),
    ensures
        r == (hay@.subrange(i as int, i as int + needle@.len() as int) == needle@),
{
    let nh = hay.unicode_len();
    let nn = needle.unicode_len();
    let mut j: usize = 0;
    while j < nn
        invariant
            nh == hay@.len(),
            nn == needle@.len(),
            i + nn <= hay@.len(),
            j <= nn,
            forall|k: int| 0 <= k < j ==> hay@[i + k] == needle@[k],
        decreases nn - j,
    {
        if hay.get_char(i + j) != needle.get_char(j) {
            proof {
                assert(hay@.subrange(i as int, i as int + nn as int)[j as int] != needle@[j as int]);
            }
            return false;
        }
        j = j + 1;
    }
    proof {
        assert(hay@.subrange(i as int, i as int + nn as int) =~= needle@);
    }
    true
}

/// Naive substring search.
pub fn contains_sub(hay: &str, needle: &str) -> (r: bool)
    ensures
        r == spec_contains_sub(hay@, needle@),
{
    let nh = hay.unicode_len();
    let nn = needle.unicode_len();
    if nn > nh {
        return false;
    }
    if nn == 0 {
        proof {
            assert(spec_contains_sub(hay@, needle@)) by {
                assert(hay@.subrange(0, 0 + needle@.len() as int) =~= needle@);
            }
        }
        return true;
    }
    let mut i: usize = 0;
    while i <= nh - nn
        invariant
            nh == hay@.len(),
            nn == needle@.len(),
            1 <= nn <= nh,
            i <= nh - nn + 1,
            forall|ii: int|
                0 <= ii < i ==> #[trigger] hay@.subrange(ii, ii + needle@.len() as int)
                    != needle@,
        decreases nh - i,
    {
        if matches_at(hay, i, needle) {
            return true;
        }
        i = i + 1;
    }
    false
}

} // verus!
