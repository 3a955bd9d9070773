//! Byte-level text helpers: ASCII trimming, lower-casing and hex codec.
//!
//! Address and key text is processed as UTF-8 bytes. ASCII-only
//! transformations are safe on UTF-8 byte sequences because every byte of a
//! multi-byte character is at least 0x80 and is left untouched.

use vstd::prelude::*;

verus! {

use vstd::utf8::encode_utf8;
use vstd::utf8::is_ascii_chars;

/// All bytes below 0x80.
pub open spec fn all_ascii(s: Seq<u8>) -> bool {
    forall|i: int| 0 <= i < s.len() ==> #[trigger] s[i] < 0x80
}

/// The characters an ASCII byte sequence denotes, one per byte.
pub open spec fn ascii_chars_of(s: Seq<u8>) -> Seq<char> {
    Seq::new(s.len(), |i: int| s[i] as char)
}

/// Relies on std's `String::from_utf8`: bytes below 0x80 are valid UTF-8
/// and decode to one character per byte, each the byte's own code point.
#[verifier::external_body]
pub(crate) fn string_from_ascii(b: Vec<u8>) -> (r: String)
    requires
        all_ascii(b@),
    ensures
        r@ == ascii_chars_of(b@),
{
    String::from_utf8(b).unwrap()
}

/// Relies on std's `str::from_utf8`: it accepts exactly the byte strings
/// vstd's `valid_utf8` describes and decodes them to the characters vstd's
/// `decode_utf8` gives.
#[verifier::external_body]
pub(crate) fn utf8_to_string(b: &[u8]) -> (r: Option<String>)
    ensures
        r is Some <==> vstd::utf8::valid_utf8(b@),
        r is Some ==> r->0@ == vstd::utf8::decode_utf8(b@),
{
    match core::str::from_utf8(b) {
        Ok(s) => Some(s.to_string()),
        Err(_) => None,
    }
}

/// The encoding of the characters of an ASCII byte string is the byte
/// string itself.
pub proof fn lemma_ascii_chars_encode(s: Seq<u8>)
    requires
        all_ascii(s),
    ensures
        is_ascii_chars(ascii_chars_of(s)),
        encode_utf8(ascii_chars_of(s)) == s,
{
    let cs = ascii_chars_of(s);
    assert forall|i: int| 0 <= i < cs.len() implies '\0' <= #[trigger] cs[i] <= '\u{7f}' by {
        assert(s[i] < 0x80);
    }
    vstd::utf8::is_ascii_chars_encode_utf8(cs);
    assert(encode_utf8(cs) =~= s);
}

/// ASCII byte strings stay ASCII under concatenation.
pub proof fn lemma_all_ascii_concat(a: Seq<u8>, b: Seq<u8>)
    requires
        all_ascii(a),
        all_ascii(b),
    ensures
        all_ascii(a + b),
{
    assert forall|i: int| 0 <= i < (a + b).len() implies #[trigger] (a + b)[i] < 0x80 by {
        if i < a.len() {
            assert(a[i] < 0x80);
        } else {
            assert(b[i - a.len()] < 0x80);
        }
    }
}

/// ASCII whitespace, as trimmed from address text.
pub open spec fn is_ws(b: u8) -> bool {
    b == 0x20 || b == 0x09 || b == 0x0a || b == 0x0c || b == 0x0d
}

/// Trailing-edge spec of trimming: drop leading whitespace bytes.
pub open spec fn trim_front_spec(s: Seq<u8>) -> Seq<u8>
    decreases s.len(),
{
    if s.len() > 0 && is_ws(s[0]) {
        trim_front_spec(s.skip(1))
    } else {
        s
    }
}

/// Drop trailing whitespace bytes.
pub open spec fn trim_back_spec(s: Seq<u8>) -> Seq<u8>
    decreases s.len(),
{
    if s.len() > 0 && is_ws(s[s.len() - 1]) {
        trim_back_spec(s.take(s.len() - 1))
    } else {
        s
    }
}

/// Whitespace trimmed from both ends.
pub open spec fn trim_spec(s: Seq<u8>) -> Seq<u8> {
    trim_back_spec(trim_front_spec(s))
}

/// ASCII lower-casing of a single byte.
pub open spec fn lower_byte(b: u8) -> u8 {
    if 0x41 <= b && b <= 0x5a {
        (b + 0x20) as u8
    } else {
        b
    }
}

/// ASCII lower-casing of a byte sequence.
pub open spec fn lower_spec(s: Seq<u8>) -> Seq<u8> {
    Seq::new(s.len(), |i: int| lower_byte(s[i]))
}

/// The normalization applied to raw address text before inspection:
/// trim, then lower-case. Both steps are ASCII-only: bytes outside the
/// ASCII range — including any non-ASCII whitespace or letters — are
/// left untouched, since valid address text is ASCII and anything else
/// fails parsing anyway.
pub open spec fn normalize_spec(s: Seq<u8>) -> Seq<u8> {
    lower_spec(trim_spec(s))
}

proof fn lemma_trim_front_subrange(s: Seq<u8>, i: int)
    requires
        0 <= i <= s.len(),
        forall|k: int| 0 <= k < i ==> is_ws(s[k]),
        i < s.len() ==> !is_ws(s[i]),
    ensures
        trim_front_spec(s) == s.skip(i),
    decreases i,
{
    if i == 0 {
        if s.len() > 0 && is_ws(s[0]) {
            assert(false);
        }
        assert(s.skip(0) == s);
    } else {
        assert(is_ws(s[0]));
        lemma_trim_front_subrange(s.skip(1), i - 1);
        assert(s.skip(1).skip(i - 1) == s.skip(i));
    }
}

proof fn lemma_trim_back_subrange(s: Seq<u8>, j: int)
    requires
        0 <= j <= s.len(),
        forall|k: int| j <= k < s.len() ==> is_ws(s[k]),
        j > 0 ==> !is_ws(s[j - 1]),
    ensures
        trim_back_spec(s) == s.take(j),
    decreases s.len() - j,
{
    if j == s.len() {
        if s.len() > 0 && is_ws(s[s.len() - 1]) {
            assert(false);
        }
        assert(s.take(s.len() as int) == s);
    } else {
        assert(is_ws(s[s.len() - 1]));
        lemma_trim_back_subrange(s.take(s.len() - 1), j);
        assert(s.take(s.len() - 1).take(j) == s.take(j));
    }
}

/// Trim ASCII whitespace from both ends of a byte string.
pub fn trim(s: &[u8]) -> (r: Vec<u8>)
    ensures
        r@ == trim_spec(s@),
{
    let n = s.len();
    let mut start: usize = 0;
    while start < n && (s[start] == 0x20 || s[start] == 0x09 || s[start] == 0x0a || s[start]
        == 0x0c || s[start] == 0x0d)
        invariant
            n == s@.len(),
            0 <= start <= n,
            forall|k: int| 0 <= k < start ==> is_ws(s@[k]),
        decreases n - start,
    {
        start = start + 1;
    }
    let mut end: usize = n;
    while end > start && (s[end - 1] == 0x20 || s[end - 1] == 0x09 || s[end - 1] == 0x0a || s[end
        - 1] == 0x0c || s[end - 1] == 0x0d)
        invariant
            n == s@.len(),
            0 <= start <= end <= n,
            forall|k: int| 0 <= k < start ==> is_ws(s@[k]),
            start < n ==> !is_ws(s@[start as int]),
            forall|k: int| end <= k < n ==> is_ws(s@[k]),
        decreases end,
    {
        end = end - 1;
    }
    let mut r: Vec<u8> = Vec::new();
    let mut i: usize = start;
    while i < end
        invariant
            n == s@.len(),
            0 <= start <= i <= end <= n,
            r@ == s@.subrange(start as int, i as int),
        decreases end - i,
    {
        r.push(s[i]);
        assert(r@ == s@.subrange(start as int, i + 1));
        i = i + 1;
    }
    proof {
        lemma_trim_front_subrange(s@, start as int);
        if start == end {
            lemma_trim_back_subrange(s@.skip(start as int), 0);
        } else {
            assert(!is_ws(s@[end - 1]));
            lemma_trim_back_subrange(s@.skip(start as int), end - start);
        }
        assert(s@.skip(start as int).take(end - start) == s@.subrange(start as int, end as int));
    }
    r
}

/// Lower-case every ASCII letter of a byte string.
pub fn lowercase(s: &[u8]) -> (r: Vec<u8>)
    ensures
        r@ == lower_spec(s@),
{
    let mut r: Vec<u8> = Vec::new();
    let mut i: usize = 0;
    while i < s.len()
        invariant
            0 <= i <= s@.len(),
            r@.len() == i,
            forall|k: int| 0 <= k < i ==> r@[k] == lower_byte(s@[k]),
        decreases s@.len() - i,
    {
        let b = s[i];
        if 0x41 <= b && b <= 0x5a {
            r.push(b + 0x20);
        } else {
            r.push(b);
        }
        i = i + 1;
    }
    proof {
        assert(r@ =~= lower_spec(s@));
    }
    r
}

/// Copy a byte slice into a vector.
pub fn slice_to_vec_u8(s: &[u8]) -> (r: Vec<u8>)
    ensures
        r@ == s@,
{
    let mut r: Vec<u8> = Vec::new();
    let mut i: usize = 0;
    while i < s.len()
        invariant
            0 <= i <= s@.len(),
            r@ == s@.subrange(0, i as int),
        decreases s@.len() - i,
    {
        r.push(s[i]);
        assert(r@ == s@.subrange(0, i + 1));
        i = i + 1;
    }
    proof {
        assert(s@.subrange(0, s@.len() as int) == s@);
    }
    r
}

/// A byte that is an ASCII hex digit.
pub open spec fn is_hex_digit(b: u8) -> bool {
    (0x30 <= b && b <= 0x39) || (0x61 <= b && b <= 0x66) || (0x41 <= b && b <= 0x46)
}

/// Numeric value of a hex digit byte.
pub open spec fn hex_val(b: u8) -> u8 {
    if 0x30 <= b && b <= 0x39 {
        (b - 0x30) as u8
    } else if 0x61 <= b && b <= 0x66 {
        (b - 0x61 + 10) as u8
    } else {
        (b - 0x41 + 10) as u8
    }
}

/// Every byte of the sequence is a hex digit.
pub open spec fn all_hex(s: Seq<u8>) -> bool {
    forall|k: int| 0 <= k < s.len() ==> is_hex_digit(#[trigger] s[k])
}

/// The bytes denoted by an even-length, all-hex-digit sequence: each output
/// byte reads two digits, high nibble first.
pub open spec fn hex_decode_spec(s: Seq<u8>) -> Seq<u8> {
    Seq::new(s.len() / 2, |i: int| (hex_val(s[2 * i]) * 16 + hex_val(s[2 * i + 1])) as u8)
}

/// Whether a byte is a hex digit.
pub fn hex_digit(b: u8) -> (r: bool)
    ensures
        r == is_hex_digit(b),
{
    (0x30 <= b && b <= 0x39) || (0x61 <= b && b <= 0x66) || (0x41 <= b && b <= 0x46)
}

/// Decode a hex byte string. Fails when the length is odd or a byte is not a
/// hex digit.
pub fn hex_decode(s: &[u8]) -> (r: Option<Vec<u8>>)
    ensures
        r is Some <==> (s@.len() % 2 == 0 && all_hex(s@)),
        r is Some ==> r->0@ == hex_decode_spec(s@),
{
    if s.len() % 2 != 0 {
        return None;
    }
    let mut r: Vec<u8> = Vec::new();
    let mut i: usize = 0;
    while i < s.len()
        invariant
            s@.len() % 2 == 0,
            0 <= i <= s@.len(),
            i % 2 == 0,
            forall|k: int| 0 <= k < i ==> is_hex_digit(#[trigger] s@[k]),
            r@.len() == i / 2,
            forall|k: int|
                0 <= k < i / 2 ==> r@[k] == (hex_val(s@[2 * k]) * 16 + hex_val(
                    s@[2 * k + 1],
                )) as u8,
        decreases s@.len() - i,
    {
        let hi = s[i];
        let lo = s[i + 1];
        if !hex_digit(hi) || !hex_digit(lo) {
            return None;
        }
        let hv = if 0x30 <= hi && hi <= 0x39 {
            hi - 0x30
        } else if 0x61 <= hi && hi <= 0x66 {
            hi - 0x61 + 10
        } else {
            hi - 0x41 + 10
        };
        let lv = if 0x30 <= lo && lo <= 0x39 {
            lo - 0x30
        } else if 0x61 <= lo && lo <= 0x66 {
            lo - 0x61 + 10
        } else {
            lo - 0x41 + 10
        };
        r.push(hv * 16 + lv);
        i = i + 2;
    }
    proof {
        assert(r@ =~= hex_decode_spec(s@));
    }
    Some(r)
}

} // verus!
