//! Text helpers: comparison, decimal rendering and the percent-encoding of
//! request path segments.

use vstd::prelude::*;
use vstd::string::StringExecFns;
use vstd::string::StrSliceExecFns;
use vstd::utf8::encode_utf8;

verus! {

/// The upper-case hexadecimal digits.
pub open spec fn hex_digits() -> Seq<char> {
    seq!['0', '1', '2', '3', '4', '5', '6', '7', '8', '9', 'A', 'B', 'C', 'D', 'E', 'F']
}

/// A byte written as `%` followed by two upper-case hexadecimal digits.
pub open spec fn escaped_byte(b: u8) -> Seq<char> {
    seq!['%', hex_digits()[(b / 16) as int], hex_digits()[(b % 16) as int]]
}

/// The bytes escaped inside a path segment besides the non-ASCII ones: the C0
/// controls, DEL, space, `"`, `#`, `<`, `>`, backquote, `?`, `{`, `}`, and the
/// two that would let a value leave its segment, `%` and `/`.
pub open spec fn in_segment_set(b: u8) -> bool {
    b < 0x20 || b == 0x7f || b == 0x20 || b == 0x22 || b == 0x23 || b == 0x3c || b == 0x3e
        || b == 0x60 || b == 0x3f || b == 0x7b || b == 0x7d || b == 0x25 || b == 0x2f
}

/// Whether a byte is written escaped in a path segment.
pub open spec fn must_escape(b: u8) -> bool {
    b >= 0x80 || in_segment_set(b)
}

/// How one byte of a segment is written.
pub open spec fn byte_text(b: u8) -> Seq<char> {
    if must_escape(b) {
        escaped_byte(b)
    } else {
        seq![b as char]
    }
}

/// The percent-encoding of a byte sequence, byte by byte.
pub open spec fn encoded_bytes(bytes: Seq<u8>) -> Seq<char>
    decreases bytes.len(),
{
    if bytes.len() == 0 {
        Seq::empty()
    } else {
        encoded_bytes(bytes.drop_last()) + byte_text(bytes.last())
    }
}

/// A path segment as it is written in a request path: its UTF-8 bytes,
/// percent-encoded.
pub open spec fn encoded_segment(s: Seq<char>) -> Seq<char> {
    encoded_bytes(encode_utf8(s))
}

/// Segments written one after another, separated by `/`.
pub open spec fn path_text(segments: Seq<Seq<char>>) -> Seq<char>
    decreases segments.len(),
{
    if segments.len() == 0 {
        Seq::empty()
    } else if segments.len() == 1 {
        encoded_segment(segments[0])
    } else {
        path_text(segments.drop_last()) + seq!['/'] + encoded_segment(segments.last())
    }
}

/// The decimal digit for a value below ten.
pub open spec fn digit_char(d: nat) -> char {
    seq!['0', '1', '2', '3', '4', '5', '6', '7', '8', '9'][d as int]
}

/// The decimal notation of a natural number, without leading zeros.
pub open spec fn decimal(n: nat) -> Seq<char>
    decreases n,
{
    if n < 10 {
        seq![digit_char(n)]
    } else {
        decimal(n / 10).push(digit_char(n % 10))
    }
}

/// Whether `p` is a prefix of `s`.
pub open spec fn starts_with(s: Seq<char>, p: Seq<char>) -> bool {
    p.len() <= s.len() && s.subrange(0, p.len() as int) == p
}

/// Relies on percent_encoding::percent_encode_byte: `%` and the two
/// upper-case hexadecimal digits of the byte.
#[verifier::external_body]
fn escape_byte(b: u8) -> (r: &'static str)
    ensures
        r@ == escaped_byte(b),
{
    percent_encoding::percent_encode_byte(b)
}

/// Relies on String::push: the character is appended.
#[verifier::external_body]
pub(crate) fn push_char(s: &mut String, c: char)
    ensures
        final(s)@ == old(s)@.push(c),
{
    s.push(c)
}

fn must_escape_byte(b: u8) -> (r: bool)
    ensures
        r == must_escape(b),
{
    b >= 0x80 || b < 0x20 || b == 0x7f || b == 0x20 || b == 0x22 || b == 0x23 || b == 0x3c
        || b == 0x3e || b == 0x60 || b == 0x3f || b == 0x7b || b == 0x7d || b == 0x25 || b == 0x2f
}

/// Appends the percent-encoding of one segment to `out`.
// percent_encoding's own string encoder takes its set as a `&'static`
// constant; the set is stated here instead, and each escape comes from the
// crate.
fn push_segment(out: &mut String, s: &str)
    ensures
        final(out)@ == old(out)@ + encoded_segment(s@),
{
    let bytes = s.as_bytes();
    let ghost start = out@;
    let mut i: usize = 0;
    while i < bytes.len()
        invariant
            i <= bytes@.len(),
            bytes@ == encode_utf8(s@),
            out@ == start + encoded_bytes(bytes@.take(i as int)),
        decreases bytes@.len() - i,
    {
        let b = bytes[i];
        if must_escape_byte(b) {
            out.append(escape_byte(b));
        } else {
            push_char(out, b as char);
        }
        assert(bytes@.take(i + 1).drop_last() == bytes@.take(i as int));
        i = i + 1;
    }
    assert(bytes@.take(bytes@.len() as int) == bytes@);
}

/// The percent-encoding of one path segment.
pub fn encode_segment(s: &str) -> (r: String)
    ensures
        r@ == encoded_segment(s@),
{
    let mut out = String::new();
    push_segment(&mut out, s);
    assert(out@ =~= encoded_segment(s@));
    out
}

/// The request path made of the given segments, each percent-encoded, joined
/// by `/`.
pub fn segments_path(segments: &Vec<&str>) -> (r: String)
    ensures
        r@ == path_text(segments@.map_values(|s: &str| s@)),
{
    let ghost views = segments@.map_values(|s: &str| s@);
    let mut out = String::new();
    let mut i: usize = 0;
    while i < segments.len()
        invariant
            i <= segments@.len(),
            views == segments@.map_values(|s: &str| s@),
            out@ == path_text(views.take(i as int)),
        decreases segments@.len() - i,
    {
        if i > 0 {
            push_char(&mut out, '/');
        }
        push_segment(&mut out, segments[i]);
        assert(views.take(i + 1).drop_last() == views.take(i as int));
        assert(views.take(0) =~= Seq::<Seq<char>>::empty());
        i = i + 1;
    }
    assert(views.take(segments@.len() as int) == views);
    out
}

/// Appends the decimal notation of `n` to `out`.
pub fn push_decimal(out: &mut String, n: u64)
    ensures
        final(out)@ == old(out)@ + decimal(n as nat),
    decreases n,
{
    if n >= 10 {
        push_decimal(out, n / 10);
    }
    let d = (n % 10) as u8;
    let c = if d == 0 { '0' } else if d == 1 { '1' } else if d == 2 { '2' } else if d == 3 { '3' }
        else if d == 4 { '4' } else if d == 5 { '5' } else if d == 6 { '6' } else if d == 7 { '7' }
        else if d == 8 { '8' } else { '9' };
    push_char(out, c);
}

/// Whether two strings hold the same characters.
pub fn same_text(a: &str, b: &str) -> (r: bool)
    ensures
        r == (a@ == b@),
{
    let x = a.as_bytes();
    let y = b.as_bytes();
    if x.len() != y.len() {
        return false;
    }
    let mut i: usize = 0;
    while i < x.len()
        invariant
            i <= x@.len(),
            x@.len() == y@.len(),
            x@ == encode_utf8(a@),
            y@ == encode_utf8(b@),
            forall|j: int| 0 <= j < i ==> x@[j] == y@[j],
        decreases x@.len() - i,
    {
        if x[i] != y[i] {
            return false;
        }
        i = i + 1;
    }
    proof {
        assert(x@ =~= y@);
        vstd::utf8::encode_utf8_decode_utf8(a@);
        vstd::utf8::encode_utf8_decode_utf8(b@);
    }
    true
}

/// Whether `s` begins with `p`.
pub fn has_prefix(s: &str, p: &str) -> (r: bool)
    ensures
        r == starts_with(s@, p@),
{
    let n = s.unicode_len();
    let m = p.unicode_len();
    if m > n {
        return false;
    }
    let mut i: usize = 0;
    while i < m
        invariant
            i <= m <= n,
            n == s@.len(),
            m == p@.len(),
            forall|j: int| 0 <= j < i ==> s@[j] == p@[j],
        decreases m - i,
    {
        if s.get_char(i) != p.get_char(i) {
            assert(s@.subrange(0, m as int)[i as int] != p@[i as int]);
            return false;
        }
        i = i + 1;
    }
    assert(s@.subrange(0, m as int) =~= p@);
    true
}

} // verus!
