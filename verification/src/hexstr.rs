//! Lowercase hexadecimal encoding and decoding, specified and proved here.
//!
//! Every transport-facing field of the envelope is hex text; the secret key
//! itself is the hex form of 32 random bytes. Encoding is specified by
//! [`hex_bytes`] (ASCII codes) and [`hex_chars`] (characters); decoding by
//! [`parse_hex`], which accepts both letter cases and rejects odd-length or
//! non-hex input.

use vstd::prelude::*;
use vstd::string::StrSliceExecFns;
use vstd::utf8::encode_utf8;
use vstd::utf8::is_ascii_chars;
use vstd::utf8::is_ascii_chars_encode_utf8;

verus! {

/// ASCII code of the lowercase hex digit for one nibble.
pub open spec fn hex_digit(n: u8) -> u8
    recommends
        n < 16,
{
    if n < 10 {
        (0x30 + n) as u8
    } else {
        (0x57 + n) as u8
    }
}

/// The lowercase hex encoding of a byte sequence, as ASCII codes.
pub open spec fn hex_bytes(b: Seq<u8>) -> Seq<u8> {
    Seq::new(
        2 * b.len(),
        |i: int|
            if i % 2 == 0 {
                hex_digit(b[i / 2] / 16)
            } else {
                hex_digit(b[i / 2] % 16)
            },
    )
}

/// The lowercase hex encoding of a byte sequence, as characters.
pub open spec fn hex_chars(b: Seq<u8>) -> Seq<char> {
    Seq::new(2 * b.len(), |i: int| hex_bytes(b)[i] as char)
}

/// Whether an ASCII code is a hex digit, either letter case.
pub open spec fn is_hex_digit(c: u8) -> bool {
    (0x30 <= c && c <= 0x39) || (0x61 <= c && c <= 0x66) || (0x41 <= c && c <= 0x46)
}

/// The value of a hex digit given as an ASCII code.
pub open spec fn hex_val(c: u8) -> u8
    recommends
        is_hex_digit(c),
{
    if 0x30 <= c && c <= 0x39 {
        (c - 0x30) as u8
    } else if 0x61 <= c && c <= 0x66 {
        (c - 0x57) as u8
    } else {
        (c - 0x37) as u8
    }
}

/// What hex decoding yields on a sequence of ASCII codes: the byte sequence
/// if the input has even length and holds hex digits only, nothing
/// otherwise.
pub open spec fn parse_hex(s: Seq<u8>) -> Option<Seq<u8>> {
    if s.len() % 2 == 0 && (forall|i: int| 0 <= i < s.len() ==> is_hex_digit(#[trigger] s[i])) {
        Some(Seq::new(s.len() / 2, |i: int| (16 * hex_val(s[2 * i]) + hex_val(s[2 * i + 1])) as u8))
    } else {
        None
    }
}

/// Hex-encodes bytes as ASCII codes.
fn hex_encode_ascii(b: &[u8]) -> (r: Vec<u8>)
    ensures
        r@ == hex_bytes(b@),
{
    let mut out: Vec<u8> = Vec::new();
    let n = b.len();
    let mut i: usize = 0;
    while i < n
        invariant
            n == b@.len(),
            i <= n,
            out@.len() == 2 * i,
            forall|j: int| 0 <= j < out@.len() ==> out@[j] == hex_bytes(b@)[j],
        decreases n - i,
    {
        let byte = b[i];
        let hi = byte / 16;
        let lo = byte % 16;
        let hi_c = if hi < 10 {
            0x30 + hi
        } else {
            0x57 + hi
        };
        let lo_c = if lo < 10 {
            0x30 + lo
        } else {
            0x57 + lo
        };
        out.push(hi_c);
        out.push(lo_c);
        i = i + 1;
    }
    assert(out@ =~= hex_bytes(b@));
    out
}

/// Turns ASCII codes into the string with those characters.
/// Relies on `String::from_utf8`: bytes below 0x80 decode to one character
/// each, and such input is always accepted.
#[verifier::external_body]
pub(crate) fn ascii_to_string(v: Vec<u8>) -> (r: String)
    requires
        forall|i: int| 0 <= i < v@.len() ==> v@[i] < 0x80,
    ensures
        r@.len() == v@.len(),
        forall|i: int| 0 <= i < v@.len() ==> r@[i] == v@[i] as char,
{
    String::from_utf8(v).unwrap()
}

/// Hex-encodes bytes as a lowercase string.
pub fn hex_encode(b: &[u8]) -> (r: String)
    ensures
        r@ == hex_chars(b@),
        r@.len() == 2 * b@.len(),
{
    let ascii = hex_encode_ascii(b);
    assert forall|i: int| 0 <= i < ascii@.len() implies ascii@[i] < 0x80 by {
        assert(ascii@[i] == hex_bytes(b@)[i]);
    }
    let s = ascii_to_string(ascii);
    assert(s@ =~= hex_chars(b@));
    s
}

/// Hex-decodes a string, accepting both letter cases; yields nothing on
/// odd-length or non-hex input.
pub fn hex_decode(s: &str) -> (r: Option<Vec<u8>>)
    ensures
        r matches Some(v) ==> parse_hex(encode_utf8(s@)) == Some(v@),
        r is None ==> parse_hex(encode_utf8(s@)) is None,
{
    let bytes = s.as_bytes_vec();
    let n = bytes.len();
    if n % 2 != 0 {
        return None;
    }
    let mut out: Vec<u8> = Vec::new();
    let mut i: usize = 0;
    while i < n
        invariant
            bytes@ == encode_utf8(s@),
            n == bytes@.len(),
            n % 2 == 0,
            i % 2 == 0,
            i <= n,
            out@.len() == i / 2,
            forall|j: int| 0 <= j < i ==> is_hex_digit(#[trigger] bytes@[j]),
            forall|j: int|
                0 <= j < out@.len() ==> out@[j] == (16 * hex_val(bytes@[2 * j]) + hex_val(
                    bytes@[2 * j + 1],
                )) as u8,
        decreases n - i,
    {
        let hi = match hex_val_exec(bytes[i]) {
            Some(v) => v,
            None => {
                return None;
            },
        };
        let lo = match hex_val_exec(bytes[i + 1]) {
            Some(v) => v,
            None => {
                return None;
            },
        };
        out.push(16 * hi + lo);
        i = i + 2;
    }
    proof {
        let parsed = parse_hex(encode_utf8(s@));
        assert(parsed matches Some(p) && p =~= out@);
    }
    Some(out)
}

/// The value of one hex digit, or nothing if the code is not a hex digit.
fn hex_val_exec(c: u8) -> (r: Option<u8>)
    ensures
        r matches Some(v) ==> is_hex_digit(c) && v == hex_val(c) && v < 16,
        r is None ==> !is_hex_digit(c),
{
    if 0x30 <= c && c <= 0x39 {
        Some(c - 0x30)
    } else if 0x61 <= c && c <= 0x66 {
        Some(c - 0x57)
    } else if 0x41 <= c && c <= 0x46 {
        Some(c - 0x37)
    } else {
        None
    }
}

/// Hex digits name exactly one nibble: decoding inverts encoding.
pub proof fn lemma_parse_hex_round_trip(b: Seq<u8>)
    ensures
        parse_hex(hex_bytes(b)) == Some(b),
{
    let h = hex_bytes(b);
    assert forall|i: int| 0 <= i < h.len() implies is_hex_digit(#[trigger] h[i]) by {
        let v = if i % 2 == 0 {
            b[i / 2] / 16
        } else {
            b[i / 2] % 16
        };
        assert(v < 16);
    }
    let parsed = parse_hex(h).unwrap();
    assert forall|i: int| 0 <= i < b.len() implies parsed[i] == b[i] by {
        assert(h[2 * i] == hex_digit(b[i] / 16));
        assert(h[2 * i + 1] == hex_digit(b[i] % 16));
        assert(hex_val(hex_digit(b[i] / 16)) == b[i] / 16);
        assert(hex_val(hex_digit(b[i] % 16)) == b[i] % 16);
    }
    assert(parsed =~= b);
}

/// The hex encoding is ASCII, and its UTF-8 bytes are exactly the ASCII
/// codes of its digits.
pub proof fn lemma_hex_chars_ascii(b: Seq<u8>)
    ensures
        is_ascii_chars(hex_chars(b)),
        encode_utf8(hex_chars(b)) == hex_bytes(b),
{
    let cs = hex_chars(b);
    assert forall|i: int| 0 <= i < cs.len() implies '\0' <= #[trigger] cs[i] <= '\u{7f}' by {
        let v = if i % 2 == 0 {
            b[i / 2] / 16
        } else {
            b[i / 2] % 16
        };
        assert(v < 16);
        assert(hex_bytes(b)[i] == hex_digit(v));
        assert(hex_digit(v) < 0x80);
        assert(cs[i] == hex_bytes(b)[i] as char);
    }
    assert(is_ascii_chars(cs));
    is_ascii_chars_encode_utf8(cs);
    assert(encode_utf8(cs) =~= hex_bytes(b));
}

/// Decoding the string form of a hex encoding recovers the bytes.
pub proof fn lemma_hex_string_round_trip(b: Seq<u8>)
    ensures
        parse_hex(encode_utf8(hex_chars(b))) == Some(b),
{
    lemma_hex_chars_ascii(b);
    lemma_parse_hex_round_trip(b);
}

} // verus!
