//! Small verified string utilities: equality, decimal rendering, and a
//! named spec for Unicode uppercasing.

use vstd::prelude::*;
use vstd::string::StrSliceExecFns;
use vstd::utf8::decode_utf8;
use vstd::utf8::encode_utf8;
use vstd::utf8::encode_utf8_decode_utf8;

verus! {

/// Whether two strings hold the same characters.
pub fn str_eq(a: &str, b: &str) -> (r: bool)
    ensures
        r == (a@ == b@),
{
    proof {
        encode_utf8_decode_utf8(a@);
        encode_utf8_decode_utf8(b@);
        assert(decode_utf8(encode_utf8(a@)) == a@);
        assert(decode_utf8(encode_utf8(b@)) == b@);
    }
    let ab = a.as_bytes_vec();
    let bb = b.as_bytes_vec();
    let n = ab.len();
    if n != bb.len() {
        return false;
    }
    let mut i: usize = 0;
    while i < n
        invariant
            ab@ == encode_utf8(a@),
            bb@ == encode_utf8(b@),
            n == ab@.len() && n == bb@.len(),
            i <= n,
            forall|j: int| 0 <= j < i ==> ab@[j] == bb@[j],
            decode_utf8(encode_utf8(a@)) == a@,
            decode_utf8(encode_utf8(b@)) == b@,
        decreases n - i,
    {
        if ab[i] != bb[i] {
            return false;
        }
        i = i + 1;
    }
    assert(ab@ =~= bb@);
    true
}

/// The decimal digits of a number, most significant first.
pub open spec fn dec_chars(n: nat) -> Seq<char>
    decreases n,
{
    if n < 10 {
        seq![((0x30 + n) as u8) as char]
    } else {
        dec_chars(n / 10) + seq![((0x30 + n % 10) as u8) as char]
    }
}

/// The characters of a digit buffer read back to front.
pub open spec fn digits_as_chars(v: Seq<u8>) -> Seq<char> {
    Seq::new(v.len(), |i: int| v[v.len() - 1 - i] as char)
}

/// Renders a number in decimal.
pub fn usize_to_string(n: usize) -> (r: String)
    ensures
        r@ == dec_chars(n as nat),
{
    let mut digits_rev: Vec<u8> = Vec::new();
    let mut rest: usize = n;
    loop
        invariant_except_break
            dec_chars(n as nat) == dec_chars(rest as nat) + digits_as_chars(digits_rev@),
            forall|j: int| 0 <= j < digits_rev@.len() ==> #[trigger] digits_rev@[j] < 0x80,
        ensures
            dec_chars(n as nat) == digits_as_chars(digits_rev@),
            forall|j: int| 0 <= j < digits_rev@.len() ==> #[trigger] digits_rev@[j] < 0x80,
        decreases rest,
    {
        let d: u8 = (rest % 10) as u8;
        let ghost old_digits = digits_rev@;
        digits_rev.push(0x30 + d);
        proof {
            assert(digits_as_chars(digits_rev@) =~= seq![((0x30 + d) as u8) as char]
                + digits_as_chars(old_digits));
        }
        if rest < 10 {
            proof {
                assert(dec_chars(rest as nat) == seq![((0x30 + rest as nat) as u8) as char]);
                assert(dec_chars(n as nat) =~= digits_as_chars(digits_rev@));
            }
            break;
        }
        proof {
            assert(dec_chars(rest as nat) == dec_chars(rest as nat / 10) + seq![
                ((0x30 + rest as nat % 10) as u8) as char,
            ]);
            assert(dec_chars(n as nat) =~= dec_chars((rest / 10) as nat) + digits_as_chars(
                digits_rev@,
            ));
        }
        rest = rest / 10;
    }
    let mut ascii: Vec<u8> = Vec::new();
    let mut i: usize = digits_rev.len();
    while i > 0
        invariant
            i <= digits_rev@.len(),
            ascii@.len() == digits_rev@.len() - i,
            forall|j: int| 0 <= j < ascii@.len() ==> ascii@[j] == digits_rev@[digits_rev@.len() - 1
                - j],
            forall|j: int| 0 <= j < digits_rev@.len() ==> #[trigger] digits_rev@[j] < 0x80,
        decreases i,
    {
        i = i - 1;
        ascii.push(digits_rev[i]);
    }
    let s = crate::hexstr::ascii_to_string(ascii);
    assert(s@ =~= dec_chars(n as nat));
    s
}

/// What `str::to_uppercase` returns: a function of the characters alone.
pub uninterp spec fn upper_of(s: Seq<char>) -> Seq<char>;

/// Relies on `str::to_uppercase` for Unicode uppercasing; the result
/// depends on the input characters alone.
#[verifier::external_body]
pub(crate) fn to_uppercase(s: &str) -> (r: String)
    ensures
        r@ == upper_of(s@),
{
    s.to_uppercase()
}

} // verus!
