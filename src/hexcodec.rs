//! Lowercase hexadecimal text: what it means, and the calls into `hex`.
use vstd::prelude::*;

verus! {

/// The lowercase digit for a value below sixteen.
pub open spec fn hex_digit(n: u8) -> char {
    if n < 10 {
        ((n + 48) as u8) as char
    } else {
        ((n + 87) as u8) as char
    }
}

/// Hex text of a byte string: two lowercase digits per byte, high nibble first.
pub open spec fn hex_of(b: Seq<u8>) -> Seq<char> {
    Seq::new(
        2 * b.len(),
        |i: int|
            if i % 2 == 0 {
                hex_digit(b[i / 2] / 16)
            } else {
                hex_digit(b[i / 2] % 16)
            },
    )
}

/// A hex digit of either case.
pub open spec fn is_hex_char(c: char) -> bool {
    ('0' <= c && c <= '9') || ('a' <= c && c <= 'f') || ('A' <= c && c <= 'F')
}

/// A lowercase hex digit.
pub open spec fn is_lower_hex_char(c: char) -> bool {
    ('0' <= c && c <= '9') || ('a' <= c && c <= 'f')
}

/// Text that decodes to whole bytes: an even number of hex digits of either case.
pub open spec fn is_hex(s: Seq<char>) -> bool {
    &&& s.len() % 2 == 0
    &&& forall|i: int| 0 <= i < s.len() ==> is_hex_char(#[trigger] s[i])
}

/// Text in canonical form: an even number of lowercase hex digits.
pub open spec fn is_lower_hex(s: Seq<char>) -> bool {
    &&& s.len() % 2 == 0
    &&& forall|i: int| 0 <= i < s.len() ==> is_lower_hex_char(#[trigger] s[i])
}

/// The value of a hex digit.
pub open spec fn hex_val(c: char) -> u8 {
    if '0' <= c && c <= '9' {
        (c as u32 - 48) as u8
    } else if 'a' <= c && c <= 'f' {
        (c as u32 - 87) as u8
    } else {
        (c as u32 - 55) as u8
    }
}

/// The bytes that hex text stands for, each from a pair of digits.
pub open spec fn unhex(s: Seq<char>) -> Seq<u8> {
    Seq::new(s.len() / 2, |i: int| (hex_val(s[2 * i]) * 16 + hex_val(s[2 * i + 1])) as u8)
}

/// Relies on `hex::encode`: each byte becomes two digits from "0123456789abcdef",
/// high nibble first.
#[verifier::external_body]
pub(crate) fn hex_encode(b: &[u8]) -> (r: String)
    ensures
        r@ == hex_of(b@),
{
    hex::encode(b)
}

/// Relies on `hex::decode`: odd length or a byte that is no hex digit of either
/// case is an error; otherwise each pair of digits gives one byte.
#[verifier::external_body]
pub(crate) fn hex_decode(s: &str) -> (r: Option<Vec<u8>>)
    ensures
        r is Some <==> is_hex(s@),
        r matches Some(v) ==> v@ == unhex(s@),
{
    hex::decode(s).ok()
}

/// Hex text holds ASCII characters only.
pub proof fn lemma_hex_is_ascii(s: Seq<char>)
    requires
        is_hex(s),
    ensures
        vstd::utf8::is_ascii_chars(s),
{
}

/// Canonical hex text is hex text.
pub proof fn lemma_lower_is_hex(s: Seq<char>)
    requires
        is_lower_hex(s),
    ensures
        is_hex(s),
{
}

/// Rendering bytes as hex gives canonical hex text, which decodes back to them.
pub proof fn lemma_hex_of_round_trip(b: Seq<u8>)
    ensures
        is_lower_hex(hex_of(b)),
        unhex(hex_of(b)) == b,
{
    let h = hex_of(b);
    assert forall|i: int| 0 <= i < h.len() implies is_lower_hex_char(#[trigger] h[i]) by {
        let x = b[i / 2];
        assert(x / 16 < 16 && x % 16 < 16) by (bit_vector);
    }
    assert forall|i: int| 0 <= i < b.len() implies #[trigger] unhex(h)[i] == b[i] by {
        let x = b[i];
        assert(h[2 * i] == hex_digit(x / 16));
        assert(h[2 * i + 1] == hex_digit(x % 16));
        assert(x / 16 < 16 && x % 16 < 16) by (bit_vector);
        assert(((x / 16) * 16 + x % 16) as u8 == x) by (bit_vector);
    }
    assert(unhex(h) =~= b);
}

/// Canonical hex text decodes to bytes whose rendering is that text again.
pub proof fn lemma_unhex_round_trip(s: Seq<char>)
    requires
        is_lower_hex(s),
    ensures
        hex_of(unhex(s)) == s,
{
    let b = unhex(s);
    assert forall|i: int| 0 <= i < s.len() implies #[trigger] hex_of(b)[i] == s[i] by {
        let k = i / 2;
        let hi = hex_val(s[2 * k]);
        let lo = hex_val(s[2 * k + 1]);
        assert(is_lower_hex_char(s[2 * k]) && is_lower_hex_char(s[2 * k + 1]));
        assert(hi < 16 && lo < 16);
        assert(hi < 16 && lo < 16 ==> ((hi * 16 + lo) as u8) / 16 == hi && ((hi * 16 + lo) as u8) % 16 == lo)
            by (bit_vector);
        assert(hex_digit(hi) == s[2 * k]);
        assert(hex_digit(lo) == s[2 * k + 1]);
    }
    assert(hex_of(b) =~= s);
}

} // verus!
