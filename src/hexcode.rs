//! Hexadecimal text: what it means for bytes to be valid hex, what they
//! decode to, and the lowercase encoding of a byte sequence.
use vstd::prelude::*;

verus! {

/// The sixteen lowercase hex digits, in order of value.
pub open spec fn lower_hex_digits() -> Seq<char> {
    seq!['0', '1', '2', '3', '4', '5', '6', '7', '8', '9', 'a', 'b', 'c', 'd', 'e', 'f']
}

/// Lowercase hex of `b`: two digits per byte, high nibble first.
pub open spec fn hex_lower(b: Seq<u8>) -> Seq<char> {
    Seq::new(
        2 * b.len(),
        |i: int|
            if i % 2 == 0 {
                lower_hex_digits()[b[i / 2] as int / 16]
            } else {
                lower_hex_digits()[b[i / 2] as int % 16]
            },
    )
}

/// Every character is a lowercase hex digit.
pub open spec fn is_lower_hex(s: Seq<char>) -> bool {
    forall|i: int|
        0 <= i < s.len() ==> (('0' <= #[trigger] s[i] && s[i] <= '9') || ('a' <= s[i] && s[i]
            <= 'f'))
}

/// Lowercase hex has two characters per byte, each a lowercase hex digit.
pub proof fn lemma_hex_lower_shape(b: Seq<u8>)
    ensures
        hex_lower(b).len() == 2 * b.len(),
        is_lower_hex(hex_lower(b)),
{
    assert(lower_hex_digits().len() == 16);
    assert forall|i: int| 0 <= i < hex_lower(b).len() implies (('0' <= #[trigger] hex_lower(b)[i]
        && hex_lower(b)[i] <= '9') || ('a' <= hex_lower(b)[i] && hex_lower(b)[i] <= 'f')) by {
        let d = if i % 2 == 0 {
            b[i / 2] as int / 16
        } else {
            b[i / 2] as int % 16
        };
        assert(0 <= d < 16);
        assert(hex_lower(b)[i] == lower_hex_digits()[d]);
    }
}

/// Distinct lowercase hex digits stand for distinct values.
pub proof fn lemma_lower_hex_digits_distinct(d1: int, d2: int)
    requires
        0 <= d1 < 16,
        0 <= d2 < 16,
        d1 != d2,
    ensures
        lower_hex_digits()[d1] != lower_hex_digits()[d2],
{
}

/// Lowercase hex encoding is injective: distinct bytes give distinct text.
pub proof fn lemma_hex_lower_injective(b1: Seq<u8>, b2: Seq<u8>)
    requires
        b1 != b2,
    ensures
        hex_lower(b1) != hex_lower(b2),
{
    if b1.len() == b2.len() {
        assert(!(b1 =~= b2));
        let i = choose|i: int| 0 <= i < b1.len() && b1[i] != b2[i];
        let (x, y) = (b1[i] as int, b2[i] as int);
        assert(x == 16 * (x / 16) + x % 16 && y == 16 * (y / 16) + y % 16) by (nonlinear_arith);
        if x / 16 != y / 16 {
            lemma_lower_hex_digits_distinct(x / 16, y / 16);
            assert(hex_lower(b1)[2 * i] != hex_lower(b2)[2 * i]);
        } else {
            lemma_lower_hex_digits_distinct(x % 16, y % 16);
            assert(hex_lower(b1)[2 * i + 1] != hex_lower(b2)[2 * i + 1]);
        }
    } else {
        assert(hex_lower(b1).len() != hex_lower(b2).len());
    }
}

/// An ASCII hex digit, either case.
pub open spec fn is_hex_digit(c: u8) -> bool {
    (48 <= c && c <= 57) || (97 <= c && c <= 102) || (65 <= c && c <= 70)
}

/// The value of an ASCII hex digit.
pub open spec fn hex_digit_value(c: u8) -> int {
    if 48 <= c && c <= 57 {
        c - 48
    } else if 97 <= c && c <= 102 {
        c - 87
    } else {
        c - 55
    }
}

/// Text that decodes as hex: an even number of hex digits.
pub open spec fn is_hex_text(s: Seq<u8>) -> bool {
    s.len() % 2 == 0 && forall|i: int| 0 <= i < s.len() ==> #[trigger] is_hex_digit(s[i])
}

/// The bytes that hex text stands for, one per pair of digits.
pub open spec fn hex_decoded(s: Seq<u8>) -> Seq<u8> {
    Seq::new(
        s.len() / 2,
        |i: int| (16 * hex_digit_value(s[2 * i]) + hex_digit_value(s[2 * i + 1])) as u8,
    )
}

#[verifier::external_type_specification]
#[verifier::external_body]
pub struct ExFromHexError(hex::FromHexError);

/// Relies on hex::encode: it writes two digits from "0123456789abcdef" for
/// each byte, high nibble first.
#[verifier::external_body]
pub(crate) fn encode_lower_hex(b: &[u8]) -> (r: String)
    ensures
        r@ == hex_lower(b@),
{
    hex::encode(b)
}

/// Relies on hex::decode: odd length or a byte outside 0-9, a-f, A-F is an
/// error; otherwise each pair of digits gives one byte.
#[verifier::external_body]
pub(crate) fn decode_hex(s: &[u8]) -> (r: Result<Vec<u8>, hex::FromHexError>)
    ensures
        r is Ok <==> is_hex_text(s@),
        r matches Ok(v) ==> v@ == hex_decoded(s@),
{
    hex::decode(s)
}

} // verus!
