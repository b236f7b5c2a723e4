//! Text building blocks shared by the classifier and the formatter: ASCII
//! strings, decimal rendering of integers, and lowercase hexadecimal
//! rendering of bytes.

use vstd::prelude::*;
use vstd::utf8::*;

verus! {

/// The characters of a byte sequence read as ASCII.
pub open spec fn ascii_chars_of(bytes: Seq<u8>) -> Seq<char> {
    bytes.map_values(|b: u8| b as char)
}

/// A sequence of ASCII bytes is valid UTF-8 and decodes to itself, byte for
/// character.
pub proof fn lemma_ascii_decode(bytes: Seq<u8>)
    requires
        forall|i: int| 0 <= i < bytes.len() ==> bytes[i] < 0x80,
    ensures
        valid_utf8(bytes),
        decode_utf8(bytes) =~= ascii_chars_of(bytes),
    decreases bytes.len(),
{
    if bytes.len() > 0 {
        let b = bytes[0];
        assert(is_leading_byte_width_1(b));
        assert(b & 0x7F == b) by (bit_vector)
            requires
                b < 0x80,
        ;
        assert(length_of_first_scalar(bytes) == 1);
        let rest = pop_first_scalar(bytes);
        lemma_ascii_decode(rest);
        assert(decode_utf8(bytes) =~= ascii_chars_of(bytes));
    }
}

/// Relies on `String::from_utf8`: it succeeds exactly on valid UTF-8 input,
/// and the resulting string holds that input's decoding.
#[verifier::external_body]
pub(crate) fn string_from_utf8(bytes: Vec<u8>) -> (r: Option<String>)
    ensures
        r is Some <==> valid_utf8(bytes@),
        r matches Some(s) ==> s@ == decode_utf8(bytes@),
{
    match String::from_utf8(bytes) {
        Ok(s) => Some(s),
        Err(_) => None,
    }
}

/// Turn a sequence of ASCII bytes into the string of the same characters.
pub(crate) fn ascii_to_string(bytes: Vec<u8>) -> (r: String)
    requires
        forall|i: int| 0 <= i < bytes@.len() ==> bytes@[i] < 0x80,
    ensures
        r@ == ascii_chars_of(bytes@),
{
    proof {
        lemma_ascii_decode(bytes@);
    }
    match string_from_utf8(bytes) {
        Some(s) => s,
        None => {
            proof {
                assert(false);
            }
            String::new()
        },
    }
}

// ---------------------------------------------------------------------------
// Decimal rendering
// ---------------------------------------------------------------------------

/// The ASCII byte of a single decimal digit.
pub open spec fn dec_digit(n: nat) -> u8
    recommends
        n < 10,
{
    (48 + n) as u8
}

/// The ASCII bytes of a natural number written in decimal, most significant
/// digit first, with no leading zeros (zero itself is "0").
pub open spec fn dec_bytes(n: nat) -> Seq<u8>
    decreases n,
{
    if n < 10 {
        seq![dec_digit(n)]
    } else {
        dec_bytes(n / 10).push(dec_digit(n % 10))
    }
}

/// The characters of a natural number written in decimal.
pub open spec fn dec_chars(n: nat) -> Seq<char> {
    ascii_chars_of(dec_bytes(n))
}

/// Every byte of a decimal rendering is an ASCII digit.
pub proof fn lemma_dec_bytes_ascii(n: nat)
    ensures
        forall|i: int| 0 <= i < dec_bytes(n).len() ==> 48 <= #[trigger] dec_bytes(n)[i] <= 57,
    decreases n,
{
    if n < 10 {
        assert(dec_bytes(n) =~= seq![dec_digit(n)]);
    } else {
        lemma_dec_bytes_ascii(n / 10);
        assert(dec_bytes(n) =~= dec_bytes(n / 10).push(dec_digit(n % 10)));
        assert(forall|i: int|
            0 <= i < dec_bytes(n).len() - 1 ==> dec_bytes(n)[i] == dec_bytes(n / 10)[i]);
        assert(dec_bytes(n).last() == dec_digit(n % 10));
        assert(n % 10 < 10);
    }
}

/// The decimal ASCII bytes of an unsigned integer.
pub(crate) fn u64_dec(n: u64) -> (r: Vec<u8>)
    ensures
        r@ == dec_bytes(n as nat),
    decreases n,
{
    if n < 10 {
        let mut r: Vec<u8> = Vec::new();
        r.push(48 + (n as u8));
        assert(r@ =~= dec_bytes(n as nat));
        r
    } else {
        let mut r = u64_dec(n / 10);
        r.push(48 + ((n % 10) as u8));
        assert(r@ =~= dec_bytes(n as nat));
        r
    }
}

/// The decimal text of an unsigned integer.
pub fn u64_dec_string(n: u64) -> (r: String)
    ensures
        r@ == dec_chars(n as nat),
{
    let bytes = u64_dec(n);
    proof {
        lemma_dec_bytes_ascii(n as nat);
    }
    ascii_to_string(bytes)
}

/// The characters of a signed integer written in decimal.
pub open spec fn int_dec_chars(i: int) -> Seq<char> {
    if i >= 0 {
        dec_chars(i as nat)
    } else {
        seq!['-'] + dec_chars((-i) as nat)
    }
}

/// The decimal text of a signed integer.
pub fn i64_dec_string(i: i64) -> (r: String)
    ensures
        r@ == int_dec_chars(i as int),
{
    if i >= 0 {
        u64_dec_string(i as u64)
    } else {
        let mag: u64 = if i == i64::MIN {
            9223372036854775808u64
        } else {
            (-i) as u64
        };
        assert(mag as int == -(i as int));
        let mut s = String::from_str("-");
        let digits = u64_dec_string(mag);
        s.append(digits.as_str());
        proof {
            reveal_strlit("-");
            assert(s@ =~= int_dec_chars(i as int));
        }
        s
    }
}

// ---------------------------------------------------------------------------
// Hexadecimal rendering
// ---------------------------------------------------------------------------

/// The ASCII byte of a single lowercase hexadecimal digit.
pub open spec fn hex_digit(n: u8) -> u8
    recommends
        n < 16,
{
    if n < 10 {
        (48 + n) as u8
    } else {
        (87 + n) as u8
    }
}

/// The ASCII bytes of a byte sequence written in lowercase hexadecimal, two
/// digits per byte, high nibble first.
pub open spec fn hex_bytes(b: Seq<u8>) -> Seq<u8>
    decreases b.len(),
{
    if b.len() == 0 {
        Seq::empty()
    } else {
        hex_bytes(b.drop_last()) + seq![hex_digit(b.last() / 16), hex_digit(b.last() % 16)]
    }
}

/// The characters of a byte sequence written in lowercase hexadecimal.
pub open spec fn hex_chars(b: Seq<u8>) -> Seq<char> {
    ascii_chars_of(hex_bytes(b))
}

/// Relies on `hex::encode`: two lowercase hexadecimal digits per input byte,
/// high nibble first.
#[verifier::external_body]
pub(crate) fn hex_encode(b: &[u8]) -> (r: String)
    ensures
        r@ == hex_chars(b@),
{
    hex::encode(b)
}

} // verus!
