//! Byte encodings and digests: hexadecimal (through the `hex` crate), SHA-256
//! (through `sha2`) and standard Base64 (through `base64`).

use vstd::prelude::*;
use crate::text::{decimal, digit_char};
use base64::Engine;
use sha2::Digest;

verus! {

/// The lowercase hexadecimal digit of a nibble.
pub open spec fn hex_digit(n: nat) -> char {
    if n < 10 { digit_char(n) } else if n == 10 { 'a' } else if n == 11 { 'b' }
    else if n == 12 { 'c' } else if n == 13 { 'd' } else if n == 14 { 'e' } else { 'f' }
}

/// Lowercase hexadecimal rendering of bytes, two digits per byte.
pub open spec fn hex_lower(bytes: Seq<u8>) -> Seq<char>
    decreases bytes.len(),
{
    if bytes.len() == 0 {
        seq![]
    } else {
        seq![hex_digit((bytes[0] / 16) as nat), hex_digit((bytes[0] % 16) as nat)]
            + hex_lower(bytes.drop_first())
    }
}

/// The value of one hexadecimal digit, either case.
pub open spec fn hex_value(c: char) -> Option<int> {
    let v = c as int;
    if 48 <= v <= 57 {
        Some(v - 48)
    } else if 97 <= v <= 102 {
        Some(v - 87)
    } else if 65 <= v <= 70 {
        Some(v - 55)
    } else {
        None
    }
}

/// Decoding of hexadecimal text: defined exactly when the text has an even
/// number of characters, all of them hexadecimal digits.
pub open spec fn hex_decoded(s: Seq<char>) -> Option<Seq<u8>>
    decreases s.len(),
{
    if s.len() % 2 != 0 {
        None
    } else if s.len() == 0 {
        Some(seq![])
    } else {
        match (hex_value(s[0]), hex_value(s[1]), hex_decoded(s.subrange(2, s.len() as int))) {
            (Some(h), Some(l), Some(rest)) => Some(seq![(h * 16 + l) as u8] + rest),
            _ => None,
        }
    }
}

/// Wraps `hex::encode`: lowercase hexadecimal text of the bytes, two digits
/// per byte.
#[verifier::external_body]
pub(crate) fn hex_encode(bytes: &[u8]) -> (s: String)
    ensures
        s@ == hex_lower(bytes@),
{
    hex::encode(bytes)
}

/// An ASCII hexadecimal digit of either case.
pub open spec fn hex_byte(b: u8) -> bool {
    (48 <= b <= 57) || (97 <= b <= 102) || (65 <= b <= 70)
}

/// The position of the first byte that is not a hexadecimal digit (the
/// length where there is none).
pub open spec fn first_non_hex(bytes: Seq<u8>) -> nat
    decreases bytes.len(),
{
    if bytes.len() == 0 || !hex_byte(bytes[0]) {
        0
    } else {
        1 + first_non_hex(bytes.drop_first())
    }
}

/// A byte whose debug rendering as a `char` is the character itself in
/// single quotes: printable ASCII other than the quote and the backslash.
pub open spec fn plain_debug_byte(b: u8) -> bool {
    0x20 <= b <= 0x7e && b != 0x27 && b != 0x5c
}

/// `m` is the text of the `hex::FromHexError` that decoding `bytes` reports:
/// `Odd number of digits` for an odd length, else `Invalid character c at
/// position i` for the first byte `i` that is not a digit, `c` being that
/// byte's debug rendering as a `char` (the character in single quotes for a
/// plain printable byte).
pub open spec fn hex_error_message(bytes: Seq<u8>, m: Seq<char>) -> bool {
    if bytes.len() % 2 != 0 {
        m == "Odd number of digits"@
    } else {
        let i = first_non_hex(bytes);
        &&& m.len() >= 18
        &&& m.subrange(0, 18) == "Invalid character "@
        &&& m.len() >= 18 + (" at position "@ + decimal(i)).len()
        &&& m.subrange(m.len() - (" at position "@ + decimal(i)).len(), m.len() as int) == " at position "@ + decimal(i)
        &&& (i < bytes.len() && plain_debug_byte(bytes[i as int])) ==> m == "Invalid character "@
            + seq!['\'', bytes[i as int] as char, '\''] + " at position "@ + decimal(i)
    }
}

/// Wraps `hex::decode`, which accepts an even number of hexadecimal digits of
/// either case and rejects anything else.  The error is the text of
/// `hex::FromHexError` for the string's UTF-8 bytes: the odd length, or the
/// first byte that is not a digit, with its position.  How a byte other than
/// plain printable ASCII is rendered between the quotes (std's `char` debug
/// escaping) is not stated.
#[verifier::external_body]
pub(crate) fn hex_decode(s: &str) -> (r: Result<Vec<u8>, String>)
    ensures
        r is Ok <==> hex_decoded(s@) is Some,
        r matches Ok(bytes) ==> hex_decoded(s@) == Some(bytes@),
        r matches Err(m) ==> hex_error_message(vstd::utf8::encode_utf8(s@), m@),
{
    hex::decode(s).map_err(|e| e.to_string())
}

/// The SHA-256 digest of a byte string (FIPS 180-4).
pub uninterp spec fn sha256(data: Seq<u8>) -> Seq<u8>;

/// Wraps `sha2::Sha256::digest`: the 32-byte SHA-256 digest of the input.
#[verifier::external_body]
pub(crate) fn sha256_digest(data: &[u8]) -> (d: [u8; 32])
    ensures
        d@ == sha256(data@),
{
    sha2::Sha256::digest(data).into()
}

/// The character of a six-bit value in the standard Base64 alphabet
/// (RFC 4648, table 1).
pub open spec fn b64_char(n: int) -> char {
    if n < 26 {
        (65 + n) as char
    } else if n < 52 {
        (97 + n - 26) as char
    } else if n < 62 {
        (48 + n - 52) as char
    } else if n == 62 {
        '+'
    } else {
        '/'
    }
}

/// Standard (RFC 4648, padded) Base64 text of a byte string: each group of
/// three bytes becomes four characters; a final group of one or two bytes
/// is completed with `=`.
pub open spec fn base64_standard(data: Seq<u8>) -> Seq<char>
    decreases data.len(),
{
    if data.len() == 0 {
        seq![]
    } else if data.len() == 1 {
        seq![b64_char(data[0] as int / 4), b64_char((data[0] as int % 4) * 16), '=', '=']
    } else if data.len() == 2 {
        seq![
            b64_char(data[0] as int / 4),
            b64_char((data[0] as int % 4) * 16 + data[1] as int / 16),
            b64_char((data[1] as int % 16) * 4),
            '=',
        ]
    } else {
        seq![
            b64_char(data[0] as int / 4),
            b64_char((data[0] as int % 4) * 16 + data[1] as int / 16),
            b64_char((data[1] as int % 16) * 4 + data[2] as int / 64),
            b64_char(data[2] as int % 64),
        ] + base64_standard(data.subrange(3, data.len() as int))
    }
}

/// Wraps `base64::engine::general_purpose::STANDARD.encode`: the standard,
/// padded Base64 text of the bytes.
#[verifier::external_body]
pub(crate) fn base64_encode(data: &[u8]) -> (s: String)
    ensures
        s@ == base64_standard(data@),
{
    base64::engine::general_purpose::STANDARD.encode(data)
}

/// The bytes `data[from..to]`.
pub fn sub_bytes(data: &[u8], from: usize, to: usize) -> (r: Vec<u8>)
    requires
        from <= to <= data@.len(),
    ensures
        r@ == data@.subrange(from as int, to as int),
{
    let mut r: Vec<u8> = Vec::new();
    let mut i: usize = from;
    while i < to
        invariant
            from <= i <= to,
            to <= data@.len(),
            r@ == data@.subrange(from as int, i as int),
        decreases to - i,
    {
        r.push(data[i]);
        i = i + 1;
    }
    r
}

/// The concatenation of two byte strings.
pub fn concat_bytes(a: &[u8], b: &[u8]) -> (r: Vec<u8>)
    ensures
        r@ == a@ + b@,
{
    let mut r = sub_bytes(a, 0, a.len());
    let mut i: usize = 0;
    while i < b.len()
        invariant
            i <= b@.len(),
            r@ == a@ + b@.subrange(0, i as int),
        decreases b.len() - i,
    {
        r.push(b[i]);
        i = i + 1;
    }
    assert(b@.subrange(0, b@.len() as int) == b@);
    r
}

} // verus!
