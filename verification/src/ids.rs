//! Identifier handling: `0x`-prefixed hexadecimal input, Sanad identifiers,
//! imported private keys, digest-shaped object identifiers and freshly
//! generated random identifiers.

use vstd::prelude::*;
use crate::codec::{hex_decode, hex_decoded, hex_digit, hex_encode, hex_error_message, hex_lower, hex_value};
use crate::text::{concat2, decimal, owned, u64_to_string};
use crate::chain::ChainId;
use rand::RngCore;

verus! {

/// Text without a leading `0x`, as `str::strip_prefix("0x").unwrap_or(s)`.
pub open spec fn without_0x(s: Seq<char>) -> Seq<char> {
    if s.len() >= 2 && s[0] == '0' && s[1] == 'x' {
        s.subrange(2, s.len() as int)
    } else {
        s
    }
}

/// `m` is `prefix` followed by the `hex` crate's message for decoding `text`.
pub open spec fn hex_refusal(prefix: Seq<char>, text: Seq<char>, m: Seq<char>) -> bool {
    exists|e: Seq<char>| #[trigger] hex_error_message(vstd::utf8::encode_utf8(text), e) && m == prefix + e
}

/// Removes one leading `0x`, if there is one.
pub fn strip_0x(s: &str) -> (r: &str)
    ensures
        r@ == without_0x(s@),
{
    let n = s.unicode_len();
    if n >= 2 && s.get_char(0) == '0' && s.get_char(1) == 'x' {
        s.substring_char(2, n)
    } else {
        s
    }
}

/// A 32-byte Sanad identifier.
#[derive(Clone, Copy, Debug, PartialEq, Eq)]
pub struct SanadId {
    pub bytes: [u8; 32],
}

impl SanadId {
    /// The identifier with the given bytes.
    pub fn new(bytes: [u8; 32]) -> (id: Self)
        ensures
            id.bytes == bytes,
    {
        SanadId { bytes }
    }
}

fn to_array_32(v: &Vec<u8>) -> (a: [u8; 32])
    requires
        v@.len() == 32,
    ensures
        a@ == v@,
{
    let mut a = [0u8; 32];
    let mut i: usize = 0;
    while i < 32
        invariant
            i <= 32,
            v@.len() == 32,
            forall|j: int| 0 <= j < i ==> a@[j] == v@[j],
        decreases 32 - i,
    {
        a.set(i, v[i]);
        i = i + 1;
    }
    assert(a@ =~= v@);
    a
}

/// Decodes a user-visible Sanad identifier: optional `0x`, then exactly 32
/// bytes of hexadecimal.  A shorter value is rejected, never padded.
pub fn parse_sanad_id(value: &str) -> (r: Result<SanadId, String>)
    ensures
        match hex_decoded(without_0x(value@)) {
            None => r matches Err(m) && hex_refusal("invalid Sanad ID hex: "@, without_0x(value@), m@),
            Some(bytes) => if bytes.len() == 32 {
                r matches Ok(id) && id.bytes@ == bytes
            } else {
                r matches Err(m) && m@ == "invalid Sanad ID: expected exactly 32 bytes"@
            },
        },
{
    let hex_value = strip_0x(value);
    match hex_decode(hex_value) {
        Err(e) => {
            let m = concat2("invalid Sanad ID hex: ", e.as_str());
            assert(hex_error_message(vstd::utf8::encode_utf8(hex_value@), e@));
            Err(m)
        },
        Ok(bytes) => {
            if bytes.len() == 32 {
                Ok(SanadId::new(to_array_32(&bytes)))
            } else {
                Err(owned("invalid Sanad ID: expected exactly 32 bytes"))
            }
        },
    }
}

/// Decodes an imported private key: optional `0x`, then exactly 32 bytes of
/// hexadecimal.
pub fn parse_private_key_hex(private_key_hex: &str) -> (r: Result<[u8; 32], String>)
    ensures
        match hex_decoded(without_0x(private_key_hex@)) {
            None => r matches Err(m) && hex_refusal("Invalid hex: "@, without_0x(private_key_hex@), m@),
            Some(bytes) => if bytes.len() == 32 {
                r matches Ok(key) && key@ == bytes
            } else {
                r matches Err(m) && m@ == "Private key must be 32 bytes, got "@ + decimal(bytes.len())
            },
        },
{
    let hex_clean = strip_0x(private_key_hex);
    match hex_decode(hex_clean) {
        Err(e) => {
            let m = concat2("Invalid hex: ", e.as_str());
            assert(hex_error_message(vstd::utf8::encode_utf8(hex_clean@), e@));
            Err(m)
        },
        Ok(bytes) => {
            if bytes.len() == 32 {
                Ok(to_array_32(&bytes))
            } else {
                Err(concat2("Private key must be 32 bytes, got ", u64_to_string(bytes.len() as u64).as_str()))
            }
        },
    }
}

/// A lowercase hexadecimal digit: `0`-`9` or `a`-`f`.
pub open spec fn lower_hex_digit(c: char) -> bool {
    ('0' <= c && c <= '9') || ('a' <= c && c <= 'f')
}

/// Whether an identifier looks like a 32-byte content digest: 64
/// lowercase hexadecimal digits.
pub open spec fn digest_shaped(id: Seq<char>) -> bool {
    id.len() == 64 && forall|i: int| 0 <= i < 64 ==> #[trigger] lower_hex_digit(id[i])
}

/// Whether an identifier looks like a 32-byte content digest.
pub fn looks_like_digest(id: &str) -> (b: bool)
    ensures
        b == digest_shaped(id@),
{
    let n = id.unicode_len();
    if n != 64 {
        return false;
    }
    let mut i: usize = 0;
    while i < n
        invariant
            n == id@.len(),
            n == 64,
            i <= n,
            forall|j: int| 0 <= j < i ==> #[trigger] lower_hex_digit(id@[j]),
        decreases n - i,
    {
        if !is_lower_hex_digit(id.get_char(i)) {
            return false;
        }
        i = i + 1;
    }
    true
}

fn is_lower_hex_digit(c: char) -> (b: bool)
    ensures
        b == lower_hex_digit(c),
{
    ('0' <= c && c <= '9') || ('a' <= c && c <= 'f')
}

/// The `0x`-prefixed lowercase hexadecimal text of 32 bytes.
pub fn format_id(bytes: &[u8; 32]) -> (s: String)
    ensures
        s@ == "0x"@ + hex_lower(bytes@),
{
    concat2("0x", hex_encode(bytes).as_str())
}

/// Wraps `rand::rngs::OsRng::fill_bytes`: 32 bytes from the operating
/// system's random source, of which nothing is stated.
#[verifier::external_body]
fn random_32() -> [u8; 32] {
    let mut bytes = [0u8; 32];
    rand::rngs::OsRng.fill_bytes(&mut bytes);
    bytes
}

/// A fresh random identifier: `0x` and 64 hexadecimal digits.
pub fn generate_id() -> (s: String)
    ensures
        exists|b: Seq<u8>| b.len() == 32 && s@ == "0x"@ + hex_lower(b),
{
    let bytes = random_32();
    format_id(&bytes)
}

/// A fresh random 32-byte private key, as `0x`-prefixed hexadecimal; all
/// supported chains use 32-byte keys.
pub fn generate_key_for_chain(_chain: ChainId) -> (s: String)
    ensures
        exists|b: Seq<u8>| b.len() == 32 && s@ == "0x"@ + hex_lower(b),
{
    let key = random_32();
    format_id(&key)
}

proof fn lemma_hex_digit_value(n: nat)
    requires
        n < 16,
    ensures
        hex_value(hex_digit(n)) == Some(n as int),
{
}

/// Hexadecimal decoding undoes lowercase hexadecimal encoding.
pub proof fn lemma_hex_round_trip(bytes: Seq<u8>)
    ensures
        hex_lower(bytes).len() == 2 * bytes.len(),
        hex_decoded(hex_lower(bytes)) == Some(bytes),
    decreases bytes.len(),
{
    if bytes.len() == 0 {
        assert(hex_lower(bytes) =~= Seq::<char>::empty());
    } else {
        let rest = bytes.drop_first();
        lemma_hex_round_trip(rest);
        let s = hex_lower(bytes);
        let hi = (bytes[0] / 16) as nat;
        let lo = (bytes[0] % 16) as nat;
        lemma_hex_digit_value(hi);
        lemma_hex_digit_value(lo);
        assert(s.subrange(2, s.len() as int) =~= hex_lower(rest));
        assert(s.len() % 2 == 0);
        assert(((hi * 16 + lo) as u8) == bytes[0]);
        assert(seq![bytes[0]] + rest =~= bytes);
    }
}

/// An identifier formatted by `format_id` parses back to the same 32 bytes:
/// `parse_sanad_id` and `parse_private_key_hex` accept exactly what
/// `format_id` produces.
pub proof fn law_formatted_id_parses_back(bytes: Seq<u8>)
    requires
        bytes.len() == 32,
    ensures
        hex_decoded(without_0x("0x"@ + hex_lower(bytes))) == Some(bytes),
{
    reveal_strlit("0x");
    lemma_hex_round_trip(bytes);
    let s = "0x"@ + hex_lower(bytes);
    assert(s.subrange(2, s.len() as int) =~= hex_lower(bytes));
}

} // verus!
