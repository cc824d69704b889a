//! Bitcoin chain integration: Taproot address formatting.

use vstd::prelude::*;
use crate::chain::ChainId;
use crate::crypto::be_value;

verus! {

/// The Bitcoin network an address is encoded for.
#[derive(Clone, Copy, Debug, PartialEq, Eq, Structural)]
pub enum BitcoinNetwork {
    Bitcoin,
    Testnet,
    Testnet4,
    Signet,
    Regtest,
}

/// The prime of the secp256k1 base field, 2^256 - 2^32 - 977.
pub open spec fn secp256k1_field_prime() -> nat {
    0xFFFFFFFFFFFFFFFFFFFFFFFFFFFFFFFFFFFFFFFFFFFFFFFFFFFFFFFEFFFFFC2Fnat
}

/// Whether 32 bytes are the x coordinate of a point on secp256k1 (a BIP-340
/// x-only public key): their big-endian value `x` is below the field prime
/// `p`, and `x^3 + 7` is a square modulo `p`.
pub open spec fn xonly_key_valid(bytes: Seq<u8>) -> bool {
    let x = be_value(bytes) as int;
    let p = secp256k1_field_prime() as int;
    &&& bytes.len() == 32
    &&& x < p
    &&& exists|y: int| 0 <= y < p && #[trigger] ((y * y - (x * x * x + 7)) % p) == 0
}

/// Wraps `secp256k1::XOnlyPublicKey::from_slice`, which rejects anything but
/// 32 bytes naming the x coordinate of a curve point
/// (`secp256k1_xonly_pubkey_parse`).
#[verifier::external_body]
fn check_xonly_key(bytes: &[u8]) -> (b: bool)
    ensures
        b == xonly_key_valid(bytes@),
        b ==> bytes@.len() == 32,
{
    bitcoin::XOnlyPublicKey::from_slice(bytes).is_ok()
}

/// Whether BIP-341 key-path tweaking of an x-only internal key with an
/// empty script tree is defined: the tagged tweak hash is below the group
/// order and the tweaked point is not the point at infinity.
pub uninterp spec fn tap_tweak_defined(internal_key: Seq<u8>) -> bool;

/// Wraps `TapTweakHash::from_key_and_tweak(key, None)`, `Scalar::from_be_bytes`
/// and `XOnlyPublicKey::add_tweak`: whether the key-path tweak of a valid
/// x-only key succeeds.  `Address::p2tr` panics exactly where it does not
/// (its `to_scalar` and `tap_tweak` call `expect` on these two results).
#[verifier::external_body]
fn check_tap_tweak(internal_key: &[u8]) -> (b: bool)
    requires
        xonly_key_valid(internal_key@),
    ensures
        b == tap_tweak_defined(internal_key@),
{
    let key = bitcoin::XOnlyPublicKey::from_slice(internal_key).unwrap();
    let hash = bitcoin::TapTweakHash::from_key_and_tweak(key, None);
    match bitcoin::secp256k1::Scalar::from_be_bytes(bitcoin::hashes::Hash::to_byte_array(hash)) {
        Ok(tweak) => key.add_tweak(&bitcoin::secp256k1::Secp256k1::verification_only(), &tweak).is_ok(),
        Err(_) => false,
    }
}

/// The Bech32m text of the BIP-341 pay-to-taproot address for a key-path
/// spend: the output key is the given x-only internal key tweaked with an
/// empty script tree.
pub uninterp spec fn p2tr_address(internal_key: Seq<u8>, network: BitcoinNetwork) -> Seq<char>;

/// Wraps `Address::p2tr(&secp, internal_key, None, network)` and its
/// `Display`.
#[verifier::external_body]
fn taproot_address(internal_key: &[u8], network: BitcoinNetwork) -> (s: String)
    requires
        xonly_key_valid(internal_key@),
        tap_tweak_defined(internal_key@),
    ensures
        s@ == p2tr_address(internal_key@, network),
{
    let key = bitcoin::XOnlyPublicKey::from_slice(internal_key).unwrap();
    let network = match network {
        BitcoinNetwork::Bitcoin => bitcoin::Network::Bitcoin,
        BitcoinNetwork::Testnet => bitcoin::Network::Testnet,
        BitcoinNetwork::Testnet4 => bitcoin::Network::Testnet4,
        BitcoinNetwork::Signet => bitcoin::Network::Signet,
        BitcoinNetwork::Regtest => bitcoin::Network::Regtest,
    };
    bitcoin::Address::p2tr(&bitcoin::secp256k1::Secp256k1::verification_only(), key, None, network).to_string()
}

/// Whether the first 32 bytes of a public key are a valid x-only internal
/// key whose key-path tweak is defined.
pub open spec fn taproot_key_ok(pubkey: Seq<u8>) -> bool {
    pubkey.len() >= 32 && xonly_key_valid(pubkey.subrange(0, 32)) && tap_tweak_defined(pubkey.subrange(0, 32))
}

/// The Taproot (P2TR, BIP-341) address of a public key whose first 32 bytes
/// are its x-only form, used as the internal key and tweaked with an empty
/// script tree.
pub fn format_address(pubkey_bytes: &[u8], network: BitcoinNetwork) -> (s: String)
    requires
        taproot_key_ok(pubkey_bytes@),
    ensures
        s@ == p2tr_address(pubkey_bytes@.subrange(0, 32), network),
{
    let key = first_32(pubkey_bytes);
    taproot_address(key.as_slice(), network)
}

/// `format_address` where the first 32 bytes are a valid x-only key whose
/// tweak is defined, `None` where they are not (or there are fewer than 32
/// bytes).
pub fn try_format_address(pubkey_bytes: &[u8], network: BitcoinNetwork) -> (s: Option<String>)
    ensures
        taproot_key_ok(pubkey_bytes@) <==> s is Some,
        s matches Some(a) ==> a@ == p2tr_address(pubkey_bytes@.subrange(0, 32), network),
{
    if pubkey_bytes.len() < 32 {
        return None;
    }
    let key = first_32(pubkey_bytes);
    if check_xonly_key(key.as_slice()) && check_tap_tweak(key.as_slice()) {
        Some(format_address(pubkey_bytes, network))
    } else {
        None
    }
}

fn first_32(bytes: &[u8]) -> (r: Vec<u8>)
    requires
        bytes@.len() >= 32,
    ensures
        r@ == bytes@.subrange(0, 32),
{
    let mut r: Vec<u8> = Vec::new();
    let mut i: usize = 0;
    while i < 32
        invariant
            i <= 32,
            bytes@.len() >= 32,
            r@ == bytes@.subrange(0, i as int),
        decreases 32 - i,
    {
        r.push(bytes[i]);
        i = i + 1;
    }
    r
}

/// The chain this module serves.
pub fn chain() -> (c: ChainId)
    ensures
        c@ == "bitcoin"@,
{
    ChainId::new("bitcoin")
}

} // verus!
