//! Trusted bindings to the key, signature and hash primitives the wallet
//! uses: `secp256k1`, `ed25519-dalek`, `sha3` (Keccak-256 and SHA3-256),
//! `blake2` (BLAKE2b-256) and `bs58`.  Each result that takes pages to state
//! is given a name; facts stated beside a name are those the crate's source
//! or documentation gives.

use vstd::prelude::*;
use ed25519_dalek::Signer;
use sha3::Digest;

verus! {

/// The order of the secp256k1 group.
pub open spec fn secp256k1_order() -> nat {
    0xFFFFFFFFFFFFFFFFFFFFFFFFFFFFFFFEBAAEDCE6AF48A03BBFD25E8CD0364141nat
}

/// The big-endian unsigned value of a byte string.
pub open spec fn be_value(s: Seq<u8>) -> nat
    decreases s.len(),
{
    if s.len() == 0 {
        0
    } else {
        be_value(s.drop_last()) * 256 + s.last() as nat
    }
}

/// A valid secp256k1 secret key: 32 bytes whose big-endian value lies in
/// `[1, n - 1]` for the group order `n`.
pub open spec fn secp256k1_secret_key_valid(s: Seq<u8>) -> bool {
    s.len() == 32 && 0 < be_value(s) && be_value(s) < secp256k1_order()
}

/// Wraps `secp256k1::SecretKey::from_slice`, which accepts exactly the valid
/// secret keys; the error text is that of `secp256k1::Error`, of which
/// nothing is stated.
#[verifier::external_body]
pub(crate) fn secp256k1_check_secret_key(bytes: &[u8]) -> (r: Result<(), String>)
    ensures
        r is Ok <==> secp256k1_secret_key_valid(bytes@),
{
    secp256k1::SecretKey::from_slice(bytes).map(|_| ()).map_err(|e| e.to_string())
}

/// The BIP-340 x-only public key (32 bytes) of a secp256k1 secret key.
pub uninterp spec fn secp256k1_xonly_public_key(secret: Seq<u8>) -> Seq<u8>;

/// Wraps `XOnlyPublicKey::from_keypair(&Keypair::from_secret_key(..))` and
/// `XOnlyPublicKey::serialize`.
#[verifier::external_body]
pub(crate) fn secp256k1_xonly_of(secret: &[u8]) -> (pk: [u8; 32])
    requires
        secp256k1_secret_key_valid(secret@),
    ensures
        pk@ == secp256k1_xonly_public_key(secret@),
{
    let secp = secp256k1::Secp256k1::new();
    let sk = secp256k1::SecretKey::from_slice(secret).unwrap();
    secp256k1::XOnlyPublicKey::from_keypair(&secp256k1::Keypair::from_secret_key(&secp, &sk)).0.serialize()
}

/// The uncompressed SEC1 encoding (65 bytes) of the public key of a
/// secp256k1 secret key.
pub uninterp spec fn secp256k1_uncompressed_public_key(secret: Seq<u8>) -> Seq<u8>;

/// Wraps `SecretKey::public_key` and `PublicKey::serialize_uncompressed`.
#[verifier::external_body]
pub(crate) fn secp256k1_uncompressed_of(secret: &[u8]) -> (pk: [u8; 65])
    requires
        secp256k1_secret_key_valid(secret@),
    ensures
        pk@ == secp256k1_uncompressed_public_key(secret@),
{
    let secp = secp256k1::Secp256k1::new();
    let sk = secp256k1::SecretKey::from_slice(secret).unwrap();
    sk.public_key(&secp).serialize_uncompressed()
}

/// The DER-encoded ECDSA signature (RFC 6979 nonce) of a 32-byte digest.
pub uninterp spec fn secp256k1_ecdsa_der(secret: Seq<u8>, digest: Seq<u8>) -> Seq<u8>;

/// Wraps `Secp256k1::sign_ecdsa` (deterministic RFC 6979 nonce) and
/// `Signature::serialize_der`.
#[verifier::external_body]
pub(crate) fn secp256k1_sign_der(secret: &[u8], digest: &[u8; 32]) -> (sig: Vec<u8>)
    requires
        secp256k1_secret_key_valid(secret@),
    ensures
        sig@ == secp256k1_ecdsa_der(secret@, digest@),
{
    let secp = secp256k1::Secp256k1::new();
    let sk = secp256k1::SecretKey::from_slice(secret).unwrap();
    secp.sign_ecdsa(&secp256k1::Message::from_digest(*digest), &sk).serialize_der().to_vec()
}

/// The Keccak-256 digest (the pre-standard SHA-3 padding Ethereum uses).
pub uninterp spec fn keccak256(data: Seq<u8>) -> Seq<u8>;

/// Wraps `sha3::Keccak256::digest`.
#[verifier::external_body]
pub(crate) fn keccak256_digest(data: &[u8]) -> (d: [u8; 32])
    ensures
        d@ == keccak256(data@),
{
    sha3::Keccak256::digest(data).into()
}

/// The SHA3-256 digest (FIPS 202).
pub uninterp spec fn sha3_256(data: Seq<u8>) -> Seq<u8>;

/// Wraps `sha3::Sha3_256::digest`.
#[verifier::external_body]
pub(crate) fn sha3_256_digest(data: &[u8]) -> (d: [u8; 32])
    ensures
        d@ == sha3_256(data@),
{
    sha3::Sha3_256::digest(data).into()
}

/// The BLAKE2b digest with a 32-byte output (RFC 7693).
pub uninterp spec fn blake2b_256(data: Seq<u8>) -> Seq<u8>;

/// Wraps `blake2::Blake2b::<U32>::digest`.
#[verifier::external_body]
pub(crate) fn blake2b_256_digest(data: &[u8]) -> (d: [u8; 32])
    ensures
        d@ == blake2b_256(data@),
{
    blake2::Blake2b::<blake2::digest::consts::U32>::digest(data).into()
}

/// The Ed25519 public key (32 bytes) of a 32-byte secret key (RFC 8032).
pub uninterp spec fn ed25519_public_key(secret: Seq<u8>) -> Seq<u8>;

/// Wraps `SigningKey::from_bytes` and `SigningKey::verifying_key`.
#[verifier::external_body]
pub(crate) fn ed25519_public_of(secret: &[u8]) -> (pk: [u8; 32])
    requires
        secret@.len() == 32,
    ensures
        pk@ == ed25519_public_key(secret@),
{
    ed25519_dalek::SigningKey::from_bytes(secret.try_into().unwrap()).verifying_key().to_bytes()
}

/// The Ed25519 signature (64 bytes, deterministic per RFC 8032) of a message.
pub uninterp spec fn ed25519_signature(secret: Seq<u8>, message: Seq<u8>) -> Seq<u8>;

/// Wraps `SigningKey::sign` and `Signature::to_bytes`.
#[verifier::external_body]
pub(crate) fn ed25519_sign(secret: &[u8], message: &[u8]) -> (sig: [u8; 64])
    requires
        secret@.len() == 32,
    ensures
        sig@ == ed25519_signature(secret@, message@),
{
    ed25519_dalek::SigningKey::from_bytes(secret.try_into().unwrap()).sign(message).to_bytes()
}

/// The digit of a value below 58 in the Bitcoin Base58 alphabet.
pub open spec fn base58_digit(d: nat) -> char {
    "123456789ABCDEFGHJKLMNPQRSTUVWXYZabcdefghijkmnopqrstuvwxyz"@[d as int]
}

/// The Base58 digits of a natural number, most significant first, without
/// leading zero digits (none for zero).
pub open spec fn base58_digits(n: nat) -> Seq<char>
    decreases n,
{
    if n == 0 {
        Seq::empty()
    } else {
        base58_digits(n / 58).push(base58_digit(n % 58))
    }
}

/// The number of leading zero bytes.
pub open spec fn leading_zero_bytes(data: Seq<u8>) -> nat
    decreases data.len(),
{
    if data.len() == 0 || data[0] != 0 {
        0
    } else {
        1 + leading_zero_bytes(data.drop_first())
    }
}

/// The Base58 (Bitcoin alphabet) text of a byte string: one `1` per leading
/// zero byte, then the digits of the bytes' big-endian value.
pub open spec fn base58(data: Seq<u8>) -> Seq<char> {
    Seq::new(leading_zero_bytes(data), |i: int| '1') + base58_digits(be_value(data))
}

/// Wraps `bs58::encode(..).into_string()`.
#[verifier::external_body]
pub(crate) fn base58_encode(data: &[u8]) -> (s: String)
    ensures
        s@ == base58(data@),
{
    bs58::encode(data).into_string()
}

} // verus!
