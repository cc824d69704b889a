//! Key manager for the multi-chain wallet: key derivation from a 64-byte
//! wallet seed, chain-specific signing and address formatting, and the
//! bookkeeping of the platform keystore that persists derived keys.
//!
//! The platform keystore itself (encrypted files or a browser vault) is
//! operated by the application; the manager decides what each keystore
//! outcome means and keeps the index of stored key identifiers.

use vstd::prelude::*;
use crate::chain::ChainId;
use crate::codec::{concat_bytes, hex_encode, hex_lower, sub_bytes};
use crate::crypto::{
    base58, base58_encode, blake2b_256, blake2b_256_digest, ed25519_public_key, ed25519_public_of, ed25519_sign,
    ed25519_signature, keccak256, keccak256_digest, secp256k1_check_secret_key, secp256k1_ecdsa_der,
    secp256k1_secret_key_valid, secp256k1_sign_der, secp256k1_uncompressed_of, secp256k1_uncompressed_public_key,
    secp256k1_xonly_of, secp256k1_xonly_public_key, sha3_256, sha3_256_digest,
};
use crate::text::{concat2, concat3, owned};

verus! {

/// Error type for key management operations.
#[derive(Debug, Clone, PartialEq, Eq)]
pub enum KeyError {
    /// The supplied vault passphrase could not decrypt the stored key.
    PassphraseMismatch,
    /// Invalid key format.
    InvalidKeyFormat(String),
    /// Derivation error.
    DerivationError(String),
    /// Signing error.
    SigningError(String),
}

/// A failure the platform keystore reported, with its message.
#[derive(Debug, Clone, PartialEq, Eq)]
pub enum KeystoreFailure {
    Encryption(String),
    Filesystem(String),
    KeyNotFound(String),
    PassphraseMismatch(String),
    Other(String),
}

/// Key manager handling multi-chain key operations.
pub struct KeyManager {
    /// Wallet seed (64 bytes from BIP-39).
    seed: [u8; 64],
    /// The identifiers of the keys held by the platform keystore, when one is
    /// attached.
    keystore: Option<Vec<String>>,
}

/// The 32-byte key that starts at `start` in the seed.
pub open spec fn seed_key(seed: Seq<u8>, start: int) -> Seq<u8> {
    seed.subrange(start, start + 32)
}

/// The Ethereum address (20 bytes) of a secp256k1 secret key: the last 20
/// bytes of the Keccak-256 digest of the uncompressed public key without its
/// prefix byte.
pub open spec fn ethereum_address(secret: Seq<u8>) -> Seq<u8> {
    keccak256(secp256k1_uncompressed_public_key(secret).subrange(1, 65)).subrange(12, 32)
}

/// The Sui address digest: BLAKE2b-256 over the Ed25519 flag byte and the
/// public key.
pub open spec fn sui_address(secret: Seq<u8>) -> Seq<u8> {
    blake2b_256(seq![0u8] + ed25519_public_key(secret))
}

/// The Aptos address digest: SHA3-256 over the public key and the
/// single-signature scheme byte.
pub open spec fn aptos_address(secret: Seq<u8>) -> Seq<u8> {
    sha3_256(ed25519_public_key(secret) + seq![0u8])
}

/// The display address of a chain's account derived from `seed`, or `None`
/// when the chain's secp256k1 key derived from the seed is invalid.
/// Unknown chains use the Ethereum derivation.
pub open spec fn seed_address(seed: Seq<u8>, chain: Seq<char>) -> Option<Seq<char>> {
    if chain == "bitcoin"@ {
        if secp256k1_secret_key_valid(seed_key(seed, 0)) {
            Some(hex_lower(secp256k1_xonly_public_key(seed_key(seed, 0))))
        } else {
            None
        }
    } else if chain == "sui"@ {
        Some("0x"@ + hex_lower(sui_address(seed_key(seed, 0))))
    } else if chain == "aptos"@ {
        Some("0x"@ + hex_lower(aptos_address(seed_key(seed, 32))))
    } else if chain == "solana"@ {
        Some(base58(ed25519_public_key(seed_key(seed, 16))))
    } else if secp256k1_secret_key_valid(seed_key(seed, 32)) {
        Some("0x"@ + hex_lower(ethereum_address(seed_key(seed, 32))))
    } else {
        None
    }
}

/// The signature a chain's key derived from `seed` makes over a 32-byte
/// message, or `None` when the secp256k1 key derived from the seed is invalid.
/// Sui, Aptos and Solana sign with Ed25519; every other chain signs with
/// the Ethereum ECDSA key.
pub open spec fn seed_signature(seed: Seq<u8>, chain: Seq<char>, message: Seq<u8>) -> Option<Seq<u8>> {
    if chain == "sui"@ {
        Some(ed25519_signature(seed_key(seed, 0), message))
    } else if chain == "aptos"@ {
        Some(ed25519_signature(seed_key(seed, 32), message))
    } else if chain == "solana"@ {
        Some(ed25519_signature(seed_key(seed, 16), message))
    } else if secp256k1_secret_key_valid(seed_key(seed, 32)) {
        Some(secp256k1_ecdsa_der(seed_key(seed, 32), message))
    } else {
        None
    }
}

/// The messages of a list of key identifiers.
pub open spec fn ids_view(ids: Seq<String>) -> Seq<Seq<char>> {
    ids.map_values(|s: String| s@)
}

/// The error returned when no platform keystore is attached.
pub open spec fn not_available(e: KeyError) -> bool {
    e matches KeyError::DerivationError(m) && m@ == "Native keystore not available"@
}

proof fn lemma_ids_view_push(s: Seq<String>, x: String)
    ensures
        ids_view(s.push(x)) == ids_view(s).push(x@),
{
    assert(ids_view(s.push(x)) =~= ids_view(s).push(x@));
}

fn keystore_not_available() -> (e: KeyError)
    ensures
        not_available(e),
{
    KeyError::DerivationError(owned("Native keystore not available"))
}

fn copy_ids(ids: &Vec<String>) -> (r: Vec<String>)
    ensures
        ids_view(r@) == ids_view(ids@),
{
    let mut r: Vec<String> = Vec::new();
    let mut i: usize = 0;
    while i < ids.len()
        invariant
            i <= ids.len(),
            ids_view(r@) == ids_view(ids@.subrange(0, i as int)),
        decreases ids.len() - i,
    {
        let ghost before = r@;
        r.push(ids[i].clone());
        proof {
            assert(ids@.subrange(0, i + 1) == ids@.subrange(0, i as int).push(ids@[i as int]));
            lemma_ids_view_push(before, r@.last());
            lemma_ids_view_push(ids@.subrange(0, i as int), ids@[i as int]);
        }
        i = i + 1;
    }
    assert(ids@.subrange(0, ids.len() as int) == ids@);
    r
}

fn remove_id(ids: &Vec<String>, key_id: &str) -> (r: Vec<String>)
    ensures
        ids_view(r@) == ids_view(ids@).filter(|s: Seq<char>| s != key_id@),
{
    let mut r: Vec<String> = Vec::new();
    let mut i: usize = 0;
    while i < ids.len()
        invariant
            i <= ids.len(),
            ids_view(r@) == ids_view(ids@.subrange(0, i as int)).filter(|s: Seq<char>| s != key_id@),
        decreases ids.len() - i,
    {
        proof {
            assert(ids@.subrange(0, i + 1) == ids@.subrange(0, i as int).push(ids@[i as int]));
            lemma_ids_view_push(ids@.subrange(0, i as int), ids@[i as int]);
            reveal_with_fuel(Seq::filter, 1);
            assert(ids_view(ids@.subrange(0, i + 1)).drop_last() == ids_view(ids@.subrange(0, i as int)));
        }
        if !crate::text::str_eq(ids[i].as_str(), key_id) {
            let ghost before = r@;
            r.push(ids[i].clone());
            proof { lemma_ids_view_push(before, r@.last()); }
        }
        i = i + 1;
    }
    assert(ids@.subrange(0, ids.len() as int) == ids@);
    r
}

fn contains_id(ids: &Vec<String>, key_id: &str) -> (b: bool)
    ensures
        b == ids_view(ids@).contains(key_id@),
{
    let mut i: usize = 0;
    while i < ids.len()
        invariant
            i <= ids.len(),
            forall|j: int| 0 <= j < i ==> ids@[j]@ != key_id@,
        decreases ids.len() - i,
    {
        if crate::text::str_eq(ids[i].as_str(), key_id) {
            assert(ids_view(ids@)[i as int] == key_id@);
            return true;
        }
        i = i + 1;
    }
    assert forall|j: int| 0 <= j < ids_view(ids@).len() implies ids_view(ids@)[j] != key_id@ by {
        assert(ids_view(ids@)[j] == ids@[j]@);
    }
    false
}

impl KeyManager {
    /// The wallet seed.
    pub closed spec fn seed(&self) -> Seq<u8> {
        self.seed@
    }

    /// The identifiers of the keys the attached keystore holds, `None` when
    /// no keystore is attached.
    pub closed spec fn keystore_keys(&self) -> Option<Seq<Seq<char>>> {
        match self.keystore {
            Some(ids) => Some(ids_view(ids@)),
            None => None,
        }
    }

    /// Creates a key manager from a seed, without a keystore.
    pub fn new(seed: [u8; 64]) -> (m: Self)
        ensures
            m.seed() == seed@,
            m.keystore_keys() is None,
    {
        KeyManager { seed, keystore: None }
    }

    /// Creates a key manager from a seed with the platform keystore attached.
    /// `keystore` is the outcome of opening the keystore: the identifiers of
    /// the keys it holds, or the text of the error it reported.
    pub fn new_with_keystore(seed: [u8; 64], keystore: Result<Vec<String>, String>) -> (r: Result<Self, KeyError>)
        ensures
            match keystore {
                Ok(ids) => r matches Ok(m) && m.seed() == seed@ && m.keystore_keys() == Some(ids_view(ids@)),
                Err(e) => r matches Err(KeyError::DerivationError(m)) && m@ == "Failed to initialize keystore: "@ + e@,
            },
    {
        match keystore {
            Ok(ids) => Ok(KeyManager { seed, keystore: Some(ids) }),
            Err(e) => Err(KeyError::DerivationError(concat2("Failed to initialize keystore: ", e.as_str()))),
        }
    }

    /// Whether a keystore is attached.
    pub fn has_keystore(&self) -> (b: bool)
        ensures
            b == (self.keystore_keys() is Some),
    {
        self.keystore.is_some()
    }

    /// Lists the identifiers of the keys held by the keystore.
    pub fn list_keystore_keys(&self) -> (r: Result<Vec<String>, KeyError>)
        ensures
            self.keystore_keys() matches Some(ids) ==> (r matches Ok(v) && ids_view(v@) == ids),
            self.keystore_keys() is None ==> (r matches Err(e) && not_available(e)),
    {
        match &self.keystore {
            Some(ids) => Ok(copy_ids(ids)),
            None => Err(keystore_not_available()),
        }
    }

    /// Records the deletion of a key from the keystore.  `outcome` is what
    /// the keystore reported for the deletion.
    pub fn delete_key_from_keystore(&mut self, key_id: &str, outcome: Result<(), String>) -> (r: Result<(), KeyError>)
        ensures
            final(self).seed() == old(self).seed(),
            old(self).keystore_keys() is None ==> (r matches Err(e) && not_available(e)
                && final(self).keystore_keys() is None),
            old(self).keystore_keys() matches Some(ids) ==> match outcome {
                Ok(()) => r is Ok && final(self).keystore_keys() == Some(ids.filter(|s: Seq<char>| s != key_id@)),
                Err(e) => r matches Err(KeyError::DerivationError(m)) && m@ == "Failed to delete key: "@ + e@
                    && final(self).keystore_keys() == old(self).keystore_keys(),
            },
    {
        match &self.keystore {
            None => Err(keystore_not_available()),
            Some(ids) => match outcome {
                Ok(()) => {
                    let remaining = remove_id(ids, key_id);
                    self.keystore = Some(remaining);
                    Ok(())
                },
                Err(e) => Err(KeyError::DerivationError(concat2("Failed to delete key: ", e.as_str()))),
            },
        }
    }

    /// Records the storing of a derived key in the keystore.  `outcome` is
    /// what the keystore reported for the write.
    pub fn store_key_in_keystore(&mut self, key_id: &str, outcome: Result<(), KeystoreFailure>) -> (r: Result<(), KeyError>)
        ensures
            final(self).seed() == old(self).seed(),
            old(self).keystore_keys() is None ==> (r matches Err(e) && not_available(e)
                && final(self).keystore_keys() is None),
            old(self).keystore_keys() matches Some(ids) ==> match outcome {
                Ok(()) => r is Ok && final(self).keystore_keys() == Some(
                    if ids.contains(key_id@) { ids } else { ids.push(key_id@) },
                ),
                Err(f) => r matches Err(e) && store_failure(f, e)
                    && final(self).keystore_keys() == old(self).keystore_keys(),
            },
    {
        match &self.keystore {
            None => Err(keystore_not_available()),
            Some(ids) => match outcome {
                Ok(()) => {
                    if !contains_id(ids, key_id) {
                        let mut updated = copy_ids(ids);
                        let ghost before = updated@;
                        updated.push(owned(key_id));
                        proof {
                            lemma_ids_view_push(before, updated@.last());
                        }
                        self.keystore = Some(updated);
                    }
                    Ok(())
                },
                Err(f) => Err(map_store_failure(f)),
            },
        }
    }

    /// Interprets the keystore's answer to reading a stored key.
    pub fn retrieve_key_from_keystore(&self, outcome: Result<[u8; 32], KeystoreFailure>) -> (r: Result<[u8; 32], KeyError>)
        ensures
            self.keystore_keys() is None ==> (r matches Err(e) && not_available(e)),
            self.keystore_keys() is Some ==> match outcome {
                Ok(key) => r == Ok::<[u8; 32], KeyError>(key),
                Err(f) => r matches Err(e) && retrieve_failure(f, e),
            },
    {
        match &self.keystore {
            None => Err(keystore_not_available()),
            Some(_) => match outcome {
                Ok(key) => Ok(key),
                Err(f) => Err(map_retrieve_failure(f)),
            },
        }
    }

    /// Derives the Bitcoin Taproot key pair: the secret key is the first half
    /// of the seed; the public key is its x-only form.
    pub fn derive_bitcoin_keys(&self) -> (r: Result<(Vec<u8>, [u8; 32]), KeyError>)
        ensures
            secp256k1_secret_key_valid(seed_key(self.seed(), 0)) ==> (r matches Ok((sk, pk))
                && sk@ == seed_key(self.seed(), 0) && pk@ == secp256k1_xonly_public_key(sk@)),
            !secp256k1_secret_key_valid(seed_key(self.seed(), 0)) ==> (r matches Err(KeyError::DerivationError(m))
                && m@.subrange(0, 20) == "Invalid secret key: "@),
    {
        proof { reveal_strlit("Invalid secret key: "); }
        let sk = sub_bytes(&self.seed, 0, 32);
        match secp256k1_check_secret_key(sk.as_slice()) {
            Ok(()) => {
                let pk = secp256k1_xonly_of(sk.as_slice());
                Ok((sk, pk))
            },
            Err(e) => Err(invalid_secret_key(e)),
        }
    }

    /// Derives the Ethereum key pair: the secret key is the second half of the
    /// seed; the address is derived from its public key.
    pub fn derive_ethereum_keys(&self) -> (r: Result<(Vec<u8>, Vec<u8>), KeyError>)
        ensures
            secp256k1_secret_key_valid(seed_key(self.seed(), 32)) ==> (r matches Ok((sk, addr))
                && sk@ == seed_key(self.seed(), 32) && addr@ == ethereum_address(sk@)),
            !secp256k1_secret_key_valid(seed_key(self.seed(), 32)) ==> (r matches Err(KeyError::DerivationError(m))
                && m@.subrange(0, 20) == "Invalid secret key: "@),
    {
        proof { reveal_strlit("Invalid secret key: "); }
        let sk = sub_bytes(&self.seed, 32, 64);
        match secp256k1_check_secret_key(sk.as_slice()) {
            Ok(()) => {
                let pk = secp256k1_uncompressed_of(sk.as_slice());
                let body = sub_bytes(&pk, 1, 65);
                let hash = keccak256_digest(body.as_slice());
                let address = sub_bytes(&hash, 12, 32);
                Ok((sk, address))
            },
            Err(e) => Err(invalid_secret_key(e)),
        }
    }

    /// Derives the Sui key pair (Ed25519) from the first half of the seed.
    pub fn derive_sui_keys(&self) -> (r: Result<(Vec<u8>, [u8; 32]), KeyError>)
        ensures
            r matches Ok((sk, pk)) && sk@ == seed_key(self.seed(), 0) && pk@ == ed25519_public_key(sk@),
    {
        self.derive_ed25519_keys(0)
    }

    /// Derives the Aptos key pair (Ed25519) from the second half of the seed.
    pub fn derive_aptos_keys(&self) -> (r: Result<(Vec<u8>, [u8; 32]), KeyError>)
        ensures
            r matches Ok((sk, pk)) && sk@ == seed_key(self.seed(), 32) && pk@ == ed25519_public_key(sk@),
    {
        self.derive_ed25519_keys(32)
    }

    /// Derives the Solana key pair (Ed25519) from the middle of the seed.
    pub fn derive_solana_keys(&self) -> (r: Result<(Vec<u8>, [u8; 32]), KeyError>)
        ensures
            r matches Ok((sk, pk)) && sk@ == seed_key(self.seed(), 16) && pk@ == ed25519_public_key(sk@),
    {
        self.derive_ed25519_keys(16)
    }

    fn derive_ed25519_keys(&self, start: usize) -> (r: Result<(Vec<u8>, [u8; 32]), KeyError>)
        requires
            start <= 32,
        ensures
            r matches Ok((sk, pk)) && sk@ == seed_key(self.seed(), start as int) && pk@ == ed25519_public_key(sk@),
    {
        let sk = sub_bytes(&self.seed, start, start + 32);
        let pk = ed25519_public_of(sk.as_slice());
        Ok((sk, pk))
    }

    /// Signs a 32-byte message with the key the chain uses.
    pub fn sign(&self, chain: &ChainId, message: &[u8; 32]) -> (r: Result<Vec<u8>, KeyError>)
        ensures
            seed_signature(self.seed(), chain@, message@) matches Some(sig) ==> (r matches Ok(v) && v@ == sig),
            seed_signature(self.seed(), chain@, message@) is None ==> (r matches Err(KeyError::DerivationError(m))
                && m@.subrange(0, 20) == "Invalid secret key: "@),
    {
        if chain.is("sui") {
            let sk = sub_bytes(&self.seed, 0, 32);
            Ok({ let sig = ed25519_sign(sk.as_slice(), message); sub_bytes(&sig, 0, 64) })
        } else if chain.is("aptos") {
            let sk = sub_bytes(&self.seed, 32, 64);
            Ok({ let sig = ed25519_sign(sk.as_slice(), message); sub_bytes(&sig, 0, 64) })
        } else if chain.is("solana") {
            let sk = sub_bytes(&self.seed, 16, 48);
            Ok({ let sig = ed25519_sign(sk.as_slice(), message); sub_bytes(&sig, 0, 64) })
        } else {
            self.sign_ethereum(message)
        }
    }

    fn sign_ethereum(&self, message: &[u8; 32]) -> (r: Result<Vec<u8>, KeyError>)
        ensures
            secp256k1_secret_key_valid(seed_key(self.seed(), 32)) ==> (r matches Ok(v)
                && v@ == secp256k1_ecdsa_der(seed_key(self.seed(), 32), message@)),
            !secp256k1_secret_key_valid(seed_key(self.seed(), 32)) ==> (r matches Err(KeyError::DerivationError(m))
                && m@.subrange(0, 20) == "Invalid secret key: "@),
    {
        proof { reveal_strlit("Invalid secret key: "); }
        let sk = sub_bytes(&self.seed, 32, 64);
        match secp256k1_check_secret_key(sk.as_slice()) {
            Ok(()) => Ok(secp256k1_sign_der(sk.as_slice(), message)),
            Err(e) => Err(invalid_secret_key(e)),
        }
    }

    /// Formats the account address of a chain for display.
    pub fn format_address(&self, chain: &ChainId) -> (r: Result<String, KeyError>)
        ensures
            seed_address(self.seed(), chain@) matches Some(a) ==> (r matches Ok(s) && s@ == a),
            seed_address(self.seed(), chain@) is None ==> (r matches Err(KeyError::DerivationError(m))
                && m@.subrange(0, 20) == "Invalid secret key: "@),
    {
        if chain.is("bitcoin") {
            match self.derive_bitcoin_keys() {
                Ok((_, pk)) => Ok(hex_encode(&pk)),
                Err(e) => Err(e),
            }
        } else if chain.is("sui") {
            let (_, pk) = match self.derive_sui_keys() { Ok(k) => k, Err(e) => { return Err(e); } };
            let flagged = concat_bytes(&[0u8], &pk);
            proof { assert(seq![0u8] =~= [0u8]@); }
            let hash = blake2b_256_digest(flagged.as_slice());
            Ok(concat2("0x", hex_encode(&hash).as_str()))
        } else if chain.is("aptos") {
            let (_, pk) = match self.derive_aptos_keys() { Ok(k) => k, Err(e) => { return Err(e); } };
            let schemed = concat_bytes(&pk, &[0u8]);
            proof { assert(seq![0u8] =~= [0u8]@); }
            let hash = sha3_256_digest(schemed.as_slice());
            Ok(concat2("0x", hex_encode(&hash).as_str()))
        } else if chain.is("solana") {
            let (_, pk) = match self.derive_solana_keys() { Ok(k) => k, Err(e) => { return Err(e); } };
            Ok(base58_encode(&pk))
        } else {
            match self.derive_ethereum_keys() {
                Ok((_, address)) => Ok(concat2("0x", hex_encode(address.as_slice()).as_str())),
                Err(e) => Err(e),
            }
        }
    }
}

fn invalid_secret_key(e: String) -> (k: KeyError)
    ensures
        k matches KeyError::DerivationError(m) && m@ == "Invalid secret key: "@ + e@,
{
    KeyError::DerivationError(concat2("Invalid secret key: ", e.as_str()))
}

/// `e` is what a keystore write failure `f` means to the wallet.
pub open spec fn store_failure(f: KeystoreFailure, e: KeyError) -> bool {
    match f {
        KeystoreFailure::Encryption(m) => e matches KeyError::DerivationError(x) && x@ == "Encryption failed: "@ + m@,
        KeystoreFailure::Filesystem(m) => e matches KeyError::DerivationError(x) && x@ == "Filesystem error: "@ + m@,
        KeystoreFailure::KeyNotFound(id) => e matches KeyError::InvalidKeyFormat(x) && x@ == id@,
        KeystoreFailure::PassphraseMismatch(t) => e matches KeyError::DerivationError(x) && x@ == "Keystore error: "@ + t@,
        KeystoreFailure::Other(t) => e matches KeyError::DerivationError(x) && x@ == "Keystore error: "@ + t@,
    }
}

/// `e` is what a keystore read failure `f` means to the wallet.
pub open spec fn retrieve_failure(f: KeystoreFailure, e: KeyError) -> bool {
    match f {
        KeystoreFailure::Encryption(m) => e matches KeyError::DerivationError(x) && x@ == "Encryption error: "@ + m@,
        KeystoreFailure::Filesystem(m) => e matches KeyError::DerivationError(x) && x@ == "Filesystem error: "@ + m@,
        KeystoreFailure::KeyNotFound(id) => e matches KeyError::InvalidKeyFormat(x) && x@ == id@,
        KeystoreFailure::PassphraseMismatch(_) => e == KeyError::PassphraseMismatch,
        KeystoreFailure::Other(t) => e matches KeyError::DerivationError(x) && x@ == "Keystore error: "@ + t@,
    }
}

fn map_store_failure(f: KeystoreFailure) -> (e: KeyError)
    ensures
        store_failure(f, e),
{
    match f {
        KeystoreFailure::Encryption(m) => KeyError::DerivationError(concat2("Encryption failed: ", m.as_str())),
        KeystoreFailure::Filesystem(m) => KeyError::DerivationError(concat2("Filesystem error: ", m.as_str())),
        KeystoreFailure::KeyNotFound(id) => KeyError::InvalidKeyFormat(id),
        KeystoreFailure::PassphraseMismatch(t) => KeyError::DerivationError(concat2("Keystore error: ", t.as_str())),
        KeystoreFailure::Other(t) => KeyError::DerivationError(concat2("Keystore error: ", t.as_str())),
    }
}

fn map_retrieve_failure(f: KeystoreFailure) -> (e: KeyError)
    ensures
        retrieve_failure(f, e),
{
    match f {
        KeystoreFailure::Encryption(m) => KeyError::DerivationError(concat2("Encryption error: ", m.as_str())),
        KeystoreFailure::Filesystem(m) => KeyError::DerivationError(concat2("Filesystem error: ", m.as_str())),
        KeystoreFailure::KeyNotFound(id) => KeyError::InvalidKeyFormat(id),
        KeystoreFailure::PassphraseMismatch(_) => KeyError::PassphraseMismatch,
        KeystoreFailure::Other(t) => KeyError::DerivationError(concat2("Keystore error: ", t.as_str())),
    }
}

/// A key stored in the keystore is listed afterwards, and storing it again
/// does not list it twice.
pub proof fn law_stored_key_is_listed(before: Seq<Seq<char>>, after: Seq<Seq<char>>, key_id: Seq<char>)
    requires
        after == (if before.contains(key_id) { before } else { before.push(key_id) }),
    ensures
        after.contains(key_id),
        forall|k: Seq<char>| before.contains(k) ==> after.contains(k),
        before.no_duplicates() ==> after.no_duplicates(),
{
    if !before.contains(key_id) {
        assert(after[before.len() as int] == key_id);
        assert forall|k: Seq<char>| before.contains(k) implies after.contains(k) by {
            let j = choose|j: int| 0 <= j < before.len() && before[j] == k;
            assert(after[j] == k);
        }
    }
}

/// A key deleted from the keystore is no longer listed; every other key
/// still is.
pub proof fn law_deleted_key_is_unlisted(before: Seq<Seq<char>>, after: Seq<Seq<char>>, key_id: Seq<char>)
    requires
        after == before.filter(|s: Seq<char>| s != key_id),
    ensures
        !after.contains(key_id),
        forall|k: Seq<char>| k != key_id ==> (after.contains(k) <==> before.contains(k)),
{
    let pred = |s: Seq<char>| s != key_id;
    assert(after == before.filter(pred));
    if after.contains(key_id) {
        let i = choose|i: int| 0 <= i < after.len() && after[i] == key_id;
        before.lemma_filter_pred(pred, i);
    }
    assert forall|k: Seq<char>| k != key_id implies (after.contains(k) <==> before.contains(k)) by {
        if before.contains(k) {
            let j = choose|j: int| 0 <= j < before.len() && before[j] == k;
            before.lemma_filter_contains(pred, j);
        }
        if after.contains(k) {
            before.lemma_filter_contains_rev(pred, k);
        }
    }
}

/// Every chain signs with the key pair its address is derived from: for the
/// Ed25519 chains (Sui, Aptos, Solana) there is one secret whose signature
/// `sign` returns and whose public key the chain's address encodes — the
/// Aptos address is the SHA3-256 of that public key and the single-signature
/// scheme byte, the Sui address the BLAKE2b-256 of the flag byte and that
/// key, the Solana address its Base58 text.  Ethereum (and every chain that
/// signs like it) signs with the secp256k1 secret whose Keccak-derived
/// address `format_address` shows.
pub proof fn law_signing_key_is_the_address_key(seed: Seq<u8>, message: Seq<u8>, chain: Seq<char>)
    requires
        seed.len() == 64,
    ensures
        chain == "aptos"@ ==> exists|k: Seq<u8>| k.len() == 32
            && seed_signature(seed, chain, message) == Some(#[trigger] ed25519_signature(k, message))
            && seed_address(seed, chain) == Some("0x"@ + hex_lower(sha3_256(ed25519_public_key(k) + seq![0u8]))),
        chain == "sui"@ ==> exists|k: Seq<u8>| k.len() == 32
            && seed_signature(seed, chain, message) == Some(#[trigger] ed25519_signature(k, message))
            && seed_address(seed, chain) == Some("0x"@ + hex_lower(blake2b_256(seq![0u8] + ed25519_public_key(k)))),
        chain == "solana"@ ==> exists|k: Seq<u8>| k.len() == 32
            && seed_signature(seed, chain, message) == Some(#[trigger] ed25519_signature(k, message))
            && seed_address(seed, chain) == Some(base58(ed25519_public_key(k))),
        chain == "ethereum"@ && seed_signature(seed, chain, message) is Some ==> exists|k: Seq<u8>|
            seed_signature(seed, chain, message) == Some(#[trigger] secp256k1_ecdsa_der(k, message))
            && seed_address(seed, chain) == Some("0x"@ + hex_lower(
                keccak256(secp256k1_uncompressed_public_key(k).subrange(1, 65)).subrange(12, 32))),
{
    reveal_strlit("bitcoin");
    reveal_strlit("sui");
    reveal_strlit("aptos");
    reveal_strlit("solana");
    reveal_strlit("ethereum");
    assert("aptos"@.len() != "sui"@.len());
    assert("solana"@.len() != "sui"@.len() && "solana"@.len() != "aptos"@.len());
    assert("ethereum"@.len() != "sui"@.len() && "ethereum"@.len() != "aptos"@.len()
        && "ethereum"@.len() != "solana"@.len() && "ethereum"@.len() != "bitcoin"@.len());
    assert("aptos"@.len() != "bitcoin"@.len() && "sui"@.len() != "bitcoin"@.len() && "solana"@.len() != "bitcoin"@.len());
    if chain == "aptos"@ {
        let k = seed_key(seed, 32);
        assert(seed_signature(seed, chain, message) == Some(ed25519_signature(k, message)));
    } else if chain == "sui"@ {
        let k = seed_key(seed, 0);
        assert(seed_signature(seed, chain, message) == Some(ed25519_signature(k, message)));
    } else if chain == "solana"@ {
        let k = seed_key(seed, 16);
        assert(seed_signature(seed, chain, message) == Some(ed25519_signature(k, message)));
    } else if chain == "ethereum"@ && seed_signature(seed, chain, message) is Some {
        let k = seed_key(seed, 32);
        assert(seed_signature(seed, chain, message) == Some(secp256k1_ecdsa_der(k, message)));
    }
}

} // verus!
