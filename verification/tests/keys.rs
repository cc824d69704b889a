use ed25519_dalek::{Signer, SigningKey, Verifier};
use hemion::chain::ChainId;
use hemion::chains::{format_address, try_format_address, BitcoinNetwork};
use hemion::key_manager::{KeyError, KeyManager, KeystoreFailure};
use sha3::Digest;

fn seed() -> [u8; 64] {
    let mut s = [0u8; 64];
    for (i, b) in s.iter_mut().enumerate() {
        *b = (i as u8) + 1;
    }
    s
}

#[test]
fn ethereum_address_is_the_keccak_of_the_public_key() {
    let manager = KeyManager::new(seed());
    let secp = secp256k1::Secp256k1::new();
    let sk = secp256k1::SecretKey::from_slice(&seed()[32..]).unwrap();
    let pk = sk.public_key(&secp).serialize_uncompressed();
    let hash = sha3::Keccak256::digest(&pk[1..]);
    let expected = format!("0x{}", hex::encode(&hash[12..]));
    assert_eq!(manager.format_address(&ChainId::new("ethereum")).unwrap(), expected);
    assert_eq!(manager.format_address(&ChainId::new("unknown-chain")).unwrap(), expected);
}

#[test]
fn bitcoin_address_text_is_the_xonly_key() {
    let manager = KeyManager::new(seed());
    let secp = secp256k1::Secp256k1::new();
    let sk = secp256k1::SecretKey::from_slice(&seed()[..32]).unwrap();
    let (xonly, _) = secp256k1::XOnlyPublicKey::from_keypair(&secp256k1::Keypair::from_secret_key(&secp, &sk));
    assert_eq!(manager.format_address(&ChainId::new("bitcoin")).unwrap(), hex::encode(xonly.serialize()));
    let (_, pk) = manager.derive_bitcoin_keys().unwrap();
    assert_eq!(pk, xonly.serialize());
}

#[test]
fn ed25519_chains_hash_their_verifying_keys() {
    let manager = KeyManager::new(seed());
    let sui_key = SigningKey::from_bytes(&seed()[..32].try_into().unwrap()).verifying_key();
    let mut blake = blake2::Blake2b::<blake2::digest::consts::U32>::new();
    blake.update([0x00]);
    blake.update(sui_key.as_bytes());
    let sui: [u8; 32] = blake.finalize().into();
    assert_eq!(manager.format_address(&ChainId::new("sui")).unwrap(), format!("0x{}", hex::encode(sui)));

    let aptos_key = SigningKey::from_bytes(&seed()[32..].try_into().unwrap()).verifying_key();
    let mut sha = sha3::Sha3_256::new();
    sha.update(aptos_key.as_bytes());
    sha.update([0x00]);
    let aptos: [u8; 32] = sha.finalize().into();
    assert_eq!(manager.format_address(&ChainId::new("aptos")).unwrap(), format!("0x{}", hex::encode(aptos)));

    let solana_key = SigningKey::from_bytes(&seed()[16..48].try_into().unwrap()).verifying_key();
    assert_eq!(
        manager.format_address(&ChainId::new("solana")).unwrap(),
        bs58::encode(solana_key.as_bytes()).into_string()
    );
}

#[test]
fn signatures_verify_under_the_derived_keys() {
    let manager = KeyManager::new(seed());
    let message = [7u8; 32];
    let sig = manager.sign(&ChainId::new("sui"), &message).unwrap();
    let key = SigningKey::from_bytes(&seed()[..32].try_into().unwrap());
    let signature = ed25519_dalek::Signature::from_slice(&sig).unwrap();
    assert!(key.verifying_key().verify(&message, &signature).is_ok());
    assert_eq!(sig, key.sign(&message).to_bytes().to_vec());

    let der = manager.sign(&ChainId::new("ethereum"), &message).unwrap();
    let secp = secp256k1::Secp256k1::new();
    let sk = secp256k1::SecretKey::from_slice(&seed()[32..]).unwrap();
    let parsed = secp256k1::ecdsa::Signature::from_der(&der).unwrap();
    let msg = secp256k1::Message::from_digest_slice(&message).unwrap();
    assert!(secp.verify_ecdsa(&msg, &parsed, &sk.public_key(&secp)).is_ok());
}

#[test]
fn an_invalid_secret_key_is_reported() {
    let manager = KeyManager::new([0u8; 64]);
    match manager.format_address(&ChainId::new("ethereum")) {
        Err(KeyError::DerivationError(m)) => assert!(m.starts_with("Invalid secret key: ")),
        other => panic!("unexpected {other:?}"),
    }
}

#[test]
fn the_keystore_lists_what_was_stored_and_not_what_was_deleted() {
    let mut manager = KeyManager::new_with_keystore(seed(), Ok(vec!["a".to_string()])).unwrap();
    assert!(manager.has_keystore());
    assert_eq!(manager.store_key_in_keystore("b", Ok(())), Ok(()));
    assert_eq!(manager.store_key_in_keystore("b", Ok(())), Ok(()));
    assert_eq!(manager.list_keystore_keys().unwrap(), vec!["a".to_string(), "b".to_string()]);
    assert_eq!(manager.delete_key_from_keystore("a", Ok(())), Ok(()));
    assert_eq!(manager.list_keystore_keys().unwrap(), vec!["b".to_string()]);
    assert_eq!(
        manager.store_key_in_keystore("c", Err(KeystoreFailure::Filesystem("disk full".to_string()))),
        Err(KeyError::DerivationError("Filesystem error: disk full".to_string()))
    );
    assert_eq!(
        manager.retrieve_key_from_keystore(Err(KeystoreFailure::PassphraseMismatch("x".to_string()))),
        Err(KeyError::PassphraseMismatch)
    );
}

#[test]
fn without_a_keystore_nothing_is_stored() {
    let mut manager = KeyManager::new(seed());
    assert!(!manager.has_keystore());
    assert_eq!(
        manager.list_keystore_keys(),
        Err(KeyError::DerivationError("Native keystore not available".to_string()))
    );
    assert!(manager.store_key_in_keystore("a", Ok(())).is_err());
    assert_eq!(
        KeyManager::new_with_keystore(seed(), Err("locked".to_string())).err(),
        Some(KeyError::DerivationError("Failed to initialize keystore: locked".to_string()))
    );
}

#[test]
fn taproot_addresses_match_the_bitcoin_crate() {
    let secp = secp256k1::Secp256k1::new();
    let sk = secp256k1::SecretKey::from_slice(&[3u8; 32]).unwrap();
    let (xonly, _) = secp256k1::XOnlyPublicKey::from_keypair(&secp256k1::Keypair::from_secret_key(&secp, &sk));
    let key = xonly.serialize();
    let expected = bitcoin::Address::p2tr(
        &bitcoin::secp256k1::Secp256k1::verification_only(),
        bitcoin::XOnlyPublicKey::from_slice(&key).unwrap(),
        None,
        bitcoin::Network::Bitcoin,
    )
    .to_string();
    let untweaked = bitcoin::Address::p2tr_tweaked(
        bitcoin::key::TweakedPublicKey::dangerous_assume_tweaked(bitcoin::XOnlyPublicKey::from_slice(&key).unwrap()),
        bitcoin::Network::Bitcoin,
    )
    .to_string();
    assert_ne!(format_address(&key, BitcoinNetwork::Bitcoin), untweaked);
    assert_eq!(format_address(&key, BitcoinNetwork::Bitcoin), expected);
    assert!(format_address(&key, BitcoinNetwork::Bitcoin).starts_with("bc1p"));
    assert!(format_address(&key, BitcoinNetwork::Testnet).starts_with("tb1p"));
    assert_eq!(try_format_address(&key[..31], BitcoinNetwork::Bitcoin), None);
    assert_eq!(try_format_address(&[0xff; 32], BitcoinNetwork::Bitcoin), None);
    assert_eq!(hemion::chains::chain().as_str(), "bitcoin");
}

#[test]
fn taproot_address_follows_the_bip86_key_path_vector() {
    let internal = hex::decode("cc8a4bc64d897bddc5fbc2f670f7a8ba0b386779106cf1223c6fc5d7cd6fc115").unwrap();
    assert_eq!(
        format_address(&internal, BitcoinNetwork::Bitcoin),
        "bc1p5cyxnuxmeuwuvkwfem96lqzszd02n6xdcjrs20cac6yqjjwudpxqkedrcr"
    );
}
