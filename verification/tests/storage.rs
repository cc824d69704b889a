use hemion::storage::{default_storage, EncryptedWallet, StorageError, WalletStorage};

#[test]
fn a_saved_wallet_loads_back() {
    let mut storage = WalletStorage::new();
    assert_eq!(storage.save_wallet("w1", Ok(EncryptedWallet { data: vec![1, 2, 3] })), Ok(()));
    assert_eq!(storage.load_wallet("w1"), Ok(EncryptedWallet { data: vec![1, 2, 3] }));
    assert_eq!(storage.save_wallet("w1", Ok(EncryptedWallet { data: vec![9] })), Ok(()));
    assert_eq!(storage.load_wallet("w1"), Ok(EncryptedWallet { data: vec![9] }));
    assert_eq!(storage.list_wallets().unwrap(), vec!["w1".to_string()]);
}

#[test]
fn deleted_and_unknown_wallets_are_not_found() {
    let mut storage = default_storage();
    storage.save_wallet("w1", Ok(EncryptedWallet { data: vec![1] })).unwrap();
    storage.save_wallet("w2", Ok(EncryptedWallet { data: vec![2] })).unwrap();
    assert_eq!(storage.delete_wallet("w1"), Ok(()));
    assert_eq!(storage.load_wallet("w1"), Err(StorageError::NotFound("w1".to_string())));
    assert_eq!(storage.load_wallet("w2"), Ok(EncryptedWallet { data: vec![2] }));
    assert_eq!(storage.delete_wallet("never"), Ok(()));
}

#[test]
fn an_encryption_failure_saves_nothing() {
    let mut storage = WalletStorage::new();
    assert_eq!(
        storage.save_wallet("w1", Err("weak password".to_string())),
        Err(StorageError::EncryptionError("weak password".to_string()))
    );
    assert!(storage.list_wallets().unwrap().is_empty());
}
