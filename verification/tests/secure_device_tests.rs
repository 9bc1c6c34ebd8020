use aerobase::device::secure::SecureDeviceManager;
use aerobase::encryption::RsaKeyPair;
use aerobase::error::AeroBaseError;

#[test]
fn test_secure_device_creation() {
    let mut manager = SecureDeviceManager::new().unwrap();

    let device = manager
        .create_secure_device("test-device-1".to_string(), "fingerprint123", Some("hardware info"))
        .unwrap();

    assert_eq!(device.id, "test-device-1");
    assert!(!device.encrypted_aes_key.is_empty());
    assert!(!device.public_key_pem.is_empty());
}

#[test]
fn test_encrypt_decrypt_fingerprint() {
    let mut manager = SecureDeviceManager::new().unwrap();

    let original_fingerprint = "my-secret-fingerprint";
    let device = manager
        .create_secure_device("test-device-2".to_string(), original_fingerprint, None)
        .unwrap();

    let decrypted = manager.decrypt_fingerprint(&device).unwrap();
    assert_eq!(decrypted, original_fingerprint);
}

#[test]
fn test_load_from_db() {
    let mut manager = SecureDeviceManager::new().unwrap();

    let device = manager
        .create_secure_device("test-device-3".to_string(), "fingerprint456", Some("hw info"))
        .unwrap();

    let loaded = manager.load_from_db("test-device-3").unwrap().unwrap();
    assert_eq!(loaded.id, device.id);

    let decrypted_fp = manager.decrypt_fingerprint(&loaded).unwrap();
    assert_eq!(decrypted_fp, "fingerprint456");
}

#[test]
fn test_list_devices() {
    let mut manager = SecureDeviceManager::new().unwrap();

    manager.create_secure_device("device-1".to_string(), "fp1", None).unwrap();
    manager.create_secure_device("device-2".to_string(), "fp2", None).unwrap();

    let devices = manager.list_secure_devices().unwrap();
    assert_eq!(devices.len(), 2);
}

#[test]
fn lifecycle_without_hardware_info() {
    let mut manager = SecureDeviceManager::new().unwrap();
    manager.create_secure_device("d1".to_string(), "fp-123", None).unwrap();

    let loaded = manager.load_from_db("d1").unwrap().unwrap();
    assert_eq!(manager.decrypt_fingerprint(&loaded).unwrap(), "fp-123");
    assert!(loaded.encrypted_hardware_info.is_none());
    assert_eq!(manager.decrypt_hardware_info(&loaded).unwrap(), None);
}

#[test]
fn hardware_info_round_trips() {
    let mut manager = SecureDeviceManager::new().unwrap();
    let device = manager
        .create_secure_device("d2".to_string(), "fp", Some("16 GB, 8 cores"))
        .unwrap();
    assert_eq!(manager.decrypt_hardware_info(&device).unwrap(), Some("16 GB, 8 cores".to_string()));
}

#[test]
fn missing_device_is_absence_not_error() {
    let mut manager = SecureDeviceManager::new().unwrap();
    assert!(manager.load_from_db("missing").unwrap().is_none());
    // Deleting an absent id succeeds without error.
    manager.delete_device("missing").unwrap();
}

#[test]
fn touch_of_missing_device_is_not_found() {
    let mut manager = SecureDeviceManager::new().unwrap();
    match manager.update_last_seen("missing") {
        Err(AeroBaseError::NotFound(_)) => {}
        other => panic!("expected NotFound, got {:?}", other),
    }
}

#[test]
fn listing_is_most_recently_touched_first() {
    let mut manager = SecureDeviceManager::new().unwrap();
    manager.create_secure_device("a".to_string(), "fp-a", None).unwrap();
    manager.create_secure_device("b".to_string(), "fp-b", None).unwrap();
    manager.update_last_seen("a").unwrap();

    let listed = manager.list_secure_devices().unwrap();
    let ids: Vec<&str> = listed.iter().map(|d| d.id.as_str()).collect();
    assert_eq!(ids, vec!["a", "b"]);
}

#[test]
fn create_replaces_row_with_same_id() {
    let mut manager = SecureDeviceManager::new().unwrap();
    manager.create_secure_device("dup".to_string(), "first", None).unwrap();
    manager.create_secure_device("dup".to_string(), "second", None).unwrap();

    let listed = manager.list_secure_devices().unwrap();
    assert_eq!(listed.len(), 1);
    let loaded = manager.load_from_db("dup").unwrap().unwrap();
    assert_eq!(manager.decrypt_fingerprint(&loaded).unwrap(), "second");
}

#[test]
fn delete_removes_the_row() {
    let mut manager = SecureDeviceManager::new().unwrap();
    manager.create_secure_device("gone".to_string(), "fp", None).unwrap();
    manager.delete_device("gone").unwrap();
    assert!(manager.load_from_db("gone").unwrap().is_none());
    assert_eq!(manager.list_secure_devices().unwrap().len(), 0);
}

#[test]
fn foreign_store_cannot_decrypt() {
    let mut owner = SecureDeviceManager::new().unwrap();
    let stranger = SecureDeviceManager::new().unwrap();
    let device = owner.create_secure_device("d".to_string(), "secret", None).unwrap();
    match stranger.decrypt_fingerprint(&device) {
        Err(AeroBaseError::UnwrapFailure(_)) => {}
        other => panic!("expected UnwrapFailure, got {:?}", other),
    }
}

#[test]
fn store_with_imported_keypair_recovers_records() {
    let mut first = SecureDeviceManager::new().unwrap();
    let pem = first.export_private_key().unwrap();
    let device = first.create_secure_device("kept".to_string(), "fp-kept", None).unwrap();

    let key_pair = RsaKeyPair::from_pem(&pem).unwrap();
    let second = SecureDeviceManager::with_keypair(key_pair).unwrap();
    assert_eq!(second.decrypt_fingerprint(&device).unwrap(), "fp-kept");
    assert_eq!(second.export_public_key().unwrap(), first.export_public_key().unwrap());
}

#[test]
fn record_carries_the_store_public_key() {
    let mut manager = SecureDeviceManager::new().unwrap();
    let device = manager.create_secure_device("pk".to_string(), "fp", None).unwrap();
    assert_eq!(device.public_key_pem, manager.export_public_key().unwrap());
    assert_eq!(device.created_at, device.last_seen);
}
