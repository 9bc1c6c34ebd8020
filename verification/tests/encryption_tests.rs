use aerobase::encryption::{
    generate_salt, hash_sha256, AesEncryptor, EncryptedData, HybridEncryptor, RsaEncryptor,
    RsaKeyPair,
};
use aerobase::error::AeroBaseError;
use base64::Engine as _;

#[test]
fn test_aes_encryption() {
    let encryptor = AesEncryptor::new().unwrap();
    let plaintext = "Hello, World!";

    let encrypted = encryptor.encrypt_string(plaintext).unwrap();
    let decrypted = encryptor.decrypt_string(&encrypted).unwrap();

    assert_eq!(plaintext, decrypted);
}

#[test]
fn test_rsa_encryption() {
    let encryptor = RsaEncryptor::new().unwrap();
    let plaintext = "Secret message";

    let encrypted = encryptor.encrypt_string(plaintext).unwrap();
    let decrypted = encryptor.decrypt_string(&encrypted).unwrap();

    assert_eq!(plaintext, decrypted);
}

#[test]
fn test_hybrid_encryption() {
    let encryptor = HybridEncryptor::new().unwrap();
    let plaintext = "This is a long message that needs hybrid encryption!";

    let (encrypted_data, encrypted_key) = encryptor.encrypt_string(plaintext).unwrap();
    let decrypted = encryptor.decrypt_string(&encrypted_data, &encrypted_key).unwrap();

    assert_eq!(plaintext, decrypted);
}

#[test]
fn test_password_based_encryption() {
    let password = "my_secure_password";
    let salt = generate_salt();

    let encryptor = AesEncryptor::from_password(password, &salt).unwrap();
    let plaintext = "Sensitive data";

    let encrypted = encryptor.encrypt_string(plaintext).unwrap();

    let decryptor = AesEncryptor::from_password(password, &salt).unwrap();
    let decrypted = decryptor.decrypt_string(&encrypted).unwrap();

    assert_eq!(plaintext, decrypted);
}

#[test]
fn test_key_pem_export_import() {
    let original = RsaEncryptor::new().unwrap();
    let pem = original.private_key_pem().unwrap();

    let key_pair = RsaKeyPair::from_pem(&pem).unwrap();
    let imported = RsaEncryptor::from_keypair(key_pair);

    let plaintext = "Test message";
    let encrypted = original.encrypt_string(plaintext).unwrap();
    let decrypted = imported.decrypt_string(&encrypted).unwrap();

    assert_eq!(plaintext, decrypted);
}

#[test]
fn test_hash_sha256() {
    let data = b"test data";
    let hash = hash_sha256(data);
    assert_eq!(hash.len(), 64); // SHA-256 produces 64 hex characters
}

#[test]
fn hash_sha256_known_answer() {
    let hash = hash_sha256(b"test data");
    assert_eq!(hash, "916f0027a575074ce72a331777c3478d6513f786a591bd892da1a577bf2335f9");
}

#[test]
fn password_key_is_deterministic() {
    let a = AesEncryptor::from_password("password", b"salt").unwrap();
    let b = AesEncryptor::from_password("password", b"salt").unwrap();
    assert_eq!(a.get_key(), b.get_key());

    // Known PBKDF2-HMAC-SHA256 output for 100,000 rounds, 32 bytes.
    let expected = "0394a2ede332c9a13eb82e9b24631604c31df978b4e2f0fbd2c549944f9d79a5";
    let hex: String = a.get_key().iter().map(|x| format!("{:02x}", x)).collect();
    assert_eq!(hex, expected);
}

#[test]
fn different_salts_give_different_keys() {
    let s1 = generate_salt();
    let s2 = generate_salt();
    assert_eq!(s1.len(), 16);
    assert_eq!(s2.len(), 16);
    assert_ne!(s1, s2);

    let a = AesEncryptor::from_password("pw", &s1).unwrap();
    let b = AesEncryptor::from_password("pw", &s2).unwrap();
    assert_ne!(a.get_key(), b.get_key());
}

#[test]
fn from_key_rejects_wrong_length() {
    let short = vec![0u8; 16];
    match AesEncryptor::from_key(short) {
        Err(AeroBaseError::InvalidKeyLength(_)) => {}
        other => panic!("expected InvalidKeyLength, got {:?}", other.map(|_| ())),
    }
    assert!(AesEncryptor::from_key(vec![7u8; 32]).is_ok());
}

#[test]
fn from_key_round_trips_key_bytes() {
    let key = vec![42u8; 32];
    let enc = AesEncryptor::from_key(key.clone()).unwrap();
    assert_eq!(enc.get_key(), key);

    let blob = enc.encrypt(b"raw bytes").unwrap();
    let other = AesEncryptor::from_key(key).unwrap();
    assert_eq!(other.decrypt(&blob).unwrap(), b"raw bytes");
}

#[test]
fn nonce_is_twelve_bytes_and_fresh() {
    let enc = AesEncryptor::new().unwrap();
    let b1 = enc.encrypt_string("x").unwrap();
    let b2 = enc.encrypt_string("x").unwrap();
    let n1 = base64::engine::general_purpose::STANDARD.decode(&b1.nonce).unwrap();
    let n2 = base64::engine::general_purpose::STANDARD.decode(&b2.nonce).unwrap();
    assert_eq!(n1.len(), 12);
    assert_eq!(n2.len(), 12);
    assert_ne!(n1, n2);
    assert_eq!(b1.algorithm, "AES-256-GCM");
}

#[test]
fn tampered_ciphertext_fails_authentication() {
    let enc = AesEncryptor::new().unwrap();
    let blob = enc.encrypt_string("protect me").unwrap();

    let mut ct = base64::engine::general_purpose::STANDARD.decode(&blob.ciphertext).unwrap();
    ct[0] ^= 1;
    let tampered = EncryptedData {
        ciphertext: base64::engine::general_purpose::STANDARD.encode(&ct),
        nonce: blob.nonce.clone(),
        algorithm: blob.algorithm.clone(),
    };
    match enc.decrypt_string(&tampered) {
        Err(AeroBaseError::AuthenticationFailure(_)) => {}
        other => panic!("expected AuthenticationFailure, got {:?}", other),
    }
}

#[test]
fn tampered_nonce_fails_authentication() {
    let enc = AesEncryptor::new().unwrap();
    let blob = enc.encrypt_string("protect me").unwrap();

    let mut nonce = base64::engine::general_purpose::STANDARD.decode(&blob.nonce).unwrap();
    nonce[11] ^= 0x80;
    let tampered = EncryptedData {
        ciphertext: blob.ciphertext.clone(),
        nonce: base64::engine::general_purpose::STANDARD.encode(&nonce),
        algorithm: blob.algorithm.clone(),
    };
    match enc.decrypt_string(&tampered) {
        Err(AeroBaseError::AuthenticationFailure(_)) => {}
        other => panic!("expected AuthenticationFailure, got {:?}", other),
    }
}

#[test]
fn foreign_algorithm_tag_is_rejected() {
    let enc = AesEncryptor::new().unwrap();
    let blob = enc.encrypt_string("data").unwrap();
    let foreign = EncryptedData {
        ciphertext: blob.ciphertext.clone(),
        nonce: blob.nonce.clone(),
        algorithm: "AES-128-GCM".to_string(),
    };
    match enc.decrypt_string(&foreign) {
        Err(AeroBaseError::UnsupportedAlgorithm(_)) => {}
        other => panic!("expected UnsupportedAlgorithm, got {:?}", other),
    }
}

#[test]
fn invalid_base64_is_a_decode_failure() {
    let enc = AesEncryptor::new().unwrap();
    let blob = enc.encrypt_string("data").unwrap();
    let broken = EncryptedData {
        ciphertext: blob.ciphertext.clone(),
        nonce: "!!! not base64 !!!".to_string(),
        algorithm: blob.algorithm.clone(),
    };
    match enc.decrypt_string(&broken) {
        Err(AeroBaseError::DecodeFailure(_)) => {}
        other => panic!("expected DecodeFailure, got {:?}", other),
    }
}

#[test]
fn non_utf8_plaintext_is_a_utf8_failure() {
    let enc = AesEncryptor::new().unwrap();
    let blob = enc.encrypt(&[0xff, 0xfe, 0xfd]).unwrap();
    match enc.decrypt_string(&blob) {
        Err(AeroBaseError::Utf8Failure(_)) => {}
        other => panic!("expected Utf8Failure, got {:?}", other),
    }
    // The raw decryption still round-trips.
    assert_eq!(enc.decrypt(&blob).unwrap(), vec![0xff, 0xfe, 0xfd]);
}

#[test]
fn unicode_text_round_trips() {
    let enc = AesEncryptor::new().unwrap();
    let text = "héllo wörld — 机密数据 ✈";
    let blob = enc.encrypt_string(text).unwrap();
    assert_eq!(enc.decrypt_string(&blob).unwrap(), text);
}

#[test]
fn wrong_rsa_key_cannot_unwrap() {
    let e1 = RsaEncryptor::new().unwrap();
    let e2 = RsaEncryptor::new().unwrap();
    let wrapped = e1.encrypt_aes_key(&[9u8; 32]).unwrap();
    match e2.decrypt_aes_key(&wrapped) {
        Err(AeroBaseError::UnwrapFailure(_)) => {}
        other => panic!("expected UnwrapFailure, got {:?}", other.map(|_| ())),
    }
    assert_eq!(e1.decrypt_aes_key(&wrapped).unwrap(), vec![9u8; 32]);
}

#[test]
fn malformed_pem_is_rejected() {
    match RsaKeyPair::from_pem("not a pem at all") {
        Err(AeroBaseError::PemParseFailure(_)) => {}
        other => panic!("expected PemParseFailure, got {:?}", other.map(|_| ())),
    }
}

#[test]
fn exported_pem_is_stable_under_reimport() {
    let kp = RsaKeyPair::generate().unwrap();
    let pem = kp.to_pem().unwrap();
    let reimported = RsaKeyPair::from_pem(&pem).unwrap();
    assert_eq!(reimported.to_pem().unwrap(), pem);
    assert_eq!(reimported.public_key_to_pem().unwrap(), kp.public_key_to_pem().unwrap());
}

#[test]
fn hybrid_wrapped_key_is_reused_across_calls() {
    let encryptor = HybridEncryptor::new().unwrap();
    let (blob1, wk1) = encryptor.encrypt_string("one").unwrap();
    let (blob2, wk2) = encryptor.encrypt_string("two").unwrap();
    // One symmetric key per instance: each wrapped key unwraps the other's blob.
    assert_eq!(encryptor.decrypt_string(&blob1, &wk2).unwrap(), "one");
    assert_eq!(encryptor.decrypt_string(&blob2, &wk1).unwrap(), "two");
}
