use kaspa_wallet_core::errors::WalletError;
use kaspa_wallet_core::vault::EncryptedSeed;

#[test]
fn encrypt_decrypt_round_trip() {
    for phrase in ["", "abandon ability able", "sp\u{e9}cial unicode phr\u{e4}se"] {
        for pass in ["", "p@ss", "a longer storage passphrase"] {
            let rec = EncryptedSeed::encrypt(phrase, pass);
            assert_eq!(rec.decrypt(pass).unwrap(), phrase);
        }
    }
}

#[test]
fn wrong_passphrase_fails() {
    let rec = EncryptedSeed::encrypt("abandon ability able", "correct");
    assert_eq!(rec.decrypt("wrong").unwrap_err(), WalletError::DecryptionFailure);
    assert_eq!(rec.decrypt("").unwrap_err(), WalletError::DecryptionFailure);
}

#[test]
fn serialized_round_trip() {
    let rec = EncryptedSeed::encrypt("abandon ability able", "p@ss");
    let bytes = rec.to_bytes();
    assert_eq!(bytes[0], 1);
    assert_eq!(bytes.len(), 45 + "abandon ability able".len());
    let back = EncryptedSeed::from_bytes(&bytes).unwrap();
    assert_eq!(back.to_bytes(), bytes);
    assert_eq!(back.decrypt("p@ss").unwrap(), "abandon ability able");
}

#[test]
fn tampering_with_ciphertext_or_tag_is_detected() {
    let rec = EncryptedSeed::encrypt("abandon ability able", "p@ss");
    let bytes = rec.to_bytes();
    for i in 29..bytes.len() {
        let mut tampered = bytes.clone();
        tampered[i] ^= 0x01;
        let back = EncryptedSeed::from_bytes(&tampered).unwrap();
        assert_eq!(
            back.decrypt("p@ss").unwrap_err(),
            WalletError::DecryptionFailure,
            "flipped byte {}",
            i
        );
    }
}

#[test]
fn unknown_version_is_rejected() {
    let rec = EncryptedSeed::encrypt("abandon ability able", "p@ss");
    let mut bytes = rec.to_bytes();
    bytes[0] = 2;
    assert_eq!(EncryptedSeed::from_bytes(&bytes).unwrap_err(), WalletError::InvalidFormat);
}

#[test]
fn truncated_records_are_rejected() {
    assert_eq!(
        EncryptedSeed::from_bytes(&Vec::new()).unwrap_err(),
        WalletError::InvalidFormat
    );
    assert_eq!(
        EncryptedSeed::from_bytes(&vec![1u8; 44]).unwrap_err(),
        WalletError::InvalidFormat
    );
    let rec = EncryptedSeed::encrypt("abandon ability able", "p@ss");
    let mut bytes = rec.to_bytes();
    bytes.truncate(30);
    assert_eq!(EncryptedSeed::from_bytes(&bytes).unwrap_err(), WalletError::InvalidFormat);
}

#[test]
fn minimal_record_parses() {
    let bytes = vec![1u8; 45];
    let rec = EncryptedSeed::from_bytes(&bytes).unwrap();
    assert_eq!(rec.to_bytes(), bytes);
    assert_eq!(rec.decrypt("p@ss").unwrap_err(), WalletError::DecryptionFailure);
}

#[test]
fn fresh_salt_and_nonce_per_record() {
    let a = EncryptedSeed::encrypt("abandon ability able", "p@ss").to_bytes();
    let b = EncryptedSeed::encrypt("abandon ability able", "p@ss").to_bytes();
    assert_ne!(a[1..29], b[1..29]);
}
