use kaspa_wallet_core::errors::WalletError;
use kaspa_wallet_core::path::parse_path;
use kaspa_wallet_core::rpc_types::BalanceResponse;
use kaspa_wallet_core::vault::EncryptedSeed;
use kaspa_wallet_core::wallet::{Wallet, WalletConfig};

#[test]
fn end_to_end_generate_encrypt_store_recover() {
    let w = Wallet::new_random();
    let phrase = w.mnemonic_phrase();
    assert_eq!(phrase.split_whitespace().count(), 12);

    let rec = EncryptedSeed::encrypt(&phrase, "p@ss");
    let stored = rec.to_bytes();
    let loaded = EncryptedSeed::from_bytes(&stored).unwrap();
    let recovered = loaded.decrypt("p@ss").unwrap();
    assert_eq!(recovered, phrase);
    assert_eq!(loaded.decrypt("wrong").unwrap_err(), WalletError::DecryptionFailure);

    let restored = Wallet::from_mnemonic(&recovered).unwrap();
    let sk = restored.derive_private_key("m/44'/0'/0'/0/0").unwrap();
    let pk_hex = restored.public_key_hex(&sk);
    assert_eq!(pk_hex.len(), 66);
    assert!(pk_hex.chars().all(|c| c.is_ascii_hexdigit() && !c.is_ascii_uppercase()));
    assert_eq!(
        sk.to_bytes(),
        w.derive_private_key("m/44'/0'/0'/0/0").unwrap().to_bytes()
    );
}

#[test]
fn from_mnemonic_round_trips_generated_phrase() {
    let w = Wallet::new_random();
    let phrase = w.mnemonic_phrase();
    let restored = Wallet::from_mnemonic(&phrase).unwrap();
    assert_eq!(restored.mnemonic_phrase(), phrase);
}

#[test]
fn from_mnemonic_rejects_garbage() {
    assert!(matches!(Wallet::from_mnemonic("not a phrase"), Err(WalletError::InvalidMnemonic)));
}

#[test]
fn config_path_is_usable() {
    let config = WalletConfig { derivation_path: String::from("m/44'/0'/0'/0/0") };
    let p = parse_path(&config.derivation_path).unwrap();
    assert_eq!(p.len(), 5);
}

#[test]
fn balance_response_holds_amounts() {
    let b = BalanceResponse { confirmed: 7, unconfirmed: 2 };
    assert_eq!(b, BalanceResponse { confirmed: 7, unconfirmed: 2 });
    assert_ne!(b, BalanceResponse { confirmed: 7, unconfirmed: 3 });
}

#[test]
fn error_descriptions_are_stable() {
    assert_eq!(WalletError::InvalidMnemonic.describe(), "invalid mnemonic");
    assert_eq!(WalletError::DecryptionFailure.describe(), "decryption failure");
    assert_eq!(WalletError::IOError.describe(), "i/o error");
}
