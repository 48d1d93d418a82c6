use kaspa_wallet_core::errors::WalletError;
use kaspa_wallet_core::hdkey::{derive_path, master_key};
use kaspa_wallet_core::keys::SecretKey;
use kaspa_wallet_core::mnemonic::Mnemonic;
use kaspa_wallet_core::path::parse_path;
use kaspa_wallet_core::seed::derive_seed;
use kaspa_wallet_core::wallet::Wallet;

const VECTOR_PHRASE: &str =
    "abandon abandon abandon abandon abandon abandon abandon abandon abandon abandon abandon about";

fn key_of(b: &[u8]) -> SecretKey {
    SecretKey::from_bytes(b.to_vec()).unwrap()
}

#[test]
fn derivation_is_deterministic() {
    let w = Wallet::from_mnemonic(VECTOR_PHRASE).unwrap();
    let a = w.derive_private_key("m/44'/0'/0'/0/0").unwrap().to_bytes();
    let b = w.derive_private_key("m/44'/0'/0'/0/0").unwrap().to_bytes();
    assert_eq!(a, b);
}

#[test]
fn hardened_and_normal_children_differ() {
    let w = Wallet::from_mnemonic(VECTOR_PHRASE).unwrap();
    let hardened = w.derive_private_key("m/0'").unwrap().to_bytes();
    let normal = w.derive_private_key("m/0").unwrap().to_bytes();
    assert_ne!(hardened, normal);
}

#[test]
fn empty_path_returns_master_secret() {
    let w = Wallet::from_mnemonic(VECTOR_PHRASE).unwrap();
    let root = w.derive_private_key("m").unwrap().to_bytes();
    let m = Mnemonic::parse(VECTOR_PHRASE).unwrap();
    let seed = derive_seed(&m, "");
    let master = master_key(&seed).unwrap();
    assert_eq!(root, master.secret_key().to_bytes());
    assert_eq!(master.depth(), 0);
}

#[test]
fn derive_path_folds_child_steps() {
    let m = Mnemonic::parse(VECTOR_PHRASE).unwrap();
    let seed = derive_seed(&m, "");
    let master = master_key(&seed).unwrap();
    let path = parse_path("m/1'/2").unwrap();
    let child = derive_path(&master, &path).unwrap();
    assert_eq!(child.depth(), 2);
    let w = Wallet::from_mnemonic(VECTOR_PHRASE).unwrap();
    assert_eq!(child.secret_key().to_bytes(), w.derive_private_key("m/1'/2").unwrap().to_bytes());
}

#[test]
fn malformed_path_is_rejected_by_wallet() {
    let w = Wallet::from_mnemonic(VECTOR_PHRASE).unwrap();
    assert!(matches!(
        w.derive_private_key("44"),
        Err(WalletError::InvalidDerivationPath)
    ));
    assert!(matches!(
        w.derive_private_key("m/2147483648"),
        Err(WalletError::InvalidDerivationPath)
    ));
}

#[test]
fn public_key_matches_generator_vector() {
    let mut one = vec![0u8; 32];
    one[31] = 1;
    let sk = key_of(&one);
    let pk = sk.public_key();
    assert_eq!(
        pk.to_hex(),
        "0279be667ef9dcbbac55a06295ce870b07029bfcdb2dce28d959f2815b16f81798"
    );
    let w = Wallet::from_mnemonic(VECTOR_PHRASE).unwrap();
    assert_eq!(w.public_key_hex(&sk), pk.to_hex());
}

#[test]
fn distinct_secrets_give_distinct_public_keys() {
    let mut one = vec![0u8; 32];
    one[31] = 1;
    let mut two = vec![0u8; 32];
    two[31] = 2;
    let pk1 = key_of(&one).public_key().to_hex();
    let pk2 = key_of(&two).public_key().to_hex();
    assert_ne!(pk1, pk2);
    assert_eq!(pk1, key_of(&one).public_key().to_hex());
}

#[test]
fn secret_key_range_is_enforced() {
    assert!(matches!(
        SecretKey::from_bytes(vec![0u8; 32]),
        Err(WalletError::InvalidSecretKey)
    ));
    assert!(matches!(
        SecretKey::from_bytes(vec![1u8; 31]),
        Err(WalletError::InvalidSecretKey)
    ));
    let order = hex::decode("fffffffffffffffffffffffffffffffebaaedce6af48a03bbfd25e8cd0364141")
        .unwrap();
    assert!(matches!(SecretKey::from_bytes(order), Err(WalletError::InvalidSecretKey)));
    let order_minus_one =
        hex::decode("fffffffffffffffffffffffffffffffebaaedce6af48a03bbfd25e8cd0364140").unwrap();
    assert!(SecretKey::from_bytes(order_minus_one).is_ok());
}

#[test]
fn secret_key_hex_is_lowercase_big_endian() {
    let bytes = hex::decode("0123456789abcdef0123456789abcdef0123456789abcdef0123456789abcdef")
        .unwrap();
    let sk = key_of(&bytes);
    assert_eq!(sk.to_hex(), "0123456789abcdef0123456789abcdef0123456789abcdef0123456789abcdef");
    assert_eq!(sk.to_bytes(), bytes);
}
