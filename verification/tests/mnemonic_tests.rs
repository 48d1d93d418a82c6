use kaspa_wallet_core::errors::WalletError;
use kaspa_wallet_core::mnemonic::Mnemonic;
use kaspa_wallet_core::seed::derive_seed;

const VECTOR_PHRASE: &str =
    "abandon abandon abandon abandon abandon abandon abandon abandon abandon abandon abandon about";

#[test]
fn generate_parse_round_trip_all_word_counts() {
    for &count in &[12usize, 15, 18, 21, 24] {
        let m = Mnemonic::generate(count);
        let phrase = m.phrase();
        assert_eq!(phrase.split_whitespace().count(), count);
        let parsed = Mnemonic::parse(&phrase).expect("generated phrase must parse");
        assert_eq!(parsed.phrase(), phrase);
    }
}

#[test]
fn parse_rejects_bad_word_count() {
    assert!(matches!(Mnemonic::parse("hello world"), Err(WalletError::InvalidMnemonic)));
    assert!(matches!(Mnemonic::parse(""), Err(WalletError::InvalidMnemonic)));
    let thirteen = vec!["abandon"; 13].join(" ");
    assert!(matches!(Mnemonic::parse(&thirteen), Err(WalletError::InvalidMnemonic)));
}

#[test]
fn parse_rejects_unknown_word() {
    let phrase = vec!["qqqqqq"; 12].join(" ");
    assert!(matches!(Mnemonic::parse(&phrase), Err(WalletError::InvalidMnemonic)));
}

#[test]
fn parse_rejects_bad_checksum() {
    let phrase = vec!["abandon"; 12].join(" ");
    assert!(matches!(Mnemonic::parse(&phrase), Err(WalletError::InvalidMnemonic)));
}

#[test]
fn parse_accepts_known_vector() {
    let m = Mnemonic::parse(VECTOR_PHRASE).expect("standard vector phrase is valid");
    assert_eq!(m.phrase(), VECTOR_PHRASE);
}

#[test]
fn seed_matches_known_vector() {
    let m = Mnemonic::parse(VECTOR_PHRASE).unwrap();
    let seed = derive_seed(&m, "TREZOR");
    assert_eq!(
        hex::encode(seed.to_bytes()),
        "c55257c360c07c72029aebc1b53c05ed0362ada38ead3e3e9efa3708e53495531f09a6987599d18264c1e1c92f2cf141630c7a3c4ab7c81b2f001698e7463b04"
    );
}

#[test]
fn seed_is_deterministic() {
    let m = Mnemonic::parse(VECTOR_PHRASE).unwrap();
    let s1 = derive_seed(&m, "pass").to_bytes();
    let s2 = derive_seed(&m, "pass").to_bytes();
    assert_eq!(s1, s2);
    let s3 = derive_seed(&m, "other").to_bytes();
    assert_ne!(s1, s3);
}
