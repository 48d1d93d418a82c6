use kaspa_wallet_core::errors::WalletError;
use kaspa_wallet_core::path::parse_path;

#[test]
fn root_marker_alone_is_empty_path() {
    let p = parse_path("m").unwrap();
    assert_eq!(p.len(), 0);
}

#[test]
fn five_segments_first_three_hardened() {
    let p = parse_path("m/44'/0'/0'/0/0").unwrap();
    assert_eq!(p.len(), 5);
    let expected = [(44u32, true), (0, true), (0, true), (0, false), (0, false)];
    for (i, &(index, hardened)) in expected.iter().enumerate() {
        let seg = p.segment(i);
        assert_eq!(seg.index, index);
        assert_eq!(seg.hardened, hardened);
    }
}

#[test]
fn missing_root_marker_fails() {
    assert_eq!(parse_path("44'/0").unwrap_err(), WalletError::InvalidDerivationPath);
}

#[test]
fn index_above_31_bits_fails() {
    assert_eq!(parse_path("m/2147483648").unwrap_err(), WalletError::InvalidDerivationPath);
    let p = parse_path("m/2147483647").unwrap();
    assert_eq!(p.segment(0).index, 2147483647);
    assert!(!p.segment(0).hardened);
}

#[test]
fn h_suffix_also_hardens() {
    let p = parse_path("m/0h/1").unwrap();
    assert_eq!(p.len(), 2);
    assert!(p.segment(0).hardened);
    assert!(!p.segment(1).hardened);
    assert_eq!(p.segment(1).index, 1);
}

#[test]
fn leading_zeros_are_read_as_decimal() {
    let p = parse_path("m/0007").unwrap();
    assert_eq!(p.segment(0).index, 7);
}

#[test]
fn malformed_paths_fail() {
    for s in ["", "m/", "m//0", "m/x", "n/0", "m/0''", "m/0 ", " m/0", "m/-1", "m0"] {
        assert_eq!(parse_path(s).unwrap_err(), WalletError::InvalidDerivationPath, "input {:?}", s);
    }
}

#[test]
fn very_long_digit_runs_fail() {
    assert_eq!(
        parse_path("m/99999999999999999999999999").unwrap_err(),
        WalletError::InvalidDerivationPath
    );
}
