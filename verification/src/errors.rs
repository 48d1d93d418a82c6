use vstd::prelude::*;

verus! {

/// The closed set of failures the core can report. Every failure is terminal
/// for the operation that raised it; the core never retries or substitutes a
/// default value.
#[derive(Clone, Copy, Debug, PartialEq, Eq, Structural)]
pub enum WalletError {
    /// A word is unknown, the word count is wrong, or the checksum embedded in
    /// the word list does not match.
    InvalidMnemonic,
    /// A path string is malformed, a segment index is outside the 31-bit
    /// range, or the path is deeper than a key tree can encode.
    InvalidDerivationPath,
    /// A derived scalar fell outside `[1, curve_order - 1]`.
    InvalidSecretKey,
    /// The authentication tag did not verify: a wrong passphrase or a
    /// tampered record.
    DecryptionFailure,
    /// An unrecognized format version or a truncated record.
    InvalidFormat,
    /// An underlying read or write failed.
    IOError,
}

impl WalletError {
    /// A short description, for callers that present errors as text.
    pub fn describe(&self) -> (r: &'static str)
        ensures
            r@.len() > 0,
    {
        let r = match self {
            WalletError::InvalidMnemonic => "invalid mnemonic",
            WalletError::InvalidDerivationPath => "invalid derivation path",
            WalletError::InvalidSecretKey => "invalid secret key",
            WalletError::DecryptionFailure => "decryption failure",
            WalletError::InvalidFormat => "invalid record format",
            WalletError::IOError => "i/o error",
        };
        proof {
            reveal_strlit("invalid mnemonic");
            reveal_strlit("invalid derivation path");
            reveal_strlit("invalid secret key");
            reveal_strlit("decryption failure");
            reveal_strlit("invalid record format");
            reveal_strlit("i/o error");
        }
        r
    }
}

} // verus!
