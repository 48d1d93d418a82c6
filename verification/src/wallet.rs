use vstd::prelude::*;

verus! {

use vstd::string::*;
use vstd::utf8::is_ascii_chars;
use crate::errors::WalletError;
use crate::keys::{SecretKey, hex_chars, pubkey_of};
use crate::mnemonic::{Mnemonic, phrase_ok, bip39_parse, word_count, valid_word_count};
use crate::seed::{seed_of, derive_seed};
use crate::hdkey::{hd_master, fold_path, master_key, derive_path};
use crate::path::{parse_path, parse_path_spec};

/// Runtime configuration for callers of the facade: the derivation path to
/// use by default.
pub struct WalletConfig {
    pub derivation_path: String,
}

/// The wallet facade: a validated mnemonic, turned into keys on demand.
/// Wallet core: mnemonic, then seed, then extended keys, then the child
/// secret key at a requested path.
pub struct Wallet {
    mnemonic: Mnemonic,
}

impl View for Wallet {
    type V = Seq<char>;

    closed spec fn view(&self) -> Seq<char> {
        self.mnemonic@
    }
}

/// What deriving at a path string yields for a given phrase: the secret
/// scalar of the child at the parsed path under the master key of the
/// phrase's seed (stretched with an empty secondary passphrase), or the
/// error naming the first step that fails.
pub open spec fn spec_derive(phrase: Seq<char>, path: Seq<u8>) -> Result<Seq<u8>, WalletError> {
    match parse_path_spec(path) {
        None => Err(WalletError::InvalidDerivationPath),
        Some(segs) => match hd_master(seed_of(phrase, Seq::<char>::empty())) {
            None => Err(WalletError::InvalidSecretKey),
            Some(mk) => if segs.len() > 255 {
                Err(WalletError::InvalidDerivationPath)
            } else {
                match fold_path(mk.0, mk.1, segs) {
                    None => Err(WalletError::InvalidSecretKey),
                    Some(pair) => Ok(pair.0),
                }
            },
        },
    }
}

impl Wallet {
    /// Create a wallet with a fresh random 12-word mnemonic.
    pub fn new_random() -> (r: Wallet)
        ensures
            phrase_ok(r@),
            word_count(r@) == 12,
    {
        Wallet { mnemonic: Mnemonic::generate(12) }
    }

    /// The wallet's canonical phrase.
    pub fn mnemonic_phrase(&self) -> (r: String)
        ensures
            r@ == self@,
            phrase_ok(self@),
    {
        self.mnemonic.phrase()
    }

    /// Validate a phrase and wrap it. Rejects, with `InvalidMnemonic`, every
    /// phrase the codec refuses; in particular every word count other than
    /// 12, 15, 18, 21 or 24.
    pub fn from_mnemonic(phrase: &str) -> (r: Result<Wallet, WalletError>)
        ensures
            match r {
                Ok(w) => bip39_parse(phrase@) == Some(w@) && phrase_ok(w@),
                Err(e) => bip39_parse(phrase@) is None && e == WalletError::InvalidMnemonic,
            },
            is_ascii_chars(phrase@) && !valid_word_count(word_count(phrase@)) ==> r is Err,
    {
        match Mnemonic::parse(phrase) {
            Ok(m) => Ok(Wallet { mnemonic: m }),
            Err(e) => Err(e),
        }
    }

    /// Derive the secret key at a derivation path such as `m/44'/0'/0'/0/0`:
    /// parse the path, stretch the seed, compute the master key, and fold
    /// one child step per segment. Pure: the result is fixed by the phrase
    /// and the path string alone.
    pub fn derive_private_key(&self, derivation_path: &str) -> (r: Result<SecretKey, WalletError>)
        ensures
            match (r, spec_derive(self@, derivation_path.spec_bytes())) {
                (Ok(sk), Ok(b)) => sk@ == b,
                (Err(e1), Err(e2)) => e1 == e2,
                _ => false,
            },
    {
        let path = match parse_path(derivation_path) {
            Ok(p) => p,
            Err(e) => {
                return Err(e);
            },
        };
        let seed = derive_seed(&self.mnemonic, "");
        proof {
            reveal_strlit("");
            assert(""@ =~= Seq::<char>::empty());
        }
        let master = match master_key(&seed) {
            Ok(k) => k,
            Err(e) => {
                return Err(e);
            },
        };
        let key = match derive_path(&master, &path) {
            Ok(k) => k,
            Err(e) => {
                return Err(e);
            },
        };
        Ok(key.secret_key())
    }

    /// The compressed public key of a secret key, in lowercase hexadecimal.
    /// Deterministic: a function of the scalar alone.
    pub fn public_key_hex(&self, sk: &SecretKey) -> (r: String)
        ensures
            r@ == hex_chars(pubkey_of(sk@)),
    {
        sk.public_key().to_hex()
    }
}

/// Law: derivation is pure. The outcome of `derive_private_key` — success
/// with a scalar, or the error — is a single value fixed by the phrase and
/// the path string, so identical inputs give byte-identical outputs across
/// repeated calls and across process restarts. Seed stretching is likewise
/// fixed by its inputs.
pub proof fn lemma_derive_deterministic(
    phrase: Seq<char>,
    path: Seq<u8>,
    r1: Result<Seq<u8>, WalletError>,
    r2: Result<Seq<u8>, WalletError>,
)
    requires
        r1 == spec_derive(phrase, path),
        r2 == spec_derive(phrase, path),
    ensures
        r1 == r2,
{
}

} // verus!
