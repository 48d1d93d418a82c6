use vstd::prelude::*;

verus! {

use vstd::string::*;
use crate::mnemonic::{Mnemonic, phrase_ok};

/// The 64-byte seed stretched from a canonical phrase and a secondary
/// passphrase. A pure function of the two: identical inputs always yield
/// identical output.
pub uninterp spec fn seed_of(phrase: Seq<char>, passphrase: Seq<char>) -> Seq<u8>;

/// A 64-byte binary seed, the root of all key derivation.
pub struct Seed {
    bytes: Vec<u8>,
}

impl View for Seed {
    type V = Seq<u8>;

    closed spec fn view(&self) -> Seq<u8> {
        self.bytes@
    }
}

/// Relies on bip39::Mnemonic::to_seed_normalized: 2048 rounds of
/// PBKDF2-HMAC-SHA512 keyed by the words, salted by the string "mnemonic"
/// followed by the passphrase, producing 64 bytes, a pure function of phrase
/// and passphrase; and on parse_in_normalized to rebuild the mnemonic from
/// its canonical phrase, which it accepts.
#[verifier::external_body]
fn seed_call(phrase: &String, passphrase: &str) -> (r: Seed)
    requires
        phrase_ok(phrase@),
    ensures
        r@ == seed_of(phrase@, passphrase@),
        r@.len() == 64,
{
    let m = bip39::Mnemonic::parse_in_normalized(bip39::Language::English, phrase.as_str())
        .expect("phrase is canonical");
    Seed { bytes: m.to_seed_normalized(passphrase).to_vec() }
}

impl Seed {
    #[verifier::type_invariant]
    closed spec fn inv(&self) -> bool {
        self.bytes@.len() == 64
    }

    /// The seed's 64 bytes.
    pub fn to_bytes(&self) -> (r: Vec<u8>)
        ensures
            r@ == self@,
            self@.len() == 64,
    {
        proof {
            use_type_invariant(self);
        }
        crate::keys::copy_bytes(&self.bytes)
    }

    pub(crate) fn bytes_ref(&self) -> (r: &Vec<u8>)
        ensures
            r@ == self@,
            self@.len() == 64,
    {
        proof {
            use_type_invariant(self);
        }
        &self.bytes
    }
}

/// Stretch a mnemonic and a secondary passphrase into the 64-byte seed.
/// Deterministic; it has no failure path.
pub fn derive_seed(m: &Mnemonic, passphrase: &str) -> (r: Seed)
    ensures
        r@ == seed_of(m@, passphrase@),
        r@.len() == 64,
{
    seed_call(m.phrase_ref(), passphrase)
}

} // verus!
