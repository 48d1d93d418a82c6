use vstd::prelude::*;

verus! {

use vstd::string::*;
use vstd::utf8::is_ascii_chars;
use crate::errors::WalletError;
use crate::rng::random_bytes;

/// What parsing a phrase yields: `None` when the phrase is rejected, and
/// otherwise the canonical phrase of the mnemonic it encodes, the words
/// joined by single spaces. A function of the characters alone.
pub uninterp spec fn bip39_parse(s: Seq<char>) -> Option<Seq<char>>;

/// The canonical phrase encoding a given entropy string: the words carrying
/// the entropy and its checksum, joined by single spaces. A function of the
/// entropy alone.
pub uninterp spec fn entropy_phrase(entropy: Seq<u8>) -> Seq<char>;

/// A phrase is canonical when parsing accepts it and reproduces it unchanged.
pub open spec fn phrase_ok(p: Seq<char>) -> bool {
    bip39_parse(p) == Some(p)
}

/// An ASCII whitespace character, as the word splitter sees it.
pub open spec fn is_space_char(c: char) -> bool {
    c == ' ' || c == '\t' || c == '\n' || c == '\r' || c == '\x0b' || c == '\x0c'
}

/// Words counted from the front; `after_space` tells whether a fresh word
/// may begin at the first character.
pub open spec fn word_count_from(s: Seq<char>, after_space: bool) -> nat
    decreases s.len(),
{
    if s.len() == 0 {
        0
    } else {
        let rest = word_count_from(s.skip(1), is_space_char(s[0]));
        if !is_space_char(s[0]) && after_space {
            rest + 1
        } else {
            rest
        }
    }
}

/// The number of whitespace-separated words in a phrase.
pub open spec fn word_count(s: Seq<char>) -> nat {
    word_count_from(s, true)
}

/// The word counts a mnemonic may have, one per admissible entropy size.
pub open spec fn valid_word_count(n: nat) -> bool {
    n == 12 || n == 15 || n == 18 || n == 21 || n == 24
}

/// A validated mnemonic: entropy and checksum, carried as its canonical
/// phrase.
pub struct Mnemonic {
    phrase: String,
}

impl View for Mnemonic {
    type V = Seq<char>;

    closed spec fn view(&self) -> Seq<char> {
        self.phrase@
    }
}

/// Relies on bip39::Mnemonic::from_entropy: entropy of 16, 20, 24, 28 or 32
/// bytes is encoded to English words carrying its SHA-256 checksum; and on
/// its Display, which joins the words with single spaces. Parsing such a
/// phrase accepts it and reproduces it, with three words per four entropy
/// bytes.
#[verifier::external_body]
fn mnemonic_from_entropy(entropy: &Vec<u8>) -> (r: Mnemonic)
    requires
        entropy@.len() == 16 || entropy@.len() == 20 || entropy@.len() == 24 || entropy@.len()
            == 28 || entropy@.len() == 32,
    ensures
        r@ == entropy_phrase(entropy@),
        phrase_ok(r@),
        word_count(r@) == entropy@.len() / 4 * 3,
{
    let m = bip39::Mnemonic::from_entropy(entropy.as_slice()).expect("entropy length is valid");
    Mnemonic { phrase: m.to_string() }
}

/// Relies on bip39::Mnemonic::parse_in_normalized for English: it accepts a
/// phrase exactly when the whitespace-separated word count is 12, 15, 18, 21
/// or 24, every word is in the list, and the checksum matches; and on its
/// Display, which renders the canonical phrase of the parsed mnemonic.
#[verifier::external_body]
fn mnemonic_parse(s: &str) -> (r: Option<Mnemonic>)
    ensures
        match r {
            Some(m) => bip39_parse(s@) == Some(m@) && phrase_ok(m@),
            None => bip39_parse(s@) is None,
        },
        is_ascii_chars(s@) && !valid_word_count(word_count(s@)) ==> r is None,
{
    match bip39::Mnemonic::parse_in_normalized(bip39::Language::English, s) {
        Ok(m) => Some(Mnemonic { phrase: m.to_string() }),
        Err(_) => None,
    }
}

impl Mnemonic {
    #[verifier::type_invariant]
    closed spec fn inv(&self) -> bool {
        phrase_ok(self.phrase@)
    }

    /// Draw fresh entropy of the size implied by the requested word count and
    /// encode it as a mnemonic.
    pub fn generate(words: usize) -> (r: Mnemonic)
        requires
            valid_word_count(words as nat),
        ensures
            phrase_ok(r@),
            word_count(r@) == words,
    {
        let entropy_len = words / 3 * 4;
        let entropy = random_bytes(entropy_len);
        mnemonic_from_entropy(&entropy)
    }

    /// Validate a phrase. Rejects, with `InvalidMnemonic`, every phrase whose
    /// word count is not one of the five admissible sizes, and every phrase
    /// the word list or the checksum refuses.
    pub fn parse(s: &str) -> (r: Result<Mnemonic, WalletError>)
        ensures
            match r {
                Ok(m) => bip39_parse(s@) == Some(m@) && phrase_ok(m@),
                Err(e) => bip39_parse(s@) is None && e == WalletError::InvalidMnemonic,
            },
            is_ascii_chars(s@) && !valid_word_count(word_count(s@)) ==> r is Err,
    {
        match mnemonic_parse(s) {
            Some(m) => Ok(m),
            None => Err(WalletError::InvalidMnemonic),
        }
    }

    /// The canonical phrase. Always succeeds.
    pub fn phrase(&self) -> (r: String)
        ensures
            r@ == self@,
            phrase_ok(self@),
    {
        proof {
            use_type_invariant(self);
        }
        self.phrase.clone()
    }

    pub(crate) fn phrase_ref(&self) -> (r: &String)
        ensures
            r@ == self@,
            phrase_ok(self@),
    {
        proof {
            use_type_invariant(self);
        }
        &self.phrase
    }
}

/// Law: phrase round trip. The phrase of every well-formed mnemonic — in
/// particular of every generated one — parses back to a mnemonic with the
/// very same phrase.
pub proof fn lemma_phrase_round_trip(p: Seq<char>)
    requires
        phrase_ok(p),
    ensures
        bip39_parse(p) == Some(p),
{
}

} // verus!
