use vstd::prelude::*;
use chacha20poly1305::aead::Aead;
use chacha20poly1305::KeyInit;

verus! {

use vstd::string::*;
use vstd::utf8::{valid_utf8, encode_utf8, decode_utf8};
use crate::errors::WalletError;
use crate::rng::random_bytes;
use crate::keys::copy_bytes;

/// The 32-byte symmetric key stretched from a storage passphrase and a salt.
/// A deliberately slow, memory-hard function of the two alone.
pub uninterp spec fn vault_key(passphrase: Seq<u8>, salt: Seq<u8>) -> Seq<u8>;

/// The sealed bytes of an authenticated encryption: the ciphertext with its
/// 16-byte tag appended. A function of key, nonce and plaintext alone.
pub uninterp spec fn aead_seal(key: Seq<u8>, nonce: Seq<u8>, plaintext: Seq<u8>) -> Seq<u8>;

/// What authenticated decryption yields: the plaintext when the tag
/// verifies, `None` otherwise. A function of key, nonce and sealed bytes
/// alone.
pub uninterp spec fn aead_open(key: Seq<u8>, nonce: Seq<u8>, sealed: Seq<u8>) -> Option<Seq<u8>>;

/// The ghost shape of an encrypted seed record.
#[verifier::ext_equal]
pub ghost struct RecordModel {
    pub version: u8,
    pub salt: Seq<u8>,
    pub nonce: Seq<u8>,
    pub ciphertext: Seq<u8>,
    pub tag: Seq<u8>,
}

/// The one format version this library writes.
pub open spec fn record_wf(r: RecordModel) -> bool {
    r.version == 1 && r.salt.len() == 16 && r.nonce.len() == 12 && r.tag.len() == 16
}

/// The serialized layout: version byte, 16-byte salt, 12-byte nonce, the
/// ciphertext, and the 16-byte tag.
pub open spec fn record_bytes(r: RecordModel) -> Seq<u8> {
    seq![r.version] + r.salt + r.nonce + r.ciphertext + r.tag
}

/// What decrypting a record under a passphrase opens to.
pub open spec fn opened_bytes(r: RecordModel, passphrase: Seq<u8>) -> Option<Seq<u8>> {
    aead_open(vault_key(passphrase, r.salt), r.nonce, r.ciphertext + r.tag)
}

/// A record seals a plaintext under a passphrase when decrypting it under
/// that passphrase opens to exactly that plaintext.
pub open spec fn sealed_for(r: RecordModel, passphrase: Seq<u8>, plaintext: Seq<u8>) -> bool {
    opened_bytes(r, passphrase) == Some(plaintext)
}

/// A mnemonic phrase encrypted under a storage passphrase, the only durable
/// artifact of the wallet.
#[derive(Debug)]
pub struct EncryptedSeed {
    version: u8,
    salt: Vec<u8>,
    nonce: Vec<u8>,
    ciphertext: Vec<u8>,
    tag: Vec<u8>,
}

impl View for EncryptedSeed {
    type V = RecordModel;

    closed spec fn view(&self) -> RecordModel {
        RecordModel {
            version: self.version,
            salt: self.salt@,
            nonce: self.nonce@,
            ciphertext: self.ciphertext@,
            tag: self.tag@,
        }
    }
}

/// Relies on argon2::Argon2::hash_password_into with the default algorithm,
/// version and cost parameters: a memory-hard function of passphrase and
/// salt alone; with a 16-byte salt and a 32-byte output buffer it cannot
/// fail.
#[verifier::external_body]
fn kdf(passphrase: &Vec<u8>, salt: &Vec<u8>) -> (r: Vec<u8>)
    requires
        salt@.len() == 16,
        passphrase@.len() < 0xFFFFFFFF,
    ensures
        r@ == vault_key(passphrase@, salt@),
        r@.len() == 32,
{
    let mut out = [0u8; 32];
    argon2::Argon2::default().hash_password_into(
        passphrase.as_slice(),
        salt.as_slice(),
        &mut out,
    ).expect("salt and output lengths are in range");
    out.to_vec()
}

/// Relies on chacha20poly1305::ChaCha20Poly1305 through aead::Aead::encrypt
/// (and KeyInit::new_from_slice): the result is the ciphertext with the
/// 16-byte tag appended, a function of key, nonce and plaintext alone, and
/// decrypting it under the same key and nonce returns the plaintext.
#[verifier::external_body]
fn aead_seal_call(key: &Vec<u8>, nonce: &Vec<u8>, plaintext: &Vec<u8>) -> (r: Vec<u8>)
    requires
        key@.len() == 32,
        nonce@.len() == 12,
        plaintext@.len() < 0x10000000,
    ensures
        r@ == aead_seal(key@, nonce@, plaintext@),
        r@.len() == plaintext@.len() + 16,
        aead_open(key@, nonce@, r@) == Some(plaintext@),
{
    let cipher = chacha20poly1305::ChaCha20Poly1305::new_from_slice(key.as_slice())
        .expect("key is 32 bytes");
    let n = chacha20poly1305::Nonce::try_from(nonce.as_slice()).expect("nonce is 12 bytes");
    cipher.encrypt(&n, plaintext.as_slice()).expect("plaintext length is in range")
}

/// Relies on chacha20poly1305::ChaCha20Poly1305 through aead::Aead::decrypt
/// (and KeyInit::new_from_slice): it returns the plaintext exactly when the
/// tag verifies under this key and nonce, and fails otherwise; a function of
/// key, nonce and sealed bytes alone.
#[verifier::external_body]
fn aead_open_call(key: &Vec<u8>, nonce: &Vec<u8>, sealed: &Vec<u8>) -> (r: Option<Vec<u8>>)
    requires
        key@.len() == 32,
        nonce@.len() == 12,
    ensures
        match r {
            Some(p) => aead_open(key@, nonce@, sealed@) == Some(p@),
            None => aead_open(key@, nonce@, sealed@) is None,
        },
{
    let cipher = chacha20poly1305::ChaCha20Poly1305::new_from_slice(key.as_slice())
        .expect("key is 32 bytes");
    let n = chacha20poly1305::Nonce::try_from(nonce.as_slice()).expect("nonce is 12 bytes");
    cipher.decrypt(&n, sealed.as_slice()).ok()
}

/// Relies on String::from_utf8: it succeeds exactly on valid UTF-8, and the
/// returned string's encoding is the input bytes.
#[verifier::external_body]
fn bytes_to_string(bytes: Vec<u8>) -> (r: Option<String>)
    ensures
        match r {
            Some(s) => valid_utf8(bytes@) && encode_utf8(s@) == bytes@,
            None => !valid_utf8(bytes@),
        },
{
    match String::from_utf8(bytes) {
        Ok(s) => Some(s),
        Err(_) => None,
    }
}

/// The bytes of `v` from `start` (inclusive) to `end` (exclusive).
fn sub_bytes(v: &Vec<u8>, start: usize, end: usize) -> (r: Vec<u8>)
    requires
        start <= end <= v@.len(),
    ensures
        r@ == v@.subrange(start as int, end as int),
{
    let mut out: Vec<u8> = Vec::new();
    let mut i: usize = start;
    while i < end
        invariant
            start <= i <= end <= v@.len(),
            out@ == v@.subrange(start as int, i as int),
        decreases end - i,
    {
        out.push(v[i]);
        i = i + 1;
        proof {
            assert(out@ =~= v@.subrange(start as int, i as int));
        }
    }
    out
}

/// Append the bytes of `src` to `dst`.
fn append_bytes(dst: &mut Vec<u8>, src: &Vec<u8>)
    ensures
        final(dst)@ == old(dst)@ + src@,
{
    let mut i: usize = 0;
    while i < src.len()
        invariant
            i <= src@.len(),
            dst@ == old(dst)@ + src@.subrange(0, i as int),
        decreases src@.len() - i,
    {
        dst.push(src[i]);
        i = i + 1;
        proof {
            assert(dst@ =~= old(dst)@ + src@.subrange(0, i as int));
        }
    }
    proof {
        assert(old(dst)@ + src@.subrange(0, src@.len() as int) =~= old(dst)@ + src@);
    }
}

impl EncryptedSeed {
    #[verifier::type_invariant]
    closed spec fn inv(&self) -> bool {
        record_wf(self@)
    }

    /// Encrypt a phrase under a storage passphrase: a fresh random salt, the
    /// stretched key, a fresh random nonce, and authenticated encryption.
    /// Whatever salt and nonce were drawn, the record decrypts under the same
    /// passphrase to the phrase.
    pub fn encrypt(plaintext: &str, passphrase: &str) -> (r: EncryptedSeed)
        requires
            plaintext.spec_bytes().len() < 0x10000000,
            passphrase.spec_bytes().len() < 0xFFFFFFFF,
        ensures
            record_wf(r@),
            r@.ciphertext + r@.tag == aead_seal(
                vault_key(passphrase.spec_bytes(), r@.salt),
                r@.nonce,
                plaintext.spec_bytes(),
            ),
            sealed_for(r@, passphrase.spec_bytes(), encode_utf8(plaintext@)),
    {
        let salt = random_bytes(16);
        let nonce = random_bytes(12);
        let pass_bytes = passphrase.as_bytes_vec();
        let key = kdf(&pass_bytes, &salt);
        let pt = plaintext.as_bytes_vec();
        let sealed = aead_seal_call(&key, &nonce, &pt);
        let ct_len = sealed.len() - 16;
        let ciphertext = sub_bytes(&sealed, 0, ct_len);
        let tag = sub_bytes(&sealed, ct_len, sealed.len());
        proof {
            assert(ciphertext@ + tag@ =~= sealed@);
        }
        EncryptedSeed { version: 1, salt, nonce, ciphertext, tag }
    }

    /// Re-derive the key from the stored salt and the supplied passphrase,
    /// decrypt, and verify the tag. Fails with `DecryptionFailure` exactly
    /// when the tag does not verify — a wrong passphrase or any tampering —
    /// or when the opened bytes are not a UTF-8 phrase; no partial or
    /// unauthenticated plaintext is ever returned.
    pub fn decrypt(&self, passphrase: &str) -> (r: Result<String, WalletError>)
        requires
            passphrase.spec_bytes().len() < 0xFFFFFFFF,
        ensures
            match r {
                Ok(p) => opened_bytes(self@, passphrase.spec_bytes()) == Some(encode_utf8(p@)),
                Err(e) => e == WalletError::DecryptionFailure && match opened_bytes(
                    self@,
                    passphrase.spec_bytes(),
                ) {
                    Some(b) => !valid_utf8(b),
                    None => true,
                },
            },
    {
        proof {
            use_type_invariant(self);
        }
        let pass_bytes = passphrase.as_bytes_vec();
        let key = kdf(&pass_bytes, &self.salt);
        let mut sealed = copy_bytes(&self.ciphertext);
        append_bytes(&mut sealed, &self.tag);
        match aead_open_call(&key, &self.nonce, &sealed) {
            None => Err(WalletError::DecryptionFailure),
            Some(opened) => match bytes_to_string(opened) {
                None => Err(WalletError::DecryptionFailure),
                Some(p) => Ok(p),
            },
        }
    }

    /// The fixed binary layout: version byte, salt, nonce, ciphertext, tag.
    pub fn to_bytes(&self) -> (r: Vec<u8>)
        ensures
            r@ == record_bytes(self@),
            record_wf(self@),
    {
        proof {
            use_type_invariant(self);
        }
        let mut out: Vec<u8> = Vec::new();
        out.push(self.version);
        append_bytes(&mut out, &self.salt);
        append_bytes(&mut out, &self.nonce);
        append_bytes(&mut out, &self.ciphertext);
        append_bytes(&mut out, &self.tag);
        proof {
            assert(out@ =~= record_bytes(self@));
        }
        out
    }

    /// Decode the fixed layout. Rejects, with `InvalidFormat`, exactly the
    /// streams that are shorter than the smallest record or carry an unknown
    /// version byte; everything accepted re-serializes to the input.
    pub fn from_bytes(bytes: &Vec<u8>) -> (r: Result<EncryptedSeed, WalletError>)
        ensures
            match r {
                Ok(rec) => record_wf(rec@) && record_bytes(rec@) == bytes@ && bytes@.len() >= 45
                    && bytes@[0] == 1,
                Err(e) => e == WalletError::InvalidFormat && (bytes@.len() < 45 || bytes@[0] != 1),
            },
    {
        let n = bytes.len();
        if n < 45 {
            return Err(WalletError::InvalidFormat);
        }
        let version = bytes[0];
        if version != 1 {
            return Err(WalletError::InvalidFormat);
        }
        let salt = sub_bytes(bytes, 1, 17);
        let nonce = sub_bytes(bytes, 17, 29);
        let ciphertext = sub_bytes(bytes, 29, n - 16);
        let tag = sub_bytes(bytes, n - 16, n);
        let rec = EncryptedSeed { version, salt, nonce, ciphertext, tag };
        proof {
            assert(record_bytes(rec@) =~= bytes@);
        }
        Ok(rec)
    }
}

/// Law: vault round trip. A record sealed under a passphrase — as every
/// record `encrypt` returns is — opens under that passphrase to exactly the
/// phrase's encoding, and that encoding decodes back to the phrase.
pub proof fn lemma_vault_round_trip(rec: RecordModel, passphrase: Seq<u8>, phrase: Seq<char>)
    requires
        sealed_for(rec, passphrase, encode_utf8(phrase)),
    ensures
        opened_bytes(rec, passphrase) == Some(encode_utf8(phrase)),
        decode_utf8(encode_utf8(phrase)) == phrase,
{
    broadcast use vstd::utf8::encode_utf8_decode_utf8;

}

/// Law: the serialized layout is injective on well-formed records, so a
/// record read back from its own bytes is the record that was written.
pub proof fn lemma_record_bytes_injective(a: RecordModel, b: RecordModel)
    requires
        record_wf(a),
        record_wf(b),
        record_bytes(a) == record_bytes(b),
    ensures
        a == b,
{
    let ba = record_bytes(a);
    let bb = record_bytes(b);
    assert(ba.len() == 45 + a.ciphertext.len());
    assert(bb.len() == 45 + b.ciphertext.len());
    assert(a.ciphertext.len() == b.ciphertext.len());
    assert(a.salt =~= bb.subrange(1, 17));
    assert(b.salt =~= bb.subrange(1, 17));
    assert(a.nonce =~= bb.subrange(17, 29));
    assert(b.nonce =~= bb.subrange(17, 29));
    assert(a.ciphertext =~= bb.subrange(29, bb.len() - 16));
    assert(b.ciphertext =~= bb.subrange(29, bb.len() - 16));
    assert(a.tag =~= bb.subrange(bb.len() - 16, bb.len() as int));
    assert(b.tag =~= bb.subrange(bb.len() - 16, bb.len() as int));
    assert(a =~= b);
}

} // verus!
