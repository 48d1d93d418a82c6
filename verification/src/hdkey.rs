use vstd::prelude::*;
use bip32::{ChildNumber, ExtendedKey, ExtendedKeyAttrs, Prefix, XPrv};

verus! {

use crate::errors::WalletError;
use crate::keys::{valid_scalar, SecretKey};
use crate::path::{DerivationPath, PathSegment, segments_wf};
use crate::seed::Seed;

/// The master key material computed from a seed: HMAC-SHA512 of the seed
/// under the fixed domain key, split into the secret scalar and the chain
/// code; `None` exactly when the scalar half is invalid. A function of the
/// seed alone.
pub uninterp spec fn hd_master(seed: Seq<u8>) -> Option<(Seq<u8>, Seq<u8>)>;

/// One child-derivation step: the HMAC of the parent material and the index
/// (keyed by the chain code, over the parent secret for a hardened step and
/// over the parent public key for a normal one), its left half added to the
/// parent scalar modulo the curve order, its right half the child chain
/// code; `None` exactly when the resulting scalar is invalid. A function of
/// the parent material and the step alone.
pub uninterp spec fn hd_child(secret: Seq<u8>, chain: Seq<u8>, index: u32, hardened: bool) -> Option<
    (Seq<u8>, Seq<u8>),
>;

/// The ghost shape of an extended private key.
pub ghost struct KeyModel {
    pub secret: Seq<u8>,
    pub chain: Seq<u8>,
    pub depth: nat,
}

/// An extended private key: a secret scalar, the chain code that lets
/// further children be derived, and its depth below the master key.
pub struct ExtendedPrivateKey {
    secret: Vec<u8>,
    chain_code: Vec<u8>,
    depth: u8,
}

impl View for ExtendedPrivateKey {
    type V = KeyModel;

    closed spec fn view(&self) -> KeyModel {
        KeyModel { secret: self.secret@, chain: self.chain_code@, depth: self.depth as nat }
    }
}

/// An extended private key holds a valid 32-byte scalar and a 32-byte chain
/// code.
pub open spec fn key_wf(k: KeyModel) -> bool {
    valid_scalar(k.secret) && k.chain.len() == 32 && k.depth <= 255
}

/// Relies on bip32::ExtendedPrivateKey::new: HMAC-SHA512 of the seed under
/// the fixed domain-separation key; the left half becomes the secret scalar
/// and the right half the chain code; it fails exactly when that scalar is
/// zero or at least the curve order. A scalar it does return is valid.
#[verifier::external_body]
fn xprv_master(seed_bytes: &Vec<u8>) -> (r: Result<ExtendedPrivateKey, WalletError>)
    requires
        seed_bytes@.len() == 64,
    ensures
        match r {
            Ok(k) => hd_master(seed_bytes@) == Some((k@.secret, k@.chain)) && k@.depth == 0
                && key_wf(k@),
            Err(e) => hd_master(seed_bytes@) is None && e == WalletError::InvalidSecretKey,
        },
{
    match XPrv::new(seed_bytes.as_slice()) {
        Ok(x) => Ok(ExtendedPrivateKey {
            secret: x.to_bytes().to_vec(),
            chain_code: x.attrs().chain_code.to_vec(),
            depth: 0,
        }),
        Err(_) => Err(WalletError::InvalidSecretKey),
    }
}

/// Relies on bip32::ExtendedPrivateKey::derive_child (and on TryFrom over
/// bip32::ExtendedKey to rebuild the parent from its raw parts, which
/// succeeds for every valid scalar): the child's secret and chain code are a
/// function of the parent secret, parent chain code, index and hardening
/// alone; it fails exactly when the tweaked scalar is invalid. A scalar it
/// does return is valid.
#[verifier::external_body]
fn xprv_child(parent: &ExtendedPrivateKey, index: u32, hardened: bool) -> (r: Result<
    ExtendedPrivateKey,
    WalletError,
>)
    requires
        key_wf(parent@),
        parent@.depth < 255,
        index < 0x80000000,
    ensures
        match r {
            Ok(k) => hd_child(parent@.secret, parent@.chain, index, hardened) == Some(
                (k@.secret, k@.chain),
            ) && k@.depth == parent@.depth + 1 && key_wf(k@),
            Err(e) => hd_child(parent@.secret, parent@.chain, index, hardened) is None && e
                == WalletError::InvalidSecretKey,
        },
{
    let mut key_bytes = [0u8; 33];
    key_bytes[1..].copy_from_slice(parent.secret.as_slice());
    let chain_code = parent.chain_code.as_slice().try_into().expect("chain code is 32 bytes");
    let attrs = ExtendedKeyAttrs {
        depth: parent.depth, parent_fingerprint: [0u8; 4],
        child_number: ChildNumber(0), chain_code,
    };
    let ek = ExtendedKey { prefix: Prefix::XPRV, attrs, key_bytes };
    let xprv = XPrv::try_from(ek).expect("parent scalar is valid");
    let cn = ChildNumber::new(index, hardened).expect("index fits 31 bits");
    match xprv.derive_child(cn) {
        Ok(c) => Ok(ExtendedPrivateKey { secret: c.to_bytes().to_vec(),
            chain_code: c.attrs().chain_code.to_vec(), depth: c.attrs().depth }),
        Err(_) => Err(WalletError::InvalidSecretKey),
    }
}

/// Folding one child step per segment over the starting material; `None` as
/// soon as one step fails.
pub open spec fn fold_path(secret: Seq<u8>, chain: Seq<u8>, segs: Seq<PathSegment>) -> Option<
    (Seq<u8>, Seq<u8>),
>
    decreases segs.len(),
{
    if segs.len() == 0 {
        Some((secret, chain))
    } else {
        match hd_child(secret, chain, segs[0].index, segs[0].hardened) {
            None => None,
            Some(pair) => fold_path(pair.0, pair.1, segs.skip(1)),
        }
    }
}

impl ExtendedPrivateKey {
    #[verifier::type_invariant]
    closed spec fn inv(&self) -> bool {
        key_wf(self@)
    }

    /// The key's depth below the master key.
    pub fn depth(&self) -> (r: u8)
        ensures
            r == self@.depth,
    {
        self.depth
    }

    /// The secret scalar, detached from the chain code, for signing or
    /// display.
    pub fn secret_key(&self) -> (r: SecretKey)
        ensures
            r@ == self@.secret,
    {
        proof {
            use_type_invariant(self);
        }
        let bytes = crate::keys::copy_bytes(&self.secret);
        SecretKey::from_valid_bytes(bytes)
    }
}

/// Compute the master extended private key of a seed. Fails, with
/// `InvalidSecretKey`, exactly when the scalar drawn from the seed is
/// invalid.
pub fn master_key(seed: &Seed) -> (r: Result<ExtendedPrivateKey, WalletError>)
    ensures
        match r {
            Ok(k) => hd_master(seed@) == Some((k@.secret, k@.chain)) && k@.depth == 0 && key_wf(
                k@,
            ),
            Err(e) => hd_master(seed@) is None && e == WalletError::InvalidSecretKey,
        },
{
    xprv_master(seed.bytes_ref())
}

/// Derive one child. An index outside the 31-bit range is rejected with
/// `InvalidDerivationPath`; a failed scalar tweak with `InvalidSecretKey`.
pub fn derive_child(parent: &ExtendedPrivateKey, segment: PathSegment) -> (r: Result<
    ExtendedPrivateKey,
    WalletError,
>)
    requires
        parent@.depth < 255,
    ensures
        match r {
            Ok(k) => segment.index < 0x80000000 && hd_child(
                parent@.secret,
                parent@.chain,
                segment.index,
                segment.hardened,
            ) == Some((k@.secret, k@.chain)) && k@.depth == parent@.depth + 1 && key_wf(k@),
            Err(e) => if segment.index >= 0x80000000 {
                e == WalletError::InvalidDerivationPath
            } else {
                e == WalletError::InvalidSecretKey && hd_child(
                    parent@.secret,
                    parent@.chain,
                    segment.index,
                    segment.hardened,
                ) is None
            },
        },
{
    proof {
        use_type_invariant(parent);
    }
    if segment.index >= 0x80000000 {
        return Err(WalletError::InvalidDerivationPath);
    }
    xprv_child(parent, segment.index, segment.hardened)
}

/// Fold `derive_child` over each segment in order, starting from `master`.
/// An empty path returns the master material unchanged. A path deeper than
/// the depth counter can encode is rejected with `InvalidDerivationPath`.
pub fn derive_path(master: &ExtendedPrivateKey, path: &DerivationPath) -> (r: Result<
    ExtendedPrivateKey,
    WalletError,
>)
    requires
        segments_wf(path@),
    ensures
        match r {
            Ok(k) => master@.depth + path@.len() <= 255 && fold_path(
                master@.secret,
                master@.chain,
                path@,
            ) == Some((k@.secret, k@.chain)) && k@.depth == master@.depth + path@.len() && key_wf(
                k@,
            ),
            Err(e) => if master@.depth + path@.len() > 255 {
                e == WalletError::InvalidDerivationPath
            } else {
                e == WalletError::InvalidSecretKey && fold_path(
                    master@.secret,
                    master@.chain,
                    path@,
                ) is None
            },
        },
{
    proof {
        use_type_invariant(master);
    }
    let len = path.len();
    if len > 255 - master.depth() as usize {
        return Err(WalletError::InvalidDerivationPath);
    }
    let mut cur = clone_key(master);
    let mut i: usize = 0;
    proof {
        assert(path@.skip(0) =~= path@);
    }
    while i < len
        invariant
            i <= len,
            len == path@.len(),
            segments_wf(path@),
            key_wf(cur@),
            master@.depth + len <= 255,
            cur@.depth == master@.depth + i,
            fold_path(master@.secret, master@.chain, path@) == fold_path(
                cur@.secret,
                cur@.chain,
                path@.skip(i as int),
            ),
        decreases len - i,
    {
        let seg = path.segment(i);
        proof {
            assert(path@.skip(i as int)[0] == path@[i as int]);
            assert(path@.skip(i as int).skip(1) =~= path@.skip(i as int + 1));
        }
        match derive_child(&cur, seg) {
            Ok(k) => {
                cur = k;
            },
            Err(e) => {
                return Err(e);
            },
        }
        i = i + 1;
    }
    proof {
        assert(path@.skip(len as int) =~= Seq::<PathSegment>::empty());
    }
    Ok(cur)
}

/// A fresh key holding the same material.
fn clone_key(k: &ExtendedPrivateKey) -> (r: ExtendedPrivateKey)
    ensures
        r@ == k@,
{
    proof {
        use_type_invariant(k);
    }
    ExtendedPrivateKey {
        secret: crate::keys::copy_bytes(&k.secret),
        chain_code: crate::keys::copy_bytes(&k.chain_code),
        depth: k.depth,
    }
}

} // verus!
