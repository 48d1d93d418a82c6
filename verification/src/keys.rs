use vstd::prelude::*;

verus! {

use crate::errors::WalletError;

/// The value of a byte string read as a big-endian unsigned integer.
pub open spec fn be_value(s: Seq<u8>) -> int
    decreases s.len(),
{
    if s.len() == 0 {
        0
    } else {
        be_value(s.drop_last()) * 256 + s.last()
    }
}

/// The order of the secp256k1 group.
pub open spec fn curve_order() -> int {
    0xFFFFFFFFFFFFFFFFFFFFFFFFFFFFFFFEBAAEDCE6AF48A03BBFD25E8CD0364141int
}

/// A byte string is a valid secret scalar when it is 32 bytes long and its
/// big-endian value lies in `[1, curve_order - 1]`.
pub open spec fn valid_scalar(s: Seq<u8>) -> bool {
    s.len() == 32 && 1 <= be_value(s) < curve_order()
}

/// The lowercase hexadecimal digit for a nibble.
pub open spec fn hex_digit(n: int) -> char {
    if n == 0 {
        '0'
    } else if n == 1 {
        '1'
    } else if n == 2 {
        '2'
    } else if n == 3 {
        '3'
    } else if n == 4 {
        '4'
    } else if n == 5 {
        '5'
    } else if n == 6 {
        '6'
    } else if n == 7 {
        '7'
    } else if n == 8 {
        '8'
    } else if n == 9 {
        '9'
    } else if n == 10 {
        'a'
    } else if n == 11 {
        'b'
    } else if n == 12 {
        'c'
    } else if n == 13 {
        'd'
    } else if n == 14 {
        'e'
    } else {
        'f'
    }
}

/// The lowercase hexadecimal rendering of a byte string: two digits per byte,
/// high nibble first.
pub open spec fn hex_chars(s: Seq<u8>) -> Seq<char>
    decreases s.len(),
{
    if s.len() == 0 {
        Seq::empty()
    } else {
        hex_chars(s.drop_last()) + seq![
            hex_digit(s.last() as int / 16),
            hex_digit(s.last() as int % 16),
        ]
    }
}

/// The compressed 33-byte serialization of the public point matching a secret
/// scalar: the generator multiplied by the scalar. The computation is a
/// function of the scalar alone.
pub uninterp spec fn pubkey_of(secret: Seq<u8>) -> Seq<u8>;

/// A 32-byte secret scalar in `[1, curve_order - 1]`.
pub struct SecretKey {
    bytes: Vec<u8>,
}

impl View for SecretKey {
    type V = Seq<u8>;

    closed spec fn view(&self) -> Seq<u8> {
        self.bytes@
    }
}

/// A 33-byte compressed public point.
pub struct PublicKey {
    bytes: Vec<u8>,
}

impl View for PublicKey {
    type V = Seq<u8>;

    closed spec fn view(&self) -> Seq<u8> {
        self.bytes@
    }
}

/// Relies on secp256k1::SecretKey::from_secret_bytes: it accepts a 32-byte
/// array exactly when the bytes, read big-endian, are neither zero nor at
/// least the curve order.
#[verifier::external_body]
fn secp_accepts(bytes: &Vec<u8>) -> (r: bool)
    requires
        bytes@.len() == 32,
    ensures
        r == valid_scalar(bytes@),
{
    let arr: [u8; 32] = bytes.as_slice().try_into().expect("length checked");
    secp256k1::SecretKey::from_secret_bytes(arr).is_ok()
}

/// Relies on secp256k1::PublicKey::from_secret_key and PublicKey::serialize:
/// the compressed 33-byte encoding of the generator times the scalar, a pure
/// function of the scalar; and on secp256k1::SecretKey::from_secret_bytes,
/// which accepts every valid scalar.
#[verifier::external_body]
fn secp_public_key(bytes: &Vec<u8>) -> (r: Vec<u8>)
    requires
        valid_scalar(bytes@),
    ensures
        r@ == pubkey_of(bytes@),
        r@.len() == 33,
{
    let arr: [u8; 32] = bytes.as_slice().try_into().expect("length checked");
    let sk = secp256k1::SecretKey::from_secret_bytes(arr).expect("scalar is valid");
    let pk = secp256k1::PublicKey::from_secret_key(&sk);
    pk.serialize().to_vec()
}

/// Relies on hex::encode: lowercase hexadecimal, two digits per byte, high
/// nibble first.
#[verifier::external_body]
fn hex_encode(bytes: &Vec<u8>) -> (r: String)
    ensures
        r@ == hex_chars(bytes@),
{
    hex::encode(bytes)
}

impl SecretKey {
    #[verifier::type_invariant]
    closed spec fn inv(&self) -> bool {
        valid_scalar(self.bytes@)
    }

    /// Accept exactly the 32-byte strings whose big-endian value is a valid
    /// scalar; reject everything else with `InvalidSecretKey`.
    pub fn from_bytes(bytes: Vec<u8>) -> (r: Result<SecretKey, WalletError>)
        ensures
            match r {
                Ok(sk) => valid_scalar(bytes@) && sk@ == bytes@,
                Err(e) => !valid_scalar(bytes@) && e == WalletError::InvalidSecretKey,
            },
    {
        if bytes.len() != 32 {
            return Err(WalletError::InvalidSecretKey);
        }
        if secp_accepts(&bytes) {
            Ok(SecretKey { bytes })
        } else {
            Err(WalletError::InvalidSecretKey)
        }
    }

    /// A key from bytes already known to form a valid scalar.
    pub(crate) fn from_valid_bytes(bytes: Vec<u8>) -> (r: SecretKey)
        requires
            valid_scalar(bytes@),
        ensures
            r@ == bytes@,
    {
        SecretKey { bytes }
    }

    /// The scalar's 32 bytes, big-endian.
    pub fn to_bytes(&self) -> (r: Vec<u8>)
        ensures
            r@ == self@,
    {
        copy_bytes(&self.bytes)
    }

    /// Lowercase hexadecimal rendering of the scalar.
    pub fn to_hex(&self) -> (r: String)
        ensures
            r@ == hex_chars(self@),
    {
        hex_encode(&self.bytes)
    }

    /// The compressed public key matching this scalar. Deterministic: the
    /// result is a function of the scalar alone.
    pub fn public_key(&self) -> (r: PublicKey)
        ensures
            r@ == pubkey_of(self@),
            r@.len() == 33,
    {
        proof {
            use_type_invariant(self);
        }
        let bytes = secp_public_key(&self.bytes);
        PublicKey { bytes }
    }
}

impl PublicKey {
    #[verifier::type_invariant]
    closed spec fn inv(&self) -> bool {
        self.bytes@.len() == 33
    }

    /// The point's 33 bytes in compressed form.
    pub fn to_bytes(&self) -> (r: Vec<u8>)
        ensures
            r@ == self@,
    {
        copy_bytes(&self.bytes)
    }

    /// Lowercase hexadecimal rendering of the compressed point.
    pub fn to_hex(&self) -> (r: String)
        ensures
            r@ == hex_chars(self@),
    {
        hex_encode(&self.bytes)
    }
}

/// A fresh vector holding exactly the bytes of `src`.
pub fn copy_bytes(src: &Vec<u8>) -> (r: Vec<u8>)
    ensures
        r@ == src@,
{
    let mut out: Vec<u8> = Vec::new();
    let mut i: usize = 0;
    while i < src.len()
        invariant
            i <= src.len(),
            out@ == src@.subrange(0, i as int),
        decreases src.len() - i,
    {
        out.push(src[i]);
        i = i + 1;
        proof {
            assert(out@ =~= src@.subrange(0, i as int));
        }
    }
    proof {
        assert(out@ =~= src@);
    }
    out
}

} // verus!
