use vstd::prelude::*;

verus! {

/// Relies on rand::fill, which fills the slice from the thread-local
/// cryptographically secure generator. Nothing is assumed of the values
/// drawn; only the length of the result is stated.
#[verifier::external_body]
pub(crate) fn random_bytes(n: usize) -> (r: Vec<u8>)
    ensures
        r@.len() == n,
{
    let mut buf = vec![0u8; n];
    rand::fill(buf.as_mut_slice());
    buf
}

} // verus!
