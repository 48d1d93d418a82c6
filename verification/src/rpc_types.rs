use vstd::prelude::*;

verus! {

/// The plain shape of a node's balance reply: confirmed and unconfirmed
/// amounts in atomic units. The network client of the application layer owns
/// the wire encoding; this type carries the values it hands over.
#[derive(Clone, Copy, Debug, PartialEq, Eq, Structural)]
pub struct BalanceResponse {
    pub confirmed: u64,
    pub unconfirmed: u64,
}

} // verus!
