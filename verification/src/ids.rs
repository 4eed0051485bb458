use vstd::prelude::*;

verus! {

/// A 256-bit ledger identity, held as two plain halves.
///
/// The substrate assigns one to every record and signer; this engine only
/// ever compares identities for equality, so the two halves are all it
/// needs to know of one.
#[derive(Clone, Copy, PartialEq, Eq, Structural, Debug)]
pub struct AccountId {
    pub hi: u128,
    pub lo: u128,
}

} // verus!
