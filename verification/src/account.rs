use vstd::prelude::*;

verus! {

/// An opaque, comparable, hashable principal identifier.
///
/// The ledger assumes no internal structure: accounts are only ever compared
/// for equality and used as keys into balance and allowance state.
#[derive(Clone, Copy, Debug, Hash, PartialEq, Eq, Structural)]
pub struct AccountId {
    pub id: u64,
}

/// The amount type used for the total supply and for every balance and
/// allowance. Arithmetic on it never silently wraps: overflow is ruled out
/// by the conservation invariant, underflow by explicit pre-checks.
pub type Balance = u128;

} // verus!
