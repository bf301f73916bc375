use vstd::prelude::*;

verus! {

/// Why a transition was refused. Every failure is recoverable by the caller
/// and leaves no partial write behind; the one piece of state that may still
/// advance on failure is the id counter, which by design never rolls back.
#[derive(Clone, Copy, Debug, PartialEq, Eq, Structural)]
pub enum Error {
    /// The id counter stands at the last representable value, so one more
    /// allocation would overflow; the counter is left unchanged.
    IdSpaceExhausted,
    /// A referenced entity id has no stored entity.
    InvalidId,
    /// Breeding was asked of a single entity with itself.
    IdenticalParents,
    /// The caller does not own the referenced entity.
    NotOwner,
    /// The buyer already owns the entity it tried to buy.
    AlreadyOwned,
    /// The entity is already offered for sale.
    AlreadyListed,
    /// The entity is not offered for sale, so it cannot be bought.
    NotListed,
    /// The escrow holds too little spendable currency to reserve the stake.
    InsufficientBalance,
}

} // verus!
