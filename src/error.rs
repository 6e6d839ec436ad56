//! The errors of the swap.

use vstd::prelude::*;

verus! {

/// Why an instruction was refused. A refused instruction changes nothing.
#[derive(Clone, Copy, Debug, PartialEq, Eq, Structural)]
pub enum SwapError {
    /// The offered amount of token A is zero.
    InvalidAmount,
    /// A payer holds less than the instruction moves.
    InsufficientFunds,
    /// An offer already lives at the maker's address for this id.
    OfferAlreadyExists,
    /// No offer (or no vault) lives at the given address.
    OfferNotFound,
    /// The derivation from maker and id does not reproduce the vault's authority.
    UnauthorizedVaultAccess,
}

} // verus!
