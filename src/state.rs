//! The persisted offer record and the custodial vault.

use vstd::prelude::*;
use crate::address::Address;

verus! {

/// The terms of one swap, as persisted.
#[derive(Clone, Copy, Debug, PartialEq, Eq)]
pub struct Offer {
    pub id: u64,
    pub maker: Address,
    pub token_mint_a: Address,
    pub token_mint_b: Address,
    pub token_b_wanted_amount: u64,
}

/// The account that holds an offer record, with the lamports paid for its storage.
#[derive(Clone, Copy, Debug, PartialEq, Eq)]
pub struct OfferAccount {
    pub data: Offer,
    pub lamports: u64,
}

/// A token-A account whose transfer authority is the offer's derived address.
#[derive(Clone, Copy, Debug, PartialEq, Eq)]
pub struct Vault {
    pub mint: Address,
    pub authority: Address,
    pub amount: u64,
    pub lamports: u64,
}

} // verus!
