//! Offer creation: the maker deposits token A into a fresh vault and the
//! terms of the swap are persisted.

use vstd::prelude::*;
use crate::address::{Address, address_view, derive_offer_authority, offer_authority};
use crate::error::SwapError;
use crate::state::{Offer, OfferAccount, Vault};

verus! {

/// The accounts that offer creation reads and writes.
#[derive(Clone, Copy, Debug, PartialEq, Eq)]
pub struct MakeOffer {
    /// The id of this program, from which offer addresses are derived.
    pub program_id: Address,
    pub maker: Address,
    pub token_mint_a: Address,
    pub token_mint_b: Address,
    /// The token-A balance of the maker.
    pub maker_token_a: u64,
    /// The lamports of the maker, who pays for the new accounts' storage.
    pub maker_lamports: u64,
    /// The storage cost of the offer account.
    pub offer_rent: u64,
    /// The storage cost of the vault.
    pub vault_rent: u64,
    /// What lives at the offer's derived address.
    pub offer: Option<OfferAccount>,
    /// What lives at the vault's address.
    pub vault: Option<Vault>,
}

/// Why creating offer `id` with a deposit of `amount_a` is refused, if it
/// is; `authority_found` tells whether the offer's address could be derived.
pub open spec fn make_offer_error(ctx: MakeOffer, amount_a: u64, authority_found: bool) -> Option<SwapError> {
    if amount_a == 0 {
        Some(SwapError::InvalidAmount)
    } else if ctx.offer is Some || ctx.vault is Some {
        Some(SwapError::OfferAlreadyExists)
    } else if ctx.maker_token_a < amount_a || ctx.maker_lamports < ctx.offer_rent + ctx.vault_rent {
        Some(SwapError::InsufficientFunds)
    } else if !authority_found {
        Some(SwapError::UnauthorizedVaultAccess)
    } else {
        None
    }
}

/// The offer record that creation persists.
pub open spec fn offer_terms(ctx: MakeOffer, id: u64, token_b_wanted_amount: u64) -> Offer {
    Offer {
        id,
        maker: ctx.maker,
        token_mint_a: ctx.token_mint_a,
        token_mint_b: ctx.token_mint_b,
        token_b_wanted_amount,
    }
}

/// `post` is `pre` after offer `id` was created with a deposit of
/// `amount_a` and a demand of `amount_b`, its vault under `authority`.
pub open spec fn offer_made(
    pre: MakeOffer,
    post: MakeOffer,
    id: u64,
    amount_a: u64,
    amount_b: u64,
    authority: Option<Seq<u8>>,
) -> bool {
    &&& post.program_id == pre.program_id
    &&& post.maker == pre.maker
    &&& post.token_mint_a == pre.token_mint_a
    &&& post.token_mint_b == pre.token_mint_b
    &&& post.offer_rent == pre.offer_rent
    &&& post.vault_rent == pre.vault_rent
    &&& post.maker_token_a == pre.maker_token_a - amount_a
    &&& post.maker_lamports == pre.maker_lamports - pre.offer_rent - pre.vault_rent
    &&& post.offer == Some(OfferAccount { data: offer_terms(pre, id, amount_b), lamports: pre.offer_rent })
    &&& post.vault matches Some(v)
    &&& v.mint == pre.token_mint_a
    &&& authority == Some(v.authority@)
    &&& v.amount == amount_a
    &&& v.lamports == pre.vault_rent
}

/// Creates the vault under `authority` and moves `amount` of the maker's
/// token A into it.
fn send_offered_tokens_to_vault(ctx: &mut MakeOffer, amount: u64, authority: Address)
    requires
        old(ctx).vault is None,
        old(ctx).maker_token_a >= amount,
        old(ctx).maker_lamports >= old(ctx).vault_rent,
    ensures
        *final(ctx) == (MakeOffer {
            maker_token_a: (old(ctx).maker_token_a - amount) as u64,
            maker_lamports: (old(ctx).maker_lamports - old(ctx).vault_rent) as u64,
            vault: Some(Vault {
                mint: old(ctx).token_mint_a,
                authority,
                amount,
                lamports: old(ctx).vault_rent,
            }),
            ..*old(ctx)
        }),
{
    ctx.maker_lamports = ctx.maker_lamports - ctx.vault_rent;
    ctx.maker_token_a = ctx.maker_token_a - amount;
    ctx.vault = Some(Vault { mint: ctx.token_mint_a, authority, amount, lamports: ctx.vault_rent });
}

/// Persists the offer record `id`, which wants `token_b_wanted_amount` of token B.
fn save_offer(ctx: &mut MakeOffer, id: u64, token_b_wanted_amount: u64)
    requires
        old(ctx).offer is None,
        old(ctx).maker_lamports >= old(ctx).offer_rent,
    ensures
        *final(ctx) == (MakeOffer {
            maker_lamports: (old(ctx).maker_lamports - old(ctx).offer_rent) as u64,
            offer: Some(OfferAccount {
                data: offer_terms(*old(ctx), id, token_b_wanted_amount),
                lamports: old(ctx).offer_rent,
            }),
            ..*old(ctx)
        }),
{
    let data = Offer {
        id,
        maker: ctx.maker,
        token_mint_a: ctx.token_mint_a,
        token_mint_b: ctx.token_mint_b,
        token_b_wanted_amount,
    };
    ctx.maker_lamports = ctx.maker_lamports - ctx.offer_rent;
    ctx.offer = Some(OfferAccount { data, lamports: ctx.offer_rent });
}

/// Creates offer `id` given the outcome of deriving its address: every
/// check comes before any change, so a refused creation changes nothing.
pub fn make_offer_with_authority(
    ctx: &mut MakeOffer,
    id: u64,
    token_a_offered_amount: u64,
    token_b_offered_amount: u64,
    authority: Option<Address>,
) -> (r: Result<(), SwapError>)
    ensures
        match make_offer_error(*old(ctx), token_a_offered_amount, authority is Some) {
            Some(e) => r == Err::<(), SwapError>(e) && *final(ctx) == *old(ctx),
            None => r is Ok && offer_made(
                *old(ctx),
                *final(ctx),
                id,
                token_a_offered_amount,
                token_b_offered_amount,
                address_view(authority),
            ),
        },
{
    if token_a_offered_amount == 0 {
        return Err(SwapError::InvalidAmount);
    }
    if ctx.offer.is_some() || ctx.vault.is_some() {
        return Err(SwapError::OfferAlreadyExists);
    }
    if ctx.maker_token_a < token_a_offered_amount || ctx.maker_lamports < ctx.offer_rent
        || ctx.maker_lamports - ctx.offer_rent < ctx.vault_rent {
        return Err(SwapError::InsufficientFunds);
    }
    let vault_authority = match authority {
        Some(a) => a,
        None => {
            return Err(SwapError::UnauthorizedVaultAccess);
        },
    };
    send_offered_tokens_to_vault(ctx, token_a_offered_amount, vault_authority);
    save_offer(ctx, id, token_b_offered_amount);
    Ok(())
}

/// Creates offer `id` of the maker: derives the offer's address, which is
/// the vault's authority, then deposits `token_a_offered_amount` of token A
/// into a new vault and persists the terms.
pub fn make_offer(
    ctx: &mut MakeOffer,
    id: u64,
    token_a_offered_amount: u64,
    token_b_offered_amount: u64,
) -> (r: Result<(), SwapError>)
    ensures
        ({
            let authority = offer_authority(old(ctx).program_id@, old(ctx).maker@, id);
            match make_offer_error(*old(ctx), token_a_offered_amount, authority is Some) {
                Some(e) => r == Err::<(), SwapError>(e) && *final(ctx) == *old(ctx),
                None => r is Ok && offer_made(
                    *old(ctx),
                    *final(ctx),
                    id,
                    token_a_offered_amount,
                    token_b_offered_amount,
                    authority,
                ),
            }
        }),
{
    let authority = derive_offer_authority(&ctx.program_id, &ctx.maker, id);
    make_offer_with_authority(ctx, id, token_a_offered_amount, token_b_offered_amount, authority)
}

} // verus!
