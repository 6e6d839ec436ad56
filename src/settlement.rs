//! Offer settlement: the taker pays token B to the maker, receives the
//! vault's token A, and the offer and the vault are closed.

use vstd::prelude::*;
use crate::address::{Address, address_view, derive_offer_authority, offer_authority, same_address};
use crate::custody::{close_vault, transfer_from_vault};
use crate::error::SwapError;
use crate::state::{OfferAccount, Vault};

verus! {

/// The accounts that offer settlement reads and writes.
#[derive(Clone, Copy, Debug, PartialEq, Eq)]
pub struct TakeOffer {
    /// The id of this program, from which offer addresses are derived.
    pub program_id: Address,
    pub maker: Address,
    pub taker: Address,
    /// The token-B balance of the maker.
    pub maker_token_b: u64,
    /// The lamports of the maker, who gets back the closed accounts' storage.
    pub maker_lamports: u64,
    /// The token-A balance of the taker.
    pub taker_token_a: u64,
    /// The token-B balance of the taker.
    pub taker_token_b: u64,
    /// What lives at the offer's address.
    pub offer: Option<OfferAccount>,
    /// What lives at the vault's address.
    pub vault: Option<Vault>,
}

/// Whether every balance that settlement raises stays within `u64`.
pub open spec fn settlement_fits(ctx: TakeOffer) -> bool {
    match (ctx.offer, ctx.vault) {
        (Some(o), Some(v)) => {
            &&& ctx.maker_token_b + o.data.token_b_wanted_amount <= u64::MAX
            &&& ctx.taker_token_a + v.amount <= u64::MAX
            &&& ctx.maker_lamports + o.lamports + v.lamports <= u64::MAX
        },
        _ => true,
    }
}

/// The authority derived for the offer of `ctx` from its maker and id.
pub open spec fn settlement_authority(ctx: TakeOffer) -> Option<Seq<u8>> {
    match ctx.offer {
        Some(o) => offer_authority(ctx.program_id@, ctx.maker@, o.data.id),
        None => None,
    }
}

/// Why settlement is refused, if it is, given the authority `derived` from
/// the maker and the offer's id.
pub open spec fn take_offer_error(ctx: TakeOffer, derived: Option<Seq<u8>>) -> Option<SwapError> {
    match (ctx.offer, ctx.vault) {
        (Some(o), Some(v)) => {
            if ctx.taker_token_b < o.data.token_b_wanted_amount {
                Some(SwapError::InsufficientFunds)
            } else if o.data.maker@ != ctx.maker@ || derived != Some(v.authority@) {
                Some(SwapError::UnauthorizedVaultAccess)
            } else {
                None
            }
        },
        _ => Some(SwapError::OfferNotFound),
    }
}

/// `post` is `pre` after the taker settled the offer: the maker got the
/// wanted token B and the storage of both closed accounts, the taker got
/// the whole vault.
pub open spec fn offer_taken(pre: TakeOffer, post: TakeOffer) -> bool {
    match (pre.offer, pre.vault) {
        (Some(o), Some(v)) => {
            &&& post.program_id == pre.program_id
            &&& post.maker == pre.maker
            &&& post.taker == pre.taker
            &&& post.maker_token_b == pre.maker_token_b + o.data.token_b_wanted_amount
            &&& post.taker_token_b == pre.taker_token_b - o.data.token_b_wanted_amount
            &&& post.taker_token_a == pre.taker_token_a + v.amount
            &&& post.maker_lamports == pre.maker_lamports + o.lamports + v.lamports
            &&& post.offer is None
            &&& post.vault is None
        },
        _ => false,
    }
}

/// Moves the wanted amount of token B from the taker to the maker.
fn send_wanted_tokens_to_maker(ctx: &mut TakeOffer)
    requires
        old(ctx).offer matches Some(o)
            && old(ctx).taker_token_b >= o.data.token_b_wanted_amount
            && old(ctx).maker_token_b + o.data.token_b_wanted_amount <= u64::MAX,
    ensures
        ({
            let wanted = old(ctx).offer->0.data.token_b_wanted_amount;
            *final(ctx) == (TakeOffer {
                taker_token_b: (old(ctx).taker_token_b - wanted) as u64,
                maker_token_b: (old(ctx).maker_token_b + wanted) as u64,
                ..*old(ctx)
            })
        }),
{
    let wanted: u64 = match &ctx.offer {
        Some(o) => o.data.token_b_wanted_amount,
        None => 0,
    };
    ctx.taker_token_b = ctx.taker_token_b - wanted;
    ctx.maker_token_b = ctx.maker_token_b + wanted;
}

/// Moves the whole vault to the taker under the derived authority, then
/// closes the vault and the offer, their storage going to the maker.
fn withdraw_and_close_vault(ctx: &mut TakeOffer, derived: &Address)
    requires
        old(ctx).offer matches Some(o) && old(ctx).vault matches Some(v)
            && v.authority@ == derived@
            && old(ctx).taker_token_a + v.amount <= u64::MAX
            && old(ctx).maker_lamports + o.lamports + v.lamports <= u64::MAX,
    ensures
        ({
            let o = old(ctx).offer->0;
            let v = old(ctx).vault->0;
            *final(ctx) == (TakeOffer {
                taker_token_a: (old(ctx).taker_token_a + v.amount) as u64,
                maker_lamports: (old(ctx).maker_lamports + o.lamports + v.lamports) as u64,
                offer: None,
                vault: None,
                ..*old(ctx)
            })
        }),
{
    let mut vault: Vault = match ctx.vault {
        Some(v) => v,
        None => {
            return;
        },
    };
    let amount = vault.amount;
    let moved = transfer_from_vault(&mut vault, &mut ctx.taker_token_a, amount, derived);
    assert(moved is Ok);
    let mut closing: Option<Vault> = Some(vault);
    close_vault(&mut closing, &mut ctx.maker_lamports);
    ctx.vault = None;
    let offer_lamports: u64 = match &ctx.offer {
        Some(o) => o.lamports,
        None => 0,
    };
    ctx.maker_lamports = ctx.maker_lamports + offer_lamports;
    ctx.offer = None;
}

/// Settles the offer of `ctx` given the authority `derived` from the maker
/// and the offer's id: every check comes before any change, so a refused
/// settlement changes nothing.
pub fn take_offer_with_authority(ctx: &mut TakeOffer, derived: Option<Address>) -> (r: Result<(), SwapError>)
    requires
        settlement_fits(*old(ctx)),
    ensures
        match take_offer_error(*old(ctx), address_view(derived)) {
            Some(e) => r == Err::<(), SwapError>(e) && *final(ctx) == *old(ctx),
            None => r is Ok && offer_taken(*old(ctx), *final(ctx)),
        },
{
    let (offer, vault) = match (&ctx.offer, &ctx.vault) {
        (Some(o), Some(v)) => (*o, *v),
        _ => {
            return Err(SwapError::OfferNotFound);
        },
    };
    if ctx.taker_token_b < offer.data.token_b_wanted_amount {
        return Err(SwapError::InsufficientFunds);
    }
    if !same_address(&offer.data.maker, &ctx.maker) {
        return Err(SwapError::UnauthorizedVaultAccess);
    }
    let authority = match derived {
        Some(a) => a,
        None => {
            return Err(SwapError::UnauthorizedVaultAccess);
        },
    };
    if !same_address(&authority, &vault.authority) {
        return Err(SwapError::UnauthorizedVaultAccess);
    }
    send_wanted_tokens_to_maker(ctx);
    withdraw_and_close_vault(ctx, &authority);
    Ok(())
}

/// Settles the offer of `ctx`: derives the vault's authority from the maker
/// and the offer's id, has the taker pay the maker, moves the vault to the
/// taker, and closes the offer and the vault.
pub fn take_offer(ctx: &mut TakeOffer) -> (r: Result<(), SwapError>)
    requires
        settlement_fits(*old(ctx)),
    ensures
        match take_offer_error(*old(ctx), settlement_authority(*old(ctx))) {
            Some(e) => r == Err::<(), SwapError>(e) && *final(ctx) == *old(ctx),
            None => r is Ok && offer_taken(*old(ctx), *final(ctx)),
        },
{
    let derived = match &ctx.offer {
        Some(o) => derive_offer_authority(&ctx.program_id, &ctx.maker, o.data.id),
        None => None,
    };
    take_offer_with_authority(ctx, derived)
}

} // verus!
