//! What holds of every creation and settlement.

use vstd::prelude::*;
use crate::creation::{MakeOffer, make_offer_error, offer_made};
use crate::error::SwapError;
use crate::settlement::{TakeOffer, offer_taken, settlement_authority, take_offer_error};

verus! {

/// A creation with a positive deposit, at an address where nothing lives,
/// by a maker who can pay, and whose address derives, succeeds; afterwards
/// the maker holds exactly `amount_a` less token A, the vault holds
/// `amount_a`, and the record at the address is offer `id` of the maker
/// wanting `amount_b` of token B.
pub proof fn lemma_creation_deposits(
    pre: MakeOffer,
    post: MakeOffer,
    id: u64,
    amount_a: u64,
    amount_b: u64,
    authority: Option<Seq<u8>>,
)
    requires
        amount_a > 0,
        pre.offer is None,
        pre.vault is None,
        pre.maker_token_a >= amount_a,
        pre.maker_lamports >= pre.offer_rent + pre.vault_rent,
        authority is Some,
    ensures
        make_offer_error(pre, amount_a, authority is Some) is None,
        offer_made(pre, post, id, amount_a, amount_b, authority) ==> {
            &&& post.maker_token_a == pre.maker_token_a - amount_a
            &&& post.vault matches Some(v) && v.amount == amount_a
            &&& post.offer matches Some(o) && o.data.id == id && o.data.maker == pre.maker
                && o.data.token_b_wanted_amount == amount_b
        },
{
}

/// A creation that deposits nothing is refused as an invalid amount,
/// whatever else holds; a refused creation changes nothing, so no offer
/// or vault comes of it.
pub proof fn lemma_zero_deposit_refused(ctx: MakeOffer, authority_found: bool)
    ensures
        make_offer_error(ctx, 0, authority_found) == Some(SwapError::InvalidAmount),
{
}

/// A creation with a positive deposit where an offer or a vault already
/// lives is refused as an existing offer; a refused creation leaves the
/// accounts as they were.
pub proof fn lemma_existing_offer_refused(ctx: MakeOffer, amount_a: u64, authority_found: bool)
    requires
        amount_a > 0,
        ctx.offer is Some || ctx.vault is Some,
    ensures
        make_offer_error(ctx, amount_a, authority_found) == Some(SwapError::OfferAlreadyExists),
{
}

/// An offer that was created can be settled by any taker who holds the
/// wanted token B, with the maker's own accounts: the maker gains exactly
/// `amount_b` of token B, the taker gains exactly the deposited `amount_a`
/// of token A and pays `amount_b`, and offer and vault are gone.
pub proof fn lemma_settlement_swaps(
    made_pre: MakeOffer,
    made_post: MakeOffer,
    id: u64,
    amount_a: u64,
    amount_b: u64,
    take_pre: TakeOffer,
    take_post: TakeOffer,
)
    requires
        offer_made(made_pre, made_post, id, amount_a, amount_b,
            crate::address::offer_authority(made_pre.program_id@, made_pre.maker@, id)),
        take_pre.program_id == made_pre.program_id,
        take_pre.maker == made_pre.maker,
        take_pre.offer == made_post.offer,
        take_pre.vault == made_post.vault,
        take_pre.taker_token_b >= amount_b,
    ensures
        take_offer_error(take_pre, settlement_authority(take_pre)) is None,
        offer_taken(take_pre, take_post) ==> {
            &&& take_post.maker_token_b == take_pre.maker_token_b + amount_b
            &&& take_post.taker_token_b == take_pre.taker_token_b - amount_b
            &&& take_post.taker_token_a == take_pre.taker_token_a + amount_a
            &&& take_post.offer is None
            &&& take_post.vault is None
        },
{
}

/// A taker short of the wanted token B is refused for want of funds,
/// whatever authority was derived, and a refused settlement leaves offer
/// and vault in place; the same offer, taken once the taker holds enough,
/// is refused neither for funds nor as missing.
pub proof fn lemma_short_taker_refused(ctx: TakeOffer, derived: Option<Seq<u8>>, funded: u64)
    requires
        ctx.offer matches Some(o) && ctx.vault is Some && ctx.taker_token_b < o.data.token_b_wanted_amount,
        funded >= ctx.offer->0.data.token_b_wanted_amount,
    ensures
        take_offer_error(ctx, derived) == Some(SwapError::InsufficientFunds),
        ({
            let retry = TakeOffer { taker_token_b: funded, ..ctx };
            take_offer_error(retry, derived) != Some(SwapError::InsufficientFunds)
                && take_offer_error(retry, derived) != Some(SwapError::OfferNotFound)
        }),
{
}

/// Settlement where no offer or no vault lives is refused as not found,
/// and so is every settlement of an offer that was already settled.
pub proof fn lemma_missing_offer_refused(ctx: TakeOffer, settled: TakeOffer, derived: Option<Seq<u8>>)
    ensures
        ctx.offer is None || ctx.vault is None ==> take_offer_error(ctx, derived) == Some(SwapError::OfferNotFound),
        offer_taken(ctx, settled) ==> take_offer_error(settled, derived) == Some(SwapError::OfferNotFound),
{
}

} // verus!
