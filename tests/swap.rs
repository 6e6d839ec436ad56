use anchor_lang::solana_program::pubkey::Pubkey;
use swap_tok::{
    derive_offer_authority, make_offer, make_offer_seeds, make_offer_with_authority, same_address,
    take_offer, take_offer_with_authority, transfer_from_vault, Address, MakeOffer, Offer,
    OfferAccount, SwapError, TakeOffer, Vault,
};

const PROGRAM: Address = [7u8; 32];
const MAKER: Address = [1u8; 32];
const TAKER: Address = [2u8; 32];
const MINT_A: Address = [10u8; 32];
const MINT_B: Address = [11u8; 32];

fn maker_context(maker_token_a: u64) -> MakeOffer {
    MakeOffer {
        program_id: PROGRAM,
        maker: MAKER,
        token_mint_a: MINT_A,
        token_mint_b: MINT_B,
        maker_token_a,
        maker_lamports: 10_000,
        offer_rent: 300,
        vault_rent: 200,
        offer: None,
        vault: None,
    }
}

fn taker_context(made: &MakeOffer, taker_token_b: u64) -> TakeOffer {
    TakeOffer {
        program_id: made.program_id,
        maker: made.maker,
        taker: TAKER,
        maker_token_b: 0,
        maker_lamports: made.maker_lamports,
        taker_token_a: 0,
        taker_token_b,
        offer: made.offer,
        vault: made.vault,
    }
}

fn expected_authority(maker: &Address, id: u64) -> Address {
    let (key, _) = Pubkey::find_program_address(
        &[b"offer", maker.as_ref(), &id.to_le_bytes()],
        &Pubkey::new_from_array(PROGRAM),
    );
    key.to_bytes()
}

#[test]
fn deposit_100_for_50_then_settle_once() {
    let mut made = maker_context(100);
    assert_eq!(make_offer(&mut made, 1, 100, 50), Ok(()));
    assert_eq!(made.maker_token_a, 0);
    let mut taking = taker_context(&made, 50);
    assert_eq!(take_offer(&mut taking), Ok(()));
    assert_eq!(taking.taker_token_a, 100);
    assert_eq!(taking.maker_token_b, 50);
    assert_eq!(taking.taker_token_b, 0);
    assert_eq!(taking.offer, None);
    assert_eq!(taking.vault, None);
    assert_eq!(take_offer(&mut taking), Err(SwapError::OfferNotFound));
}

#[test]
fn creation_moves_deposit_into_vault() {
    let mut ctx = maker_context(500);
    assert_eq!(make_offer(&mut ctx, 42, 120, 75), Ok(()));
    assert_eq!(ctx.maker_token_a, 380);
    assert_eq!(ctx.maker_lamports, 10_000 - 300 - 200);
    assert_eq!(
        ctx.offer,
        Some(OfferAccount {
            data: Offer {
                id: 42,
                maker: MAKER,
                token_mint_a: MINT_A,
                token_mint_b: MINT_B,
                token_b_wanted_amount: 75,
            },
            lamports: 300,
        })
    );
    assert_eq!(
        ctx.vault,
        Some(Vault { mint: MINT_A, authority: expected_authority(&MAKER, 42), amount: 120, lamports: 200 })
    );
}

#[test]
fn creation_of_zero_is_invalid() {
    let mut ctx = maker_context(500);
    let before = ctx;
    assert_eq!(make_offer(&mut ctx, 1, 0, 50), Err(SwapError::InvalidAmount));
    assert_eq!(ctx, before);
    assert_eq!(ctx.offer, None);
    assert_eq!(ctx.vault, None);
}

#[test]
fn creation_over_live_offer_is_refused() {
    let mut ctx = maker_context(500);
    assert_eq!(make_offer(&mut ctx, 1, 100, 50), Ok(()));
    let live = ctx;
    assert_eq!(make_offer(&mut ctx, 1, 100, 50), Err(SwapError::OfferAlreadyExists));
    assert_eq!(ctx, live);
}

#[test]
fn creation_beyond_balance_is_refused() {
    let mut ctx = maker_context(99);
    let before = ctx;
    assert_eq!(make_offer(&mut ctx, 1, 100, 50), Err(SwapError::InsufficientFunds));
    assert_eq!(ctx, before);
}

#[test]
fn creation_without_rent_is_refused() {
    let mut ctx = maker_context(500);
    ctx.maker_lamports = 499;
    let before = ctx;
    assert_eq!(make_offer(&mut ctx, 1, 100, 50), Err(SwapError::InsufficientFunds));
    assert_eq!(ctx, before);
}

#[test]
fn creation_without_derived_address_is_refused() {
    let mut ctx = maker_context(500);
    let before = ctx;
    assert_eq!(make_offer_with_authority(&mut ctx, 1, 100, 50, None), Err(SwapError::UnauthorizedVaultAccess));
    assert_eq!(ctx, before);
}

#[test]
fn creation_of_whole_balance() {
    let mut ctx = maker_context(u64::MAX);
    assert_eq!(make_offer(&mut ctx, u64::MAX, u64::MAX, u64::MAX), Ok(()));
    assert_eq!(ctx.maker_token_a, 0);
    assert_eq!(ctx.vault.map(|v| v.amount), Some(u64::MAX));
}

#[test]
fn settlement_pays_maker_and_returns_rent() {
    let mut made = maker_context(100);
    assert_eq!(make_offer(&mut made, 9, 60, 40), Ok(()));
    let mut taking = taker_context(&made, 70);
    taking.taker_token_a = 5;
    taking.maker_token_b = 1;
    assert_eq!(take_offer(&mut taking), Ok(()));
    assert_eq!(taking.maker_token_b, 41);
    assert_eq!(taking.taker_token_b, 30);
    assert_eq!(taking.taker_token_a, 65);
    assert_eq!(taking.maker_lamports, 10_000);
    assert_eq!(taking.offer, None);
    assert_eq!(taking.vault, None);
}

#[test]
fn short_taker_is_refused_then_retries() {
    let mut made = maker_context(100);
    assert_eq!(make_offer(&mut made, 3, 100, 50), Ok(()));
    let mut taking = taker_context(&made, 49);
    let before = taking;
    assert_eq!(take_offer(&mut taking), Err(SwapError::InsufficientFunds));
    assert_eq!(taking, before);
    taking.taker_token_b = 50;
    assert_eq!(take_offer(&mut taking), Ok(()));
    assert_eq!(taking.taker_token_a, 100);
}

#[test]
fn settlement_of_missing_offer_is_refused() {
    let made = maker_context(100);
    let mut taking = taker_context(&made, 50);
    assert_eq!(take_offer(&mut taking), Err(SwapError::OfferNotFound));
}

#[test]
fn settlement_with_other_maker_is_refused() {
    let mut made = maker_context(100);
    assert_eq!(make_offer(&mut made, 1, 100, 50), Ok(()));
    let mut taking = taker_context(&made, 50);
    taking.maker = TAKER;
    let before = taking;
    assert_eq!(take_offer(&mut taking), Err(SwapError::UnauthorizedVaultAccess));
    assert_eq!(taking, before);
}

#[test]
fn settlement_of_foreign_vault_is_refused() {
    let mut made = maker_context(100);
    assert_eq!(make_offer(&mut made, 1, 100, 50), Ok(()));
    let mut taking = taker_context(&made, 50);
    taking.vault = taking.vault.map(|v| Vault { authority: expected_authority(&MAKER, 2), ..v });
    let before = taking;
    assert_eq!(take_offer(&mut taking), Err(SwapError::UnauthorizedVaultAccess));
    assert_eq!(taking, before);
}

#[test]
fn settlement_without_derived_address_is_refused() {
    let mut made = maker_context(100);
    assert_eq!(make_offer(&mut made, 1, 100, 50), Ok(()));
    let mut taking = taker_context(&made, 50);
    let before = taking;
    assert_eq!(take_offer_with_authority(&mut taking, None), Err(SwapError::UnauthorizedVaultAccess));
    assert_eq!(taking, before);
}

#[test]
fn vault_transfer_checks_authority_then_balance() {
    let authority = expected_authority(&MAKER, 5);
    let mut vault = Vault { mint: MINT_A, authority, amount: 30, lamports: 200 };
    let mut dest: u64 = 4;
    assert_eq!(transfer_from_vault(&mut vault, &mut dest, 10, &MAKER), Err(SwapError::UnauthorizedVaultAccess));
    assert_eq!((vault.amount, dest), (30, 4));
    assert_eq!(transfer_from_vault(&mut vault, &mut dest, 31, &authority), Err(SwapError::InsufficientFunds));
    assert_eq!((vault.amount, dest), (30, 4));
    assert_eq!(transfer_from_vault(&mut vault, &mut dest, 30, &authority), Ok(()));
    assert_eq!((vault.amount, dest), (0, 34));
}

#[test]
fn derived_authority_matches_program_address() {
    let derived = derive_offer_authority(&PROGRAM, &MAKER, 1);
    assert_eq!(derived, Some(expected_authority(&MAKER, 1)));
    assert_ne!(derived, Some(MAKER));
    assert_ne!(derived, Some(PROGRAM));
    assert_ne!(derived, derive_offer_authority(&PROGRAM, &MAKER, 2));
}

#[test]
fn offer_seeds_are_tag_maker_and_id() {
    let seeds = make_offer_seeds(&MAKER, 0x0102030405060708);
    assert_eq!(seeds.len(), 3);
    assert_eq!(seeds[0], b"offer".to_vec());
    assert_eq!(seeds[1], MAKER.to_vec());
    assert_eq!(seeds[2], vec![8, 7, 6, 5, 4, 3, 2, 1]);
}

#[test]
fn addresses_compare_by_bytes() {
    let mut other = MAKER;
    assert!(same_address(&MAKER, &other));
    other[31] = 0;
    assert!(!same_address(&MAKER, &other));
}
