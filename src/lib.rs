//! Escrow-based atomic swap of two token denominations.
//!
//! A maker deposits token A into a vault whose authority is an address
//! derived by the program; a taker pays token B to the maker and receives
//! the vault's token A, after which the offer and the vault are closed.

pub mod address;
pub mod creation;
pub mod custody;
pub mod error;
pub mod laws;
pub mod settlement;
pub mod state;

pub use address::{derive_offer_authority, make_offer_seeds, same_address, Address};
pub use creation::{make_offer, make_offer_with_authority, MakeOffer};
pub use custody::{close_vault, transfer_from_vault};
pub use error::SwapError;
pub use settlement::{take_offer, take_offer_with_authority, TakeOffer};
pub use state::{Offer, OfferAccount, Vault};
