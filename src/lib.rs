//! Escrow settlement for a custodial token: a seller lists the token at a
//! fixed price, one buyer pays that price (less the creators' royalties,
//! which go to the creators) and takes custody, or the seller cancels and
//! takes custody back.
//!
//! Every operation only decides: it checks the accounts that the caller
//! supplied against what it derives or has stored, updates the escrow record
//! and returns the authority changes and payments that the host must apply.

pub mod error;
pub mod pubkey;
pub mod pda;
pub mod royalty;
pub mod escrow;
pub mod lifecycle;

pub use error::EscrowError;
pub use pubkey::Pubkey;
pub use pda::{derive_address, escrow_seed, metadata_seed};
pub use royalty::{Creator, Royalty, RoyaltySplit, split_royalties, lemma_royalty_split_exact};
pub use escrow::{
    Buy, Cancel, EscrowInfo, List, MAX_PRICE, MIN_PRICE, SetAuthority, Settlement, Transfer, buy,
    cancel, cancel_with_authority, list_with_authority, listing, metadata_program_id, settle_buy,
};
pub use lifecycle::{
    lemma_cancel_only_by_seller, lemma_list_cancel_round_trip, lemma_list_once,
    lemma_list_price_out_of_range, lemma_no_double_settlement, lemma_records_stay_well_formed,
};
