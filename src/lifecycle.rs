use vstd::prelude::*;
use crate::error::EscrowError;
use crate::escrow::{
    Buy,
    Cancel,
    List,
    bought,
    buy_error,
    cancel_authority,
    cancel_error,
    cancelled,
    is_fresh,
    list_authority,
    list_error,
    listed,
    price_in_range,
    vault_of,
};
use crate::pubkey::Pubkey;
use crate::royalty::Royalty;

verus! {

/// A listing signed by the seller, at a price in range, on a fresh record
/// whose custody authority can be derived, goes through and activates the
/// record; any later signed listing at a price in range against that record
/// is refused with a state conflict.
pub proof fn lemma_list_once(
    ctx: List,
    selling_amount: u64,
    index: u8,
    again: List,
    again_amount: u64,
)
    requires
        ctx.initializer_is_signer,
        is_fresh(ctx.escrow_account),
        price_in_range(selling_amount),
        vault_of(ctx.program_id, ctx.escrow_key) is Some,
        again.escrow_account == listed(ctx, selling_amount, index).escrow_account,
        again.initializer_is_signer,
        price_in_range(again_amount),
    ensures
        list_error(ctx, vault_of(ctx.program_id, ctx.escrow_key), selling_amount) is None,
        listed(ctx, selling_amount, index).escrow_account.is_initialized,
        list_error(again, vault_of(again.program_id, again.escrow_key), again_amount) == Some(
            EscrowError::StateConflict,
        ),
{
}

/// A signed listing at a price outside `[MIN_PRICE, MAX_PRICE)` is refused
/// as an invalid parameter (and a refused listing changes nothing).
pub proof fn lemma_list_price_out_of_range(ctx: List, vault: Option<Pubkey>, selling_amount: u64)
    requires
        ctx.initializer_is_signer,
        !price_in_range(selling_amount),
    ensures
        list_error(ctx, vault, selling_amount) == Some(EscrowError::InvalidParameter),
{
}

/// Once a purchase has gone through, every later purchase and every
/// cancellation against the settled record is refused with a state
/// conflict.
pub proof fn lemma_no_double_settlement(
    ctx: Buy,
    expected_price: u64,
    vault: Option<Pubkey>,
    buyer_pda: Option<Pubkey>,
    metadata_key: Option<Pubkey>,
    royalty: Royalty,
    again: Buy,
    again_price: u64,
    again_vault: Option<Pubkey>,
    again_pda: Option<Pubkey>,
    again_metadata_key: Option<Pubkey>,
    again_royalty: Royalty,
    cancel_ctx: Cancel,
    escrow_pda: Option<Pubkey>,
)
    requires
        buy_error(ctx, expected_price, vault, buyer_pda, metadata_key, royalty) is None,
        again.escrow_info == bought(ctx).escrow_info,
        cancel_ctx.escrow_info == bought(ctx).escrow_info,
    ensures
        buy_error(again, again_price, again_vault, again_pda, again_metadata_key, again_royalty) == Some(
            EscrowError::StateConflict,
        ),
        cancel_error(cancel_ctx, escrow_pda) == Some(EscrowError::StateConflict),
{
}

/// Only the seller, signing, can cancel: a cancellation that goes through
/// was signed by the record's seller, and one by anybody else against an
/// active record is refused as unauthorized (and leaves the record active).
pub proof fn lemma_cancel_only_by_seller(ctx: Cancel, escrow_pda: Option<Pubkey>)
    ensures
        cancel_error(ctx, escrow_pda) is None ==> ctx.user_is_signer && ctx.user@
            == ctx.escrow_info.seller@,
        ctx.escrow_info.is_initialized && ctx.user@ != ctx.escrow_info.seller@ ==> cancel_error(
            ctx,
            escrow_pda,
        ) == Some(EscrowError::Unauthorized),
{
}

/// Listing and then cancelling, signed by the seller with the accounts of
/// the listing, gives the custody account from the derived authority back
/// to the seller and settles the record, after which any purchase is
/// refused with a state conflict.
pub proof fn lemma_list_cancel_round_trip(
    l: List,
    selling_amount: u64,
    index: u8,
    c: Cancel,
    b: Buy,
    expected_price: u64,
    vault: Option<Pubkey>,
    buyer_pda: Option<Pubkey>,
    metadata_key: Option<Pubkey>,
    royalty: Royalty,
)
    requires
        list_error(l, vault_of(l.program_id, l.escrow_key), selling_amount) is None,
        c.program_id == l.program_id,
        c.escrow_key == l.escrow_key,
        c.user == l.initializer,
        c.user_is_signer,
        c.pdas_token_account == l.token_account,
        c.pda_account == vault_of(l.program_id, l.escrow_key)->0,
        c.escrow_info == listed(l, selling_amount, index).escrow_account,
        b.escrow_info == cancelled(c).escrow_info,
    ensures
        cancel_error(c, vault_of(c.program_id, c.escrow_key)) is None,
        cancel_authority(c).account_or_mint == list_authority(
            l,
            vault_of(l.program_id, l.escrow_key)->0,
        ).account_or_mint,
        cancel_authority(c).current_authority == list_authority(
            l,
            vault_of(l.program_id, l.escrow_key)->0,
        ).new_authority,
        cancel_authority(c).new_authority == l.initializer,
        !cancelled(c).escrow_info.is_initialized,
        buy_error(b, expected_price, vault, buyer_pda, metadata_key, royalty) == Some(
            EscrowError::StateConflict,
        ),
{
}

/// Every record that an operation writes is well formed: a listing writes
/// an active record with a price in range, and a purchase or a cancellation
/// only deactivates one.
pub proof fn lemma_records_stay_well_formed(
    l: List,
    selling_amount: u64,
    index: u8,
    b: Buy,
    c: Cancel,
)
    ensures
        list_error(l, vault_of(l.program_id, l.escrow_key), selling_amount) is None ==> listed(
            l,
            selling_amount,
            index,
        ).escrow_account.wf(),
        bought(b).escrow_info.wf(),
        cancelled(c).escrow_info.wf(),
{
}

} // verus!
