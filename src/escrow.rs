use vstd::prelude::*;
use crate::error::EscrowError;
use crate::pda::{derive_address, derived_key, escrow_seed, escrow_seeds, metadata_seed, metadata_seeds};
use crate::pubkey::Pubkey;
use crate::royalty::{
    Creator,
    Royalty,
    creator_fee,
    fees_of,
    fees_view,
    royalty_total,
    split_royalties,
    total_fee,
};

verus! {

/// The lowest price a token can be listed at.
pub const MIN_PRICE: u64 = 1000;

/// Listing prices must stay below this bound.
pub const MAX_PRICE: u64 = 1000000000;

/// The escrow record of one listing.
#[derive(Clone, Copy, Debug)]
pub struct EscrowInfo {
    /// True while the listing is neither sold nor cancelled.
    pub is_initialized: bool,
    pub seller: Pubkey,
    /// The token account that holds the listed token.
    pub token_account_pubkey: Pubkey,
    pub mint_key: Pubkey,
    /// The price.
    pub amount: u64,
    pub index: u8,
}

impl EscrowInfo {
    /// An active record holds a price in range: only a listing activates a
    /// record, and it checks the price.
    pub open spec fn wf(self) -> bool {
        self.is_initialized ==> price_in_range(self.amount)
    }
}

/// A change of the owner of a token account, for the token program to apply.
#[derive(Clone, Copy, Debug)]
pub struct SetAuthority {
    pub account_or_mint: Pubkey,
    pub current_authority: Pubkey,
    pub new_authority: Pubkey,
}

/// A payment, for the token program to apply.
#[derive(Clone, Copy, Debug)]
pub struct Transfer {
    pub from: Pubkey,
    pub to: Pubkey,
    pub authority: Pubkey,
    pub amount: u64,
}

/// What a purchase asks of the token program: the payments, in order,
/// then the change of the custody account's owner.
#[derive(Debug)]
pub struct Settlement {
    pub transfers: Vec<Transfer>,
    pub set_authority: SetAuthority,
}

/// The accounts of a listing.
#[derive(Clone, Copy, Debug)]
pub struct List {
    pub program_id: Pubkey,
    pub initializer: Pubkey,
    pub initializer_is_signer: bool,
    pub mint_key: Pubkey,
    /// The custody account, owned by the seller until the listing.
    pub token_account: Pubkey,
    /// The address of the escrow record.
    pub escrow_key: Pubkey,
    pub escrow_account: EscrowInfo,
}

/// The accounts of a purchase.
#[derive(Debug)]
pub struct Buy {
    pub program_id: Pubkey,
    pub buyer: Pubkey,
    pub buyer_is_signer: bool,
    pub mint_key: Pubkey,
    /// The address of the escrow record.
    pub escrow_key: Pubkey,
    pub escrow_info: EscrowInfo,
    /// The seller's account, which receives the proceeds.
    pub initializers_main_account: Pubkey,
    /// The custody account.
    pub pdas_token_account: Pubkey,
    pub pda_account: Pubkey,
    pub metadata_info: Pubkey,
    /// The present owner of the custody account.
    pub token_account_authority: Pubkey,
    /// One payout account per creator, in the metadata's order.
    pub creator_accounts: Vec<Pubkey>,
    /// The program that owns the token metadata.
    pub token_meta_program: Pubkey,
}

/// The accounts of a cancellation.
#[derive(Clone, Copy, Debug)]
pub struct Cancel {
    pub program_id: Pubkey,
    pub user: Pubkey,
    pub user_is_signer: bool,
    /// The custody authority derived from the escrow record's address.
    pub pda_account: Pubkey,
    /// The custody account.
    pub pdas_token_account: Pubkey,
    /// The address of the escrow record.
    pub escrow_key: Pubkey,
    pub escrow_info: EscrowInfo,
}

pub open spec fn price_in_range(price: u64) -> bool {
    MIN_PRICE <= price < MAX_PRICE
}

/// A record that no listing has used.
pub open spec fn is_fresh(r: EscrowInfo) -> bool {
    !r.is_initialized && r.amount == 0
}

/// Why a listing is refused, if it is; `vault` is the derived custody
/// authority of the record.
pub open spec fn list_error(ctx: List, vault: Option<Pubkey>, selling_amount: u64) -> Option<
    EscrowError,
> {
    if !ctx.initializer_is_signer {
        Some(EscrowError::Unauthorized)
    } else if !price_in_range(selling_amount) {
        Some(EscrowError::InvalidParameter)
    } else if !is_fresh(ctx.escrow_account) {
        Some(EscrowError::StateConflict)
    } else if vault is None {
        Some(EscrowError::NoProgramAddress)
    } else {
        None
    }
}

/// The record that a listing writes.
pub open spec fn listed_record(ctx: List, selling_amount: u64, index: u8) -> EscrowInfo {
    EscrowInfo {
        is_initialized: true,
        seller: ctx.initializer,
        token_account_pubkey: ctx.token_account,
        mint_key: ctx.mint_key,
        amount: selling_amount,
        index,
    }
}

/// The accounts after a listing.
pub open spec fn listed(ctx: List, selling_amount: u64, index: u8) -> List {
    List { escrow_account: listed_record(ctx, selling_amount, index), ..ctx }
}

/// The authority change of a listing: the custody account passes from the
/// seller to `vault`.
pub open spec fn list_authority(ctx: List, vault: Pubkey) -> SetAuthority {
    SetAuthority {
        account_or_mint: ctx.token_account,
        current_authority: ctx.initializer,
        new_authority: vault,
    }
}

/// The custody authority of the record at `escrow_key`.
pub open spec fn vault_of(program_id: Pubkey, escrow_key: Pubkey) -> Option<Pubkey> {
    derived_key(escrow_seeds(escrow_key@), program_id@)
}

impl List {
    pub fn set_authority_context(&self, new_authority: Pubkey) -> (r: SetAuthority)
        ensures
            r == list_authority(*self, new_authority),
    {
        SetAuthority {
            account_or_mint: self.token_account,
            current_authority: self.initializer,
            new_authority,
        }
    }
}

/// Lists the token at `selling_amount`, with `vault_authority` as the
/// custody authority derived from the record's address.
pub fn list_with_authority(
    ctx: &mut List,
    vault_authority: Option<Pubkey>,
    selling_amount: u64,
    index: u8,
) -> (r: Result<SetAuthority, EscrowError>)
    ensures
        list_error(*old(ctx), vault_authority, selling_amount) matches Some(e) ==> {
            &&& r == Err::<SetAuthority, EscrowError>(e)
            &&& *final(ctx) == *old(ctx)
        },
        list_error(*old(ctx), vault_authority, selling_amount) is None ==> {
            &&& r == Ok::<SetAuthority, EscrowError>(
                list_authority(*old(ctx), vault_authority->0),
            )
            &&& *final(ctx) == listed(*old(ctx), selling_amount, index)
        },
{
    if !ctx.initializer_is_signer {
        return Err(EscrowError::Unauthorized);
    }
    if selling_amount < MIN_PRICE {
        return Err(EscrowError::InvalidParameter);
    }
    if selling_amount >= MAX_PRICE {
        return Err(EscrowError::InvalidParameter);
    }
    if ctx.escrow_account.is_initialized {
        return Err(EscrowError::StateConflict);
    }
    if ctx.escrow_account.amount > 0 {
        return Err(EscrowError::StateConflict);
    }
    let vault = match vault_authority {
        Some(v) => v,
        None => {
            return Err(EscrowError::NoProgramAddress);
        },
    };
    ctx.escrow_account = EscrowInfo {
        is_initialized: true,
        seller: ctx.initializer,
        token_account_pubkey: ctx.token_account,
        mint_key: ctx.mint_key,
        amount: selling_amount,
        index,
    };
    Ok(ctx.set_authority_context(vault))
}

/// Lists the token at `selling_amount`: records the listing in the escrow
/// record and hands the custody account to the authority derived from the
/// record's address. The bump hint is not needed: the authority is derived
/// anew.
pub fn listing(ctx: &mut List, _vault_account_bump: u8, selling_amount: u64, index: u8) -> (r:
    Result<SetAuthority, EscrowError>)
    ensures
        ({
            let vault = vault_of(old(ctx).program_id, old(ctx).escrow_key);
            &&& list_error(*old(ctx), vault, selling_amount) matches Some(e) ==> {
                &&& r == Err::<SetAuthority, EscrowError>(e)
                &&& *final(ctx) == *old(ctx)
            }
            &&& list_error(*old(ctx), vault, selling_amount) is None ==> {
                &&& r == Ok::<SetAuthority, EscrowError>(list_authority(*old(ctx), vault->0))
                &&& *final(ctx) == listed(*old(ctx), selling_amount, index)
            }
        }),
{
    let seeds = escrow_seed(&ctx.escrow_key);
    let vault = derive_address(&seeds, &ctx.program_id);
    list_with_authority(ctx, vault, selling_amount, index)
}

/// Why a cancellation is refused, if it is; `escrow_pda` is the custody
/// authority derived from the record's address.
pub open spec fn cancel_error(ctx: Cancel, escrow_pda: Option<Pubkey>) -> Option<EscrowError> {
    if !ctx.escrow_info.is_initialized {
        Some(EscrowError::StateConflict)
    } else if !ctx.user_is_signer {
        Some(EscrowError::Unauthorized)
    } else if ctx.escrow_info.seller@ != ctx.user@ {
        Some(EscrowError::Unauthorized)
    } else if ctx.escrow_info.token_account_pubkey@ != ctx.pdas_token_account@ {
        Some(EscrowError::AccountMismatch)
    } else if escrow_pda is None {
        Some(EscrowError::NoProgramAddress)
    } else if escrow_pda->0@ != ctx.pda_account@ {
        Some(EscrowError::AccountMismatch)
    } else {
        None
    }
}

/// The record, settled.
pub open spec fn settled(r: EscrowInfo) -> EscrowInfo {
    EscrowInfo { is_initialized: false, ..r }
}

/// The accounts after a cancellation.
pub open spec fn cancelled(ctx: Cancel) -> Cancel {
    Cancel { escrow_info: settled(ctx.escrow_info), ..ctx }
}

/// The authority change of a cancellation: the custody account passes from
/// the derived authority back to the seller.
pub open spec fn cancel_authority(ctx: Cancel) -> SetAuthority {
    SetAuthority {
        account_or_mint: ctx.pdas_token_account,
        current_authority: ctx.pda_account,
        new_authority: ctx.escrow_info.seller,
    }
}

impl Cancel {
    pub fn set_authority_context(&self) -> (r: SetAuthority)
        ensures
            r == cancel_authority(*self),
    {
        SetAuthority {
            account_or_mint: self.pdas_token_account,
            current_authority: self.pda_account,
            new_authority: self.escrow_info.seller,
        }
    }
}

/// Cancels the listing, with `escrow_pda` as the custody authority derived
/// from the record's address.
pub fn cancel_with_authority(ctx: &mut Cancel, escrow_pda: Option<Pubkey>) -> (r: Result<
    SetAuthority,
    EscrowError,
>)
    ensures
        cancel_error(*old(ctx), escrow_pda) matches Some(e) ==> {
            &&& r == Err::<SetAuthority, EscrowError>(e)
            &&& *final(ctx) == *old(ctx)
        },
        cancel_error(*old(ctx), escrow_pda) is None ==> {
            &&& r == Ok::<SetAuthority, EscrowError>(cancel_authority(*old(ctx)))
            &&& *final(ctx) == cancelled(*old(ctx))
        },
{
    if !ctx.escrow_info.is_initialized {
        return Err(EscrowError::StateConflict);
    }
    if !ctx.user_is_signer {
        return Err(EscrowError::Unauthorized);
    }
    if !ctx.escrow_info.seller.same(&ctx.user) {
        return Err(EscrowError::Unauthorized);
    }
    if !ctx.escrow_info.token_account_pubkey.same(&ctx.pdas_token_account) {
        return Err(EscrowError::AccountMismatch);
    }
    match escrow_pda {
        None => {
            return Err(EscrowError::NoProgramAddress);
        },
        Some(pda) => {
            if !pda.same(&ctx.pda_account) {
                return Err(EscrowError::AccountMismatch);
            }
        },
    }
    let authority = ctx.set_authority_context();
    ctx.escrow_info.is_initialized = false;
    Ok(authority)
}

/// Cancels the listing: only its seller may, and only while it is active.
/// The custody account goes back to the seller and the record is settled
/// for good.
pub fn cancel(ctx: &mut Cancel) -> (r: Result<SetAuthority, EscrowError>)
    ensures
        ({
            let pda = vault_of(old(ctx).program_id, old(ctx).escrow_key);
            &&& cancel_error(*old(ctx), pda) matches Some(e) ==> {
                &&& r == Err::<SetAuthority, EscrowError>(e)
                &&& *final(ctx) == *old(ctx)
            }
            &&& cancel_error(*old(ctx), pda) is None ==> {
                &&& r == Ok::<SetAuthority, EscrowError>(cancel_authority(*old(ctx)))
                &&& *final(ctx) == cancelled(*old(ctx))
            }
        }),
{
    let seeds = escrow_seed(&ctx.escrow_key);
    let pda = derive_address(&seeds, &ctx.program_id);
    cancel_with_authority(ctx, pda)
}

/// The creators that the metadata declares; none when it declares no list.
pub open spec fn creators_of(royalty: Royalty) -> Seq<Creator> {
    match royalty.creators {
        Some(v) => v@,
        None => Seq::empty(),
    }
}

/// One payout account per creator, each the creator's own.
pub open spec fn creators_match(creators: Seq<Creator>, accounts: Seq<Pubkey>) -> bool {
    &&& accounts.len() == creators.len()
    &&& forall|i: int| 0 <= i < creators.len() ==> accounts[i]@ == (#[trigger] creators[i]).address@
}

/// The address of the token-metadata program,
/// `metaqbxxUerdq28cj1RbAWkYQm3ybzjb6a8bt518x1s`.
pub open spec fn metadata_program_key() -> Seq<u8> {
    seq![
        11u8, 112u8, 101u8, 177u8, 227u8, 209u8, 124u8, 69u8, 56u8, 157u8, 82u8, 127u8, 107u8,
        4u8, 195u8, 205u8, 88u8, 184u8, 108u8, 115u8, 26u8, 160u8, 253u8, 181u8, 73u8, 182u8,
        209u8, 188u8, 3u8, 248u8, 41u8, 70u8,
    ]
}

/// The address of the token-metadata program, the only one whose metadata
/// accounts a purchase accepts.
pub fn metadata_program_id() -> (r: Pubkey)
    ensures
        r@ == metadata_program_key(),
{
    let r = Pubkey {
        bytes: [
            11, 112, 101, 177, 227, 209, 124, 69, 56, 157, 82, 127, 107, 4, 195, 205, 88, 184,
            108, 115, 26, 160, 253, 181, 73, 182, 209, 188, 3, 248, 41, 70,
        ],
    };
    assert(r@ =~= metadata_program_key());
    r
}

/// The metadata account of `mint` under the token-metadata program.
pub open spec fn metadata_key_of(mint: Pubkey) -> Option<Pubkey> {
    derived_key(metadata_seeds(metadata_program_key(), mint@), metadata_program_key())
}

/// Why a purchase is refused, if it is; `vault` is the custody authority
/// derived from the record's address, `buyer_pda` the address derived
/// from the buyer's, `metadata_key` the metadata account of the listed mint.
pub open spec fn buy_error(
    ctx: Buy,
    expected_price: u64,
    vault: Option<Pubkey>,
    buyer_pda: Option<Pubkey>,
    metadata_key: Option<Pubkey>,
    royalty: Royalty,
) -> Option<EscrowError> {
    let info = ctx.escrow_info;
    if !info.is_initialized {
        Some(EscrowError::StateConflict)
    } else if !ctx.buyer_is_signer {
        Some(EscrowError::Unauthorized)
    } else if info.amount != expected_price {
        Some(EscrowError::InvalidParameter)
    } else if info.seller@ != ctx.initializers_main_account@ {
        Some(EscrowError::AccountMismatch)
    } else if info.mint_key@ != ctx.mint_key@ {
        Some(EscrowError::AccountMismatch)
    } else if info.token_account_pubkey@ != ctx.pdas_token_account@ {
        Some(EscrowError::AccountMismatch)
    } else if vault is None {
        Some(EscrowError::NoProgramAddress)
    } else if vault->0@ != ctx.token_account_authority@ {
        Some(EscrowError::AccountMismatch)
    } else if ctx.buyer@ == ctx.initializers_main_account@ {
        Some(EscrowError::AccountMismatch)
    } else if buyer_pda is None {
        Some(EscrowError::NoProgramAddress)
    } else if buyer_pda->0@ != ctx.pda_account@ {
        Some(EscrowError::AccountMismatch)
    } else if ctx.token_meta_program@ != metadata_program_key() {
        Some(EscrowError::AccountMismatch)
    } else if metadata_key is None {
        Some(EscrowError::NoProgramAddress)
    } else if metadata_key->0@ != ctx.metadata_info@ {
        Some(EscrowError::AccountMismatch)
    } else if !creators_match(creators_of(royalty), ctx.creator_accounts@) {
        Some(EscrowError::AccountMismatch)
    } else if royalty_total(info.amount as int, royalty.seller_fee_basis_points as int, creators_of(royalty)) > info.amount {
        Some(EscrowError::Arithmetic)
    } else {
        None
    }
}

/// The royalty payments of a purchase, in the creators' order, leaving out
/// the fees that come to nothing.
pub open spec fn creator_transfers(buyer: Pubkey, creators: Seq<Creator>, total: int) -> Seq<Transfer>
    decreases creators.len(),
{
    if creators.len() == 0 {
        Seq::empty()
    } else {
        let rest = creator_transfers(buyer, creators.drop_last(), total);
        let c = creators.last();
        let fee = creator_fee(c.share as int, total);
        if fee > 0 {
            rest.push(Transfer { from: buyer, to: c.address, authority: buyer, amount: fee as u64 })
        } else {
            rest
        }
    }
}

/// All the payments of a purchase: the royalties, then what is left of the
/// price to the seller.
pub open spec fn buy_transfers(ctx: Buy, royalty: Royalty) -> Seq<Transfer> {
    let price = ctx.escrow_info.amount;
    let creators = creators_of(royalty);
    let bps = royalty.seller_fee_basis_points as int;
    creator_transfers(ctx.buyer, creators, total_fee(bps, price as int)).push(
        Transfer {
            from: ctx.buyer,
            to: ctx.initializers_main_account,
            authority: ctx.buyer,
            amount: (price - royalty_total(price as int, bps, creators)) as u64,
        },
    )
}

/// The authority change of a purchase: the custody account passes to the
/// buyer.
pub open spec fn buy_authority(ctx: Buy) -> SetAuthority {
    SetAuthority {
        account_or_mint: ctx.pdas_token_account,
        current_authority: ctx.token_account_authority,
        new_authority: ctx.buyer,
    }
}

/// The accounts after a purchase.
pub open spec fn bought(ctx: Buy) -> Buy {
    Buy { escrow_info: settled(ctx.escrow_info), ..ctx }
}

impl Buy {
    pub fn set_authority_context(&self) -> (r: SetAuthority)
        ensures
            r == buy_authority(*self),
    {
        SetAuthority {
            account_or_mint: self.pdas_token_account,
            current_authority: self.token_account_authority,
            new_authority: self.buyer,
        }
    }

    /// A payment of `amount` from the buyer to `to`.
    pub fn transfer_to_pda_context(&self, to: Pubkey, amount: u64) -> (r: Transfer)
        ensures
            r == (Transfer { from: self.buyer, to, authority: self.buyer, amount }),
    {
        Transfer { from: self.buyer, to, authority: self.buyer, amount }
    }

    /// A payment of `amount` from the buyer to the seller.
    pub fn transfer_to_initializer(&self, amount: u64) -> (r: Transfer)
        ensures
            r == (Transfer {
                from: self.buyer,
                to: self.initializers_main_account,
                authority: self.buyer,
                amount,
            }),
    {
        Transfer {
            from: self.buyer,
            to: self.initializers_main_account,
            authority: self.buyer,
            amount,
        }
    }
}

fn accounts_match(creators: &Vec<Creator>, accounts: &Vec<Pubkey>) -> (r: bool)
    ensures
        r == creators_match(creators@, accounts@),
{
    if accounts.len() != creators.len() {
        return false;
    }
    let mut i: usize = 0;
    while i < creators.len()
        invariant
            0 <= i <= creators.len(),
            accounts.len() == creators.len(),
            forall|j: int| 0 <= j < i ==> accounts@[j]@ == (#[trigger] creators@[j]).address@,
        decreases creators.len() - i,
    {
        if !accounts[i].same(&creators[i].address) {
            return false;
        }
        i = i + 1;
    }
    true
}

/// Buys the listed token, with `buyer_pda` as the address derived from the
/// buyer's and `metadata_key` as the metadata account of the listed mint.
pub fn settle_buy(
    ctx: &mut Buy,
    expected_price: u64,
    vault: Option<Pubkey>,
    buyer_pda: Option<Pubkey>,
    metadata_key: Option<Pubkey>,
    royalty: &Royalty,
) -> (r: Result<Settlement, EscrowError>)
    ensures
        buy_error(*old(ctx), expected_price, vault, buyer_pda, metadata_key, *royalty) matches Some(e)
            ==> {
            &&& r matches Err(e2) && e2 == e
            &&& *final(ctx) == *old(ctx)
        },
        buy_error(*old(ctx), expected_price, vault, buyer_pda, metadata_key, *royalty) is None ==> {
            &&& r matches Ok(s) && s.transfers@ == buy_transfers(*old(ctx), *royalty)
                && s.set_authority == buy_authority(*old(ctx))
            &&& *final(ctx) == bought(*old(ctx))
        },
{
    if !ctx.escrow_info.is_initialized {
        return Err(EscrowError::StateConflict);
    }
    if !ctx.buyer_is_signer {
        return Err(EscrowError::Unauthorized);
    }
    if ctx.escrow_info.amount != expected_price {
        return Err(EscrowError::InvalidParameter);
    }
    if !ctx.escrow_info.seller.same(&ctx.initializers_main_account) {
        return Err(EscrowError::AccountMismatch);
    }
    if !ctx.escrow_info.mint_key.same(&ctx.mint_key) {
        return Err(EscrowError::AccountMismatch);
    }
    if !ctx.escrow_info.token_account_pubkey.same(&ctx.pdas_token_account) {
        return Err(EscrowError::AccountMismatch);
    }
    match vault {
        None => {
            return Err(EscrowError::NoProgramAddress);
        },
        Some(v) => {
            if !v.same(&ctx.token_account_authority) {
                return Err(EscrowError::AccountMismatch);
            }
        },
    }
    if ctx.buyer.same(&ctx.initializers_main_account) {
        return Err(EscrowError::AccountMismatch);
    }
    match buyer_pda {
        None => {
            return Err(EscrowError::NoProgramAddress);
        },
        Some(pda) => {
            if !pda.same(&ctx.pda_account) {
                return Err(EscrowError::AccountMismatch);
            }
        },
    }
    let meta_program = metadata_program_id();
    if !ctx.token_meta_program.same(&meta_program) {
        return Err(EscrowError::AccountMismatch);
    }
    match metadata_key {
        None => {
            return Err(EscrowError::NoProgramAddress);
        },
        Some(key) => {
            if !key.same(&ctx.metadata_info) {
                return Err(EscrowError::AccountMismatch);
            }
        },
    }
    let no_creators: Vec<Creator> = Vec::new();
    let creators: &Vec<Creator> = match &royalty.creators {
        Some(v) => v,
        None => &no_creators,
    };
    assert(creators@ == creators_of(*royalty));
    if !accounts_match(creators, &ctx.creator_accounts) {
        return Err(EscrowError::AccountMismatch);
    }
    let price = ctx.escrow_info.amount;
    let split = match split_royalties(price, royalty.seller_fee_basis_points, creators) {
        Ok(split) => split,
        Err(e) => {
            return Err(e);
        },
    };
    let ghost total = total_fee(royalty.seller_fee_basis_points as int, price as int);
    let ghost fees = fees_of(creators@, total);
    assert(split.creator_fees@.len() == fees_view(split.creator_fees@).len());
    let mut transfers: Vec<Transfer> = Vec::new();
    let mut i: usize = 0;
    while i < creators.len()
        invariant
            0 <= i <= creators.len(),
            fees == fees_of(creators@, total),
            fees_view(split.creator_fees@) == fees,
            split.creator_fees@.len() == creators@.len(),
            transfers@ == creator_transfers(ctx.buyer, creators@.take(i as int), total),
        decreases creators.len() - i,
    {
        let fee = split.creator_fees[i];
        assert(fee as int == fees_view(split.creator_fees@)[i as int]);
        proof {
            let t = creators@.take(i as int + 1);
            assert(t.drop_last() =~= creators@.take(i as int));
            assert(t.last() == creators@[i as int]);
        }
        if fee > 0 {
            transfers.push(ctx.transfer_to_pda_context(creators[i].address, fee));
        }
        i = i + 1;
    }
    proof {
        assert(creators@.take(i as int) =~= creators@);
    }
    transfers.push(ctx.transfer_to_initializer(split.remaining));
    let set_authority = ctx.set_authority_context();
    ctx.escrow_info.is_initialized = false;
    Ok(Settlement { transfers, set_authority })
}

/// Buys the listed token at `expected_price`, which must be the listed
/// price. The custody account and its present owner must be the record's,
/// and the metadata account that of the listed mint under the
/// token-metadata program. The creators receive their royalties, the seller
/// the rest of the price, the buyer the custody account; the record is
/// settled for good.
pub fn buy(ctx: &mut Buy, _vault_account_bump: u8, expected_price: u64, royalty: &Royalty) -> (r:
    Result<Settlement, EscrowError>)
    ensures
        ({
            let vault = vault_of(old(ctx).program_id, old(ctx).escrow_key);
            let buyer_pda = vault_of(old(ctx).program_id, old(ctx).buyer);
            let metadata_key = metadata_key_of(old(ctx).escrow_info.mint_key);
            &&& buy_error(*old(ctx), expected_price, vault, buyer_pda, metadata_key, *royalty)
                matches Some(e) ==> {
                &&& r matches Err(e2) && e2 == e
                &&& *final(ctx) == *old(ctx)
            }
            &&& buy_error(*old(ctx), expected_price, vault, buyer_pda, metadata_key, *royalty)
                is None ==> {
                &&& r matches Ok(s) && s.transfers@ == buy_transfers(*old(ctx), *royalty)
                    && s.set_authority == buy_authority(*old(ctx))
                &&& *final(ctx) == bought(*old(ctx))
            }
        }),
{
    let vault = derive_address(&escrow_seed(&ctx.escrow_key), &ctx.program_id);
    let buyer_pda = derive_address(&escrow_seed(&ctx.buyer), &ctx.program_id);
    let meta_program = metadata_program_id();
    let meta_seeds = metadata_seed(&meta_program, &ctx.escrow_info.mint_key);
    let metadata_key = derive_address(&meta_seeds, &meta_program);
    settle_buy(ctx, expected_price, vault, buyer_pda, metadata_key, royalty)
}

} // verus!
