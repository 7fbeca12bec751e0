use anchor_escrow::{
    buy, cancel, cancel_with_authority, derive_address, escrow_seed, list_with_authority, listing,
    metadata_program_id, metadata_seed, settle_buy, split_royalties, Buy, Cancel, Creator, EscrowError, EscrowInfo,
    List, Pubkey, Royalty, MAX_PRICE, MIN_PRICE,
};

fn key(n: u8) -> Pubkey {
    Pubkey::new_from_array([n; 32])
}

fn program() -> Pubkey {
    key(200)
}

fn metadata_program() -> Pubkey {
    metadata_program_id()
}

fn blank_record() -> EscrowInfo {
    EscrowInfo {
        is_initialized: false,
        seller: key(0),
        token_account_pubkey: key(0),
        mint_key: key(0),
        amount: 0,
        index: 0,
    }
}

fn list_ctx() -> List {
    List {
        program_id: program(),
        initializer: key(1),
        initializer_is_signer: true,
        mint_key: key(2),
        token_account: key(3),
        escrow_key: key(4),
        escrow_account: blank_record(),
    }
}

fn vault() -> Pubkey {
    derive_address(&escrow_seed(&key(4)), &program()).unwrap()
}

fn listed_record(price: u64) -> EscrowInfo {
    let mut ctx = list_ctx();
    listing(&mut ctx, 0, price, 0).unwrap();
    ctx.escrow_account
}

fn buy_ctx(record: EscrowInfo, creator_accounts: Vec<Pubkey>) -> Buy {
    let buyer = key(9);
    Buy {
        program_id: program(),
        buyer,
        buyer_is_signer: true,
        mint_key: key(2),
        escrow_key: key(4),
        escrow_info: record,
        initializers_main_account: key(1),
        pdas_token_account: key(3),
        pda_account: derive_address(&escrow_seed(&buyer), &program()).unwrap(),
        metadata_info: derive_address(&metadata_seed(&metadata_program(), &key(2)), &metadata_program())
            .unwrap(),
        token_account_authority: vault(),
        creator_accounts,
        token_meta_program: metadata_program(),
    }
}

fn cancel_ctx(record: EscrowInfo) -> Cancel {
    Cancel {
        program_id: program(),
        user: key(1),
        user_is_signer: true,
        pda_account: vault(),
        pdas_token_account: key(3),
        escrow_key: key(4),
        escrow_info: record,
    }
}

fn two_creators() -> Royalty {
    Royalty {
        seller_fee_basis_points: 500,
        creators: Some(vec![
            Creator { address: key(20), share: 60 },
            Creator { address: key(21), share: 40 },
        ]),
    }
}

#[test]
fn derivation_is_deterministic_and_new() {
    let a = derive_address(&escrow_seed(&key(4)), &program());
    let b = derive_address(&escrow_seed(&key(4)), &program());
    assert_eq!(a, b);
    let a = a.unwrap();
    assert_ne!(a, key(4));
    assert_ne!(a, program());
    let other = derive_address(&escrow_seed(&key(5)), &program()).unwrap();
    assert_ne!(a, other);
}

#[test]
fn metadata_program_is_the_token_metadata_program() {
    assert_eq!(
        metadata_program_id().to_bytes(),
        [
            11, 112, 101, 177, 227, 209, 124, 69, 56, 157, 82, 127, 107, 4, 195, 205, 88, 184,
            108, 115, 26, 160, 253, 181, 73, 182, 209, 188, 3, 248, 41, 70,
        ]
    );
}

#[test]
fn settle_buy_without_record_authority() {
    let record = listed_record(5000);
    let mut ctx = buy_ctx(record, vec![key(20), key(21)]);
    let pda = Some(ctx.pda_account);
    let meta = Some(ctx.metadata_info);
    let r = settle_buy(&mut ctx, 5000, None, pda, meta, &two_creators());
    assert_eq!(r.err(), Some(EscrowError::NoProgramAddress));
    assert!(ctx.escrow_info.is_initialized);
}

#[test]
fn seeds_hold_tag_and_subject() {
    let seeds = escrow_seed(&key(7));
    assert_eq!(seeds.len(), 2);
    assert_eq!(seeds[0], b"escrow".to_vec());
    assert_eq!(seeds[1], vec![7u8; 32]);
    let seeds = metadata_seed(&key(8), &key(9));
    assert_eq!(seeds.len(), 3);
    assert_eq!(seeds[0], b"metadata".to_vec());
    assert_eq!(seeds[1], vec![8u8; 32]);
    assert_eq!(seeds[2], vec![9u8; 32]);
}

#[test]
fn listing_fills_record_and_hands_custody_to_vault() {
    let mut ctx = list_ctx();
    let auth = listing(&mut ctx, 0, 10_000_000, 3).unwrap();
    let r = ctx.escrow_account;
    assert!(r.is_initialized);
    assert_eq!(r.seller, key(1));
    assert_eq!(r.token_account_pubkey, key(3));
    assert_eq!(r.mint_key, key(2));
    assert_eq!(r.amount, 10_000_000);
    assert_eq!(r.index, 3);
    assert_eq!(auth.account_or_mint, key(3));
    assert_eq!(auth.current_authority, key(1));
    assert_eq!(auth.new_authority, vault());
}

#[test]
fn listing_twice_is_a_state_conflict() {
    let mut ctx = list_ctx();
    assert!(listing(&mut ctx, 0, MIN_PRICE, 0).is_ok());
    let before = ctx.escrow_account;
    assert_eq!(listing(&mut ctx, 0, MIN_PRICE, 1).err(), Some(EscrowError::StateConflict));
    assert_eq!(ctx.escrow_account.index, before.index);
    assert_eq!(ctx.escrow_account.amount, MIN_PRICE);
}

#[test]
fn listing_price_bounds() {
    for price in [0u64, MIN_PRICE - 1, MAX_PRICE, u64::MAX] {
        let mut ctx = list_ctx();
        assert_eq!(listing(&mut ctx, 0, price, 0).err(), Some(EscrowError::InvalidParameter));
        assert!(!ctx.escrow_account.is_initialized);
        assert_eq!(ctx.escrow_account.amount, 0);
    }
    for price in [MIN_PRICE, MAX_PRICE - 1] {
        let mut ctx = list_ctx();
        assert!(listing(&mut ctx, 0, price, 0).is_ok());
        assert_eq!(ctx.escrow_account.amount, price);
    }
}

#[test]
fn listing_needs_signer() {
    let mut ctx = list_ctx();
    ctx.initializer_is_signer = false;
    assert_eq!(listing(&mut ctx, 0, 5000, 0).err(), Some(EscrowError::Unauthorized));
    assert!(!ctx.escrow_account.is_initialized);
}

#[test]
fn listing_on_funded_record_is_refused() {
    let mut ctx = list_ctx();
    ctx.escrow_account.amount = 1;
    assert_eq!(listing(&mut ctx, 0, 5000, 0).err(), Some(EscrowError::StateConflict));
}

#[test]
fn listing_without_program_address() {
    let mut ctx = list_ctx();
    assert_eq!(
        list_with_authority(&mut ctx, None, 5000, 0).err(),
        Some(EscrowError::NoProgramAddress)
    );
    assert!(!ctx.escrow_account.is_initialized);
    let auth = list_with_authority(&mut ctx, Some(key(77)), 5000, 0).unwrap();
    assert_eq!(auth.new_authority, key(77));
}

#[test]
fn buy_with_two_creators_splits_royalties() {
    let record = listed_record(10_000_000);
    let mut ctx = buy_ctx(record, vec![key(20), key(21)]);
    let s = buy(&mut ctx, 0, 10_000_000, &two_creators()).unwrap();
    assert_eq!(s.transfers.len(), 3);
    assert_eq!(s.transfers[0].to, key(20));
    assert_eq!(s.transfers[0].amount, 300_000);
    assert_eq!(s.transfers[1].to, key(21));
    assert_eq!(s.transfers[1].amount, 200_000);
    assert_eq!(s.transfers[2].to, key(1));
    assert_eq!(s.transfers[2].amount, 9_500_000);
    for t in &s.transfers {
        assert_eq!(t.from, key(9));
        assert_eq!(t.authority, key(9));
    }
    let sum: u64 = s.transfers.iter().map(|t| t.amount).sum();
    assert_eq!(sum, 10_000_000);
    assert_eq!(s.set_authority.account_or_mint, key(3));
    assert_eq!(s.set_authority.current_authority, vault());
    assert_eq!(s.set_authority.new_authority, key(9));
    assert!(!ctx.escrow_info.is_initialized);
}

#[test]
fn buy_with_price_off_by_one_is_invalid() {
    let record = listed_record(10_000_000);
    for expected in [9_999_999u64, 10_000_001] {
        let mut ctx = buy_ctx(record, vec![key(20), key(21)]);
        let r = buy(&mut ctx, 0, expected, &two_creators());
        assert_eq!(r.err(), Some(EscrowError::InvalidParameter));
        assert!(ctx.escrow_info.is_initialized);
    }
}

#[test]
fn second_buy_and_cancel_after_buy_conflict() {
    let record = listed_record(10_000_000);
    let mut ctx = buy_ctx(record, vec![key(20), key(21)]);
    assert!(buy(&mut ctx, 0, 10_000_000, &two_creators()).is_ok());
    let settled = ctx.escrow_info;
    let r = buy(&mut ctx, 0, 10_000_000, &two_creators());
    assert_eq!(r.err(), Some(EscrowError::StateConflict));
    let mut c = cancel_ctx(settled);
    assert_eq!(cancel(&mut c).err(), Some(EscrowError::StateConflict));
}

#[test]
fn buy_without_creators_pays_seller_everything() {
    let record = listed_record(123_456);
    let mut ctx = buy_ctx(record, vec![]);
    let royalty = Royalty { seller_fee_basis_points: 500, creators: None };
    let s = buy(&mut ctx, 0, 123_456, &royalty).unwrap();
    assert_eq!(s.transfers.len(), 1);
    assert_eq!(s.transfers[0].to, key(1));
    assert_eq!(s.transfers[0].amount, 123_456);
}

#[test]
fn buy_skips_zero_fees() {
    let record = listed_record(1000);
    let mut ctx = buy_ctx(record, vec![key(20), key(21)]);
    let royalty = Royalty {
        seller_fee_basis_points: 100,
        creators: Some(vec![
            Creator { address: key(20), share: 100 },
            Creator { address: key(21), share: 0 },
        ]),
    };
    let s = buy(&mut ctx, 0, 1000, &royalty).unwrap();
    assert_eq!(s.transfers.len(), 2);
    assert_eq!(s.transfers[0].to, key(20));
    assert_eq!(s.transfers[0].amount, 10);
    assert_eq!(s.transfers[1].amount, 990);
}

#[test]
fn buy_refusals() {
    let record = listed_record(5000);
    let r = two_creators();

    let mut ctx = buy_ctx(record, vec![key(20), key(21)]);
    ctx.buyer_is_signer = false;
    assert_eq!(buy(&mut ctx, 0, 5000, &r).err(), Some(EscrowError::Unauthorized));

    let mut ctx = buy_ctx(record, vec![key(20), key(21)]);
    ctx.initializers_main_account = key(50);
    assert_eq!(buy(&mut ctx, 0, 5000, &r).err(), Some(EscrowError::AccountMismatch));

    let mut ctx = buy_ctx(record, vec![key(20), key(21)]);
    ctx.mint_key = key(51);
    assert_eq!(buy(&mut ctx, 0, 5000, &r).err(), Some(EscrowError::AccountMismatch));

    let mut ctx = buy_ctx(record, vec![key(20), key(21)]);
    ctx.buyer = key(1);
    assert_eq!(buy(&mut ctx, 0, 5000, &r).err(), Some(EscrowError::AccountMismatch));

    let mut ctx = buy_ctx(record, vec![key(20), key(21)]);
    ctx.pda_account = key(52);
    assert_eq!(buy(&mut ctx, 0, 5000, &r).err(), Some(EscrowError::AccountMismatch));

    let mut ctx = buy_ctx(record, vec![key(20), key(21)]);
    ctx.metadata_info = key(53);
    assert_eq!(buy(&mut ctx, 0, 5000, &r).err(), Some(EscrowError::AccountMismatch));

    let mut ctx = buy_ctx(record, vec![key(20), key(22)]);
    assert_eq!(buy(&mut ctx, 0, 5000, &r).err(), Some(EscrowError::AccountMismatch));

    let mut ctx = buy_ctx(record, vec![key(20)]);
    assert_eq!(buy(&mut ctx, 0, 5000, &r).err(), Some(EscrowError::AccountMismatch));
    assert!(ctx.escrow_info.is_initialized);

    let mut ctx = buy_ctx(record, vec![key(20), key(21)]);
    ctx.pdas_token_account = key(54);
    assert_eq!(buy(&mut ctx, 0, 5000, &r).err(), Some(EscrowError::AccountMismatch));
    assert!(ctx.escrow_info.is_initialized);

    let mut ctx = buy_ctx(record, vec![key(20), key(21)]);
    ctx.token_account_authority = key(55);
    assert_eq!(buy(&mut ctx, 0, 5000, &r).err(), Some(EscrowError::AccountMismatch));

    let mut ctx = buy_ctx(record, vec![key(20), key(21)]);
    ctx.escrow_key = key(56);
    assert_eq!(buy(&mut ctx, 0, 5000, &r).err(), Some(EscrowError::AccountMismatch));

    // a metadata account derived under another program is refused
    let mut ctx = buy_ctx(record, vec![key(20), key(21)]);
    ctx.token_meta_program = key(57);
    ctx.metadata_info =
        derive_address(&metadata_seed(&key(57), &key(2)), &key(57)).unwrap();
    assert_eq!(buy(&mut ctx, 0, 5000, &r).err(), Some(EscrowError::AccountMismatch));
    let mut ctx = buy_ctx(record, vec![key(20), key(21)]);
    ctx.metadata_info =
        derive_address(&metadata_seed(&key(57), &key(2)), &key(57)).unwrap();
    assert_eq!(buy(&mut ctx, 0, 5000, &r).err(), Some(EscrowError::AccountMismatch));
    assert!(ctx.escrow_info.is_initialized);
}

#[test]
fn buy_with_fees_over_price_is_arithmetic_error() {
    let record = listed_record(5000);
    let mut ctx = buy_ctx(record, vec![key(20)]);
    let royalty = Royalty {
        seller_fee_basis_points: 20000,
        creators: Some(vec![Creator { address: key(20), share: 100 }]),
    };
    assert_eq!(
        buy(&mut ctx, 0, 5000, &royalty).err(),
        Some(EscrowError::Arithmetic)
    );
    assert!(ctx.escrow_info.is_initialized);
}

#[test]
fn settle_buy_without_program_address() {
    let record = listed_record(5000);
    let mut ctx = buy_ctx(record, vec![key(20), key(21)]);
    let meta = Some(ctx.metadata_info);
    let r = settle_buy(&mut ctx, 5000, Some(vault()), None, meta, &two_creators());
    assert_eq!(r.err(), Some(EscrowError::NoProgramAddress));
    let pda = Some(ctx.pda_account);
    let r = settle_buy(&mut ctx, 5000, Some(vault()), pda, None, &two_creators());
    assert_eq!(r.err(), Some(EscrowError::NoProgramAddress));
    let s = settle_buy(&mut ctx, 5000, Some(vault()), pda, meta, &two_creators()).unwrap();
    assert_eq!(s.transfers.len(), 3);
    assert_eq!(s.transfers[0].amount, 150);
    assert_eq!(s.transfers[1].amount, 100);
    assert_eq!(s.transfers[2].amount, 4750);
}

#[test]
fn cancel_returns_custody_to_seller() {
    let record = listed_record(7000);
    let mut c = cancel_ctx(record);
    let auth = cancel(&mut c).unwrap();
    assert_eq!(auth.account_or_mint, key(3));
    assert_eq!(auth.current_authority, vault());
    assert_eq!(auth.new_authority, key(1));
    assert!(!c.escrow_info.is_initialized);
    let mut b = buy_ctx(c.escrow_info, vec![key(20), key(21)]);
    let r = buy(&mut b, 0, 7000, &two_creators());
    assert_eq!(r.err(), Some(EscrowError::StateConflict));
}

#[test]
fn cancel_by_other_signer_is_unauthorized() {
    let record = listed_record(7000);
    let mut c = cancel_ctx(record);
    c.user = key(9);
    assert_eq!(cancel(&mut c).err(), Some(EscrowError::Unauthorized));
    assert!(c.escrow_info.is_initialized);
    let mut c = cancel_ctx(record);
    c.user_is_signer = false;
    assert_eq!(cancel(&mut c).err(), Some(EscrowError::Unauthorized));
    assert!(c.escrow_info.is_initialized);
}

#[test]
fn cancel_account_mismatches() {
    let record = listed_record(7000);
    let mut c = cancel_ctx(record);
    c.pdas_token_account = key(60);
    assert_eq!(cancel(&mut c).err(), Some(EscrowError::AccountMismatch));
    let mut c = cancel_ctx(record);
    c.pda_account = key(61);
    assert_eq!(cancel(&mut c).err(), Some(EscrowError::AccountMismatch));
    let mut c = cancel_ctx(record);
    assert_eq!(cancel_with_authority(&mut c, None).err(), Some(EscrowError::NoProgramAddress));
    assert!(c.escrow_info.is_initialized);
}

#[test]
fn royalty_split_exact_values() {
    let creators = vec![
        Creator { address: key(20), share: 60 },
        Creator { address: key(21), share: 40 },
    ];
    let s = split_royalties(10_000_000, 500, &creators).unwrap();
    assert_eq!(s.creator_fees, vec![300_000, 200_000]);
    assert_eq!(s.remaining, 9_500_000);
}

#[test]
fn royalty_split_floors_and_sums_to_price() {
    let creators = vec![
        Creator { address: key(20), share: 33 },
        Creator { address: key(21), share: 33 },
        Creator { address: key(22), share: 34 },
    ];
    for price in [0u64, 1, 999, 12_345, 1_000_000_007, u64::MAX] {
        let s = split_royalties(price, 10000, &creators).unwrap();
        let fees: u64 = s.creator_fees.iter().sum();
        assert_eq!(fees + s.remaining, price);
    }
    let s = split_royalties(12_345, 777, &creators).unwrap();
    // total fee floor(777 * 12345 / 10000) = 959
    assert_eq!(s.creator_fees, vec![316, 316, 326]);
    assert_eq!(s.remaining, 12_345 - 958);
}

#[test]
fn royalty_split_empty_and_overflowing() {
    let s = split_royalties(4242, 500, &vec![]).unwrap();
    assert!(s.creator_fees.is_empty());
    assert_eq!(s.remaining, 4242);
    let greedy = vec![Creator { address: key(20), share: 255 }];
    assert!(split_royalties(u64::MAX, 65535, &greedy).is_err());
    assert_eq!(split_royalties(100, 10000, &greedy).err(), Some(EscrowError::Arithmetic));
}
