use dex_v4::address::Address;
use dex_v4::close_account::check_closable;
use dex_v4::close_market::close_market;
use dex_v4::create_market::{create_market, royalties_bps, RoyaltyTerms};
use dex_v4::error::{CrankError, DexError, ProgramFault};
use dex_v4::initialize_account::{initialize_account, plan_account};
use dex_v4::instruction::{DexInstruction, Processor};
use dex_v4::metadata::{
    check_metadata_account, creator_shares, get_verified_creators, metadata_matches,
    verify_metadata, Creator,
};
use dex_v4::pda::{
    check_market_signer, market_signer, metadata_address, metadata_program, signer_matches,
    user_account_address,
};
use dex_v4::state::{AccountTag, DexState, FeeSchedule, MarketFeeType};
use dex_v4::sweep_fees::{distribute, sweep_fees, Royalties};
use dex_v4::token_account::{
    check_token_account_owner, check_vault_account_and_get_mint, token_amount,
};
use dex_v4::update_royalties::update_royalties;
use dex_v4::user_account::UserAccountHeader;
use dex_v4::utils::{
    accounts_from, check_account_key, check_account_owner, check_signer, spl_token_program,
    sweep_authority, system_program, AccountInfo,
};
use solana_program::program_option::COption;
use solana_program::program_pack::Pack;
use solana_program::pubkey::Pubkey;

fn addr(b: u8) -> Address {
    Address::new([b; 32])
}

fn of(k: &Pubkey) -> Address {
    Address::new(k.to_bytes())
}

fn info(key: Address, owner: Address) -> AccountInfo {
    AccountInfo {
        key,
        owner,
        is_signer: false,
        is_writable: true,
        lamports: 1,
        data_len: 0,
    }
}

fn market() -> DexState {
    let zero = addr(0);
    DexState {
        tag: AccountTag::DexState,
        base_mint: zero,
        quote_mint: zero,
        base_vault: addr(7),
        quote_vault: addr(8),
        orderbook: addr(3),
        admin: addr(4),
        creation_timestamp: 0,
        base_volume: 0,
        quote_volume: 0,
        accumulated_fees: 0,
        min_base_order_size: 1,
        royalties_bps: 0,
        accumulated_royalties: 0,
        base_currency_multiplier: 1,
        quote_currency_multiplier: 1,
        signer_nonce: 0,
        fee_type: MarketFeeType::Default,
        fee_schedule: FeeSchedule::standard(),
    }
}

fn token_account(mint: Pubkey, owner: Pubkey, amount: u64) -> Vec<u8> {
    let mut data = vec![0; spl_token::state::Account::LEN];
    let account = spl_token::state::Account {
        mint,
        owner,
        amount,
        state: spl_token::state::AccountState::Initialized,
        ..Default::default()
    };
    account.pack_into_slice(&mut data);
    data
}

fn creator(share: u8, verified: bool) -> Creator {
    Creator {
        address: addr(share),
        verified,
        share,
    }
}

#[test]
fn error_codes_and_lines() {
    assert_eq!(DexError::InvalidOrderIndex.code(), 0);
    assert_eq!(DexError::UserAccountFull.code(), 1);
    assert_eq!(DexError::NoOp.code(), 5);
    assert_eq!(DexError::AOBError.code(), 18);
    assert_eq!(DexError::from_code(3), Some(DexError::MissingUserAccount));
    assert_eq!(DexError::from_code(19), Some(DexError::NumericalOverflow));
    assert_eq!(DexError::from_code(24), None);
    for code in 0..24 {
        assert_eq!(DexError::from_code(code).map(|e| e.code()), Some(code));
    }
    assert_eq!(
        ProgramFault::from_dex(DexError::TransactionAborted),
        ProgramFault::Custom(2)
    );
    assert_eq!(DexError::NoOp.print(), "Error: The operation is a no-op");
    assert_eq!(
        DexError::UserAccountFull.print(),
        "Error: The user account has reached its maximum capacity for open orders."
    );
    assert_eq!(DexError::type_of(), "AOError");
    assert_ne!(CrankError::ConnectionError, CrankError::InvalidMarketState);
}

#[test]
fn request_tag_names_the_operation() {
    let data = [4u8, 0, 0, 0, 0, 0, 0, 0, 10, 0, 0, 0, 0, 0, 0, 0];
    let (instruction, arguments) = Processor::process_instruction(&data).unwrap();
    assert_eq!(instruction, DexInstruction::ConsumeEvents);
    assert_eq!(arguments, &data[8..]);
    assert_eq!(
        Processor::process_instruction(&[0u8; 8]).map(|r| (r.0, r.1.len())),
        Ok((DexInstruction::CreateMarket, 0))
    );
    assert_eq!(
        Processor::process_instruction(&[10u8, 0, 0, 0, 0, 0, 0, 0]).err(),
        Some(ProgramFault::InvalidInstructionData)
    );
    assert_eq!(
        Processor::process_instruction(&[1u8, 0, 0]).err(),
        Some(ProgramFault::InvalidInstructionData)
    );
    assert_eq!(
        Processor::process_instruction(&[]).err(),
        Some(ProgramFault::InvalidInstructionData)
    );
    for tag in 0..10u8 {
        assert_eq!(DexInstruction::from_u8(tag).map(|i| i.tag()), Some(tag));
    }
    assert_eq!(DexInstruction::from_u8(2), Some(DexInstruction::Swap));
    assert_eq!(DexInstruction::from_u8(9), Some(DexInstruction::CloseMarket));
    assert_eq!(DexInstruction::from_u8(10), None);
}

#[test]
fn account_checks() {
    let mut a = info(addr(1), addr(2));
    assert_eq!(check_account_key(&a, &addr(1), DexError::InvalidOrderbookAccount), Ok(()));
    assert_eq!(
        check_account_key(&a, &addr(2), DexError::InvalidOrderbookAccount),
        Err(DexError::InvalidOrderbookAccount)
    );
    assert_eq!(check_account_owner(&a, &addr(2), DexError::InvalidStateAccountOwner), Ok(()));
    assert_eq!(
        check_account_owner(&a, &addr(1), DexError::InvalidStateAccountOwner),
        Err(DexError::InvalidStateAccountOwner)
    );
    assert_eq!(check_signer(&a), Err(ProgramFault::MissingRequiredSignature));
    a.is_signer = true;
    assert_eq!(check_signer(&a), Ok(()));
    let list = vec![info(addr(1), addr(0)), info(addr(2), addr(0)), info(addr(3), addr(0))];
    let rest: Vec<Address> = accounts_from(&list, 1).iter().map(|x| x.key).collect();
    assert_eq!(rest, vec![addr(2), addr(3)]);
    assert!(accounts_from(&list, 3).is_empty());
}

#[test]
fn well_known_addresses() {
    assert_eq!(Pubkey::new_from_array(spl_token_program().bytes), spl_token::ID);
    assert_eq!(
        Pubkey::new_from_array(system_program().bytes),
        solana_program::system_program::ID
    );
    assert_eq!(
        Pubkey::new_from_array(metadata_program().bytes),
        mpl_token_metadata::ID
    );
    assert_eq!(
        Pubkey::new_from_array(sweep_authority().bytes).to_string(),
        "DjXsn34uz8hnC4KLiSkEVNmzqX5ZFP2Q7aErTBH8LWxe"
    );
}

#[test]
fn market_signer_is_the_derived_address() {
    let program = Pubkey::new_unique();
    let market_key = Pubkey::new_unique();
    let mut seen_some = false;
    for nonce in 0..=255u8 {
        let expected =
            Pubkey::create_program_address(&[&market_key.to_bytes(), &[nonce]], &program).ok();
        let got = market_signer(&of(&market_key), nonce, &of(&program));
        assert_eq!(got, expected.map(|k| of(&k)));
        if let Some(k) = expected {
            seen_some = true;
            assert_ne!(k, market_key);
            assert_eq!(
                check_market_signer(&of(&k), &of(&market_key), nonce, &of(&program)),
                Ok(())
            );
            assert_eq!(
                check_market_signer(&of(&market_key), &of(&market_key), nonce, &of(&program)),
                Err(ProgramFault::Custom(9))
            );
        } else {
            assert_eq!(
                check_market_signer(&of(&market_key), &of(&market_key), nonce, &of(&program)),
                Err(ProgramFault::InvalidSeeds)
            );
        }
    }
    assert!(seen_some);
    assert_eq!(signer_matches(None, &addr(1)), Err(ProgramFault::InvalidSeeds));
    assert_eq!(signer_matches(Some(addr(1)), &addr(1)), Ok(()));
    assert_eq!(
        signer_matches(Some(addr(1)), &addr(2)),
        Err(ProgramFault::Custom(9))
    );
}

#[test]
fn user_account_address_is_the_found_address() {
    let program = Pubkey::new_unique();
    let market_key = Pubkey::new_unique();
    let owner = Pubkey::new_unique();
    let (expected, bump) =
        Pubkey::find_program_address(&[&market_key.to_bytes(), &owner.to_bytes()], &program);
    assert_eq!(
        user_account_address(&of(&market_key), &of(&owner), &of(&program)),
        Some((of(&expected), bump))
    );
}

#[test]
fn metadata_address_is_the_record_of_the_mint() {
    let mint = Pubkey::new_unique();
    let (expected, _) = mpl_token_metadata::accounts::Metadata::find_pda(&mint);
    assert_eq!(metadata_address(&of(&mint)), Some(of(&expected)));
    let mut account = info(of(&expected), addr(9));
    assert_eq!(check_metadata_account(&account, &of(&mint)), Ok(()));
    account.data_len = 10;
    assert_eq!(
        check_metadata_account(&account, &of(&mint)),
        Err(ProgramFault::Custom(21))
    );
    account.owner = metadata_program();
    assert_eq!(check_metadata_account(&account, &of(&mint)), Ok(()));
    account.key = of(&mint);
    assert_eq!(
        check_metadata_account(&account, &of(&mint)),
        Err(ProgramFault::Custom(20))
    );
    assert_eq!(metadata_matches(None, &account), Err(ProgramFault::InvalidSeeds));
}

#[test]
fn vault_must_belong_to_the_signer_alone() {
    let mint = Pubkey::new_unique();
    let signer = Pubkey::new_unique();
    let data = token_account(mint, signer, 12);
    assert_eq!(check_vault_account_and_get_mint(&data, &of(&signer)), Ok(of(&mint)));
    assert_eq!(
        check_vault_account_and_get_mint(&data, &of(&mint)),
        Err(ProgramFault::InvalidArgument)
    );
    assert_eq!(token_amount(&data), Ok(12));
    assert_eq!(check_token_account_owner(&data, &of(&signer)), Ok(()));
    assert_eq!(
        check_token_account_owner(&data, &of(&mint)),
        Err(ProgramFault::InvalidArgument)
    );
    let mut delegated = vec![0; spl_token::state::Account::LEN];
    spl_token::state::Account {
        mint,
        owner: signer,
        amount: 1,
        delegate: COption::Some(Pubkey::new_unique()),
        state: spl_token::state::AccountState::Initialized,
        ..Default::default()
    }
    .pack_into_slice(&mut delegated);
    assert_eq!(
        check_vault_account_and_get_mint(&delegated, &of(&signer)),
        Err(ProgramFault::InvalidArgument)
    );
    let mut closable = vec![0; spl_token::state::Account::LEN];
    spl_token::state::Account {
        mint,
        owner: signer,
        amount: 1,
        close_authority: COption::Some(Pubkey::new_unique()),
        state: spl_token::state::AccountState::Initialized,
        ..Default::default()
    }
    .pack_into_slice(&mut closable);
    assert_eq!(
        check_vault_account_and_get_mint(&closable, &of(&signer)),
        Err(ProgramFault::InvalidArgument)
    );
    assert_eq!(
        check_vault_account_and_get_mint(&[1, 2, 3], &of(&signer)),
        Err(ProgramFault::InvalidAccountData)
    );
    assert_eq!(
        token_amount(&[0u8; 165]),
        Err(ProgramFault::UninitializedAccount)
    );
}

#[test]
fn creator_shares_must_sum_to_one_hundred() {
    assert_eq!(verify_metadata(&vec![creator(60, true), creator(40, false)]), Ok(()));
    assert_eq!(
        verify_metadata(&vec![creator(60, true), creator(39, false)]),
        Err(ProgramFault::InvalidArgument)
    );
    assert_eq!(verify_metadata(&vec![]), Err(ProgramFault::InvalidArgument));
    assert_eq!(
        verify_metadata(&vec![creator(200, true), creator(156, true)]),
        Err(ProgramFault::InvalidArgument)
    );
    assert_eq!(creator_shares(&vec![creator(60, true), creator(40, false)]), vec![60, 40]);
    let verified = get_verified_creators(&Some(vec![
        creator(10, true),
        creator(20, false),
        creator(70, true),
    ]))
    .unwrap();
    assert_eq!(verified.iter().map(|c| c.share).collect::<Vec<u8>>(), vec![10, 70]);
    assert!(get_verified_creators(&None).is_none());
}

#[test]
fn sweep_pays_creators_and_fees() {
    let mut m = market();
    m.accumulated_royalties = 1000;
    m.accumulated_fees = 77;
    let plan = sweep_fees(&mut m, &Royalties::Creators(vec![60, 40])).unwrap();
    // 60% of 1000, then 40% of the 400 that are left.
    assert_eq!(plan.creator_payouts, vec![600, 160]);
    assert_eq!(plan.fee_payout, 77);
    assert_eq!(m.accumulated_royalties, 240);
    assert_eq!(m.accumulated_fees, 0);
    assert_eq!(distribute(1000, &vec![60, 40]), Ok((vec![600, 160], 240)));
    assert_eq!(distribute(7, &vec![100]), Ok((vec![7], 0)));
}

#[test]
fn sweep_with_nothing_to_do_is_a_no_op() {
    let mut m = market();
    assert_eq!(
        sweep_fees(&mut m, &Royalties::NoMetadata).err(),
        Some(ProgramFault::Custom(5))
    );
    assert_eq!(
        sweep_fees(&mut m, &Royalties::Creators(vec![100])).err(),
        Some(ProgramFault::Custom(5))
    );
    m.accumulated_royalties = 5;
    assert_eq!(
        sweep_fees(&mut m, &Royalties::NoMetadata).err(),
        Some(ProgramFault::Custom(5))
    );
    let plan = sweep_fees(&mut m, &Royalties::NoCreators).unwrap();
    assert!(plan.creator_payouts.is_empty());
    assert_eq!(plan.fee_payout, 0);
    assert_eq!(m.accumulated_royalties, 5);
    m.accumulated_fees = 9;
    let plan = sweep_fees(&mut m, &Royalties::NoMetadata).unwrap();
    assert_eq!(plan.fee_payout, 9);
    assert_eq!(m.accumulated_fees, 0);
    assert_eq!(m.accumulated_royalties, 5);
}

#[test]
fn sweep_with_bad_shares_fails_and_changes_nothing() {
    let mut m = market();
    m.accumulated_royalties = 1000;
    m.accumulated_fees = 77;
    assert_eq!(
        sweep_fees(&mut m, &Royalties::Creators(vec![60, 30])).err(),
        Some(ProgramFault::InvalidAccountData)
    );
    assert_eq!((m.accumulated_royalties, m.accumulated_fees), (1000, 77));
    assert_eq!(
        sweep_fees(&mut m, &Royalties::Creators(vec![150])).err(),
        Some(ProgramFault::Custom(19))
    );
    m.accumulated_royalties = u64::MAX;
    assert_eq!(
        sweep_fees(&mut m, &Royalties::Creators(vec![50, 50])).err(),
        Some(ProgramFault::Custom(19))
    );
    assert_eq!((m.accumulated_royalties, m.accumulated_fees), (u64::MAX, 77));
}

#[test]
fn only_an_inactive_account_can_be_closed() {
    let mut h = UserAccountHeader::new(&addr(1), &addr(2));
    assert_eq!(check_closable(&h), Ok(()));
    h.accumulated_taker_base_volume = 5;
    assert_eq!(check_closable(&h), Ok(()));
    h.number_of_orders = 1;
    assert_eq!(check_closable(&h), Err(DexError::UserAccountStillActive));
    h.number_of_orders = 0;
    h.quote_token_free = 1;
    assert_eq!(check_closable(&h), Err(DexError::UserAccountStillActive));
    h.quote_token_free = 0;
    h.base_token_locked = 1;
    assert_eq!(check_closable(&h), Err(DexError::UserAccountStillActive));
}

#[test]
fn only_an_empty_market_can_be_closed() {
    let mut m = market();
    assert_eq!(close_market(&mut m, 1, 0), Err(DexError::MarketStillActive));
    assert_eq!(close_market(&mut m, 0, 1), Err(DexError::MarketStillActive));
    m.accumulated_fees = 1;
    assert_eq!(close_market(&mut m, 0, 0), Err(DexError::MarketStillActive));
    assert_eq!(m.tag, AccountTag::DexState);
    m.accumulated_fees = 0;
    assert_eq!(close_market(&mut m, 0, 0), Ok(()));
    assert_eq!(m.tag, AccountTag::Closed);
}

#[test]
fn royalty_rate_follows_the_metadata() {
    let mut m = market();
    let creators = vec![creator(100, true)];
    assert_eq!(
        update_royalties(&mut m, false, 0, &creators, 250),
        Err(ProgramFault::Custom(22))
    );
    assert_eq!(
        update_royalties(&mut m, true, 3, &creators, 250),
        Err(ProgramFault::Custom(23))
    );
    assert_eq!(
        update_royalties(&mut m, true, 0, &vec![creator(99, true)], 250),
        Err(ProgramFault::InvalidArgument)
    );
    assert_eq!(m.royalties_bps, 0);
    assert_eq!(update_royalties(&mut m, true, 0, &creators, 250), Ok(()));
    assert_eq!(m.royalties_bps, 250);
    let mut meta = info(addr(1), addr(2));
    assert_eq!(royalties_bps(&meta, &None), Ok(0));
    meta.data_len = 5;
    assert_eq!(royalties_bps(&meta, &None), Err(ProgramFault::InvalidAccountData));
    let terms = Some(RoyaltyTerms {
        creators,
        seller_fee_basis_points: 500,
    });
    assert_eq!(royalties_bps(&meta, &terms), Ok(500));
}

#[test]
fn user_account_is_planned_at_its_derived_address() {
    let program = Pubkey::new_unique();
    let market_key = Pubkey::new_unique();
    let owner = Pubkey::new_unique();
    let (expected, bump) =
        Pubkey::find_program_address(&[&market_key.to_bytes(), &owner.to_bytes()], &program);
    let params = dex_v4::initialize_account::Params {
        market: of(&market_key),
        max_orders: 10,
    };
    let plan = initialize_account(&of(&program), &of(&expected), &of(&owner), &params).unwrap();
    assert_eq!(plan.nonce, bump);
    assert_eq!(plan.space, 152 + 320);
    assert_eq!(plan.header.market, of(&market_key));
    assert_eq!(plan.header.owner, of(&owner));
    assert_eq!(plan.header.number_of_orders, 0);
    assert_eq!(
        initialize_account(&of(&program), &of(&owner), &of(&owner), &params).err(),
        Some(ProgramFault::InvalidArgument)
    );
    let none = dex_v4::initialize_account::Params {
        market: of(&market_key),
        max_orders: 0,
    };
    assert_eq!(
        initialize_account(&of(&program), &of(&expected), &of(&owner), &none).err(),
        Some(ProgramFault::InvalidArgument)
    );
    let huge = dex_v4::initialize_account::Params {
        market: of(&market_key),
        max_orders: u64::MAX,
    };
    assert_eq!(
        plan_account(Some((addr(1), 3)), &addr(1), &addr(2), &huge).err(),
        Some(ProgramFault::Custom(19))
    );
    assert_eq!(
        plan_account(None, &addr(1), &addr(2), &params).err(),
        Some(ProgramFault::InvalidSeeds)
    );
}

#[test]
fn market_is_created_from_its_vaults() {
    let program = Pubkey::new_unique();
    let market_key = Pubkey::new_unique();
    let mut nonce = 255u8;
    let signer = loop {
        match Pubkey::create_program_address(&[&market_key.to_bytes(), &[nonce]], &program) {
            Ok(k) => break k,
            Err(_) => nonce -= 1,
        }
    };
    let base_mint = Pubkey::new_unique();
    let quote_mint = Pubkey::new_unique();
    let base_vault = token_account(base_mint, signer, 0);
    let quote_vault = token_account(quote_mint, signer, 0);
    let (metadata_key, _) = mpl_token_metadata::accounts::Metadata::find_pda(&base_mint);
    let accounts = dex_v4::create_market::Accounts {
        market: info(of(&market_key), of(&program)),
        orderbook: info(addr(3), of(&program)),
        base_vault: info(addr(7), spl_token_program()),
        quote_vault: info(addr(8), spl_token_program()),
        market_admin: info(addr(4), addr(0)),
        event_queue: info(addr(5), of(&program)),
        asks: info(addr(6), of(&program)),
        bids: info(addr(9), of(&program)),
        token_metadata: info(of(&metadata_key), addr(0)),
    };
    let params = dex_v4::create_market::Params {
        signer_nonce: nonce as u64 + 256,
        min_base_order_size: 100,
        tick_size: 1,
        cranker_reward: 5,
        base_currency_multiplier: 10,
        quote_currency_multiplier: 10000,
    };
    let (state, engine) = create_market(
        &of(&program),
        &accounts,
        &params,
        &base_vault,
        &quote_vault,
        0,
        &None,
        1234,
        &FeeSchedule::standard(),
    )
    .unwrap();
    assert_eq!(state.tag, AccountTag::DexState);
    assert_eq!(state.base_mint, of(&base_mint));
    assert_eq!(state.quote_mint, of(&quote_mint));
    assert_eq!(state.base_vault, addr(7));
    assert_eq!(state.quote_vault, addr(8));
    assert_eq!(state.orderbook, addr(3));
    assert_eq!(state.admin, addr(4));
    assert_eq!(state.creation_timestamp, 1234);
    assert_eq!(state.min_base_order_size, 10);
    assert_eq!(state.signer_nonce, nonce);
    assert_eq!(state.royalties_bps, 0);
    assert_eq!(state.accumulated_fees, 0);
    assert_eq!(state.fee_schedule.taker_rates, FeeSchedule::standard().taker_rates);
    assert!(state.is_wf());
    assert_eq!(engine.min_base_order_size, 10);
    assert_eq!(engine.callback_info_len, 33);
    assert_eq!(engine.callback_id_len, 32);
    assert_eq!(engine.tick_size, 1);
    assert_eq!(engine.cranker_reward, 5);
    assert_eq!(engine.caller_authority, of(&program));

    let initialized = create_market(
        &of(&program),
        &accounts,
        &params,
        &base_vault,
        &quote_vault,
        1,
        &None,
        0,
        &FeeSchedule::standard(),
    );
    assert_eq!(initialized.err(), Some(ProgramFault::InvalidArgument));
    let zero_tick = dex_v4::create_market::Params {
        tick_size: 0,
        ..params
    };
    let refused = create_market(
        &of(&program),
        &accounts,
        &zero_tick,
        &base_vault,
        &quote_vault,
        0,
        &None,
        0,
        &FeeSchedule::standard(),
    );
    assert_eq!(refused.err(), Some(ProgramFault::InvalidArgument));
    let foreign = token_account(quote_mint, base_mint, 0);
    let refused = create_market(
        &of(&program),
        &accounts,
        &params,
        &base_vault,
        &foreign,
        0,
        &None,
        0,
        &FeeSchedule::standard(),
    );
    assert_eq!(refused.err(), Some(ProgramFault::InvalidArgument));
}

#[test]
fn accounts_are_checked_against_the_ledger_and_the_signer() {
    let program = Pubkey::new_unique();
    let market_key = Pubkey::new_unique();
    let mut nonce = 255u8;
    let signer = loop {
        match Pubkey::create_program_address(&[&market_key.to_bytes(), &[nonce]], &program) {
            Ok(k) => break k,
            Err(_) => nonce -= 1,
        }
    };
    let mut m = market();
    m.signer_nonce = nonce;
    let mut accounts = dex_v4::close_market::Accounts {
        market: info(of(&market_key), of(&program)),
        base_vault: info(addr(7), addr(0)),
        quote_vault: info(addr(8), addr(0)),
        orderbook: info(addr(3), addr(0)),
        event_queue: info(addr(20), addr(0)),
        bids: info(addr(21), addr(0)),
        asks: info(addr(22), addr(0)),
        market_admin: info(addr(4), addr(0)),
        target_lamports_account: info(addr(23), addr(0)),
        market_signer: info(of(&signer), addr(0)),
        spl_token_program: info(spl_token_program(), addr(0)),
    };
    let check = |a: &dex_v4::close_market::Accounts| {
        dex_v4::close_market::check_accounts(&of(&program), &m, a)
    };
    assert_eq!(check(&accounts), Ok(()));
    accounts.quote_vault.key = addr(1);
    assert_eq!(check(&accounts), Err(ProgramFault::Custom(14)));
    accounts.base_vault.key = addr(1);
    assert_eq!(check(&accounts), Err(ProgramFault::Custom(13)));
    accounts.market_admin.key = addr(1);
    assert_eq!(check(&accounts), Err(ProgramFault::Custom(12)));
    accounts.orderbook.key = addr(1);
    assert_eq!(check(&accounts), Err(ProgramFault::Custom(10)));
    accounts.market_signer.key = addr(1);
    assert_eq!(check(&accounts), Err(ProgramFault::Custom(9)));

    let sweep = dex_v4::sweep_fees::Accounts {
        market: info(of(&market_key), of(&program)),
        market_signer: info(of(&signer), addr(0)),
        quote_vault: info(addr(8), addr(0)),
        destination_token_account: info(addr(30), addr(0)),
        spl_token_program: info(spl_token_program(), addr(0)),
        token_metadata: info(addr(31), addr(0)),
        creators_token_accounts: vec![],
    };
    let authority = Pubkey::new_from_array(sweep_authority().bytes);
    let mine = token_account(Pubkey::new_unique(), authority, 0);
    let theirs = token_account(Pubkey::new_unique(), Pubkey::new_unique(), 0);
    assert_eq!(
        dex_v4::sweep_fees::check_accounts(&of(&program), &m, &sweep, &mine),
        Ok(())
    );
    assert_eq!(
        dex_v4::sweep_fees::check_accounts(&of(&program), &m, &sweep, &theirs),
        Err(ProgramFault::InvalidArgument)
    );
    assert_eq!(
        dex_v4::sweep_fees::check_accounts(&of(&program), &m, &sweep, &[0u8; 3]),
        Err(ProgramFault::InvalidAccountData)
    );
}
