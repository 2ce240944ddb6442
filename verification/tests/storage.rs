use dex_v4::address::Address;
use dex_v4::error::ProgramFault;
use dex_v4::instruction::{self, DexInstruction};
use dex_v4::state::{AccountTag, DexState, FeeSchedule, MarketFeeType, SelfTradeBehavior, Side};
use dex_v4::storage::{pack_header, tag_code, tag_from_code, unpack_header};
use dex_v4::user_account::{CallBackInfo, Order, UserAccount};
use dex_v4::utils::AccountInfo;
use dex_v4::wire::{put_address, put_u128, put_u32, put_u64, read_address, read_u128, read_u32, read_u64};

fn addr(b: u8) -> Address {
    Address::new([b; 32])
}

fn info(b: u8) -> AccountInfo {
    AccountInfo {
        key: addr(b),
        owner: addr(0),
        is_signer: false,
        is_writable: false,
        lamports: 0,
        data_len: 0,
    }
}

fn sample_account() -> UserAccount {
    let mut a = UserAccount::with_capacity(addr(1), &addr(2), &addr(3), 3);
    a.header.base_token_free = 1;
    a.header.base_token_locked = 2;
    a.header.quote_token_free = 3;
    a.header.quote_token_locked = 4;
    a.header.accumulated_rebates = 5;
    a.header.accumulated_maker_quote_volume = 6;
    a.header.accumulated_maker_base_volume = 7;
    a.header.accumulated_taker_quote_volume = 8;
    a.header.accumulated_taker_base_volume = u64::MAX;
    a.add_order(Order {
        id: u128::MAX - 1,
        client_id: 77,
    })
    .unwrap();
    a.add_order(Order { id: 5, client_id: 6 }).unwrap();
    a
}

#[test]
fn integers_are_little_endian() {
    let mut out = Vec::new();
    put_u64(&mut out, 0x0102030405060708);
    put_u32(&mut out, 0x0a0b0c0d);
    put_u128(&mut out, 1);
    put_address(&mut out, &addr(9));
    assert_eq!(&out[..8], &[8, 7, 6, 5, 4, 3, 2, 1]);
    assert_eq!(&out[8..12], &[0x0d, 0x0c, 0x0b, 0x0a]);
    assert_eq!(out[12], 1);
    assert_eq!(out.len(), 8 + 4 + 16 + 32);
    assert_eq!(read_u64(&out, 0), 0x0102030405060708);
    assert_eq!(read_u32(&out, 8), 0x0a0b0c0d);
    assert_eq!(read_u128(&out, 12), 1);
    assert_eq!(read_address(&out, 28), addr(9));
}

#[test]
fn header_layout() {
    let a = sample_account();
    let bytes = pack_header(&a.header);
    assert_eq!(bytes.len(), 152);
    assert_eq!(&bytes[..8], &[2, 0, 0, 0, 0, 0, 0, 0]);
    assert_eq!(&bytes[8..40], &[2u8; 32]);
    assert_eq!(&bytes[40..72], &[3u8; 32]);
    assert_eq!(bytes[72], 1);
    assert_eq!(bytes[96], 4);
    assert_eq!(&bytes[136..144], &[255u8; 8]);
    assert_eq!(&bytes[144..152], &[0, 0, 0, 0, 2, 0, 0, 0]);
    let h = unpack_header(&bytes).unwrap();
    assert_eq!(h.tag, AccountTag::UserAccount);
    assert_eq!(h.market, addr(2));
    assert_eq!(h.owner, addr(3));
    assert_eq!(h.quote_token_locked, 4);
    assert_eq!(h.accumulated_taker_base_volume, u64::MAX);
    assert_eq!(h.number_of_orders, 2);
    assert!(unpack_header(&bytes[..151]).is_none());
    let mut bad = bytes.clone();
    bad[0] = 4;
    assert!(unpack_header(&bad).is_none());
    for tag in [
        AccountTag::Uninitialized,
        AccountTag::DexState,
        AccountTag::UserAccount,
        AccountTag::Closed,
    ] {
        assert_eq!(tag_from_code(tag_code(tag)), Some(tag));
    }
    assert_eq!(tag_code(AccountTag::Closed), 3);
    assert_eq!(tag_from_code(4), None);
}

#[test]
fn user_account_round_trip() {
    let a = sample_account();
    let bytes = a.to_buffer();
    assert_eq!(bytes.len(), 152 + 3 * 32);
    assert_eq!(UserAccount::compute_allocation_size(3), Ok(bytes.len()));
    let b = UserAccount::from_buffer(addr(1), &bytes).unwrap();
    assert_eq!(b.key, addr(1));
    assert_eq!(b.capacity(), 3);
    assert_eq!(b.header.number_of_orders, 2);
    assert_eq!(b.header.base_token_locked, 2);
    assert_eq!(b.read_order(0), Ok(Order { id: u128::MAX - 1, client_id: 77 }));
    assert_eq!(b.read_order(1), Ok(Order { id: 5, client_id: 6 }));
    assert_eq!(b.to_buffer(), bytes);
}

#[test]
fn user_account_buffers_that_hold_none() {
    let a = sample_account();
    let bytes = a.to_buffer();
    let fault = |data: &[u8]| UserAccount::from_buffer(addr(1), data).err();
    assert_eq!(fault(&bytes[..100]), Some(ProgramFault::InvalidAccountData));
    assert_eq!(fault(&bytes[..bytes.len() - 1]), Some(ProgramFault::InvalidAccountData));
    assert_eq!(fault(&bytes[..152 + 32]), Some(ProgramFault::InvalidAccountData));
    assert!(fault(&bytes[..152 + 64]).is_none());
    let mut other = bytes.clone();
    other[0] = 1;
    assert_eq!(fault(&other), Some(ProgramFault::InvalidAccountData));
    let mut fresh = vec![0u8; 152 + 32];
    assert_eq!(fault(&fresh), Some(ProgramFault::InvalidAccountData));
    fresh[0] = 2;
    assert!(fault(&fresh).is_none());
}

#[test]
fn market_round_trip() {
    let m = DexState {
        tag: AccountTag::DexState,
        base_mint: addr(1),
        quote_mint: addr(2),
        base_vault: addr(3),
        quote_vault: addr(4),
        orderbook: addr(5),
        admin: addr(6),
        creation_timestamp: -5,
        base_volume: 7,
        quote_volume: 8,
        accumulated_fees: 9,
        min_base_order_size: 10,
        royalties_bps: 11,
        accumulated_royalties: 12,
        base_currency_multiplier: 13,
        quote_currency_multiplier: 14,
        signer_nonce: 254,
        fee_type: MarketFeeType::Stable,
        fee_schedule: FeeSchedule::standard(),
    };
    let bytes = m.to_bytes();
    assert_eq!(bytes.len(), 448);
    assert_eq!(bytes[0], 1);
    assert_eq!(&bytes[280..288], &100_000_000u64.to_le_bytes());
    assert_eq!(&bytes[320..328], &1717986u64.to_le_bytes());
    assert_eq!(&bytes[376..384], &429496u64.to_le_bytes());
    assert_eq!(&bytes[384..], &[0u8; 64]);
    assert_eq!(&bytes[200..208], &[0xfb, 255, 255, 255, 255, 255, 255, 255]);
    assert_eq!(bytes[272], 254);
    assert_eq!(bytes[273], 1);
    let n = DexState::get(&bytes).unwrap();
    assert_eq!(n.base_mint, addr(1));
    assert_eq!(n.admin, addr(6));
    assert_eq!(n.creation_timestamp, -5);
    assert_eq!(n.quote_currency_multiplier, 14);
    assert_eq!(n.signer_nonce, 254);
    assert_eq!(n.fee_type, MarketFeeType::Stable);
    assert_eq!(n.to_bytes(), bytes);
    assert_eq!(n.fee_schedule.thresholds, FeeSchedule::standard().thresholds);
    assert_eq!(n.fee_schedule.taker_rates, FeeSchedule::standard().taker_rates);
    assert_eq!(n.fee_schedule.maker_rates, [0u64; 8]);
    assert!(n.is_wf());
    assert_eq!(DexState::get(&bytes[..447]).err(), Some(ProgramFault::InvalidAccountData));
    let mut closed = bytes.clone();
    closed[0] = 3;
    assert_eq!(DexState::get(&closed).err(), Some(ProgramFault::InvalidAccountData));
    let mut odd = bytes.clone();
    odd[273] = 2;
    assert_eq!(DexState::get(&odd).err(), Some(ProgramFault::InvalidAccountData));
}

#[test]
fn callback_info_is_address_then_fee_byte() {
    let c = CallBackInfo {
        user_account: addr(7),
        fee_tier: 0x83,
    };
    let bytes = c.to_bytes();
    assert_eq!(bytes.len(), 33);
    assert_eq!(&bytes[..32], &[7u8; 32]);
    assert_eq!(bytes[32], 0x83);
    let d = CallBackInfo::from_bytes(&bytes).unwrap();
    assert_eq!(d.user_account, addr(7));
    assert_eq!(d.fee_tier, 0x83);
    assert!(CallBackInfo::from_bytes(&bytes[..32]).is_none());
    assert!(CallBackInfo::from_bytes(&[0u8; 34]).is_none());
}

#[test]
fn arguments_round_trip() {
    let p = dex_v4::consume_events::Params {
        max_iterations: 10,
        no_op_err: 1,
    };
    let bytes = p.to_bytes();
    assert_eq!(bytes, vec![10, 0, 0, 0, 0, 0, 0, 0, 1, 0, 0, 0, 0, 0, 0, 0]);
    let q = dex_v4::consume_events::Params::from_bytes(&bytes).unwrap();
    assert_eq!((q.max_iterations, q.no_op_err), (10, 1));
    assert_eq!(
        dex_v4::consume_events::Params::from_bytes(&bytes[..15]).err(),
        Some(ProgramFault::InvalidInstructionData)
    );

    let p = dex_v4::new_order::Params {
        client_order_id: 1 << 100,
        limit_price: 2,
        max_base_qty: 3,
        max_quote_qty: 4,
        match_limit: 5,
        side: Side::Ask,
        order_type: dex_v4::new_order::OrderType::FillOrKill,
        self_trade_behavior: SelfTradeBehavior::CancelProvide,
        has_discount_token_account: true,
    };
    let bytes = p.to_bytes();
    assert_eq!(bytes.len(), 56);
    assert_eq!(&bytes[48..], &[1, 2, 1, 1, 0, 0, 0, 0]);
    let q = dex_v4::new_order::Params::from_bytes(&bytes).unwrap();
    assert_eq!(q.client_order_id, 1 << 100);
    assert_eq!((q.limit_price, q.max_base_qty, q.max_quote_qty, q.match_limit), (2, 3, 4, 5));
    assert_eq!(q.side, Side::Ask);
    assert_eq!(q.order_type, dex_v4::new_order::OrderType::FillOrKill);
    assert_eq!(q.self_trade_behavior, SelfTradeBehavior::CancelProvide);
    assert!(q.has_discount_token_account);
    for (at, value) in [(48usize, 2u8), (49, 4), (50, 3)] {
        let mut bad = bytes.clone();
        bad[at] = value;
        assert_eq!(
            dex_v4::new_order::Params::from_bytes(&bad).err(),
            Some(ProgramFault::InvalidInstructionData)
        );
    }

    let p = dex_v4::cancel_order::Params {
        order_id: 9,
        order_index: 8,
        is_client_id: true,
    };
    let bytes = p.to_bytes();
    assert_eq!(bytes.len(), 32);
    assert_eq!(&bytes[16..], &[8, 0, 0, 0, 0, 0, 0, 0, 1, 0, 0, 0, 0, 0, 0, 0]);
    let q = dex_v4::cancel_order::Params::from_bytes(&bytes).unwrap();
    assert_eq!((q.order_id, q.order_index, q.is_client_id), (9, 8, true));
    let mut bad = bytes.clone();
    bad[24] = 2;
    assert_eq!(
        dex_v4::cancel_order::Params::from_bytes(&bad).err(),
        Some(ProgramFault::InvalidInstructionData)
    );

    let p = dex_v4::create_market::Params {
        signer_nonce: 1,
        min_base_order_size: 2,
        tick_size: 3,
        cranker_reward: 4,
        base_currency_multiplier: 5,
        quote_currency_multiplier: 6,
    };
    let q = dex_v4::create_market::Params::from_bytes(&p.to_bytes()).unwrap();
    assert_eq!(
        (
            q.signer_nonce,
            q.min_base_order_size,
            q.tick_size,
            q.cranker_reward,
            q.base_currency_multiplier,
            q.quote_currency_multiplier
        ),
        (1, 2, 3, 4, 5, 6)
    );
    let p = dex_v4::initialize_account::Params {
        market: addr(4),
        max_orders: 20,
    };
    let q = dex_v4::initialize_account::Params::from_bytes(&p.to_bytes()).unwrap();
    assert_eq!((q.market, q.max_orders), (addr(4), 20));
}

#[test]
fn drain_request_names_its_accounts_in_order() {
    let accounts = dex_v4::consume_events::Accounts {
        market: info(1),
        orderbook: info(2),
        event_queue: info(3),
        reward_target: info(4),
        user_accounts: vec![info(5), info(6)],
    };
    let params = dex_v4::consume_events::Params {
        max_iterations: 10,
        no_op_err: 1,
    };
    let ix = instruction::consume_events(addr(9), &accounts, &params);
    assert_eq!(ix.program_id, addr(9));
    let keys: Vec<Address> = ix.accounts.iter().map(|m| m.pubkey).collect();
    assert_eq!(keys, (1..=6u8).map(addr).collect::<Vec<Address>>());
    assert!(ix.accounts.iter().all(|m| m.is_writable && !m.is_signer));
    assert_eq!(ix.data.len(), 24);
    assert_eq!(&ix.data[..8], &[4, 0, 0, 0, 0, 0, 0, 0]);
    assert_eq!(&ix.data[8..], &params.to_bytes()[..]);
    assert_eq!(
        instruction::request_data(DexInstruction::CloseMarket, &vec![1, 2]),
        vec![9, 0, 0, 0, 0, 0, 0, 0, 1, 2]
    );
}

#[test]
fn order_request_names_optional_accounts_last() {
    let mut accounts = dex_v4::new_order::Accounts {
        spl_token_program: info(1),
        system_program: info(2),
        market: info(3),
        orderbook: info(4),
        event_queue: info(5),
        bids: info(6),
        asks: info(7),
        base_vault: info(8),
        quote_vault: info(9),
        user: info(10),
        user_token_account: info(11),
        user_owner: info(12),
        discount_token_account: Some(info(13)),
        fee_referral_account: Some(info(14)),
    };
    let params = dex_v4::new_order::Params {
        client_order_id: 0,
        limit_price: 1,
        max_base_qty: 1,
        max_quote_qty: 1,
        match_limit: 1,
        side: Side::Bid,
        order_type: dex_v4::new_order::OrderType::Limit,
        self_trade_behavior: SelfTradeBehavior::DecrementTake,
        has_discount_token_account: true,
    };
    let ix = instruction::new_order(addr(9), &accounts, &params);
    assert_eq!(ix.accounts.len(), 14);
    assert!(!ix.accounts[0].is_writable);
    assert!(ix.accounts[2].is_writable);
    assert!(ix.accounts[11].is_signer && ix.accounts[11].is_writable);
    assert!(!ix.accounts[12].is_writable);
    assert!(ix.accounts[13].is_writable);
    assert_eq!(ix.data[0], 1);
    assert_eq!(ix.data.len(), 64);
    accounts.discount_token_account = None;
    let ix = instruction::new_order(addr(9), &accounts, &params);
    assert_eq!(ix.accounts.len(), 13);
    assert_eq!(ix.accounts[12].pubkey, addr(14));
    let settle_accounts = dex_v4::settle::Accounts {
        spl_token_program: info(1),
        market: info(2),
        base_vault: info(3),
        quote_vault: info(4),
        market_signer: info(5),
        user: info(6),
        user_owner: info(7),
        destination_base_account: info(8),
        destination_quote_account: info(9),
    };
    let ix = instruction::settle(addr(9), &settle_accounts);
    assert_eq!(ix.data, vec![5, 0, 0, 0, 0, 0, 0, 0]);
    assert_eq!(ix.accounts.len(), 9);
    assert!(ix.accounts[6].is_signer && !ix.accounts[6].is_writable);
    assert!(!ix.accounts[1].is_writable);
    assert!(ix.accounts[8].is_writable);
}
