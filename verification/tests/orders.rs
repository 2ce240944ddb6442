use dex_v4::address::Address;
use dex_v4::cancel_order::{apply_cancel, resolve_order};
use dex_v4::error::{DexError, ProgramFault};
use dex_v4::new_order::{
    apply_order_summary, prepare_order, OrderOutcome, OrderSummary, OrderType, Params,
};
use dex_v4::state::{AccountTag, DexState, FeeSchedule, FeeTier, MarketFeeType, SelfTradeBehavior, Side};
use dex_v4::user_account::{Order, UserAccount};

fn addr(b: u8) -> Address {
    Address::new([b; 32])
}

fn market() -> DexState {
    let zero = addr(0);
    DexState {
        tag: AccountTag::DexState,
        base_mint: zero,
        quote_mint: zero,
        base_vault: zero,
        quote_vault: zero,
        orderbook: zero,
        admin: zero,
        creation_timestamp: 0,
        base_volume: 0,
        quote_volume: 0,
        accumulated_fees: 0,
        min_base_order_size: 1,
        royalties_bps: 0,
        accumulated_royalties: 0,
        base_currency_multiplier: 1,
        quote_currency_multiplier: 10000,
        signer_nonce: 0,
        fee_type: MarketFeeType::Default,
        fee_schedule: FeeSchedule::standard(),
    }
}

fn params(side: Side, order_type: OrderType, price: u64, base: u64, quote: u64) -> Params {
    Params {
        client_order_id: 42,
        limit_price: price,
        max_base_qty: base,
        max_quote_qty: quote,
        match_limit: 10,
        side,
        order_type,
        self_trade_behavior: SelfTradeBehavior::DecrementTake,
        has_discount_token_account: false,
    }
}

fn user(capacity: u32) -> UserAccount {
    UserAccount::with_capacity(addr(1), &addr(2), &addr(3), capacity)
}

fn balances(u: &UserAccount) -> (u64, u64, u64, u64) {
    (
        u.header.base_token_free,
        u.header.base_token_locked,
        u.header.quote_token_free,
        u.header.quote_token_locked,
    )
}

#[test]
fn order_below_the_minimum_size_is_refused() {
    let mut m = market();
    m.min_base_order_size = 5;
    let p = params(Side::Ask, OrderType::Limit, 9 << 32, 4, u64::MAX);
    assert_eq!(
        prepare_order(&m, &addr(1), &p, FeeTier::Base, false).err(),
        Some(ProgramFault::InvalidArgument)
    );
    let p = params(Side::Ask, OrderType::Limit, 9 << 32, 5, u64::MAX);
    assert!(prepare_order(&m, &addr(1), &p, FeeTier::Base, false).is_ok());
}

#[test]
fn bid_sets_the_worst_case_fee_aside() {
    let m = market();
    let p = params(Side::Bid, OrderType::Limit, 11 << 32, 3, 1_000_000);
    let prepared = prepare_order(&m, &addr(1), &p, FeeTier::Base, true).unwrap();
    assert_eq!(prepared.max_quote_qty, 999_600);
    assert_eq!(prepared.engine_order.max_quote_qty, 99);
    assert_eq!(prepared.engine_order.max_base_qty, 3);
    assert_eq!(prepared.engine_order.callback_info.fee_tier, 0x80);
    assert_eq!(prepared.engine_order.callback_info.user_account, addr(1));
    assert!(!prepared.engine_order.post_only);
    assert!(prepared.engine_order.post_allowed);
    assert_eq!(prepared.engine_order.limit_price, 11 << 32);
    assert_eq!(prepared.engine_order.match_limit, 10);
}

#[test]
fn post_only_bid_and_asks_keep_their_quote_budget() {
    let m = market();
    let p = params(Side::Bid, OrderType::PostOnly, 11 << 32, 3, 1_000_000);
    let prepared = prepare_order(&m, &addr(1), &p, FeeTier::Srm3, false).unwrap();
    assert_eq!(prepared.max_quote_qty, 1_000_000);
    assert!(prepared.engine_order.post_only);
    assert!(prepared.engine_order.post_allowed);
    assert_eq!(prepared.engine_order.callback_info.fee_tier, 2);
    let p = params(Side::Ask, OrderType::ImmediateOrCancel, 11 << 32, 3, 1_000_000);
    let prepared = prepare_order(&m, &addr(1), &p, FeeTier::Base, false).unwrap();
    assert_eq!(prepared.max_quote_qty, 1_000_000);
    assert!(!prepared.engine_order.post_only);
    assert!(!prepared.engine_order.post_allowed);
}

#[test]
fn resting_ask_is_posted_and_locked() {
    let m = market();
    let mut u = user(2);
    let p = params(Side::Ask, OrderType::Limit, 9 << 32, 1, u64::MAX);
    let id: u128 = (9u128 << 96) | 1;
    let s = OrderSummary {
        posted_order_id: Some(id),
        total_base_qty: 1,
        total_quote_qty: 0,
        total_base_qty_posted: 1,
    };
    // The quote value of what is posted exceeds the matched quote: refused.
    assert_eq!(
        apply_order_summary(&m, &mut u, &p, FeeTier::Base, false, u64::MAX, &s),
        Err(DexError::NumericalOverflow)
    );
    let s = OrderSummary {
        total_quote_qty: 9,
        ..s
    };
    assert_eq!(
        apply_order_summary(&m, &mut u, &p, FeeTier::Base, false, u64::MAX, &s),
        Ok(OrderOutcome {
            qty_to_transfer: 1,
            transfer_side: Side::Ask,
            referral_fee: 0
        })
    );
    assert_eq!(balances(&u), (0, 1, 0, 0));
    assert_eq!(u.read_order(0), Ok(Order { id, client_id: 42 }));
    assert_eq!(u.header.accumulated_taker_base_volume, 0);
}

#[test]
fn matched_bid_pays_quote_fee_and_royalty() {
    let mut m = market();
    m.royalties_bps = 100;
    let mut u = user(2);
    u.header.quote_token_free = 50_000;
    let p = params(Side::Bid, OrderType::Limit, 11 << 32, 1, u64::MAX);
    let s = OrderSummary {
        posted_order_id: None,
        total_base_qty: 1,
        total_quote_qty: 9,
        total_base_qty_posted: 0,
    };
    // Matched quote 90000, taker fee 35, royalty 900: 90935 in all.
    assert_eq!(
        apply_order_summary(&m, &mut u, &p, FeeTier::Base, true, u64::MAX - 1, &s),
        Ok(OrderOutcome {
            qty_to_transfer: 40_935,
            transfer_side: Side::Bid,
            referral_fee: 7
        })
    );
    assert_eq!(balances(&u), (1, 0, 0, 0));
    assert_eq!(u.header.number_of_orders, 0);
    assert_eq!(u.header.accumulated_taker_base_volume, 1);
    assert_eq!(u.header.accumulated_taker_quote_volume, 90_935);
}

#[test]
fn matched_ask_earns_quote_less_fee() {
    let m = market();
    let mut u = user(2);
    u.header.base_token_free = 5;
    let p = params(Side::Ask, OrderType::ImmediateOrCancel, 9 << 32, 2, u64::MAX);
    let s = OrderSummary {
        posted_order_id: None,
        total_base_qty: 2,
        total_quote_qty: 18,
        total_base_qty_posted: 0,
    };
    assert_eq!(
        apply_order_summary(&m, &mut u, &p, FeeTier::Base, false, u64::MAX, &s),
        Ok(OrderOutcome {
            qty_to_transfer: 0,
            transfer_side: Side::Ask,
            referral_fee: 0
        })
    );
    // 180000 matched, fee 71.
    assert_eq!(balances(&u), (3, 0, 179_929, 0));
    assert_eq!(u.header.accumulated_taker_quote_volume, 180_000);
}

#[test]
fn partly_posted_bid_locks_the_posted_quote() {
    let mut m = market();
    m.quote_currency_multiplier = 1;
    let mut u = user(1);
    u.header.quote_token_free = 1_000;
    let p = params(Side::Bid, OrderType::Limit, 10 << 32, 5, 1_000_000);
    let id: u128 = (10u128 << 96) | (1 << 63);
    let s = OrderSummary {
        posted_order_id: Some(id),
        total_base_qty: 5,
        total_quote_qty: 50,
        total_base_qty_posted: 3,
    };
    assert_eq!(
        apply_order_summary(&m, &mut u, &p, FeeTier::Base, false, 999_600, &s),
        Ok(OrderOutcome {
            qty_to_transfer: 0,
            transfer_side: Side::Bid,
            referral_fee: 0
        })
    );
    assert_eq!(balances(&u), (2, 0, 950, 30));
    assert_eq!(u.header.number_of_orders, 1);
}

#[test]
fn order_types_abort_as_they_promise() {
    let m = market();
    let nothing = OrderSummary {
        posted_order_id: None,
        total_base_qty: 0,
        total_quote_qty: 0,
        total_base_qty_posted: 0,
    };
    let mut u = user(1);
    let ioc = params(Side::Ask, OrderType::ImmediateOrCancel, 9 << 32, 1, u64::MAX);
    assert_eq!(
        apply_order_summary(&m, &mut u, &ioc, FeeTier::Base, false, u64::MAX, &nothing),
        Err(DexError::TransactionAborted)
    );
    let post = params(Side::Ask, OrderType::PostOnly, 9 << 32, 1, u64::MAX);
    assert_eq!(
        apply_order_summary(&m, &mut u, &post, FeeTier::Base, false, u64::MAX, &nothing),
        Err(DexError::TransactionAborted)
    );
    let limit = params(Side::Ask, OrderType::Limit, 9 << 32, 1, u64::MAX);
    assert!(apply_order_summary(&m, &mut u, &limit, FeeTier::Base, false, u64::MAX, &nothing).is_ok());
    let partial = OrderSummary {
        posted_order_id: None,
        total_base_qty: 1,
        total_quote_qty: 9,
        total_base_qty_posted: 0,
    };
    let fok_ask = params(Side::Ask, OrderType::FillOrKill, 9 << 32, 2, u64::MAX);
    u.header.base_token_free = 1;
    assert_eq!(
        apply_order_summary(&m, &mut u, &fok_ask, FeeTier::Base, false, u64::MAX, &partial),
        Err(DexError::TransactionAborted)
    );
    assert_eq!(balances(&u), (1, 0, 0, 0));
    let fok_ask = params(Side::Ask, OrderType::FillOrKill, 9 << 32, 1, u64::MAX);
    assert!(apply_order_summary(&m, &mut u, &fok_ask, FeeTier::Base, false, u64::MAX, &partial).is_ok());
    let fok_bid = params(Side::Bid, OrderType::FillOrKill, 9 << 32, 1, 100_000);
    assert_eq!(
        apply_order_summary(&m, &mut u, &fok_bid, FeeTier::Base, false, 99_960, &partial),
        Err(DexError::TransactionAborted)
    );
    assert!(apply_order_summary(&m, &mut u, &fok_bid, FeeTier::Base, false, 90_035, &partial).is_ok());
}

#[test]
fn posted_order_needs_a_free_slot() {
    let m = market();
    let mut u = user(1);
    u.add_order(Order { id: 1, client_id: 1 }).unwrap();
    u.header.base_token_free = 10;
    let p = params(Side::Ask, OrderType::Limit, 9 << 32, 1, u64::MAX);
    let s = OrderSummary {
        posted_order_id: Some(77),
        total_base_qty: 1,
        total_quote_qty: 9,
        total_base_qty_posted: 1,
    };
    assert_eq!(
        apply_order_summary(&m, &mut u, &p, FeeTier::Base, false, u64::MAX, &s),
        Err(DexError::UserAccountFull)
    );
    assert_eq!(balances(&u), (10, 0, 0, 0));
    assert_eq!(u.header.number_of_orders, 1);
    assert_eq!(u.read_order(0), Ok(Order { id: 1, client_id: 1 }));
}

#[test]
fn summary_out_of_range_is_refused() {
    let m = market();
    let mut u = user(1);
    let p = params(Side::Bid, OrderType::Limit, 9 << 32, 1, u64::MAX);
    let s = OrderSummary {
        posted_order_id: None,
        total_base_qty: 1,
        total_quote_qty: u64::MAX / 2,
        total_base_qty_posted: 0,
    };
    assert_eq!(
        apply_order_summary(&m, &mut u, &p, FeeTier::Base, false, 0, &s),
        Err(DexError::NumericalOverflow)
    );
    assert_eq!(balances(&u), (0, 0, 0, 0));
}

#[test]
fn order_type_and_side_bytes() {
    assert_eq!(OrderType::from_u8(0), Some(OrderType::Limit));
    assert_eq!(OrderType::from_u8(1), Some(OrderType::ImmediateOrCancel));
    assert_eq!(OrderType::from_u8(2), Some(OrderType::FillOrKill));
    assert_eq!(OrderType::from_u8(3), Some(OrderType::PostOnly));
    assert_eq!(OrderType::from_u8(4), None);
    assert_eq!(Side::from_u8(0), Some(Side::Bid));
    assert_eq!(Side::from_u8(1), Some(Side::Ask));
    assert_eq!(Side::from_u8(2), None);
    assert_eq!(
        SelfTradeBehavior::from_u8(2),
        Some(SelfTradeBehavior::AbortTransaction)
    );
    assert_eq!(SelfTradeBehavior::from_u8(3), None);
}

#[test]
fn cancellation_resolves_by_slot_or_by_client_id() {
    let mut u = user(3);
    u.add_order(Order { id: 10, client_id: 100 }).unwrap();
    u.add_order(Order { id: 11, client_id: 101 }).unwrap();
    let by_slot = dex_v4::cancel_order::Params {
        order_id: 11,
        order_index: 1,
        is_client_id: false,
    };
    assert_eq!(resolve_order(&u, &by_slot), Ok((11, 1)));
    let wrong_id = dex_v4::cancel_order::Params {
        order_id: 10,
        order_index: 1,
        is_client_id: false,
    };
    assert_eq!(resolve_order(&u, &wrong_id), Err(ProgramFault::InvalidArgument));
    let beyond = dex_v4::cancel_order::Params {
        order_id: 10,
        order_index: 2,
        is_client_id: false,
    };
    assert_eq!(resolve_order(&u, &beyond), Err(ProgramFault::Custom(0)));
    let far_beyond = dex_v4::cancel_order::Params {
        order_id: 10,
        order_index: u64::MAX,
        is_client_id: false,
    };
    assert_eq!(resolve_order(&u, &far_beyond), Err(ProgramFault::Custom(0)));
    let by_alias = dex_v4::cancel_order::Params {
        order_id: 101,
        order_index: 0,
        is_client_id: true,
    };
    assert_eq!(resolve_order(&u, &by_alias), Ok((11, 1)));
    let unknown = dex_v4::cancel_order::Params {
        order_id: 5,
        order_index: 0,
        is_client_id: true,
    };
    assert_eq!(resolve_order(&u, &unknown), Err(ProgramFault::Custom(4)));
}

#[test]
fn cancellation_returns_what_the_order_held() {
    let m = market();
    let mut u = user(3);
    let ask: u128 = (9u128 << 96) | 1;
    let bid: u128 = (8u128 << 96) | (1 << 63);
    u.add_order(Order { id: ask, client_id: 1 }).unwrap();
    u.add_order(Order { id: bid, client_id: 2 }).unwrap();
    u.header.base_token_locked = 4;
    u.header.quote_token_locked = 70_000;
    let s = OrderSummary {
        posted_order_id: None,
        total_base_qty: 3,
        total_quote_qty: 5,
        total_base_qty_posted: 0,
    };
    assert_eq!(apply_cancel(&m, &mut u, ask, 0, &s), Ok(()));
    assert_eq!(balances(&u), (3, 1, 0, 70_000));
    assert_eq!(u.header.number_of_orders, 1);
    assert_eq!(u.read_order(0), Ok(Order { id: bid, client_id: 2 }));
    assert_eq!(apply_cancel(&m, &mut u, bid, 0, &s), Ok(()));
    assert_eq!(balances(&u), (3, 1, 50_000, 20_000));
    assert_eq!(u.header.number_of_orders, 0);
}

#[test]
fn cancellation_that_fails_changes_nothing() {
    let m = market();
    let mut u = user(3);
    let ask: u128 = (9u128 << 96) | 1;
    u.add_order(Order { id: ask, client_id: 1 }).unwrap();
    u.header.base_token_locked = 2;
    let s = OrderSummary {
        posted_order_id: None,
        total_base_qty: 3,
        total_quote_qty: 0,
        total_base_qty_posted: 0,
    };
    assert_eq!(apply_cancel(&m, &mut u, ask, 0, &s), Err(DexError::NumericalOverflow));
    assert_eq!(balances(&u), (0, 2, 0, 0));
    assert_eq!(u.header.number_of_orders, 1);
    let s = OrderSummary {
        total_base_qty: 1,
        ..s
    };
    assert_eq!(apply_cancel(&m, &mut u, ask, 1, &s), Err(DexError::InvalidOrderIndex));
    assert_eq!(balances(&u), (0, 2, 0, 0));
    assert_eq!(u.header.number_of_orders, 1);
}
