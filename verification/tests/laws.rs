use dex_v4::address::Address;
use dex_v4::cancel_order::apply_cancel;
use dex_v4::consume_events::{consume_events, Event, Params};
use dex_v4::create_market::check_orderbook;
use dex_v4::error::{DexError, ProgramFault};
use dex_v4::new_order::{apply_order_summary, prepare_order, OrderSummary, OrderType};
use dex_v4::settle::settle;
use dex_v4::state::{
    AccountTag, DexState, FeeSchedule, FeeTier, MarketFeeType, SelfTradeBehavior, Side,
};
use dex_v4::user_account::{Order, UserAccount};

fn addr(b: u8) -> Address {
    Address::new([b; 32])
}

fn market() -> DexState {
    let zero = addr(0);
    DexState {
        tag: AccountTag::DexState,
        base_mint: zero,
        quote_mint: zero,
        base_vault: zero,
        quote_vault: zero,
        orderbook: zero,
        admin: zero,
        creation_timestamp: 0,
        base_volume: 0,
        quote_volume: 0,
        accumulated_fees: 0,
        min_base_order_size: 1,
        royalties_bps: 0,
        accumulated_royalties: 0,
        base_currency_multiplier: 1,
        quote_currency_multiplier: 10000,
        signer_nonce: 0,
        fee_type: MarketFeeType::Default,
        fee_schedule: FeeSchedule::standard(),
    }
}

fn params(side: Side, price: u64, base: u64) -> dex_v4::new_order::Params {
    dex_v4::new_order::Params {
        client_order_id: 7,
        limit_price: price,
        max_base_qty: base,
        max_quote_qty: u64::MAX,
        match_limit: 10,
        side,
        order_type: OrderType::Limit,
        self_trade_behavior: SelfTradeBehavior::DecrementTake,
        has_discount_token_account: false,
    }
}

fn base_of(users: &[UserAccount]) -> u64 {
    users
        .iter()
        .map(|u| u.header.base_token_free + u.header.base_token_locked)
        .sum()
}

/// A resting ask of one base at price nine is matched by a bid at price
/// eleven; the events are drained; both accounts settle.
#[test]
fn ask_meets_bid_from_order_to_settlement() {
    let mut m = market();
    let mut users = vec![
        UserAccount::with_capacity(addr(1), &addr(100), &addr(11), 4),
        UserAccount::with_capacity(addr(2), &addr(100), &addr(12), 4),
    ];
    let mut deposited_base: u64 = 0;
    let mut withdrawn_base: u64 = 0;

    // The ask is posted whole: one base is paid in and locked.
    let ask = params(Side::Ask, 9 << 32, 1);
    let prepared = prepare_order(&m, &addr(1), &ask, FeeTier::Base, false).unwrap();
    assert_eq!(prepared.engine_order.max_base_qty, 1);
    let ask_id: u128 = (9u128 << 96) | 1;
    let posted = OrderSummary {
        posted_order_id: Some(ask_id),
        total_base_qty: 1,
        total_quote_qty: 9,
        total_base_qty_posted: 1,
    };
    let outcome = apply_order_summary(
        &m,
        &mut users[0],
        &ask,
        FeeTier::Base,
        false,
        prepared.max_quote_qty,
        &posted,
    )
    .unwrap();
    assert_eq!(outcome.transfer_side, Side::Ask);
    deposited_base += outcome.qty_to_transfer;
    assert_eq!(deposited_base, 1);
    assert_eq!(users[0].header.base_token_locked, 1);
    assert_eq!(users[0].header.quote_token_free, 0);
    assert_eq!(base_of(&users), deposited_base - withdrawn_base);

    // The bid takes the ask at the ask's price: nine, which is 90000 in
    // external units. The bidder pays that and the taker fee, and has the
    // base at once.
    let bid = params(Side::Bid, 11 << 32, 1);
    let prepared = prepare_order(&m, &addr(2), &bid, FeeTier::Base, false).unwrap();
    let matched = OrderSummary {
        posted_order_id: None,
        total_base_qty: 1,
        total_quote_qty: 9,
        total_base_qty_posted: 0,
    };
    let outcome = apply_order_summary(
        &m,
        &mut users[1],
        &bid,
        FeeTier::Base,
        false,
        prepared.max_quote_qty,
        &matched,
    )
    .unwrap();
    let taker_fee = m.taker_fee(FeeTier::Base, 90_000);
    assert_eq!(taker_fee, 35);
    assert_eq!(outcome.transfer_side, Side::Bid);
    assert_eq!(outcome.qty_to_transfer, 90_000 + taker_fee);
    assert_eq!(users[1].header.base_token_free, 1);

    // The fill reaches the asker when the events are drained.
    let events = vec![
        Event::Fill {
            taker_side: Side::Bid,
            maker_order_id: ask_id,
            quote_size: 9,
            base_size: 1,
            maker_callback_info: prepare_order(&m, &addr(1), &ask, FeeTier::Base, false)
                .unwrap()
                .engine_order
                .callback_info,
            taker_callback_info: prepared.engine_order.callback_info,
        },
        Event::Out {
            side: Side::Ask,
            order_id: ask_id,
            base_size: 0,
            callback_info: prepare_order(&m, &addr(1), &ask, FeeTier::Base, false)
                .unwrap()
                .engine_order
                .callback_info,
            delete: true,
        },
    ];
    let drained = consume_events(
        &mut users,
        &mut m,
        &events,
        &Params {
            max_iterations: 10,
            no_op_err: 1,
        },
    );
    assert_eq!(drained, Ok(2));
    let maker_rebate = m.maker_rebate(FeeTier::Base, 90_000);
    assert_eq!(users[0].header.base_token_locked, 0);
    assert_eq!(users[0].header.quote_token_free, 90_000 + maker_rebate);
    assert_eq!(users[0].header.number_of_orders, 0);
    assert_eq!(m.accumulated_fees, taker_fee - maker_rebate);
    assert_eq!(m.base_volume, 1);
    assert_eq!(m.quote_volume, 90_000);
    assert_eq!(base_of(&users), deposited_base - withdrawn_base);

    // What the bidder paid is what the asker earned and the market kept.
    assert_eq!(
        outcome.qty_to_transfer,
        users[0].header.quote_token_free + m.accumulated_fees
    );

    for u in users.iter_mut() {
        withdrawn_base += settle(u).base_amount;
    }
    assert_eq!(withdrawn_base, 1);
    assert_eq!(base_of(&users), deposited_base - withdrawn_base);
}

#[test]
fn cancel_then_read_gives_the_order_that_was_last() {
    let m = market();
    let mut u = UserAccount::with_capacity(addr(1), &addr(100), &addr(11), 4);
    for n in 0..3u128 {
        u.add_order(Order {
            id: (n + 1) << 64,
            client_id: n,
        })
        .unwrap();
    }
    let nothing = OrderSummary {
        posted_order_id: None,
        total_base_qty: 0,
        total_quote_qty: 0,
        total_base_qty_posted: 0,
    };
    assert_eq!(apply_cancel(&m, &mut u, 1 << 64, 0, &nothing), Ok(()));
    assert_eq!(u.header.number_of_orders, 2);
    assert_eq!(u.read_order(0), Ok(Order { id: 3 << 64, client_id: 2 }));
    assert_eq!(apply_cancel(&m, &mut u, 2 << 64, 1, &nothing), Ok(()));
    assert_eq!(u.header.number_of_orders, 1);
    assert_eq!(u.read_order(1), Err(DexError::InvalidOrderIndex));
}

#[test]
fn order_book_must_be_run_under_the_market_signer() {
    assert_eq!(check_orderbook(true, &addr(1), &addr(1)), Ok(()));
    assert_eq!(
        check_orderbook(true, &addr(1), &addr(2)),
        Err(ProgramFault::InvalidArgument)
    );
    assert_eq!(
        check_orderbook(false, &addr(1), &addr(1)),
        Err(ProgramFault::InvalidArgument)
    );
}
