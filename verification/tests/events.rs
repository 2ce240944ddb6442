use dex_v4::address::Address;
use dex_v4::consume_events::{
    consume_event, consume_events, fill_header, fill_market, find_account, out_header,
    out_quantity, Event, Params,
};
use dex_v4::error::DexError;
use dex_v4::state::{AccountTag, DexState, FeeSchedule, FeeTier, MarketFeeType, Side};
use dex_v4::user_account::{CallBackInfo, Order, UserAccount};

fn addr(b: u8) -> Address {
    Address::new([b; 32])
}

fn market() -> DexState {
    let zero = addr(0);
    DexState {
        tag: AccountTag::DexState,
        base_mint: zero,
        quote_mint: zero,
        base_vault: zero,
        quote_vault: zero,
        orderbook: zero,
        admin: zero,
        creation_timestamp: 0,
        base_volume: 0,
        quote_volume: 0,
        accumulated_fees: 0,
        min_base_order_size: 1,
        royalties_bps: 0,
        accumulated_royalties: 0,
        base_currency_multiplier: 1,
        quote_currency_multiplier: 1,
        signer_nonce: 0,
        fee_type: MarketFeeType::Default,
        fee_schedule: FeeSchedule::standard(),
    }
}

fn accounts(keys: &[u8]) -> Vec<UserAccount> {
    keys.iter()
        .map(|k| UserAccount::with_capacity(addr(*k), &addr(200), &addr(100 + *k), 4))
        .collect()
}

fn info(key: u8, tier: FeeTier, referred: bool) -> CallBackInfo {
    CallBackInfo {
        user_account: addr(key),
        fee_tier: tier.to_u8(referred),
    }
}

fn fill(taker_side: Side, quote: u64, base: u64, maker: u8, taker: u8) -> Event {
    Event::Fill {
        taker_side,
        maker_order_id: 0,
        quote_size: quote,
        base_size: base,
        maker_callback_info: info(maker, FeeTier::Base, false),
        taker_callback_info: info(taker, FeeTier::Base, false),
    }
}

fn snapshot(a: &[UserAccount]) -> Vec<(u64, u64, u64, u64, u32)> {
    a.iter()
        .map(|u| {
            (
                u.header.base_token_free,
                u.header.base_token_locked,
                u.header.quote_token_free,
                u.header.quote_token_locked,
                u.header.number_of_orders,
            )
        })
        .collect()
}

#[test]
fn resting_ask_matched_by_incoming_bid() {
    // The resting ask of one base at nine ticks locks one base; the bid at
    // eleven ticks takes it at the ask's price.
    let mut m = market();
    m.quote_currency_multiplier = 10000;
    let mut a = accounts(&[1, 2]);
    a[0].header.base_token_locked = 1;
    let ask_id: u128 = 9u128 << 96;
    a[0].add_order(Order { id: ask_id, client_id: 0 }).unwrap();
    let quote: u64 = 90_000;
    let e = Event::Fill {
        taker_side: Side::Bid,
        maker_order_id: ask_id,
        quote_size: 9,
        base_size: 1,
        maker_callback_info: info(1, FeeTier::Base, false),
        taker_callback_info: info(2, FeeTier::Base, false),
    };
    assert_eq!(consume_event(&mut a, &e, &mut m), Ok(()));
    let taker_fee = FeeTier::Base.taker_fee(quote);
    let maker_rebate = FeeTier::Base.maker_rebate(quote);
    assert_eq!(taker_fee, 35);
    assert_eq!(a[0].header.base_token_locked, 0);
    assert_eq!(a[0].header.quote_token_free, quote + maker_rebate);
    assert_eq!(a[0].header.accumulated_maker_quote_volume, quote);
    assert_eq!(a[0].header.accumulated_maker_base_volume, 1);
    assert_eq!(m.accumulated_fees, taker_fee - maker_rebate);
    assert_eq!(m.accumulated_fees, 35);
    assert_eq!(m.base_volume, 1);
    assert_eq!(m.quote_volume, quote);
    assert_eq!(snapshot(&a)[1], (0, 0, 0, 0, 0));
}

#[test]
fn referred_fill_leaves_the_market_less() {
    let mut m = market();
    let mut a = accounts(&[1]);
    a[0].header.base_token_locked = 5;
    let e = Event::Fill {
        taker_side: Side::Bid,
        maker_order_id: 0,
        quote_size: 1_000_000,
        base_size: 5,
        maker_callback_info: info(1, FeeTier::Srm2, false),
        taker_callback_info: info(9, FeeTier::Base, true),
    };
    assert_eq!(consume_event(&mut a, &e, &mut m), Ok(()));
    assert_eq!(m.accumulated_fees, 399 - 79);
}

#[test]
fn fill_against_a_resting_bid_credits_base() {
    let mut m = market();
    let mut a = accounts(&[1, 2, 3]);
    a[1].header.quote_token_locked = 500;
    let e = fill(Side::Ask, 300, 4, 2, 3);
    assert_eq!(consume_event(&mut a, &e, &mut m), Ok(()));
    assert_eq!(snapshot(&a)[1], (4, 0, 0, 200, 0));
    assert_eq!(snapshot(&a)[0], (0, 0, 0, 0, 0));
    assert_eq!(snapshot(&a)[2], (0, 0, 0, 0, 0));
    assert_eq!(m.base_volume, 4);
    assert_eq!(m.quote_volume, 300);
}

#[test]
fn self_trade_releases_the_lock_and_charges_the_account_nothing() {
    let mut m = market();
    let mut a = accounts(&[1, 2]);
    a[0].header.base_token_locked = 3;
    a[0].header.quote_token_free = 50;
    a[0].header.base_token_free = 6;
    let e = fill(Side::Bid, 1_000_000, 3, 1, 1);
    assert_eq!(consume_event(&mut a, &e, &mut m), Ok(()));
    let rebate = FeeTier::Base.maker_rebate(1_000_000);
    assert_eq!(a[0].header.base_token_locked, 0);
    assert_eq!(a[0].header.quote_token_free, 50 + rebate);
    assert_eq!(a[0].header.base_token_free, 6);
    assert_eq!(a[0].header.accumulated_rebates, rebate);
    assert_eq!(a[0].header.accumulated_maker_quote_volume, 1_000_000);
    assert_eq!(a[0].header.accumulated_taker_quote_volume, 1_000_000);
    assert_eq!(a[0].header.accumulated_maker_base_volume, 3);
    assert_eq!(a[0].header.accumulated_taker_base_volume, 3);
    assert_eq!(m.base_volume, 0);
    assert_eq!(m.quote_volume, 0);

    let mut b = accounts(&[1]);
    b[0].header.quote_token_locked = 10;
    let e = fill(Side::Ask, 10, 1, 1, 1);
    assert_eq!(consume_event(&mut b, &e, &mut m), Ok(()));
    assert_eq!(snapshot(&b)[0], (0, 0, 0, 0, 0));
}

#[test]
fn fill_for_an_absent_account_fails_and_changes_nothing() {
    let mut m = market();
    let mut a = accounts(&[1, 3]);
    a[0].header.base_token_locked = 1;
    let before = snapshot(&a);
    let e = fill(Side::Bid, 10, 1, 2, 3);
    assert_eq!(
        consume_event(&mut a, &e, &mut m),
        Err(DexError::MissingUserAccount)
    );
    assert_eq!(snapshot(&a), before);
    assert_eq!(m.accumulated_fees, 0);
    assert_eq!(find_account(&a, &addr(2)), None);
    assert_eq!(find_account(&a, &addr(3)), Some(1));
}

#[test]
fn fill_that_releases_more_than_is_locked_fails_and_changes_nothing() {
    let mut m = market();
    let mut a = accounts(&[1]);
    a[0].header.base_token_locked = 1;
    let before = snapshot(&a);
    let e = fill(Side::Bid, 10, 2, 1, 3);
    assert_eq!(
        consume_event(&mut a, &e, &mut m),
        Err(DexError::NumericalOverflow)
    );
    assert_eq!(snapshot(&a), before);
    assert_eq!(m.quote_volume, 0);

    m.accumulated_fees = u64::MAX;
    let e = fill(Side::Bid, 1_000_000, 1, 1, 3);
    assert_eq!(
        consume_event(&mut a, &e, &mut m),
        Err(DexError::NumericalOverflow)
    );
    assert_eq!(snapshot(&a), before);
    assert_eq!(m.accumulated_fees, u64::MAX);
}

#[test]
fn out_event_of_size_zero_without_delete_is_ignored() {
    let mut m = market();
    let mut a = accounts(&[1]);
    let e = Event::Out {
        side: Side::Ask,
        order_id: 5,
        base_size: 0,
        callback_info: info(77, FeeTier::Base, false),
        delete: false,
    };
    assert_eq!(consume_event(&mut a, &e, &mut m), Ok(()));
    assert_eq!(snapshot(&a)[0], (0, 0, 0, 0, 0));
}

#[test]
fn out_event_releases_an_ask_in_base() {
    let mut m = market();
    let mut a = accounts(&[1]);
    a[0].header.base_token_locked = 10;
    a[0].add_order(Order { id: 5, client_id: 6 }).unwrap();
    a[0].add_order(Order { id: 7, client_id: 8 }).unwrap();
    let e = Event::Out {
        side: Side::Ask,
        order_id: 5,
        base_size: 4,
        callback_info: info(1, FeeTier::Base, false),
        delete: true,
    };
    assert_eq!(consume_event(&mut a, &e, &mut m), Ok(()));
    assert_eq!(snapshot(&a)[0], (4, 6, 0, 0, 1));
    assert_eq!(a[0].read_order(0), Ok(Order { id: 7, client_id: 8 }));
}

#[test]
fn out_event_releases_a_bid_in_quote_at_its_price() {
    let mut m = market();
    let mut a = accounts(&[1]);
    a[0].header.quote_token_locked = 100;
    let id: u128 = (9u128 << 96) | (1 << 63);
    let e = Event::Out {
        side: Side::Bid,
        order_id: id,
        base_size: 7,
        callback_info: info(1, FeeTier::Base, false),
        delete: false,
    };
    assert_eq!(consume_event(&mut a, &e, &mut m), Ok(()));
    assert_eq!(snapshot(&a)[0], (0, 0, 63, 37, 0));
    assert_eq!(
        out_header(&m, &a[0].header, Side::Bid, id, 7)
            .map(|h| (h.quote_token_free, h.quote_token_locked)),
        Some((126, 0))
    );
    m.quote_currency_multiplier = 100;
    m.base_currency_multiplier = 3;
    assert_eq!(out_quantity(&m, Side::Bid, id, 7), Some(6300));
    assert_eq!(out_quantity(&m, Side::Ask, id, 7), Some(21));
    assert_eq!(out_quantity(&m, Side::Ask, id, u64::MAX), None);
}

#[test]
fn out_event_for_an_unknown_order_fails_and_changes_nothing() {
    let mut m = market();
    let mut a = accounts(&[1]);
    a[0].header.base_token_locked = 10;
    a[0].add_order(Order { id: 5, client_id: 6 }).unwrap();
    let before = snapshot(&a);
    let e = Event::Out {
        side: Side::Ask,
        order_id: 99,
        base_size: 4,
        callback_info: info(1, FeeTier::Base, false),
        delete: true,
    };
    assert_eq!(consume_event(&mut a, &e, &mut m), Err(DexError::OrderNotFound));
    assert_eq!(snapshot(&a), before);
}

#[test]
fn event_sizes_are_counted_in_external_units() {
    let mut m = market();
    m.base_currency_multiplier = 10;
    m.quote_currency_multiplier = 1000;
    let mut a = accounts(&[1]);
    a[0].header.base_token_locked = 50;
    let e = fill(Side::Bid, 1000, 2, 1, 2);
    assert_eq!(consume_event(&mut a, &e, &mut m), Ok(()));
    assert_eq!(snapshot(&a)[0], (0, 30, 1_000_000, 0, 0));
    assert_eq!(m.accumulated_fees, 399);
    assert_eq!(m.base_volume, 20);
    assert_eq!(m.quote_volume, 1_000_000);
    let e = fill(Side::Bid, u64::MAX, 1, 1, 2);
    assert_eq!(
        consume_event(&mut a, &e, &mut m),
        Err(DexError::NumericalOverflow)
    );
    assert_eq!(snapshot(&a)[0], (0, 30, 1_000_000, 0, 0));
}

#[test]
fn draining_stops_at_the_iteration_bound() {
    let mut m = market();
    let mut a = accounts(&[1]);
    a[0].header.base_token_locked = 100;
    let events: Vec<Event> = (0..5).map(|_| fill(Side::Bid, 10, 1, 1, 2)).collect();
    let p = Params {
        max_iterations: 3,
        no_op_err: 1,
    };
    assert_eq!(consume_events(&mut a, &mut m, &events, &p), Ok(3));
    assert_eq!(a[0].header.base_token_locked, 97);
    assert_eq!(a[0].header.quote_token_free, 30);
    assert_eq!(m.base_volume, 3);
}

#[test]
fn draining_stops_at_the_end_of_the_queue() {
    let mut m = market();
    let mut a = accounts(&[1]);
    a[0].header.base_token_locked = 100;
    let events: Vec<Event> = (0..2).map(|_| fill(Side::Bid, 10, 1, 1, 2)).collect();
    let p = Params {
        max_iterations: 10,
        no_op_err: 0,
    };
    assert_eq!(consume_events(&mut a, &mut m, &events, &p), Ok(2));
    assert_eq!(a[0].header.base_token_locked, 98);
}

#[test]
fn draining_stops_at_the_first_event_that_fails() {
    let mut m = market();
    let mut a = accounts(&[1]);
    a[0].header.base_token_locked = 100;
    let events = vec![
        fill(Side::Bid, 10, 1, 1, 2),
        fill(Side::Bid, 10, 1, 7, 2),
        fill(Side::Bid, 10, 1, 1, 2),
    ];
    let p = Params {
        max_iterations: 10,
        no_op_err: 1,
    };
    assert_eq!(consume_events(&mut a, &mut m, &events, &p), Ok(1));
    assert_eq!(a[0].header.base_token_locked, 99);
    assert_eq!(m.quote_volume, 10);
}

#[test]
fn draining_nothing_is_a_failure_only_on_request() {
    let mut m = market();
    let mut a = accounts(&[1]);
    let none: Vec<Event> = Vec::new();
    let strict = Params {
        max_iterations: 10,
        no_op_err: 1,
    };
    let lenient = Params {
        max_iterations: 10,
        no_op_err: 0,
    };
    assert_eq!(consume_events(&mut a, &mut m, &none, &strict), Err(DexError::NoOp));
    assert_eq!(consume_events(&mut a, &mut m, &none, &lenient), Ok(0));
    let events = vec![fill(Side::Bid, 10, 1, 1, 2)];
    let zero = Params {
        max_iterations: 0,
        no_op_err: 1,
    };
    assert_eq!(consume_events(&mut a, &mut m, &events, &zero), Err(DexError::NoOp));
    let missing = vec![fill(Side::Bid, 10, 1, 9, 2)];
    assert_eq!(consume_events(&mut a, &mut m, &missing, &strict), Err(DexError::NoOp));
    assert_eq!(consume_events(&mut a, &mut m, &missing, &lenient), Ok(0));
    assert_eq!(snapshot(&a)[0], (0, 0, 0, 0, 0));
}

#[test]
fn header_and_market_updates_report_overflow() {
    let a = accounts(&[1]);
    let mut h = a[0].header;
    h.quote_token_free = u64::MAX;
    assert!(fill_header(&h, Side::Bid, 1, 0, 0, false).is_none());
    assert!(fill_header(&h, Side::Bid, 1, 0, 0, true).is_some());
    let mut m = market();
    m.base_volume = u64::MAX;
    assert!(fill_market(&m, 0, 1, 0, false).is_none());
    assert_eq!(
        fill_market(&m, 5, 1, 3, true).map(|n| (n.accumulated_fees, n.base_volume, n.quote_volume)),
        Some((3, u64::MAX, 0))
    );
}

#[test]
fn rebate_follows_the_schedule_of_the_market() {
    let mut m = market();
    m.fee_schedule.taker_rates = [1 << 31; 8];
    m.fee_schedule.maker_rates = [1 << 30; 8];
    let mut a = accounts(&[1, 2]);
    a[0].header.base_token_locked = 1;
    let e = fill(Side::Bid, 1000, 1, 1, 2);
    assert_eq!(consume_event(&mut a, &e, &mut m), Ok(()));
    assert_eq!(a[0].header.quote_token_free, 1250);
    assert_eq!(a[0].header.accumulated_rebates, 250);
    assert_eq!(m.accumulated_fees, 250);

    m.fee_schedule.maker_rates = [(1 << 31) + 5; 8];
    let before = snapshot(&a);
    assert_eq!(
        consume_event(&mut a, &e, &mut m),
        Err(DexError::NumericalOverflow)
    );
    assert_eq!(snapshot(&a), before);
    assert_eq!(m.accumulated_fees, 250);
}
