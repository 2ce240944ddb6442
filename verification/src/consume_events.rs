//! Draining match events into the ledgers.
//!
//! The matching engine queues a `Fill` for every match against a resting
//! order and an `Out` whenever a resting order leaves the book. The taker's
//! balances were settled when the order was placed; what is applied here is
//! the maker's side, the market's fees and volumes, and the release of what
//! a departed order still locked. The engine counts in its own units; the
//! ledgers count in the market's external units, so every size of an event
//! is first multiplied by the market's currency multiplier.
//!
//! One rule holds throughout: the taker's side of a trade is accounted for
//! when the order is placed, the maker's side when the fill is drained. So
//! a fill whose maker is also its taker credits the account nothing but
//! the maker rebate at the taker's tier and releases what the resting
//! order locked; the market's volumes count such a trade not at all. The
//! market's share of the taker fee is added to its accumulated fees by
//! every fill.
use crate::address::{
    lemma_precedes_irreflexive, lemma_precedes_transitive, lemma_sorted_position_unique,
    position_of, precedes, strictly_sorted, Address, Rank,
};
use crate::error::{dex_fault, DexError, ProgramFault};
use crate::state::{spec_unpack_fee_byte, DexState, FeeTier, Side};
use crate::user_account::{
    account_keys, account_views, accounts_wf, get_price_from_order_id, is_first_with_id,
    lemma_first_with_id_unique, spec_price_of_order_id, spec_remove_order, AccountView,
    CallBackInfo, UserAccount, UserAccountHeader,
};
use crate::utils::{accounts_from, fp32_mul, spec_fp32_mul, AccountInfo};
use crate::wire::{put_u64, read_u64, spec_u64_at};
use vstd::bytes::*;
use vstd::prelude::*;

verus! {

/// What the matching engine reports.
#[derive(Clone, Copy, Debug)]
pub enum Event {
    /// A resting order was matched by an incoming one.
    Fill {
        taker_side: Side,
        maker_order_id: u128,
        quote_size: u64,
        base_size: u64,
        maker_callback_info: CallBackInfo,
        taker_callback_info: CallBackInfo,
    },
    /// A resting order left the book, wholly (`delete`) or in part.
    Out { side: Side, order_id: u128, base_size: u64, callback_info: CallBackInfo, delete: bool },
}

/// The arguments of an event-draining operation.
#[derive(Clone, Copy, Debug)]
pub struct Params {
    /// The most events to apply.
    pub max_iterations: u64,
    /// When 1, applying no event at all is a failure.
    pub no_op_err: u64,
}

/// The amount fits a balance.
pub open spec fn fits(x: int) -> bool {
    0 <= x <= u64::MAX
}

/// The fee bytes of the event's callbacks name fee tiers.
pub open spec fn event_wf(event: Event) -> bool {
    match event {
        Event::Fill { maker_callback_info, taker_callback_info, .. } => {
            &&& spec_unpack_fee_byte(maker_callback_info.fee_tier).is_some()
            &&& spec_unpack_fee_byte(taker_callback_info.fee_tier).is_some()
        },
        Event::Out { .. } => true,
    }
}

/// What the market keeps of a fill: the taker fee less the maker rebate and,
/// for a referred order, less the referral fee.
pub open spec fn spec_fill_fees(
    market: DexState,
    taker_tier: FeeTier,
    rebate_tier: FeeTier,
    referred: bool,
    quote_size: u64,
) -> int {
    market.spec_taker_fee(taker_tier, quote_size) - market.spec_maker_rebate(
        rebate_tier,
        quote_size,
    ) - (if referred {
        market.spec_referral_fee(taker_tier, quote_size) as int
    } else {
        0
    })
}

/// The maker's header after a fill. The maker's locked amount on its own
/// side is released; unless the maker is also the taker, the proceeds are
/// credited. `None` when a balance or a metric would leave its range.
pub open spec fn spec_fill_header(
    h: UserAccountHeader,
    taker_side: Side,
    quote_size: u64,
    base_size: u64,
    rebate: u64,
    self_trade: bool,
) -> Option<UserAccountHeader> {
    let quote_free = h.quote_token_free + rebate + (if !self_trade && taker_side == Side::Bid {
        quote_size as int
    } else {
        0
    });
    let base_free = h.base_token_free + (if !self_trade && taker_side == Side::Ask {
        base_size as int
    } else {
        0
    });
    let base_locked = h.base_token_locked - (if taker_side == Side::Bid {
        base_size as int
    } else {
        0
    });
    let quote_locked = h.quote_token_locked - (if taker_side == Side::Ask {
        quote_size as int
    } else {
        0
    });
    let rebates = h.accumulated_rebates + rebate;
    let maker_quote = h.accumulated_maker_quote_volume + quote_size;
    let maker_base = h.accumulated_maker_base_volume + base_size;
    let taker_quote = h.accumulated_taker_quote_volume + (if self_trade {
        quote_size as int
    } else {
        0
    });
    let taker_base = h.accumulated_taker_base_volume + (if self_trade {
        base_size as int
    } else {
        0
    });
    if fits(quote_free) && fits(base_free) && fits(base_locked) && fits(quote_locked) && fits(
        rebates,
    ) && fits(maker_quote) && fits(maker_base) && fits(taker_quote) && fits(taker_base) {
        Some(
            UserAccountHeader {
                quote_token_free: quote_free as u64,
                base_token_free: base_free as u64,
                base_token_locked: base_locked as u64,
                quote_token_locked: quote_locked as u64,
                accumulated_rebates: rebates as u64,
                accumulated_maker_quote_volume: maker_quote as u64,
                accumulated_maker_base_volume: maker_base as u64,
                accumulated_taker_quote_volume: taker_quote as u64,
                accumulated_taker_base_volume: taker_base as u64,
                ..h
            },
        )
    } else {
        None
    }
}

/// The market after a fill: the fees are added; the volumes grow unless the
/// maker is also the taker. `None` when a counter would leave its range, or
/// when rebate and referral fee exceed the taker fee.
pub open spec fn spec_fill_market(
    m: DexState,
    quote_size: u64,
    base_size: u64,
    fees: int,
    self_trade: bool,
) -> Option<DexState> {
    let accumulated = m.accumulated_fees + fees;
    let quote_volume = m.quote_volume + (if self_trade {
        0
    } else {
        quote_size as int
    });
    let base_volume = m.base_volume + (if self_trade {
        0
    } else {
        base_size as int
    });
    if fees >= 0 && fits(accumulated) && fits(quote_volume) && fits(base_volume) {
        Some(
            DexState {
                accumulated_fees: accumulated as u64,
                quote_volume: quote_volume as u64,
                base_volume: base_volume as u64,
                ..m
            },
        )
    } else {
        None
    }
}

/// A quantity of the matching engine in the market's external units.
pub open spec fn spec_scale(quantity: u64, multiplier: u64) -> Option<u64> {
    if fits(quantity * multiplier) {
        Some((quantity * multiplier) as u64)
    } else {
        None
    }
}

/// What leaves the book with an order, in external units: base for an ask;
/// for a bid the quote that the base is worth at the order's own price.
pub open spec fn spec_out_quantity(market: DexState, side: Side, order_id: u128, base_size: u64)
    -> Option<u64> {
    match side {
        Side::Ask => spec_scale(base_size, market.base_currency_multiplier),
        Side::Bid => match spec_fp32_mul(base_size, spec_price_of_order_id(order_id)) {
            Some(q) => spec_scale(q, market.quote_currency_multiplier),
            None => None,
        },
    }
}

/// The header after `quantity` moved from locked to free on `side`. The
/// locked amount stops at zero; the free amount must stay in range.
pub open spec fn spec_release(h: UserAccountHeader, side: Side, quantity: u64) -> Option<
    UserAccountHeader,
> {
    match side {
        Side::Ask => if fits(h.base_token_free + quantity) {
            Some(
                UserAccountHeader {
                    base_token_free: (h.base_token_free + quantity) as u64,
                    base_token_locked: if h.base_token_locked >= quantity {
                        (h.base_token_locked - quantity) as u64
                    } else {
                        0
                    },
                    ..h
                },
            )
        } else {
            None
        },
        Side::Bid => if fits(h.quote_token_free + quantity) {
            Some(
                UserAccountHeader {
                    quote_token_free: (h.quote_token_free + quantity) as u64,
                    quote_token_locked: if h.quote_token_locked >= quantity {
                        (h.quote_token_locked - quantity) as u64
                    } else {
                        0
                    },
                    ..h
                },
            )
        } else {
            None
        },
    }
}

/// The header after an `Out` event of the given size.
pub open spec fn spec_out_header(
    market: DexState,
    h: UserAccountHeader,
    side: Side,
    order_id: u128,
    base_size: u64,
) -> Option<UserAccountHeader> {
    if base_size == 0 {
        Some(h)
    } else {
        match spec_out_quantity(market, side, order_id, base_size) {
            Some(q) => spec_release(h, side, q),
            None => None,
        }
    }
}

/// The account once the open order with `order_id` is struck from it, or
/// `None` if it has no such order.
pub open spec fn spec_strike_order(a: AccountView, order_id: u128) -> Option<AccountView> {
    if exists|k: int| is_first_with_id(a.live, order_id, k) {
        let k = choose|k: int| is_first_with_id(a.live, order_id, k);
        Some(
            AccountView {
                header: UserAccountHeader {
                    number_of_orders: (a.header.number_of_orders - 1) as u32,
                    ..a.header
                },
                live: spec_remove_order(a.live, k),
                ..a
            },
        )
    } else {
        None
    }
}

/// The ledgers after one event, or the reason why it cannot be applied. A
/// failed event changes nothing.
pub open spec fn spec_consume_event(accounts: Seq<AccountView>, market: DexState, event: Event)
    -> Result<(Seq<AccountView>, DexState), DexError> {
    match event {
        Event::Fill {
            taker_side,
            maker_order_id,
            quote_size,
            base_size,
            maker_callback_info,
            taker_callback_info,
        } => {
            match position_of(account_keys(accounts), maker_callback_info.user_account@) {
                None => Err(DexError::MissingUserAccount),
                Some(i) => {
                    let taker = spec_unpack_fee_byte(taker_callback_info.fee_tier).unwrap();
                    let maker = spec_unpack_fee_byte(maker_callback_info.fee_tier).unwrap();
                    let self_trade = taker_callback_info.user_account@
                        == maker_callback_info.user_account@;
                    match (
                        spec_scale(quote_size, market.quote_currency_multiplier),
                        spec_scale(base_size, market.base_currency_multiplier),
                    ) {
                        (Some(quote), Some(base)) => {
                            let rebate_tier = if self_trade {
                                taker.0
                            } else {
                                maker.0
                            };
                            let fees = spec_fill_fees(market, taker.0, rebate_tier, taker.1, quote);
                            match (
                                spec_fill_header(
                                    accounts[i].header,
                                    taker_side,
                                    quote,
                                    base,
                                    market.spec_maker_rebate(rebate_tier, quote),
                                    self_trade,
                                ),
                                spec_fill_market(market, quote, base, fees, self_trade),
                            ) {
                                (Some(h), Some(m)) => Ok(
                                    (
                                        accounts.update(
                                            i,
                                            AccountView { header: h, ..accounts[i] },
                                        ),
                                        m,
                                    ),
                                ),
                                _ => Err(DexError::NumericalOverflow),
                            }
                        },
                        _ => Err(DexError::NumericalOverflow),
                    }
                },
            }
        },
        Event::Out { side, order_id, base_size, callback_info, delete } => {
            if !delete && base_size == 0 {
                Ok((accounts, market))
            } else {
                match position_of(account_keys(accounts), callback_info.user_account@) {
                    None => Err(DexError::MissingUserAccount),
                    Some(i) => match spec_out_header(
                        market,
                        accounts[i].header,
                        side,
                        order_id,
                        base_size,
                    ) {
                        None => Err(DexError::NumericalOverflow),
                        Some(h) => {
                            let released = AccountView { header: h, ..accounts[i] };
                            if delete {
                                match spec_strike_order(released, order_id) {
                                    Some(a) => Ok((accounts.update(i, a), market)),
                                    None => Err(DexError::OrderNotFound),
                                }
                            } else {
                                Ok((accounts.update(i, released), market))
                            }
                        },
                    },
                }
            }
        },
    }
}

/// The ledgers after as many of the `events` as can be applied within
/// `budget`, and how many that were: the events are applied in order, and the
/// first that fails stops the run.
pub open spec fn spec_run(
    accounts: Seq<AccountView>,
    market: DexState,
    events: Seq<Event>,
    budget: nat,
) -> (Seq<AccountView>, DexState, nat)
    decreases events.len(),
{
    if budget == 0 || events.len() == 0 {
        (accounts, market, 0)
    } else {
        match spec_consume_event(accounts, market, events[0]) {
            Err(_) => (accounts, market, 0),
            Ok((a, m)) => {
                let rest = spec_run(a, m, events.drop_first(), (budget - 1) as nat);
                (rest.0, rest.1, rest.2 + 1)
            },
        }
    }
}

/// A run never applies more events than its budget allows, nor more than
/// there are.
pub proof fn lemma_run_bounded(
    accounts: Seq<AccountView>,
    market: DexState,
    events: Seq<Event>,
    budget: nat,
)
    ensures
        spec_run(accounts, market, events, budget).2 <= budget,
        spec_run(accounts, market, events, budget).2 <= events.len(),
    decreases events.len(),
{
    if budget == 0 || events.len() == 0 {
    } else {
        match spec_consume_event(accounts, market, events[0]) {
            Err(_) => {},
            Ok((a, m)) => {
                lemma_run_bounded(a, m, events.drop_first(), (budget - 1) as nat);
            },
        }
    }
}

/// The maker's header after a fill.
pub fn fill_header(
    h: &UserAccountHeader,
    taker_side: Side,
    quote_size: u64,
    base_size: u64,
    rebate: u64,
    self_trade: bool,
) -> (r: Option<UserAccountHeader>)
    ensures
        r == spec_fill_header(*h, taker_side, quote_size, base_size, rebate, self_trade),
{
    let bid: bool = match taker_side {
        Side::Bid => true,
        Side::Ask => false,
    };
    let proceeds_quote: u64 = if !self_trade && bid { quote_size } else { 0 };
    let proceeds_base: u64 = if !self_trade && !bid { base_size } else { 0 };
    let released_base: u64 = if bid { base_size } else { 0 };
    let released_quote: u64 = if bid { 0 } else { quote_size };
    let taker_quote_volume: u64 = if self_trade { quote_size } else { 0 };
    let taker_base_volume: u64 = if self_trade { base_size } else { 0 };
    let with_rebate: u64 = match h.quote_token_free.checked_add(rebate) {
        Some(v) => v,
        None => {
            return None;
        },
    };
    let quote_free: u64 = match with_rebate.checked_add(proceeds_quote) {
        Some(v) => v,
        None => {
            return None;
        },
    };
    let base_free: u64 = match h.base_token_free.checked_add(proceeds_base) {
        Some(v) => v,
        None => {
            return None;
        },
    };
    let base_locked: u64 = match h.base_token_locked.checked_sub(released_base) {
        Some(v) => v,
        None => {
            return None;
        },
    };
    let quote_locked: u64 = match h.quote_token_locked.checked_sub(released_quote) {
        Some(v) => v,
        None => {
            return None;
        },
    };
    let rebates: u64 = match h.accumulated_rebates.checked_add(rebate) {
        Some(v) => v,
        None => {
            return None;
        },
    };
    let maker_quote: u64 = match h.accumulated_maker_quote_volume.checked_add(quote_size) {
        Some(v) => v,
        None => {
            return None;
        },
    };
    let maker_base: u64 = match h.accumulated_maker_base_volume.checked_add(base_size) {
        Some(v) => v,
        None => {
            return None;
        },
    };
    let taker_quote: u64 = match h.accumulated_taker_quote_volume.checked_add(
        taker_quote_volume,
    ) {
        Some(v) => v,
        None => {
            return None;
        },
    };
    let taker_base: u64 = match h.accumulated_taker_base_volume.checked_add(taker_base_volume) {
        Some(v) => v,
        None => {
            return None;
        },
    };
    Some(
        UserAccountHeader {
            tag: h.tag,
            market: h.market,
            owner: h.owner,
            base_token_free: base_free,
            base_token_locked: base_locked,
            quote_token_free: quote_free,
            quote_token_locked: quote_locked,
            accumulated_rebates: rebates,
            accumulated_maker_quote_volume: maker_quote,
            accumulated_maker_base_volume: maker_base,
            accumulated_taker_quote_volume: taker_quote,
            accumulated_taker_base_volume: taker_base,
            number_of_orders: h.number_of_orders,
        },
    )
}

/// The market after a fill that leaves it `fees`.
pub fn fill_market(m: &DexState, quote_size: u64, base_size: u64, fees: u64, self_trade: bool) -> (r:
    Option<DexState>)
    ensures
        r == spec_fill_market(*m, quote_size, base_size, fees as int, self_trade),
        r is Some ==> r.unwrap().fee_schedule == m.fee_schedule,
{
    let accumulated: u64 = match m.accumulated_fees.checked_add(fees) {
        Some(v) => v,
        None => {
            return None;
        },
    };
    let quote_volume: u64 = match m.quote_volume.checked_add(
        if self_trade {
            0
        } else {
            quote_size
        },
    ) {
        Some(v) => v,
        None => {
            return None;
        },
    };
    let base_volume: u64 = match m.base_volume.checked_add(
        if self_trade {
            0
        } else {
            base_size
        },
    ) {
        Some(v) => v,
        None => {
            return None;
        },
    };
    let mut next = *m;
    next.accumulated_fees = accumulated;
    next.quote_volume = quote_volume;
    next.base_volume = base_volume;
    Some(next)
}

/// What leaves the book with an order, in external units.
pub fn out_quantity(market: &DexState, side: Side, order_id: u128, base_size: u64) -> (r: Option<
    u64,
>)
    ensures
        r == spec_out_quantity(*market, side, order_id, base_size),
{
    match side {
        Side::Ask => base_size.checked_mul(market.base_currency_multiplier),
        Side::Bid => {
            let price: u64 = get_price_from_order_id(order_id);
            match fp32_mul(base_size, price) {
                Some(q) => q.checked_mul(market.quote_currency_multiplier),
                None => None,
            }
        },
    }
}

/// The header after an `Out` event of the given size.
pub fn out_header(
    market: &DexState,
    h: &UserAccountHeader,
    side: Side,
    order_id: u128,
    base_size: u64,
) -> (r: Option<UserAccountHeader>)
    ensures
        r == spec_out_header(*market, *h, side, order_id, base_size),
{
    if base_size == 0 {
        return Some(*h);
    }
    let quantity: u64 = match out_quantity(market, side, order_id, base_size) {
        Some(q) => q,
        None => {
            return None;
        },
    };
    let mut next = *h;
    match side {
        Side::Ask => {
            match h.base_token_free.checked_add(quantity) {
                Some(v) => {
                    next.base_token_free = v;
                    next.base_token_locked = if h.base_token_locked >= quantity {
                        h.base_token_locked - quantity
                    } else {
                        0
                    };
                    Some(next)
                },
                None => None,
            }
        },
        Side::Bid => {
            match h.quote_token_free.checked_add(quantity) {
                Some(v) => {
                    next.quote_token_free = v;
                    next.quote_token_locked = if h.quote_token_locked >= quantity {
                        h.quote_token_locked - quantity
                    } else {
                        0
                    };
                    Some(next)
                },
                None => None,
            }
        },
    }
}

/// Whether the accounts come in strictly increasing order of address, as
/// the lookup of an event's account requires.
pub fn accounts_sorted(accounts: &Vec<UserAccount>) -> (r: bool)
    ensures
        r == strictly_sorted(account_keys(account_views(accounts@))),
{
    let ghost keys = account_keys(account_views(accounts@));
    if accounts.len() < 2 {
        return true;
    }
    let mut i: usize = 0;
    while i + 1 < accounts.len()
        invariant
            0 <= i < accounts.len(),
            keys == account_keys(account_views(accounts@)),
            forall|a: int, b: int| 0 <= a < b <= i ==> precedes(#[trigger] keys[a], #[trigger] keys[b]),
        decreases accounts.len() - i,
    {
        match accounts[i].key.rank(&accounts[i + 1].key) {
            Rank::Before => {},
            _ => {
                assert(!precedes(keys[i as int], keys[i + 1]));
                return false;
            },
        }
        assert forall|a: int, b: int| 0 <= a < b <= i + 1 implies precedes(
            #[trigger] keys[a],
            #[trigger] keys[b],
        ) by {
            if b == i + 1 && a < i {
                assert(precedes(keys[a], keys[i as int]));
                lemma_precedes_transitive(keys[a], keys[i as int], keys[i + 1]);
            }
        }
        i += 1;
    }
    true
}

/// Whether the fee bytes of the event's callbacks name fee tiers.
pub fn event_is_wf(event: &Event) -> (r: bool)
    ensures
        r == event_wf(*event),
{
    match event {
        Event::Fill { maker_callback_info, taker_callback_info, .. } => {
            FeeTier::is_valid_fee_byte(maker_callback_info.fee_tier) && FeeTier::is_valid_fee_byte(
                taker_callback_info.fee_tier,
            )
        },
        Event::Out { .. } => true,
    }
}

/// Finds the account with the given address in a list sorted by address.
pub fn find_account(accounts: &Vec<UserAccount>, key: &Address) -> (r: Option<usize>)
    requires
        strictly_sorted(account_keys(account_views(accounts@))),
    ensures
        match r {
            Some(i) => i < accounts.len() && position_of(
                account_keys(account_views(accounts@)),
                key@,
            ) == Some(i as int) && accounts[i as int].key@ == key@,
            None => position_of(account_keys(account_views(accounts@)), key@) is None,
        },
{
    let ghost keys = account_keys(account_views(accounts@));
    let mut lo: usize = 0;
    let mut hi: usize = accounts.len();
    while lo < hi
        invariant
            0 <= lo <= hi <= accounts.len(),
            keys == account_keys(account_views(accounts@)),
            strictly_sorted(keys),
            forall|i: int| 0 <= i < lo ==> precedes(#[trigger] keys[i], key@),
            forall|i: int| hi <= i < accounts.len() ==> precedes(key@, #[trigger] keys[i]),
        decreases hi - lo,
    {
        let mid: usize = lo + (hi - lo) / 2;
        match accounts[mid].key.rank(key) {
            Rank::Same => {
                proof {
                    lemma_sorted_position_unique(keys, mid as int);
                }
                return Some(mid);
            },
            Rank::Before => {
                assert forall|i: int| 0 <= i < mid + 1 implies precedes(#[trigger] keys[i], key@) by {
                    if i < mid {
                        assert(precedes(keys[i], keys[mid as int]));
                        lemma_precedes_transitive(keys[i], keys[mid as int], key@);
                    }
                }
                lo = mid + 1;
            },
            Rank::After => {
                assert forall|i: int| mid <= i < accounts.len() implies precedes(
                    key@,
                    #[trigger] keys[i],
                ) by {
                    if mid < i {
                        assert(precedes(keys[mid as int], keys[i]));
                        lemma_precedes_transitive(key@, keys[mid as int], keys[i]);
                    }
                }
                hi = mid;
            },
        }
    }
    proof {
        lemma_precedes_irreflexive(key@);
        assert forall|i: int| 0 <= i < keys.len() implies #[trigger] keys[i] != key@ by {
            assert(precedes(keys[i], key@) || precedes(key@, keys[i]));
        }
    }
    None
}

/// Applies one event to the ledgers. `accounts` are the user accounts that
/// the caller supplies, sorted by address; the account an event names is
/// looked up among them. A failed event leaves everything as it was.
pub fn consume_event(
    accounts: &mut Vec<UserAccount>,
    event: &Event,
    market_state: &mut DexState,
) -> (r: Result<(), DexError>)
    requires
        accounts_wf(old(accounts)@),
        strictly_sorted(account_keys(account_views(old(accounts)@))),
        event_wf(*event),
        old(market_state).fee_schedule.wf(),
    ensures
        accounts_wf(final(accounts)@),
        final(market_state).fee_schedule == old(market_state).fee_schedule,
        account_keys(account_views(final(accounts)@)) == account_keys(
            account_views(old(accounts)@),
        ),
        match spec_consume_event(account_views(old(accounts)@), *old(market_state), *event) {
            Ok((a, m)) => r is Ok && account_views(final(accounts)@) == a && *final(market_state)
                == m,
            Err(e) => r == Err::<(), DexError>(e) && *final(accounts) == *old(accounts)
                && *final(market_state) == *old(market_state),
        },
{
    let ghost views = account_views(accounts@);
    match event {
        Event::Fill {
            taker_side,
            maker_order_id: _,
            quote_size,
            base_size,
            maker_callback_info,
            taker_callback_info,
        } => {
            let i: usize = match find_account(accounts, &maker_callback_info.user_account) {
                Some(i) => i,
                None => {
                    return Err(DexError::MissingUserAccount);
                },
            };
            let (taker_fee_tier, is_referred) = FeeTier::from_u8(taker_callback_info.fee_tier);
            let (maker_fee_tier, _) = FeeTier::from_u8(maker_callback_info.fee_tier);
            let self_trade: bool = taker_callback_info.user_account.same(
                &maker_callback_info.user_account,
            );
            let quote: u64 = match quote_size.checked_mul(market_state.quote_currency_multiplier) {
                Some(q) => q,
                None => {
                    return Err(DexError::NumericalOverflow);
                },
            };
            let base: u64 = match base_size.checked_mul(market_state.base_currency_multiplier) {
                Some(b) => b,
                None => {
                    return Err(DexError::NumericalOverflow);
                },
            };
            let maker_rebate: u64 = if self_trade {
                market_state.maker_rebate(taker_fee_tier, quote)
            } else {
                market_state.maker_rebate(maker_fee_tier, quote)
            };
            let taker_fee: u64 = market_state.taker_fee(taker_fee_tier, quote);
            let referral_fee: u64 = if is_referred {
                market_state.referral_fee(taker_fee_tier, quote)
            } else {
                0
            };
            let total_fees: u64 = match taker_fee.checked_sub(maker_rebate) {
                Some(left) => match left.checked_sub(referral_fee) {
                    Some(v) => v,
                    None => {
                        return Err(DexError::NumericalOverflow);
                    },
                },
                None => {
                    return Err(DexError::NumericalOverflow);
                },
            };
            let next_header = fill_header(
                &accounts[i].header,
                *taker_side,
                quote,
                base,
                maker_rebate,
                self_trade,
            );
            let next_market = fill_market(market_state, quote, base, total_fees, self_trade);
            match (next_header, next_market) {
                (Some(h), Some(m)) => {
                    let account = &mut accounts[i];
                    account.header = h;
                    *market_state = m;
                    proof {
                        assert(accounts[i as int].live_orders() == old(accounts)[i as int].live_orders());
                        assert(account_views(accounts@) =~= views.update(
                            i as int,
                            AccountView { header: h, ..views[i as int] },
                        ));
                        assert(account_keys(account_views(accounts@)) =~= account_keys(views));
                    }
                    Ok(())
                },
                _ => Err(DexError::NumericalOverflow),
            }
        },
        Event::Out { side, order_id, base_size, callback_info, delete } => {
            if !*delete && *base_size == 0 {
                return Ok(());
            }
            let i: usize = match find_account(accounts, &callback_info.user_account) {
                Some(i) => i,
                None => {
                    return Err(DexError::MissingUserAccount);
                },
            };
            let h = match out_header(market_state, &accounts[i].header, *side, *order_id, *base_size) {
                Some(h) => h,
                None => {
                    return Err(DexError::NumericalOverflow);
                },
            };
            let ghost released = AccountView { header: h, ..views[i as int] };
            if *delete {
                let k: usize = match accounts[i].find_order_index(*order_id) {
                    Ok(k) => k,
                    Err(_) => {
                        return Err(DexError::OrderNotFound);
                    },
                };
                proof {
                    let c = choose|c: int| is_first_with_id(released.live, *order_id, c);
                    lemma_first_with_id_unique(released.live, *order_id, c, k as int);
                }
                let account = &mut accounts[i];
                account.header = h;
                let _ = account.remove_order(k);
                proof {
                    assert(account_views(accounts@) =~= views.update(
                        i as int,
                        spec_strike_order(released, *order_id).unwrap(),
                    ));
                    assert(account_keys(account_views(accounts@)) =~= account_keys(views));
                }
                Ok(())
            } else {
                let account = &mut accounts[i];
                account.header = h;
                proof {
                    assert(accounts[i as int].live_orders() == old(accounts)[i as int].live_orders());
                    assert(account_views(accounts@) =~= views.update(i as int, released));
                    assert(account_keys(account_views(accounts@)) =~= account_keys(views));
                }
                Ok(())
            }
        },
    }
}

/// Applies the queued `events` in order until `max_iterations` of them are
/// applied, the queue is exhausted, or one of them fails; returns how many
/// were applied, which is what the matching engine is then told to dequeue.
/// With `no_op_err` set to 1, applying none is the failure `NoOp`.
pub fn consume_events(
    accounts: &mut Vec<UserAccount>,
    market_state: &mut DexState,
    events: &Vec<Event>,
    params: &Params,
) -> (r: Result<u64, DexError>)
    requires
        accounts_wf(old(accounts)@),
        strictly_sorted(account_keys(account_views(old(accounts)@))),
        forall|i: int| 0 <= i < events.len() ==> event_wf(#[trigger] events[i]),
        old(market_state).fee_schedule.wf(),
    ensures
        accounts_wf(final(accounts)@),
        final(market_state).fee_schedule == old(market_state).fee_schedule,
        account_keys(account_views(final(accounts)@)) == account_keys(
            account_views(old(accounts)@),
        ),
        ({
            let run = spec_run(
                account_views(old(accounts)@),
                *old(market_state),
                events@,
                params.max_iterations as nat,
            );
            &&& account_views(final(accounts)@) == run.0
            &&& *final(market_state) == run.1
            &&& run.2 <= params.max_iterations
            &&& run.2 <= events.len()
            &&& r == (if run.2 == 0 && params.no_op_err == 1 {
                Err::<u64, DexError>(DexError::NoOp)
            } else {
                Ok::<u64, DexError>(run.2 as u64)
            })
        }),
{
    let ghost start_views = account_views(accounts@);
    let ghost start_market = *market_state;
    let ghost budget = params.max_iterations as nat;
    let mut total_iterations: u64 = 0;
    let mut i: usize = 0;
    let mut stopped: bool = false;
    proof {
        lemma_run_bounded(start_views, start_market, events@, budget);
        assert(events@.skip(0) =~= events@);
    }
    while !stopped && i < events.len() && total_iterations < params.max_iterations
        invariant
            stopped ==> spec_run(
                account_views(accounts@),
                *market_state,
                events@.skip(i as int),
                (budget - i) as nat,
            ).2 == 0,
            0 <= i <= events.len(),
            i == total_iterations,
            total_iterations <= params.max_iterations,
            budget == params.max_iterations,
            market_state.fee_schedule == start_market.fee_schedule,
            market_state.fee_schedule.wf(),
            accounts_wf(accounts@),
            strictly_sorted(account_keys(account_views(accounts@))),
            account_keys(account_views(accounts@)) == account_keys(start_views),
            forall|j: int| 0 <= j < events.len() ==> event_wf(#[trigger] events[j]),
            ({
                let whole = spec_run(start_views, start_market, events@, budget);
                let rest = spec_run(
                    account_views(accounts@),
                    *market_state,
                    events@.skip(i as int),
                    (budget - i) as nat,
                );
                whole.0 == rest.0 && whole.1 == rest.1 && whole.2 == rest.2 + i
            }),
        decreases
                (if stopped {
                    0int
                } else {
                    events.len() - i + 1
                }),
    {
        proof {
            assert(events@.skip(i as int)[0] == events[i as int]);
            assert(events@.skip(i as int).drop_first() =~= events@.skip(i + 1));
        }
        match consume_event(accounts, &events[i], market_state) {
            Err(_) => {
                stopped = true;
            },
            Ok(()) => {
                total_iterations = total_iterations + 1;
                i = i + 1;
            },
        }
    }
    proof {
        let rest = spec_run(
            account_views(accounts@),
            *market_state,
            events@.skip(i as int),
            (budget - i) as nat,
        );
        assert(rest.2 == 0);
        assert(rest.0 == account_views(accounts@) && rest.1 == *market_state);
    }
    if total_iterations == 0 && params.no_op_err == 1 {
        return Err(DexError::NoOp);
    }
    Ok(total_iterations)
}

/// When the maker of a fill is also its taker, the account's locked amount
/// on the maker's side is released and the maker rebate is credited; its
/// free balances are charged nothing.
pub proof fn lemma_self_trade_accounting(
    h: UserAccountHeader,
    taker_side: Side,
    quote_size: u64,
    base_size: u64,
    rebate: u64,
)
    requires
        spec_fill_header(h, taker_side, quote_size, base_size, rebate, true) is Some,
    ensures
        ({
            let after = spec_fill_header(h, taker_side, quote_size, base_size, rebate, true).unwrap();
            &&& after.quote_token_free == h.quote_token_free + rebate
            &&& after.base_token_free == h.base_token_free
            &&& after.accumulated_rebates == h.accumulated_rebates + rebate
            &&& taker_side == Side::Bid ==> after.base_token_locked == h.base_token_locked
                - base_size && after.quote_token_locked == h.quote_token_locked
            &&& taker_side == Side::Ask ==> after.quote_token_locked == h.quote_token_locked
                - quote_size && after.base_token_locked == h.base_token_locked
        }),
{
}

/// The accounts of an event-draining operation: four fixed ones, then the
/// user accounts that the events may name.
#[derive(Debug)]
pub struct Accounts {
    pub market: AccountInfo,
    pub orderbook: AccountInfo,
    pub event_queue: AccountInfo,
    pub reward_target: AccountInfo,
    pub user_accounts: Vec<AccountInfo>,
}

/// Whether the list of accounts passes the checks that need no ledger, or
/// the first that it fails.
pub open spec fn spec_parse_check(program_id: Address, accounts: Seq<AccountInfo>) -> Result<
    (),
    ProgramFault,
> {
    if accounts.len() < 4 {
        Err(ProgramFault::NotEnoughAccountKeys)
    } else if accounts[0].owner@ != program_id@ {
        Err(dex_fault(DexError::InvalidStateAccountOwner))
    } else {
        Ok(())
    }
}

impl Accounts {
    /// Reads the accounts from the list in their fixed order and checks
    /// that the market belongs to this program.
    pub fn parse(program_id: &Address, accounts: &Vec<AccountInfo>) -> (r: Result<
        Accounts,
        ProgramFault,
    >)
        ensures
            match spec_parse_check(*program_id, accounts@) {
                Err(e) => r is Err && r.unwrap_err() == e,
                Ok(()) => {
                    &&& r is Ok
                    &&& r.unwrap().market == accounts[0]
                    &&& r.unwrap().orderbook == accounts[1]
                    &&& r.unwrap().event_queue == accounts[2]
                    &&& r.unwrap().reward_target == accounts[3]
                    &&& r.unwrap().user_accounts@ == accounts@.skip(4)
                },
            },
    {
        if accounts.len() < 4 {
            return Err(ProgramFault::NotEnoughAccountKeys);
        }
        if !accounts[0].owner.same(program_id) {
            return Err(ProgramFault::from_dex(DexError::InvalidStateAccountOwner));
        }
        Ok(
            Accounts {
                market: accounts[0],
                orderbook: accounts[1],
                event_queue: accounts[2],
                reward_target: accounts[3],
                user_accounts: accounts_from(accounts, 4),
            },
        )
    }
}

/// Checks that the order book presented is the market's.
pub fn check_accounts(market_state: &DexState, accounts: &Accounts) -> (r: Result<
    (),
    ProgramFault,
>)
    ensures
        r == (if accounts.orderbook.key@ == market_state.orderbook@ {
            Ok::<(), ProgramFault>(())
        } else {
            Err::<(), ProgramFault>(dex_fault(DexError::InvalidOrderbookAccount))
        }),
{
    if !accounts.orderbook.key.same(&market_state.orderbook) {
        return Err(ProgramFault::from_dex(DexError::InvalidOrderbookAccount));
    }
    Ok(())
}

impl Params {
    /// Reads the arguments from their stored form: two 64-bit integers.
    pub fn from_bytes(data: &[u8]) -> (r: Result<Params, ProgramFault>)
        ensures
            match r {
                Ok(p) => {
                    &&& data@.len() == 16
                    &&& p.max_iterations == spec_u64_at(data@, 0)
                    &&& p.no_op_err == spec_u64_at(data@, 8)
                },
                Err(e) => e == ProgramFault::InvalidInstructionData && data@.len() != 16,
            },
    {
        if data.len() != 16 {
            return Err(ProgramFault::InvalidInstructionData);
        }
        Ok(Params { max_iterations: read_u64(data, 0), no_op_err: read_u64(data, 8) })
    }

    /// The stored form of the arguments: 16 bytes.
    pub open spec fn spec_bytes(&self) -> Seq<u8> {
        spec_u64_to_le_bytes(self.max_iterations) + spec_u64_to_le_bytes(self.no_op_err)
    }

    /// The stored form of the arguments: 16 bytes, from which `from_bytes`
    /// reads the same arguments back.
    pub fn to_bytes(&self) -> (out: Vec<u8>)
        ensures
            out@ == self.spec_bytes(),
            out@.len() == 16,
            spec_u64_at(out@, 0) == self.max_iterations,
            spec_u64_at(out@, 8) == self.no_op_err,
    {
        let mut out: Vec<u8> = Vec::new();
        put_u64(&mut out, self.max_iterations);
        put_u64(&mut out, self.no_op_err);
        proof {
            lemma_auto_spec_u64_to_from_le_bytes();
            assert(out@.subrange(0, 8) =~= spec_u64_to_le_bytes(self.max_iterations));
            assert(out@.subrange(8, 16) =~= spec_u64_to_le_bytes(self.no_op_err));
        }
        out
    }
}

} // verus!
