//! Placing an order.
//!
//! An order is placed in two steps around the matching engine. `prepare_order`
//! validates the request and says what to forward to the engine. The engine
//! answers with a summary of what was matched and what was posted, and
//! `apply_order_summary` turns that summary into balance changes, the amount
//! the owner's wallet still has to pay into the vault, and the new order slot.
use crate::address::Address;
use crate::consume_events::fits;
use crate::error::{dex_fault, DexError, ProgramFault};
use crate::token_account::token_account_of;
use crate::state::{
    ascending, spec_pack_fee_byte, spec_tier_of_token_account, DexState, FeeTier,
    SelfTradeBehavior, Side,
};
use crate::user_account::{
    check_user_account, spec_user_account_check, CallBackInfo, Order, UserAccount,
    UserAccountHeader,
};
use crate::utils::{
    fp32_mul, spec_fp32_mul, spl_token_id, spl_token_program, system_program, system_program_id,
    AccountInfo,
};
use crate::wire::{put_u128, put_u64, read_u128, read_u64, spec_u128_at, spec_u64_at};
use vstd::bytes::*;
use vstd::prelude::*;

verus! {

/// The supported order types.
#[derive(Clone, Copy, Debug, PartialEq, Eq, Structural)]
pub enum OrderType {
    /// Matches what it can; the rest is posted.
    Limit,
    /// Matches what it can; the rest is dropped. Fails if nothing matched.
    ImmediateOrCancel,
    /// Fails unless the whole quantity is matched at once.
    FillOrKill,
    /// Is posted without matching. Fails if it cannot be posted.
    PostOnly,
}

impl OrderType {
    /// The order type stored under the given byte.
    pub fn from_u8(tag: u8) -> (r: Option<OrderType>)
        ensures
            r == (if tag == 0 {
                Some(OrderType::Limit)
            } else if tag == 1 {
                Some(OrderType::ImmediateOrCancel)
            } else if tag == 2 {
                Some(OrderType::FillOrKill)
            } else if tag == 3 {
                Some(OrderType::PostOnly)
            } else {
                None
            }),
    {
        match tag {
            0 => Some(OrderType::Limit),
            1 => Some(OrderType::ImmediateOrCancel),
            2 => Some(OrderType::FillOrKill),
            3 => Some(OrderType::PostOnly),
            _ => None,
        }
    }
}

/// The arguments of an order.
#[derive(Clone, Copy, Debug)]
pub struct Params {
    /// The alias under which the owner will know the order.
    pub client_order_id: u128,
    /// The limit price in 32.32 fixed point.
    pub limit_price: u64,
    /// The most base to match and post.
    pub max_base_qty: u64,
    /// The most quote to match and post.
    pub max_quote_qty: u64,
    /// The most resting orders to match against.
    pub match_limit: u64,
    pub side: Side,
    pub order_type: OrderType,
    pub self_trade_behavior: SelfTradeBehavior,
    /// Whether a discount token account accompanies the order.
    pub has_discount_token_account: bool,
}

/// What is forwarded to the matching engine, in the engine's own units.
#[derive(Clone, Copy, Debug)]
pub struct EngineOrder {
    pub max_base_qty: u64,
    pub max_quote_qty: u64,
    pub limit_price: u64,
    pub side: Side,
    pub match_limit: u64,
    pub callback_info: CallBackInfo,
    pub post_only: bool,
    pub post_allowed: bool,
    pub self_trade_behavior: SelfTradeBehavior,
}

/// A validated order: what to forward, and the quote budget that is left
/// once the worst-case taker fee is set aside.
#[derive(Clone, Copy, Debug)]
pub struct PreparedOrder {
    pub engine_order: EngineOrder,
    pub max_quote_qty: u64,
}

/// The matching engine's answer, in the engine's own units.
#[derive(Clone, Copy, Debug, PartialEq, Eq, Structural)]
pub struct OrderSummary {
    /// The id of the order that was posted, if one was.
    pub posted_order_id: Option<u128>,
    /// Base matched and posted.
    pub total_base_qty: u64,
    /// Quote matched and posted.
    pub total_quote_qty: u64,
    /// Base posted.
    pub total_base_qty_posted: u64,
}

/// What the caller must still do once the ledgers are updated.
#[derive(Clone, Copy, Debug, PartialEq, Eq, Structural)]
pub struct OrderOutcome {
    /// What the owner's wallet pays into the vault.
    pub qty_to_transfer: u64,
    /// The vault that receives it: quote for a bid, base for an ask.
    pub transfer_side: Side,
    /// What the quote vault pays the referrer; zero for an order without
    /// one.
    pub referral_fee: u64,
}

/// A summary in the market's external units, with the quote value of what
/// was posted.
pub struct Scaled {
    pub total_base: u64,
    pub posted_base: u64,
    pub total_quote: u64,
    pub posted_quote: u64,
}

/// Whether the order type forbids matching, and whether it allows posting.
pub open spec fn spec_posting(order_type: OrderType) -> (bool, bool) {
    match order_type {
        OrderType::Limit => (false, true),
        OrderType::ImmediateOrCancel => (false, false),
        OrderType::FillOrKill => (false, false),
        OrderType::PostOnly => (true, true),
    }
}

/// The quote budget that is forwarded: a bid that may match sets the
/// worst-case taker fee aside.
pub open spec fn spec_quote_budget(market: DexState, params: Params, fee_tier: FeeTier) -> u64 {
    if params.side == Side::Bid && params.order_type != OrderType::PostOnly {
        market.spec_remove_taker_fee(fee_tier, params.max_quote_qty)
    } else {
        params.max_quote_qty
    }
}

/// What `prepare_order` answers.
pub open spec fn spec_prepare_order(
    market: DexState,
    user_key: Address,
    params: Params,
    fee_tier: FeeTier,
    has_referral: bool,
) -> Result<PreparedOrder, ProgramFault> {
    if params.max_base_qty < market.min_base_order_size {
        Err(ProgramFault::InvalidArgument)
    } else {
        let budget = spec_quote_budget(market, params, fee_tier);
        Ok(
            PreparedOrder {
                engine_order: EngineOrder {
                    max_base_qty: params.max_base_qty / market.base_currency_multiplier,
                    max_quote_qty: budget / market.quote_currency_multiplier,
                    limit_price: params.limit_price,
                    side: params.side,
                    match_limit: params.match_limit,
                    callback_info: CallBackInfo {
                        user_account: user_key,
                        fee_tier: spec_pack_fee_byte(fee_tier, has_referral),
                    },
                    post_only: spec_posting(params.order_type).0,
                    post_allowed: spec_posting(params.order_type).1,
                    self_trade_behavior: params.self_trade_behavior,
                },
                max_quote_qty: budget,
            },
        )
    }
}

/// Validates an order and says what to forward to the matching engine. An
/// order below the market's minimum base size is refused.
pub fn prepare_order(
    market: &DexState,
    user_key: &Address,
    params: &Params,
    fee_tier: FeeTier,
    has_referral: bool,
) -> (r: Result<PreparedOrder, ProgramFault>)
    requires
        market.wf(),
    ensures
        r == spec_prepare_order(*market, *user_key, *params, fee_tier, has_referral),
{
    if params.max_base_qty < market.min_base_order_size {
        return Err(ProgramFault::InvalidArgument);
    }
    let (post_only, post_allowed) = match params.order_type {
        OrderType::Limit => (false, true),
        OrderType::ImmediateOrCancel => (false, false),
        OrderType::FillOrKill => (false, false),
        OrderType::PostOnly => (true, true),
    };
    let shrink: bool = match (params.side, params.order_type) {
        (Side::Bid, OrderType::PostOnly) => false,
        (Side::Bid, _) => true,
        (Side::Ask, _) => false,
    };
    let max_quote_qty: u64 = if shrink {
        market.remove_taker_fee(fee_tier, params.max_quote_qty)
    } else {
        params.max_quote_qty
    };
    let callback_info = CallBackInfo {
        user_account: *user_key,
        fee_tier: fee_tier.to_u8(has_referral),
    };
    Ok(
        PreparedOrder {
            engine_order: EngineOrder {
                max_base_qty: params.max_base_qty / market.base_currency_multiplier,
                max_quote_qty: max_quote_qty / market.quote_currency_multiplier,
                limit_price: params.limit_price,
                side: params.side,
                match_limit: params.match_limit,
                callback_info,
                post_only,
                post_allowed,
                self_trade_behavior: params.self_trade_behavior,
            },
            max_quote_qty,
        },
    )
}

/// The summary in external units: base quantities by the base multiplier,
/// quote quantities by the quote multiplier. The quote value of what was
/// posted is what the matching engine counts for it, the posted base at the
/// limit price. `None` when a quantity leaves its range or more is said to
/// be posted than the total holds.
pub open spec fn spec_rescale(market: DexState, s: OrderSummary, limit_price: u64) -> Option<
    Scaled,
> {
    let total_base = s.total_base_qty * market.base_currency_multiplier;
    let posted_base = s.total_base_qty_posted * market.base_currency_multiplier;
    let total_quote = s.total_quote_qty * market.quote_currency_multiplier;
    if fits(total_base) && fits(posted_base) && fits(total_quote) && posted_base <= total_base {
        match spec_fp32_mul(s.total_base_qty_posted, limit_price) {
            Some(engine_quote) => {
                let posted_quote = engine_quote * market.quote_currency_multiplier;
                if posted_quote <= total_quote {
                    Some(
                        Scaled {
                            total_base: total_base as u64,
                            posted_base: posted_base as u64,
                            total_quote: total_quote as u64,
                            posted_quote: posted_quote as u64,
                        },
                    )
                } else {
                    None
                }
            },
            None => None,
        }
    } else {
        None
    }
}

/// The summary in external units.
pub fn rescale(market: &DexState, s: &OrderSummary, limit_price: u64) -> (r: Option<Scaled>)
    ensures
        r == spec_rescale(*market, *s, limit_price),
{
    let total_base: u64 = match s.total_base_qty.checked_mul(market.base_currency_multiplier) {
        Some(v) => v,
        None => {
            return None;
        },
    };
    let posted_base: u64 = match s.total_base_qty_posted.checked_mul(
        market.base_currency_multiplier,
    ) {
        Some(v) => v,
        None => {
            return None;
        },
    };
    let total_quote: u64 = match s.total_quote_qty.checked_mul(market.quote_currency_multiplier) {
        Some(v) => v,
        None => {
            return None;
        },
    };
    if posted_base > total_base {
        return None;
    }
    match fp32_mul(s.total_base_qty_posted, limit_price) {
        Some(engine_quote) => {
            match engine_quote.checked_mul(market.quote_currency_multiplier) {
                Some(posted_quote) => {
                    if posted_quote <= total_quote {
                        Some(Scaled { total_base, posted_base, total_quote, posted_quote })
                    } else {
                        None
                    }
                },
                None => None,
            }
        },
        None => None,
    }
}

/// The royalty on a matched quote quantity, in units of a ten-thousandth.
pub open spec fn spec_royalties(matched_quote: u64, royalties_bps: u64) -> Option<u64> {
    if fits(matched_quote * royalties_bps) {
        Some(((matched_quote * royalties_bps) / 10_000) as u64)
    } else {
        None
    }
}

/// The royalty on a matched quote quantity.
pub fn royalties(matched_quote: u64, royalties_bps: u64) -> (r: Option<u64>)
    ensures
        r == spec_royalties(matched_quote, royalties_bps),
{
    match matched_quote.checked_mul(royalties_bps) {
        Some(v) => Some(v / 10_000),
        None => None,
    }
}

/// A bid's effect on the balances: the header, what the bid costs in all
/// (quote matched and posted, taker fee, royalty), and what the wallet pays.
/// The cost is taken from the free quote first; the wallet pays the
/// shortfall. The posted quote is locked; the matched base is credited.
pub open spec fn spec_bid_balances(
    h: UserAccountHeader,
    sc: Scaled,
    taker_fee: u64,
    royalty: u64,
) -> Option<(UserAccountHeader, u64, u64)> {
    let owed = sc.total_quote + taker_fee + royalty;
    let locked = h.quote_token_locked + sc.posted_quote;
    let base_free = h.base_token_free + (sc.total_base - sc.posted_base);
    if fits(owed) && fits(locked) && fits(base_free) {
        Some(
            (
                UserAccountHeader {
                    quote_token_free: if h.quote_token_free >= owed {
                        (h.quote_token_free - owed) as u64
                    } else {
                        0
                    },
                    quote_token_locked: locked as u64,
                    base_token_free: base_free as u64,
                    ..h
                },
                owed as u64,
                if owed >= h.quote_token_free {
                    (owed - h.quote_token_free) as u64
                } else {
                    0
                },
            ),
        )
    } else {
        None
    }
}

/// An ask's effect on the balances: the header and what the wallet pays.
/// The base matched and posted is taken from the free base first; the
/// wallet pays the shortfall. The posted base is locked; the matched quote,
/// less taker fee and royalty, is credited.
pub open spec fn spec_ask_balances(
    h: UserAccountHeader,
    sc: Scaled,
    taker_fee: u64,
    royalty: u64,
) -> Option<(UserAccountHeader, u64)> {
    let locked = h.base_token_locked + sc.posted_base;
    let proceeds = (sc.total_quote - sc.posted_quote) - (taker_fee + royalty);
    let quote_free = h.quote_token_free + proceeds;
    if fits(locked) && fits(taker_fee + royalty) && proceeds >= 0 && fits(quote_free) {
        Some(
            (
                UserAccountHeader {
                    base_token_free: if h.base_token_free >= sc.total_base {
                        (h.base_token_free - sc.total_base) as u64
                    } else {
                        0
                    },
                    base_token_locked: locked as u64,
                    quote_token_free: quote_free as u64,
                    ..h
                },
                if sc.total_base >= h.base_token_free {
                    (sc.total_base - h.base_token_free) as u64
                } else {
                    0
                },
            ),
        )
    } else {
        None
    }
}

/// Whether the order type refuses the outcome. `total_base` is the base
/// matched and posted; `total_quote` is the quote matched and posted, for a
/// bid with fee and royalty on top.
pub open spec fn spec_aborts(
    params: Params,
    max_quote_qty: u64,
    total_base: u64,
    total_quote: u64,
    posted: bool,
) -> bool {
    match params.order_type {
        OrderType::Limit => false,
        OrderType::ImmediateOrCancel => total_base == 0,
        OrderType::FillOrKill => if params.side == Side::Bid {
            total_quote < max_quote_qty
        } else {
            total_base < params.max_base_qty
        },
        OrderType::PostOnly => !posted,
    }
}

/// The header with the taker volumes of this order added.
pub open spec fn spec_taker_volumes(
    h: UserAccountHeader,
    sc: Scaled,
    total_quote: u64,
) -> Option<UserAccountHeader> {
    let base = h.accumulated_taker_base_volume + (sc.total_base - sc.posted_base);
    let quote = h.accumulated_taker_quote_volume + (if total_quote >= sc.posted_quote {
        total_quote - sc.posted_quote
    } else {
        0
    });
    if fits(base) && fits(quote) {
        Some(
            UserAccountHeader {
                accumulated_taker_base_volume: base as u64,
                accumulated_taker_quote_volume: quote as u64,
                ..h
            },
        )
    } else {
        None
    }
}

/// The header and the outcome of an order whose summary is `s`, before the
/// posted order takes its slot; or the reason why the order fails.
pub open spec fn spec_order_accounting(
    market: DexState,
    h: UserAccountHeader,
    params: Params,
    fee_tier: FeeTier,
    has_referral: bool,
    max_quote_qty: u64,
    s: OrderSummary,
) -> Result<(UserAccountHeader, OrderOutcome), DexError> {
    match spec_rescale(market, s, params.limit_price) {
        None => Err(DexError::NumericalOverflow),
        Some(sc) => {
            let matched_quote = (sc.total_quote - sc.posted_quote) as u64;
            let taker_fee = market.spec_taker_fee(fee_tier, matched_quote);
            let referral = market.spec_referral_fee(fee_tier, matched_quote);
            match spec_royalties(matched_quote, market.royalties_bps) {
                None => Err(DexError::NumericalOverflow),
                Some(royalty) => {
                    let leg: Option<(UserAccountHeader, u64, u64)> = if params.side == Side::Bid {
                        spec_bid_balances(h, sc, taker_fee, royalty)
                    } else {
                        match spec_ask_balances(h, sc, taker_fee, royalty) {
                            Some((nh, q)) => Some((nh, sc.total_quote, q)),
                            None => None,
                        }
                    };
                    match leg {
                        None => Err(DexError::NumericalOverflow),
                        Some((nh, total_quote, q)) => if spec_aborts(
                            params,
                            max_quote_qty,
                            sc.total_base,
                            total_quote,
                            s.posted_order_id.is_some(),
                        ) {
                            Err(DexError::TransactionAborted)
                        } else {
                            match spec_taker_volumes(nh, sc, total_quote) {
                                None => Err(DexError::NumericalOverflow),
                                Some(fh) => Ok(
                                    (
                                        fh,
                                        OrderOutcome {
                                            qty_to_transfer: q,
                                            transfer_side: params.side,
                                            referral_fee: if has_referral {
                                                referral
                                            } else {
                                                0
                                            },
                                        },
                                    ),
                                ),
                            }
                        },
                    }
                },
            }
        },
    }
}

/// A bid's effect on the balances.
pub fn bid_balances(h: &UserAccountHeader, sc: &Scaled, taker_fee: u64, royalty: u64) -> (r: Option<
    (UserAccountHeader, u64, u64),
>)
    requires
        sc.posted_base <= sc.total_base,
    ensures
        r == spec_bid_balances(*h, *sc, taker_fee, royalty),
{
    let with_fee: u64 = match sc.total_quote.checked_add(taker_fee) {
        Some(v) => v,
        None => {
            return None;
        },
    };
    let owed: u64 = match with_fee.checked_add(royalty) {
        Some(v) => v,
        None => {
            return None;
        },
    };
    let locked: u64 = match h.quote_token_locked.checked_add(sc.posted_quote) {
        Some(v) => v,
        None => {
            return None;
        },
    };
    let base_free: u64 = match h.base_token_free.checked_add(sc.total_base - sc.posted_base) {
        Some(v) => v,
        None => {
            return None;
        },
    };
    let q: u64 = if owed >= h.quote_token_free {
        owed - h.quote_token_free
    } else {
        0
    };
    let mut next = *h;
    next.quote_token_free = if h.quote_token_free >= owed {
        h.quote_token_free - owed
    } else {
        0
    };
    next.quote_token_locked = locked;
    next.base_token_free = base_free;
    Some((next, owed, q))
}

/// An ask's effect on the balances.
pub fn ask_balances(h: &UserAccountHeader, sc: &Scaled, taker_fee: u64, royalty: u64) -> (r: Option<
    (UserAccountHeader, u64),
>)
    requires
        sc.posted_quote <= sc.total_quote,
    ensures
        r == spec_ask_balances(*h, *sc, taker_fee, royalty),
{
    let locked: u64 = match h.base_token_locked.checked_add(sc.posted_base) {
        Some(v) => v,
        None => {
            return None;
        },
    };
    let charges: u64 = match taker_fee.checked_add(royalty) {
        Some(v) => v,
        None => {
            return None;
        },
    };
    let proceeds: u64 = match (sc.total_quote - sc.posted_quote).checked_sub(charges) {
        Some(v) => v,
        None => {
            return None;
        },
    };
    let quote_free: u64 = match h.quote_token_free.checked_add(proceeds) {
        Some(v) => v,
        None => {
            return None;
        },
    };
    let q: u64 = if sc.total_base >= h.base_token_free {
        sc.total_base - h.base_token_free
    } else {
        0
    };
    let mut next = *h;
    next.base_token_free = if h.base_token_free >= sc.total_base {
        h.base_token_free - sc.total_base
    } else {
        0
    };
    next.base_token_locked = locked;
    next.quote_token_free = quote_free;
    Some((next, q))
}

/// Whether the order type refuses the outcome.
pub fn aborts(
    params: &Params,
    max_quote_qty: u64,
    total_base: u64,
    total_quote: u64,
    posted: bool,
) -> (r: bool)
    ensures
        r == spec_aborts(*params, max_quote_qty, total_base, total_quote, posted),
{
    match params.order_type {
        OrderType::Limit => false,
        OrderType::ImmediateOrCancel => total_base == 0,
        OrderType::FillOrKill => match params.side {
            Side::Bid => total_quote < max_quote_qty,
            Side::Ask => total_base < params.max_base_qty,
        },
        OrderType::PostOnly => !posted,
    }
}

/// The header with the taker volumes of this order added.
pub fn taker_volumes(h: &UserAccountHeader, sc: &Scaled, total_quote: u64) -> (r: Option<
    UserAccountHeader,
>)
    requires
        sc.posted_base <= sc.total_base,
    ensures
        r == spec_taker_volumes(*h, *sc, total_quote),
{
    let quote_part: u64 = if total_quote >= sc.posted_quote {
        total_quote - sc.posted_quote
    } else {
        0
    };
    let base: u64 = match h.accumulated_taker_base_volume.checked_add(
        sc.total_base - sc.posted_base,
    ) {
        Some(v) => v,
        None => {
            return None;
        },
    };
    let quote: u64 = match h.accumulated_taker_quote_volume.checked_add(quote_part) {
        Some(v) => v,
        None => {
            return None;
        },
    };
    let mut next = *h;
    next.accumulated_taker_base_volume = base;
    next.accumulated_taker_quote_volume = quote;
    Some(next)
}

/// The header and the outcome of an order whose summary is `s`, before the
/// posted order takes its slot.
pub fn order_accounting(
    market: &DexState,
    h: &UserAccountHeader,
    params: &Params,
    fee_tier: FeeTier,
    has_referral: bool,
    max_quote_qty: u64,
    s: &OrderSummary,
) -> (r: Result<(UserAccountHeader, OrderOutcome), DexError>)
    requires
        market.fee_schedule.wf(),
    ensures
        r == spec_order_accounting(
            *market,
            *h,
            *params,
            fee_tier,
            has_referral,
            max_quote_qty,
            *s,
        ),
{
    let sc = match rescale(market, s, params.limit_price) {
        Some(sc) => sc,
        None => {
            return Err(DexError::NumericalOverflow);
        },
    };
    let matched_quote: u64 = sc.total_quote - sc.posted_quote;
    let taker_fee: u64 = market.taker_fee(fee_tier, matched_quote);
    let referral: u64 = market.referral_fee(fee_tier, matched_quote);
    let royalty: u64 = match royalties(matched_quote, market.royalties_bps) {
        Some(v) => v,
        None => {
            return Err(DexError::NumericalOverflow);
        },
    };
    let (next, total_quote, q) = match params.side {
        Side::Bid => match bid_balances(h, &sc, taker_fee, royalty) {
            Some(leg) => leg,
            None => {
                return Err(DexError::NumericalOverflow);
            },
        },
        Side::Ask => match ask_balances(h, &sc, taker_fee, royalty) {
            Some((nh, q)) => (nh, sc.total_quote, q),
            None => {
                return Err(DexError::NumericalOverflow);
            },
        },
    };
    if aborts(params, max_quote_qty, sc.total_base, total_quote, s.posted_order_id.is_some()) {
        return Err(DexError::TransactionAborted);
    }
    let referral_fee: u64 = if has_referral {
        referral
    } else {
        0
    };
    match taker_volumes(&next, &sc, total_quote) {
        None => Err(DexError::NumericalOverflow),
        Some(fh) => Ok(
            (fh, OrderOutcome { qty_to_transfer: q, transfer_side: params.side, referral_fee }),
        ),
    }
}

/// The account after an order whose summary is `s`, and what the caller must
/// still transfer; or the reason why the order fails.
pub open spec fn spec_apply_order_summary(
    market: DexState,
    h: UserAccountHeader,
    live: Seq<Order>,
    capacity: int,
    params: Params,
    fee_tier: FeeTier,
    has_referral: bool,
    max_quote_qty: u64,
    s: OrderSummary,
) -> Result<(UserAccountHeader, Seq<Order>, OrderOutcome), DexError> {
    match spec_order_accounting(market, h, params, fee_tier, has_referral, max_quote_qty, s) {
        Err(e) => Err(e),
        Ok((nh, outcome)) => match s.posted_order_id {
            None => Ok((nh, live, outcome)),
            Some(id) => if h.number_of_orders < capacity {
                Ok(
                    (
                        UserAccountHeader {
                            number_of_orders: (h.number_of_orders + 1) as u32,
                            ..nh
                        },
                        live.push(Order { id, client_id: params.client_order_id }),
                        outcome,
                    ),
                )
            } else {
                Err(DexError::UserAccountFull)
            },
        },
    }
}

/// Turns the matching engine's summary of an order into the account's new
/// balances and, if a remainder was posted, its new order slot. Returns what
/// the owner's wallet must pay into the vault and what the referrer is due.
/// An order that fails changes nothing.
pub fn apply_order_summary(
    market: &DexState,
    user_account: &mut UserAccount,
    params: &Params,
    fee_tier: FeeTier,
    has_referral: bool,
    max_quote_qty: u64,
    summary: &OrderSummary,
) -> (r: Result<OrderOutcome, DexError>)
    requires
        old(user_account).wf(),
        market.fee_schedule.wf(),
    ensures
        final(user_account).wf(),
        final(user_account).key == old(user_account).key,
        final(user_account).spec_capacity() == old(user_account).spec_capacity(),
        match spec_apply_order_summary(
            *market,
            old(user_account).header,
            old(user_account).live_orders(),
            old(user_account).spec_capacity(),
            *params,
            fee_tier,
            has_referral,
            max_quote_qty,
            *summary,
        ) {
            Ok((h, live, outcome)) => {
                &&& r == Ok::<OrderOutcome, DexError>(outcome)
                &&& final(user_account).header == h
                &&& final(user_account).live_orders() == live
            },
            Err(e) => {
                &&& r == Err::<OrderOutcome, DexError>(e)
                &&& *final(user_account) == *old(user_account)
            },
        },
{
    let (next, outcome) = match order_accounting(
        market,
        &user_account.header,
        params,
        fee_tier,
        has_referral,
        max_quote_qty,
        summary,
    ) {
        Ok(pair) => pair,
        Err(e) => {
            return Err(e);
        },
    };
    match summary.posted_order_id {
        Some(order_id) => {
            match user_account.add_order(Order { id: order_id, client_id: params.client_order_id }) {
                Ok(()) => {},
                Err(e) => {
                    return Err(e);
                },
            }
            let count: u32 = user_account.header.number_of_orders;
            user_account.header = next;
            user_account.header.number_of_orders = count;
        },
        None => {
            user_account.header = next;
        },
    }
    Ok(outcome)
}

/// The accounts of an order: twelve fixed ones, then the discount token
/// account if the arguments announce one, then the referrer's token account
/// if one is given.
#[derive(Clone, Copy, Debug)]
pub struct Accounts {
    pub spl_token_program: AccountInfo,
    pub system_program: AccountInfo,
    pub market: AccountInfo,
    pub orderbook: AccountInfo,
    pub event_queue: AccountInfo,
    pub bids: AccountInfo,
    pub asks: AccountInfo,
    pub base_vault: AccountInfo,
    pub quote_vault: AccountInfo,
    pub user: AccountInfo,
    pub user_token_account: AccountInfo,
    pub user_owner: AccountInfo,
    pub discount_token_account: Option<AccountInfo>,
    pub fee_referral_account: Option<AccountInfo>,
}

/// The account at `index`, if the list is that long.
pub open spec fn spec_optional_account(accounts: Seq<AccountInfo>, index: int) -> Option<
    AccountInfo,
> {
    if 0 <= index < accounts.len() {
        Some(accounts[index])
    } else {
        None
    }
}

/// The accounts of the operation, read from the list in their fixed
/// order, or the first check that the list fails.
pub open spec fn spec_parse(
    program_id: Address,
    accounts: Seq<AccountInfo>,
    has_discount_token_account: bool,
) -> Result<Accounts, ProgramFault> {
    let discount = if has_discount_token_account {
        spec_optional_account(accounts, 12)
    } else {
        None
    };
    let referral = spec_optional_account(
        accounts,
        if has_discount_token_account {
            13
        } else {
            12
        },
    );
    if accounts.len() < 12 {
        Err(ProgramFault::NotEnoughAccountKeys)
    } else if !accounts[11].is_signer {
        Err(ProgramFault::MissingRequiredSignature)
    } else if accounts[0].key@ != spl_token_id() {
        Err(dex_fault(DexError::InvalidSplTokenProgram))
    } else if accounts[1].key@ != system_program_id() {
        Err(dex_fault(DexError::InvalidSystemProgramAccount))
    } else if discount is Some && discount.unwrap().owner@ != spl_token_id() {
        Err(dex_fault(DexError::InvalidSplTokenProgram))
    } else if accounts[9].owner@ != program_id@ {
        Err(dex_fault(DexError::InvalidStateAccountOwner))
    } else if accounts[2].owner@ != program_id@ {
        Err(dex_fault(DexError::InvalidStateAccountOwner))
    } else {
        Ok(
            Accounts {
                spl_token_program: accounts[0],
                system_program: accounts[1],
                market: accounts[2],
                orderbook: accounts[3],
                event_queue: accounts[4],
                bids: accounts[5],
                asks: accounts[6],
                base_vault: accounts[7],
                quote_vault: accounts[8],
                user: accounts[9],
                user_token_account: accounts[10],
                user_owner: accounts[11],
                discount_token_account: discount,
                fee_referral_account: referral,
            },
        )
    }
}

impl Accounts {
    /// Reads the accounts from the list in their fixed order and checks
    /// what can be checked of them without the ledgers.
    pub fn parse(
        program_id: &Address,
        accounts: &Vec<AccountInfo>,
        has_discount_token_account: bool,
    ) -> (r: Result<Accounts, ProgramFault>)
        ensures
            r == spec_parse(*program_id, accounts@, has_discount_token_account),
    {
        if accounts.len() < 12 {
            return Err(ProgramFault::NotEnoughAccountKeys);
        }
        let discount: Option<AccountInfo> = if has_discount_token_account && accounts.len() > 12 {
            Some(accounts[12])
        } else {
            None
        };
        let referral_index: usize = if has_discount_token_account {
            13
        } else {
            12
        };
        let referral: Option<AccountInfo> = if accounts.len() > referral_index {
            Some(accounts[referral_index])
        } else {
            None
        };
        let a = Accounts {
            spl_token_program: accounts[0],
            system_program: accounts[1],
            market: accounts[2],
            orderbook: accounts[3],
            event_queue: accounts[4],
            bids: accounts[5],
            asks: accounts[6],
            base_vault: accounts[7],
            quote_vault: accounts[8],
            user: accounts[9],
            user_token_account: accounts[10],
            user_owner: accounts[11],
            discount_token_account: discount,
            fee_referral_account: referral,
        };
        if !a.user_owner.is_signer {
            return Err(ProgramFault::MissingRequiredSignature);
        }
        if !a.spl_token_program.key.same(&spl_token_program()) {
            return Err(ProgramFault::from_dex(DexError::InvalidSplTokenProgram));
        }
        if !a.system_program.key.same(&system_program()) {
            return Err(ProgramFault::from_dex(DexError::InvalidSystemProgramAccount));
        }
        match discount {
            Some(d) => {
                if !d.owner.same(&spl_token_program()) {
                    return Err(ProgramFault::from_dex(DexError::InvalidSplTokenProgram));
                }
            },
            None => {},
        }
        if !a.user.owner.same(program_id) {
            return Err(ProgramFault::from_dex(DexError::InvalidStateAccountOwner));
        }
        if !a.market.owner.same(program_id) {
            return Err(ProgramFault::from_dex(DexError::InvalidStateAccountOwner));
        }
        Ok(a)
    }

    /// Checks that the user account is initialized, belongs to the signing
    /// owner, and is an account of this market.
    pub fn load_user_account(&self, user_account: &UserAccount) -> (r: Result<(), ProgramFault>)
        ensures
            r == spec_user_account_check(
                user_account.header,
                self.user_owner.key@,
                Some(self.market.key@),
            ),
    {
        check_user_account(&user_account.header, &self.user_owner.key, Some(&self.market.key))
    }
}

/// Whether the accounts are the ones that the market's ledger names, or
/// the first that is not.
pub open spec fn spec_check_accounts(market_state: DexState, accounts: Accounts) -> Result<
    (),
    ProgramFault,
> {
    if accounts.orderbook.key@ != market_state.orderbook@ {
        Err(dex_fault(DexError::InvalidOrderbookAccount))
    } else if accounts.base_vault.key@ != market_state.base_vault@ {
        Err(dex_fault(DexError::InvalidBaseVaultAccount))
    } else if accounts.quote_vault.key@ != market_state.quote_vault@ {
        Err(dex_fault(DexError::InvalidQuoteVaultAccount))
    } else {
        Ok(())
    }
}

/// Checks the accounts against the market's ledger.
pub fn check_accounts(market_state: &DexState, accounts: &Accounts) -> (r: Result<
    (),
    ProgramFault,
>)
    ensures
        r == spec_check_accounts(*market_state, *accounts),
{
    if !accounts.orderbook.key.same(&market_state.orderbook) {
        return Err(ProgramFault::from_dex(DexError::InvalidOrderbookAccount));
    }
    if !accounts.base_vault.key.same(&market_state.base_vault) {
        return Err(ProgramFault::from_dex(DexError::InvalidBaseVaultAccount));
    }
    if !accounts.quote_vault.key.same(&market_state.quote_vault) {
        return Err(ProgramFault::from_dex(DexError::InvalidQuoteVaultAccount));
    }
    Ok(())
}

/// The fee tier of an order: the base tier, unless a discount token
/// account accompanies it.
pub fn order_fee_tier(
    market_state: &DexState,
    discount_token_data: Option<&[u8]>,
    user_owner: &Address,
) -> (r: Result<FeeTier, ProgramFault>)
    requires
        ascending(market_state.fee_schedule.thresholds@),
    ensures
        r == (match discount_token_data {
            Some(data) => spec_tier_of_token_account(
                *market_state,
                token_account_of(data@),
                user_owner@,
            ),
            None => Ok(FeeTier::Base),
        }),
{
    match discount_token_data {
        Some(data) => FeeTier::get(market_state, data, user_owner),
        None => Ok(FeeTier::Base),
    }
}

/// The byte under which a side is stored.
pub open spec fn spec_side_of_byte(tag: u8) -> Option<Side> {
    if tag == 0 {
        Some(Side::Bid)
    } else if tag == 1 {
        Some(Side::Ask)
    } else {
        None
    }
}

/// The byte under which an order type is stored.
pub open spec fn spec_order_type_of_byte(tag: u8) -> Option<OrderType> {
    if tag == 0 {
        Some(OrderType::Limit)
    } else if tag == 1 {
        Some(OrderType::ImmediateOrCancel)
    } else if tag == 2 {
        Some(OrderType::FillOrKill)
    } else if tag == 3 {
        Some(OrderType::PostOnly)
    } else {
        None
    }
}

/// The byte under which a self-trade behavior is stored.
pub open spec fn spec_self_trade_of_byte(tag: u8) -> Option<SelfTradeBehavior> {
    if tag == 0 {
        Some(SelfTradeBehavior::DecrementTake)
    } else if tag == 1 {
        Some(SelfTradeBehavior::CancelProvide)
    } else if tag == 2 {
        Some(SelfTradeBehavior::AbortTransaction)
    } else {
        None
    }
}

/// Whether the bytes hold the arguments of an order: 56 bytes whose side,
/// order type and self-trade behavior are known.
pub open spec fn holds_order_params(data: Seq<u8>) -> bool {
    &&& data.len() == 56
    &&& spec_side_of_byte(data[48]) is Some
    &&& spec_order_type_of_byte(data[49]) is Some
    &&& spec_self_trade_of_byte(data[50]) is Some
}

impl Params {
    /// Reads the arguments from their stored form: the client order id,
    /// four 64-bit integers, four bytes, and four bytes of padding.
    pub fn from_bytes(data: &[u8]) -> (r: Result<Params, ProgramFault>)
        ensures
            match r {
                Ok(p) => {
                    &&& holds_order_params(data@)
                    &&& p.client_order_id == spec_u128_at(data@, 0)
                    &&& p.limit_price == spec_u64_at(data@, 16)
                    &&& p.max_base_qty == spec_u64_at(data@, 24)
                    &&& p.max_quote_qty == spec_u64_at(data@, 32)
                    &&& p.match_limit == spec_u64_at(data@, 40)
                    &&& Some(p.side) == spec_side_of_byte(data@[48])
                    &&& Some(p.order_type) == spec_order_type_of_byte(data@[49])
                    &&& Some(p.self_trade_behavior) == spec_self_trade_of_byte(data@[50])
                    &&& p.has_discount_token_account == (data@[51] != 0)
                },
                Err(e) => e == ProgramFault::InvalidInstructionData && !holds_order_params(data@),
            },
    {
        if data.len() != 56 {
            return Err(ProgramFault::InvalidInstructionData);
        }
        let side = match Side::from_u8(data[48]) {
            Some(s) => s,
            None => {
                return Err(ProgramFault::InvalidInstructionData);
            },
        };
        let order_type = match OrderType::from_u8(data[49]) {
            Some(t) => t,
            None => {
                return Err(ProgramFault::InvalidInstructionData);
            },
        };
        let self_trade_behavior = match SelfTradeBehavior::from_u8(data[50]) {
            Some(b) => b,
            None => {
                return Err(ProgramFault::InvalidInstructionData);
            },
        };
        Ok(
            Params {
                client_order_id: read_u128(data, 0),
                limit_price: read_u64(data, 16),
                max_base_qty: read_u64(data, 24),
                max_quote_qty: read_u64(data, 32),
                match_limit: read_u64(data, 40),
                side,
                order_type,
                self_trade_behavior,
                has_discount_token_account: data[51] != 0,
            },
        )
    }
}

/// The byte under which a side is stored.
pub open spec fn spec_side_byte(side: Side) -> u8 {
    match side {
        Side::Bid => 0,
        Side::Ask => 1,
    }
}

/// The byte under which an order type is stored.
pub open spec fn spec_order_type_byte(order_type: OrderType) -> u8 {
    match order_type {
        OrderType::Limit => 0,
        OrderType::ImmediateOrCancel => 1,
        OrderType::FillOrKill => 2,
        OrderType::PostOnly => 3,
    }
}

/// The byte under which a self-trade behavior is stored.
pub open spec fn spec_self_trade_byte(behavior: SelfTradeBehavior) -> u8 {
    match behavior {
        SelfTradeBehavior::DecrementTake => 0,
        SelfTradeBehavior::CancelProvide => 1,
        SelfTradeBehavior::AbortTransaction => 2,
    }
}

impl Params {
    /// The stored form of the arguments: 56 bytes.
    pub open spec fn spec_bytes(&self) -> Seq<u8> {
        spec_u128_to_le_bytes(self.client_order_id) + spec_u64_to_le_bytes(self.limit_price)
            + spec_u64_to_le_bytes(self.max_base_qty) + spec_u64_to_le_bytes(self.max_quote_qty)
            + spec_u64_to_le_bytes(self.match_limit) + seq![
            spec_side_byte(self.side),
            spec_order_type_byte(self.order_type),
            spec_self_trade_byte(self.self_trade_behavior),
            if self.has_discount_token_account {
                1u8
            } else {
                0u8
            },
            0u8,
            0u8,
            0u8,
            0u8,
        ]
    }

    /// The stored form of the arguments.
    pub fn to_bytes(&self) -> (out: Vec<u8>)
        ensures
            out@ == self.spec_bytes(),
            out@.len() == 56,
    {
        let mut out: Vec<u8> = Vec::new();
        put_u128(&mut out, self.client_order_id);
        put_u64(&mut out, self.limit_price);
        put_u64(&mut out, self.max_base_qty);
        put_u64(&mut out, self.max_quote_qty);
        put_u64(&mut out, self.match_limit);
        out.push(
            match self.side {
                Side::Bid => 0,
                Side::Ask => 1,
            },
        );
        out.push(
            match self.order_type {
                OrderType::Limit => 0,
                OrderType::ImmediateOrCancel => 1,
                OrderType::FillOrKill => 2,
                OrderType::PostOnly => 3,
            },
        );
        out.push(
            match self.self_trade_behavior {
                SelfTradeBehavior::DecrementTake => 0,
                SelfTradeBehavior::CancelProvide => 1,
                SelfTradeBehavior::AbortTransaction => 2,
            },
        );
        out.push(if self.has_discount_token_account { 1 } else { 0 });
        out.push(0);
        out.push(0);
        out.push(0);
        out.push(0);
        assert(out@ =~= self.spec_bytes());
        out
    }
}

} // verus!
