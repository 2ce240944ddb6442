//! What the operations do to the base that an account holds.
//!
//! Every operation changes the base of an account, free and locked
//! together, by amounts that have a counterpart outside the account: a
//! payment from the owner's wallet, a payment to it, or base that a match
//! reported by the matching engine brings or takes. Nothing else changes
//! it. The counterparts of matches are other accounts' matches; that they
//! pair up is the matching engine's part.
use crate::cancel_order::spec_cancel_header;
use crate::consume_events::{spec_fill_header, spec_out_header};
use crate::new_order::{spec_order_accounting, spec_rescale, OrderSummary, Params};
use crate::state::{DexState, FeeTier, Side};
use crate::user_account::UserAccountHeader;
use vstd::prelude::*;

verus! {

/// One operation, as far as it touches the balances of one account.
pub enum Step {
    /// An order was placed and the engine answered with `summary`.
    Order {
        market: DexState,
        params: Params,
        fee_tier: FeeTier,
        has_referral: bool,
        max_quote_qty: u64,
        summary: OrderSummary,
    },
    /// A fill against a resting order of the account was drained; the sizes
    /// are in the market's external units.
    Fill { taker_side: Side, quote_size: u64, base_size: u64, rebate: u64, self_trade: bool },
    /// The departure of an order of the account from the book was drained.
    Out { market: DexState, side: Side, order_id: u128, base_size: u64 },
    /// An order of the account was cancelled and the engine answered with
    /// `summary`.
    Cancel { market: DexState, side: Side, summary: OrderSummary },
    /// The free balances were paid out.
    Settle,
}

/// The base that an operation moves across the boundary of an account.
pub struct BaseFlow {
    /// Paid in from the owner's wallet.
    pub deposited: int,
    /// Paid out to the owner's wallet.
    pub withdrawn: int,
    /// Brought by matches.
    pub received: int,
    /// Taken by matches.
    pub delivered: int,
}

/// The base of an account, free and locked together.
pub open spec fn base_holdings(h: UserAccountHeader) -> int {
    h.base_token_free + h.base_token_locked
}

/// The header after the step, if the step succeeds.
pub open spec fn spec_step(h: UserAccountHeader, step: Step) -> Option<UserAccountHeader> {
    match step {
        Step::Order { market, params, fee_tier, has_referral, max_quote_qty, summary } => {
            match spec_order_accounting(
                market,
                h,
                params,
                fee_tier,
                has_referral,
                max_quote_qty,
                summary,
            ) {
                Ok((nh, _)) => Some(nh),
                Err(_) => None,
            }
        },
        Step::Fill { taker_side, quote_size, base_size, rebate, self_trade } => spec_fill_header(
            h,
            taker_side,
            quote_size,
            base_size,
            rebate,
            self_trade,
        ),
        Step::Out { market, side, order_id, base_size } => {
            if side == Side::Ask && h.base_token_locked < base_size
                * market.base_currency_multiplier {
                None
            } else {
                spec_out_header(market, h, side, order_id, base_size)
            }
        },
        Step::Cancel { market, side, summary } => spec_cancel_header(market, h, side, summary),
        Step::Settle => Some(UserAccountHeader { base_token_free: 0, quote_token_free: 0, ..h }),
    }
}

/// The base that the step moves across the boundary of the account.
pub open spec fn spec_base_flow(h: UserAccountHeader, step: Step) -> BaseFlow {
    match step {
        Step::Order { market, params, summary, .. } => {
            let sc = spec_rescale(market, summary, params.limit_price).unwrap();
            let matched = sc.total_base - sc.posted_base;
            if params.side == Side::Ask {
                BaseFlow {
                    deposited: if sc.total_base >= h.base_token_free {
                        sc.total_base - h.base_token_free
                    } else {
                        0
                    },
                    withdrawn: 0,
                    received: 0,
                    delivered: matched,
                }
            } else {
                BaseFlow { deposited: 0, withdrawn: 0, received: matched, delivered: 0 }
            }
        },
        Step::Fill { taker_side, quote_size, base_size, rebate, self_trade } => BaseFlow {
            deposited: 0,
            withdrawn: 0,
            received: if taker_side == Side::Ask && !self_trade {
                base_size as int
            } else {
                0
            },
            delivered: if taker_side == Side::Bid {
                base_size as int
            } else {
                0
            },
        },
        Step::Out { .. } => BaseFlow { deposited: 0, withdrawn: 0, received: 0, delivered: 0 },
        Step::Cancel { .. } => BaseFlow { deposited: 0, withdrawn: 0, received: 0, delivered: 0 },
        Step::Settle => BaseFlow {
            deposited: 0,
            withdrawn: h.base_token_free as int,
            received: 0,
            delivered: 0,
        },
    }
}

/// The net of a flow.
pub open spec fn net(f: BaseFlow) -> int {
    f.deposited - f.withdrawn + f.received - f.delivered
}

/// A step that succeeds changes the base of the account by exactly the net
/// of what it moves across the account's boundary. (An `Out` that releases
/// more base than is locked is left out: its release stops at zero.)
pub proof fn lemma_step_conserves_base(h: UserAccountHeader, step: Step)
    requires
        spec_step(h, step) is Some,
    ensures
        base_holdings(spec_step(h, step).unwrap()) == base_holdings(h) + net(
            spec_base_flow(h, step),
        ),
{
}

/// The header after the steps, in order, if all succeed.
pub open spec fn spec_run_steps(h: UserAccountHeader, steps: Seq<Step>) -> Option<
    UserAccountHeader,
>
    decreases steps.len(),
{
    if steps.len() == 0 {
        Some(h)
    } else {
        match spec_run_steps(h, steps.drop_last()) {
            None => None,
            Some(mid) => spec_step(mid, steps.last()),
        }
    }
}

/// The sum of the nets of the steps, each taken on the header it meets.
pub open spec fn spec_net_flow(h: UserAccountHeader, steps: Seq<Step>) -> int
    decreases steps.len(),
{
    if steps.len() == 0 {
        0
    } else {
        match spec_run_steps(h, steps.drop_last()) {
            None => 0,
            Some(mid) => spec_net_flow(h, steps.drop_last()) + net(
                spec_base_flow(mid, steps.last()),
            ),
        }
    }
}

/// Over any sequence of orders, drained events, cancellations and
/// settlements that all succeed, the base of an account changes by exactly
/// what was paid in, less what was paid out, plus what matches brought, less
/// what matches took: no base appears or vanishes inside the account.
pub proof fn lemma_base_is_conserved(h: UserAccountHeader, steps: Seq<Step>)
    requires
        spec_run_steps(h, steps) is Some,
    ensures
        base_holdings(spec_run_steps(h, steps).unwrap()) == base_holdings(h) + spec_net_flow(
            h,
            steps,
        ),
    decreases steps.len(),
{
    if steps.len() > 0 {
        lemma_base_is_conserved(h, steps.drop_last());
        let mid = spec_run_steps(h, steps.drop_last()).unwrap();
        lemma_step_conserves_base(mid, steps.last());
    }
}

/// The base that an order's summary says was matched, in the market's
/// external units.
pub open spec fn spec_matched_base(market: DexState, params: Params, summary: OrderSummary) -> int {
    let sc = spec_rescale(market, summary, params.limit_price).unwrap();
    sc.total_base - sc.posted_base
}

/// A trade between two accounts moves base from one to the other and makes
/// none: once the maker's fill is drained, what the taker and the maker
/// hold together has changed only by what the taker's wallet paid in. The
/// fill must be the one that the order's summary reports: of the same side
/// and of the base that was matched.
pub proof fn lemma_trade_conserves_base(
    taker: UserAccountHeader,
    maker: UserAccountHeader,
    market: DexState,
    params: Params,
    fee_tier: FeeTier,
    has_referral: bool,
    max_quote_qty: u64,
    summary: OrderSummary,
    quote_size: u64,
    base_size: u64,
    rebate: u64,
)
    requires
        spec_step(
            taker,
            Step::Order { market, params, fee_tier, has_referral, max_quote_qty, summary },
        ) is Some,
        spec_step(
            maker,
            Step::Fill { taker_side: params.side, quote_size, base_size, rebate, self_trade: false },
        ) is Some,
        base_size == spec_matched_base(market, params, summary),
    ensures
        ({
            let order = Step::Order { market, params, fee_tier, has_referral, max_quote_qty, summary };
            let fill = Step::Fill {
                taker_side: params.side,
                quote_size,
                base_size,
                rebate,
                self_trade: false,
            };
            base_holdings(spec_step(taker, order).unwrap()) + base_holdings(
                spec_step(maker, fill).unwrap(),
            ) == base_holdings(taker) + base_holdings(maker) + spec_base_flow(
                taker,
                order,
            ).deposited
        }),
{
    let order = Step::Order { market, params, fee_tier, has_referral, max_quote_qty, summary };
    let fill = Step::Fill { taker_side: params.side, quote_size, base_size, rebate, self_trade: false };
    lemma_step_conserves_base(taker, order);
    lemma_step_conserves_base(maker, fill);
}

} // verus!
