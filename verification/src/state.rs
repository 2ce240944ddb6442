//! The ledgers: market state, user accounts with their open orders, and the
//! fee-tier schedule.
use crate::address::Address;
use crate::error::ProgramFault;
use crate::token_account::{token_account_of, unpack_token_account, TokenAccount};
use crate::utils::{
    fp32_div, fp32_mul, lemma_fp32_mul_bounded, lemma_fp32_mul_monotone, FP_32_ONE,
};
use vstd::prelude::*;

verus! {

/// Bit of a callback's fee byte that marks the order as referred.
pub const REFERRAL_MASK: u8 = 0x80;

/// Bit of an order id that is set for bids and clear for asks.
pub const ORDER_ID_SIDE_FLAG: u128 = 0x8000_0000_0000_0000;

/// Holdings are counted in millionths of a discount token.
pub const ONE_SRM: u64 = 1_000_000;

/// Size in bytes of a stored order record.
pub const ORDER_LEN: usize = 32;

/// Size in bytes of a stored user account header.
pub const USER_ACCOUNT_HEADER_LEN: usize = 152;

/// What a state account holds.
#[derive(Clone, Copy, Debug, PartialEq, Eq, Structural)]
pub enum AccountTag {
    Uninitialized,
    DexState,
    UserAccount,
    Closed,
}

/// The side of the book an order stands on.
#[derive(Clone, Copy, Debug, PartialEq, Eq, Structural)]
pub enum Side {
    Bid,
    Ask,
}

impl Side {
    /// The other side of the book.
    pub open spec fn spec_opposite(self) -> Side {
        match self {
            Side::Bid => Side::Ask,
            Side::Ask => Side::Bid,
        }
    }

    /// The other side of the book.
    pub fn opposite(&self) -> (r: Side)
        ensures
            r == self.spec_opposite(),
            r != *self,
            r.spec_opposite() == *self,
    {
        match self {
            Side::Bid => Side::Ask,
            Side::Ask => Side::Bid,
        }
    }

    /// The side stored under the given byte.
    pub fn from_u8(tag: u8) -> (r: Option<Side>)
        ensures
            r == (if tag == 0 {
                Some(Side::Bid)
            } else if tag == 1 {
                Some(Side::Ask)
            } else {
                None
            }),
    {
        match tag {
            0 => Some(Side::Bid),
            1 => Some(Side::Ask),
            _ => None,
        }
    }
}

/// What happens when an order meets another order of the same user account.
#[derive(Clone, Copy, Debug, PartialEq, Eq, Structural)]
pub enum SelfTradeBehavior {
    /// Both orders are decremented as in a normal match.
    DecrementTake,
    /// The resting order is cancelled.
    CancelProvide,
    /// The whole operation is aborted.
    AbortTransaction,
}

impl SelfTradeBehavior {
    /// The behavior stored under the given byte.
    pub fn from_u8(tag: u8) -> (r: Option<SelfTradeBehavior>)
        ensures
            r == (if tag == 0 {
                Some(SelfTradeBehavior::DecrementTake)
            } else if tag == 1 {
                Some(SelfTradeBehavior::CancelProvide)
            } else if tag == 2 {
                Some(SelfTradeBehavior::AbortTransaction)
            } else {
                None
            }),
    {
        match tag {
            0 => Some(SelfTradeBehavior::DecrementTake),
            1 => Some(SelfTradeBehavior::CancelProvide),
            2 => Some(SelfTradeBehavior::AbortTransaction),
            _ => None,
        }
    }
}

/// The fee schedule a market was created with.
#[derive(Clone, Copy, Debug, PartialEq, Eq, Structural)]
pub enum MarketFeeType {
    Default,
    Stable,
}

/// A discount level; later variants pay lower taker fees.
#[derive(Clone, Copy, Debug, PartialEq, Eq, Structural)]
pub enum FeeTier {
    Base,
    Srm2,
    Srm3,
    Srm4,
    Srm5,
    Srm6,
    MSrm,
    Stable,
}

/// The fee schedule of a market. It is fixed when the market is created
/// and read from the market's ledger whenever a fee is computed.
#[derive(Clone, Copy, Debug)]
pub struct FeeSchedule {
    /// The holdings of the discount token at which the tiers above the base
    /// tier begin, in increasing order.
    pub thresholds: [u64; 5],
    /// The taker fee rate of each tier, in 32.32 fixed point.
    pub taker_rates: [u64; 8],
    /// The maker rebate rate of each tier, in 32.32 fixed point.
    pub maker_rates: [u64; 8],
}

/// The market ledger.
#[derive(Clone, Copy, Debug)]
pub struct DexState {
    pub tag: AccountTag,
    pub base_mint: Address,
    pub quote_mint: Address,
    pub base_vault: Address,
    pub quote_vault: Address,
    pub orderbook: Address,
    pub admin: Address,
    pub creation_timestamp: i64,
    pub base_volume: u64,
    pub quote_volume: u64,
    pub accumulated_fees: u64,
    pub min_base_order_size: u64,
    pub royalties_bps: u64,
    pub accumulated_royalties: u64,
    pub base_currency_multiplier: u64,
    pub quote_currency_multiplier: u64,
    pub signer_nonce: u8,
    pub fee_type: MarketFeeType,
    pub fee_schedule: FeeSchedule,
}

impl FeeSchedule {
    /// The thresholds ascend strictly and every rate is below one.
    pub open spec fn wf(&self) -> bool {
        &&& ascending(self.thresholds@)
        &&& forall|i: int| 0 <= i < 8 ==> #[trigger] self.taker_rates@[i] < 0x1_0000_0000
        &&& forall|i: int| 0 <= i < 8 ==> #[trigger] self.maker_rates@[i] < 0x1_0000_0000
    }

    /// The schedule that new markets are created with.
    pub open spec fn is_standard(&self) -> bool {
        &&& self.thresholds@ == spec_discount_thresholds()
        &&& self.taker_rates@ == seq![
            spec_taker_rate(FeeTier::Base),
            spec_taker_rate(FeeTier::Srm2),
            spec_taker_rate(FeeTier::Srm3),
            spec_taker_rate(FeeTier::Srm4),
            spec_taker_rate(FeeTier::Srm5),
            spec_taker_rate(FeeTier::Srm6),
            spec_taker_rate(FeeTier::MSrm),
            spec_taker_rate(FeeTier::Stable),
        ]
        &&& self.maker_rates@ == Seq::new(8, |i: int| 0u64)
    }

    /// The schedule that new markets are created with.
    pub fn standard() -> (r: FeeSchedule)
        ensures
            r.is_standard(),
            r.wf(),
    {
        let r = FeeSchedule {
            thresholds: discount_thresholds(),
            taker_rates: [
                FeeTier::Base.taker_rate(),
                FeeTier::Srm2.taker_rate(),
                FeeTier::Srm3.taker_rate(),
                FeeTier::Srm4.taker_rate(),
                FeeTier::Srm5.taker_rate(),
                FeeTier::Srm6.taker_rate(),
                FeeTier::MSrm.taker_rate(),
                FeeTier::Stable.taker_rate(),
            ],
            maker_rates: [
                FeeTier::Base.maker_rate(),
                FeeTier::Srm2.maker_rate(),
                FeeTier::Srm3.maker_rate(),
                FeeTier::Srm4.maker_rate(),
                FeeTier::Srm5.maker_rate(),
                FeeTier::Srm6.maker_rate(),
                FeeTier::MSrm.maker_rate(),
                FeeTier::Stable.maker_rate(),
            ],
        };
        assert(r.taker_rates@ =~= seq![
            spec_taker_rate(FeeTier::Base),
            spec_taker_rate(FeeTier::Srm2),
            spec_taker_rate(FeeTier::Srm3),
            spec_taker_rate(FeeTier::Srm4),
            spec_taker_rate(FeeTier::Srm5),
            spec_taker_rate(FeeTier::Srm6),
            spec_taker_rate(FeeTier::MSrm),
            spec_taker_rate(FeeTier::Stable),
        ]);
        assert(r.maker_rates@ =~= Seq::new(8, |i: int| 0u64));
        r
    }

    /// Whether the thresholds ascend strictly and every rate is below one.
    pub fn is_wf(&self) -> (r: bool)
        ensures
            r == self.wf(),
    {
        let mut i: usize = 0;
        while i < 8
            invariant
                0 <= i <= 8,
                forall|j: int| 0 <= j < i ==> #[trigger] self.taker_rates@[j] < 0x1_0000_0000,
                forall|j: int| 0 <= j < i ==> #[trigger] self.maker_rates@[j] < 0x1_0000_0000,
            decreases 8 - i,
        {
            if self.taker_rates[i] >= FP_32_ONE || self.maker_rates[i] >= FP_32_ONE {
                return false;
            }
            i += 1;
        }
        let t = &self.thresholds;
        let r = t[0] < t[1] && t[1] < t[2] && t[2] < t[3] && t[3] < t[4];
        proof {
            if !r {
                assert(!ascending(self.thresholds@));
            }
        }
        r
    }
}

/// The fee of a rate on a quantity: their product in 32.32 fixed point,
/// rounded down.
pub open spec fn spec_fee(quantity: u64, rate: u64) -> u64 {
    ((quantity as int * rate as int) / 0x1_0000_0000) as u64
}

impl DexState {
    /// The record is a live market whose multipliers can be divided by and
    /// whose fee schedule is sound.
    pub open spec fn wf(&self) -> bool {
        &&& self.tag == AccountTag::DexState
        &&& self.base_currency_multiplier != 0
        &&& self.quote_currency_multiplier != 0
        &&& self.fee_schedule.wf()
    }

    /// Whether the record is a live market whose multipliers can be divided
    /// by and whose fee schedule is sound.
    pub fn is_wf(&self) -> (r: bool)
        ensures
            r == self.wf(),
    {
        let live = match self.tag {
            AccountTag::DexState => true,
            _ => false,
        };
        live && self.base_currency_multiplier != 0 && self.quote_currency_multiplier != 0
            && self.fee_schedule.is_wf()
    }

    /// The market's taker fee rate for the tier.
    pub open spec fn spec_taker_rate(&self, tier: FeeTier) -> u64 {
        self.fee_schedule.taker_rates@[tier_index(tier) as int]
    }

    /// The market's maker rebate rate for the tier.
    pub open spec fn spec_maker_rate(&self, tier: FeeTier) -> u64 {
        self.fee_schedule.maker_rates@[tier_index(tier) as int]
    }

    /// The market's referral rate for the tier: a fifth of what the taker
    /// rate leaves above the base tier's maker rate.
    pub open spec fn spec_referral_rate(&self, tier: FeeTier) -> u64 {
        if self.spec_taker_rate(tier) >= self.spec_maker_rate(FeeTier::Base) {
            ((self.spec_taker_rate(tier) - self.spec_maker_rate(FeeTier::Base)) / 5) as u64
        } else {
            0
        }
    }

    /// The market's taker fee on a quote quantity.
    pub open spec fn spec_taker_fee(&self, tier: FeeTier, quote_qty: u64) -> u64 {
        spec_fee(quote_qty, self.spec_taker_rate(tier))
    }

    /// The market's maker rebate on a quote quantity.
    pub open spec fn spec_maker_rebate(&self, tier: FeeTier, quote_qty: u64) -> u64 {
        spec_fee(quote_qty, self.spec_maker_rate(tier))
    }

    /// The market's referral fee on a quote quantity.
    pub open spec fn spec_referral_fee(&self, tier: FeeTier, quote_qty: u64) -> u64 {
        spec_fee(quote_qty, self.spec_referral_rate(tier))
    }

    /// The largest quantity that, with the market's taker fee on top, stays
    /// within `quote_qty`.
    pub open spec fn spec_remove_taker_fee(&self, tier: FeeTier, quote_qty: u64) -> u64 {
        ((quote_qty as int * 0x1_0000_0000) / (0x1_0000_0000 + self.spec_taker_rate(tier)
            as int)) as u64
    }

    /// The market's taker fee rate for the tier.
    pub fn taker_rate(&self, tier: FeeTier) -> (r: u64)
        requires
            self.fee_schedule.wf(),
        ensures
            r == self.spec_taker_rate(tier),
            r < 0x1_0000_0000,
    {
        self.fee_schedule.taker_rates[tier.index() as usize]
    }

    /// The market's maker rebate rate for the tier.
    pub fn maker_rate(&self, tier: FeeTier) -> (r: u64)
        requires
            self.fee_schedule.wf(),
        ensures
            r == self.spec_maker_rate(tier),
            r < 0x1_0000_0000,
    {
        self.fee_schedule.maker_rates[tier.index() as usize]
    }

    /// The market's referral rate for the tier.
    pub fn referral_rate(&self, tier: FeeTier) -> (r: u64)
        requires
            self.fee_schedule.wf(),
        ensures
            r == self.spec_referral_rate(tier),
            r <= self.spec_taker_rate(tier),
    {
        let taker_rate: u64 = self.taker_rate(tier);
        let min_maker_rebate: u64 = self.maker_rate(FeeTier::Base);
        if taker_rate >= min_maker_rebate {
            (taker_rate - min_maker_rebate) / 5
        } else {
            0
        }
    }

    /// The market's taker fee on a quote quantity.
    pub fn taker_fee(&self, tier: FeeTier, quote_qty: u64) -> (r: u64)
        requires
            self.fee_schedule.wf(),
        ensures
            r == self.spec_taker_fee(tier, quote_qty),
            r <= quote_qty,
    {
        let rate: u64 = self.taker_rate(tier);
        proof {
            lemma_fp32_mul_bounded(quote_qty, rate);
        }
        match fp32_mul(quote_qty, rate) {
            Some(q) => q,
            None => 0,
        }
    }

    /// The market's maker rebate on a quote quantity.
    pub fn maker_rebate(&self, tier: FeeTier, quote_qty: u64) -> (r: u64)
        requires
            self.fee_schedule.wf(),
        ensures
            r == self.spec_maker_rebate(tier, quote_qty),
            r <= quote_qty,
    {
        let rate: u64 = self.maker_rate(tier);
        proof {
            lemma_fp32_mul_bounded(quote_qty, rate);
        }
        match fp32_mul(quote_qty, rate) {
            Some(q) => q,
            None => 0,
        }
    }

    /// The market's referral fee on a quote quantity; never more than the
    /// taker fee it is cut from.
    pub fn referral_fee(&self, tier: FeeTier, quote_qty: u64) -> (r: u64)
        requires
            self.fee_schedule.wf(),
        ensures
            r == self.spec_referral_fee(tier, quote_qty),
            r <= self.spec_taker_fee(tier, quote_qty),
    {
        let rate: u64 = self.referral_rate(tier);
        proof {
            lemma_fp32_mul_bounded(quote_qty, rate);
            lemma_fp32_mul_bounded(quote_qty, self.spec_taker_rate(tier));
            lemma_fp32_mul_monotone(quote_qty, rate, self.spec_taker_rate(tier));
        }
        match fp32_mul(quote_qty, rate) {
            Some(q) => q,
            None => 0,
        }
    }

    /// The largest quantity that, with the market's taker fee on top, stays
    /// within `quote_qty`.
    pub fn remove_taker_fee(&self, tier: FeeTier, quote_qty: u64) -> (r: u64)
        requires
            self.fee_schedule.wf(),
        ensures
            r == self.spec_remove_taker_fee(tier, quote_qty),
            r <= quote_qty,
    {
        let rate: u64 = self.taker_rate(tier);
        proof {
            let d = 0x1_0000_0000 + rate as int;
            assert(0 <= (quote_qty as int * 0x1_0000_0000) / d <= quote_qty as int)
                by (nonlinear_arith)
                requires
                    0 <= quote_qty as int,
                    0x1_0000_0000 <= d,
            ;
        }
        match fp32_div(quote_qty, FP_32_ONE + rate) {
            Some(q) => q,
            None => 0,
        }
    }
}

/// In a market whose taker rates fall as the discount rises, a tier with a
/// higher discount never charges a higher taker fee on the same quantity.
pub proof fn lemma_market_taker_fee_monotone(
    m: DexState,
    lower: FeeTier,
    higher: FeeTier,
    quote_qty: u64,
)
    requires
        m.fee_schedule.wf(),
        m.spec_taker_rate(higher) <= m.spec_taker_rate(lower),
    ensures
        m.spec_taker_fee(lower, quote_qty) >= m.spec_taker_fee(higher, quote_qty),
{
    lemma_fp32_mul_monotone(quote_qty, m.spec_taker_rate(higher), m.spec_taker_rate(lower));
    lemma_fp32_mul_bounded(quote_qty, m.spec_taker_rate(higher));
    lemma_fp32_mul_bounded(quote_qty, m.spec_taker_rate(lower));
}

/// With the schedule that new markets are created with, the market's fees
/// are those of the tiers themselves.
pub proof fn lemma_standard_fees(m: DexState, tier: FeeTier, quote_qty: u64)
    requires
        m.fee_schedule.is_standard(),
    ensures
        m.spec_taker_fee(tier, quote_qty) == spec_taker_fee(tier, quote_qty),
        m.spec_referral_fee(tier, quote_qty) == spec_referral_fee(tier, quote_qty),
        m.spec_remove_taker_fee(tier, quote_qty) == spec_remove_taker_fee(tier, quote_qty),
        m.spec_maker_rebate(tier, quote_qty) == 0,
{
}

/// Number of the tier in order of increasing discount.
pub open spec fn tier_index(tier: FeeTier) -> u8 {
    match tier {
        FeeTier::Base => 0,
        FeeTier::Srm2 => 1,
        FeeTier::Srm3 => 2,
        FeeTier::Srm4 => 3,
        FeeTier::Srm5 => 4,
        FeeTier::Srm6 => 5,
        FeeTier::MSrm => 6,
        FeeTier::Stable => 7,
    }
}

/// Taker fee of the tier in hundred-thousandths.
pub open spec fn taker_rate_numerator(tier: FeeTier) -> int {
    match tier {
        FeeTier::Base => 40,
        FeeTier::Srm2 => 39,
        FeeTier::Srm3 => 38,
        FeeTier::Srm4 => 36,
        FeeTier::Srm5 => 34,
        FeeTier::Srm6 => 32,
        FeeTier::MSrm => 30,
        FeeTier::Stable => 10,
    }
}

/// Taker fee rate of the tier in 32.32 fixed point.
pub open spec fn spec_taker_rate(tier: FeeTier) -> u64 {
    ((taker_rate_numerator(tier) * 0x1_0000_0000) / 100_000) as u64
}

/// Share of a trade that goes to the referrer, in 32.32 fixed point.
pub open spec fn spec_referral_rate(tier: FeeTier) -> u64 {
    (spec_taker_rate(tier) / 5) as u64
}

/// Taker fee on a quote quantity.
pub open spec fn spec_taker_fee(tier: FeeTier, quote_qty: u64) -> u64 {
    ((quote_qty as int * spec_taker_rate(tier) as int) / 0x1_0000_0000) as u64
}

/// Referral fee on a quote quantity.
pub open spec fn spec_referral_fee(tier: FeeTier, quote_qty: u64) -> u64 {
    ((quote_qty as int * spec_referral_rate(tier) as int) / 0x1_0000_0000) as u64
}

/// The largest quantity that, with its taker fee on top, stays within `quote_qty`.
pub open spec fn spec_remove_taker_fee(tier: FeeTier, quote_qty: u64) -> u64 {
    ((quote_qty as int * 0x1_0000_0000) / (0x1_0000_0000 + spec_taker_rate(tier) as int)) as u64
}

/// The number of the first `n` thresholds that the holding reaches.
pub open spec fn spec_thresholds_reached(holding_amount: u64, thresholds: Seq<u64>, n: int) -> int
    decreases n,
{
    if n <= 0 {
        0
    } else {
        spec_thresholds_reached(holding_amount, thresholds, n - 1) + (if thresholds[n - 1]
            <= holding_amount {
            1int
        } else {
            0int
        })
    }
}

/// The tier of the ladder that a number of thresholds reached gives.
pub open spec fn spec_tier_of_rung(rung: int) -> FeeTier {
    if rung <= 0 {
        FeeTier::Base
    } else if rung == 1 {
        FeeTier::Srm2
    } else if rung == 2 {
        FeeTier::Srm3
    } else if rung == 3 {
        FeeTier::Srm4
    } else if rung == 4 {
        FeeTier::Srm5
    } else {
        FeeTier::Srm6
    }
}

/// The tier earned by the given holdings in the market: a stable market
/// has a single tier; one unit of the premium token gives the highest
/// tier; otherwise the tier is as high as the number of the market's
/// thresholds that the holding of the discount token reaches.
pub open spec fn spec_tier_for_holdings(m: DexState, srm_held: u64, msrm_held: u64) -> FeeTier {
    if m.fee_type == MarketFeeType::Stable {
        FeeTier::Stable
    } else if msrm_held >= 1 {
        FeeTier::MSrm
    } else {
        spec_tier_of_rung(spec_thresholds_reached(srm_held, m.fee_schedule.thresholds@, 5))
    }
}

/// On an ascending ladder, the thresholds reached are those below the rung.
pub proof fn lemma_rung_counts_thresholds(holding_amount: u64, thresholds: Seq<u64>, rung: int, n: int)
    requires
        is_rung(holding_amount, thresholds, rung),
        0 <= n <= thresholds.len(),
    ensures
        spec_thresholds_reached(holding_amount, thresholds, n) == (if n <= rung {
            n
        } else {
            rung
        }),
    decreases n,
{
    if n > 0 {
        lemma_rung_counts_thresholds(holding_amount, thresholds, rung, n - 1);
    }
}

/// The thresholds come in strictly increasing order.
pub open spec fn ascending(thresholds: Seq<u64>) -> bool {
    forall|i: int, j: int| 0 <= i < j < thresholds.len() ==> thresholds[i] < thresholds[j]
}

/// `rung` is the number of thresholds that the holding reaches: all below
/// it are reached, none from it on.
pub open spec fn is_rung(holding_amount: u64, thresholds: Seq<u64>, rung: int) -> bool {
    &&& 0 <= rung <= thresholds.len()
    &&& forall|j: int| 0 <= j < rung ==> #[trigger] thresholds[j] <= holding_amount
    &&& forall|j: int| rung <= j < thresholds.len() ==> holding_amount < #[trigger] thresholds[j]
}

/// The holdings of the discount token at which the tiers above the base
/// tier begin, in millionths of a token.
pub open spec fn spec_discount_thresholds() -> Seq<u64> {
    seq![100_000_000u64, 1_000_000_000, 10_000_000_000, 100_000_000_000, 1_000_000_000_000]
}

/// The holdings of the discount token at which the tiers above the base
/// tier begin.
pub fn discount_thresholds() -> (r: [u64; 5])
    ensures
        r@ == spec_discount_thresholds(),
        ascending(r@),
{
    let r = [
        ONE_SRM * 100,
        ONE_SRM * 1_000,
        ONE_SRM * 10_000,
        ONE_SRM * 100_000,
        ONE_SRM * 1_000_000,
    ];
    assert(r@ =~= spec_discount_thresholds());
    r
}

/// The number of thresholds that a holding reaches, found by halving the
/// range of an ascending ladder of thresholds.
pub fn tier_for_holdings(holding_amount: u64, thresholds: &[u64]) -> (r: usize)
    requires
        ascending(thresholds@),
    ensures
        is_rung(holding_amount, thresholds@, r as int),
{
    let mut lo: usize = 0;
    let mut hi: usize = thresholds.len();
    while lo < hi
        invariant
            0 <= lo <= hi <= thresholds@.len(),
            ascending(thresholds@),
            forall|j: int| 0 <= j < lo ==> #[trigger] thresholds@[j] <= holding_amount,
            forall|j: int| hi <= j < thresholds@.len() ==> holding_amount < #[trigger] thresholds@[j],
        decreases hi - lo,
    {
        let mid: usize = lo + (hi - lo) / 2;
        if thresholds[mid] <= holding_amount {
            lo = mid + 1;
        } else {
            hi = mid;
        }
    }
    lo
}

/// The tier and the referral mark packed in a callback's fee byte.
pub open spec fn spec_unpack_fee_byte(tag: u8) -> Option<(FeeTier, bool)> {
    let referred = tag >= 128;
    let index = if tag >= 128 { tag - 128 } else { tag as int };
    if index == 0 {
        Some((FeeTier::Base, referred))
    } else if index == 1 {
        Some((FeeTier::Srm2, referred))
    } else if index == 2 {
        Some((FeeTier::Srm3, referred))
    } else if index == 3 {
        Some((FeeTier::Srm4, referred))
    } else if index == 4 {
        Some((FeeTier::Srm5, referred))
    } else if index == 5 {
        Some((FeeTier::Srm6, referred))
    } else if index == 6 {
        Some((FeeTier::MSrm, referred))
    } else if index == 7 {
        Some((FeeTier::Stable, referred))
    } else {
        None
    }
}

/// The fee byte that packs a tier and a referral mark.
pub open spec fn spec_pack_fee_byte(tier: FeeTier, referred: bool) -> u8 {
    if referred {
        (tier_index(tier) + 128) as u8
    } else {
        tier_index(tier)
    }
}

/// The mint of the discount token.
pub open spec fn srm_mint_id() -> Seq<u8> {
    seq![
        6u8, 131, 16, 134, 26, 152, 50, 125, 5, 80, 87, 77, 132, 65, 138, 166, 225, 12, 51, 82,
        221, 170, 127, 215, 245, 129, 82, 204, 238, 178, 56, 135,
    ]
}

/// The mint of the premium discount token.
pub open spec fn msrm_mint_id() -> Seq<u8> {
    seq![
        5u8, 60, 91, 203, 210, 103, 82, 19, 118, 41, 168, 211, 132, 128, 50, 62, 59, 72, 20, 45,
        46, 53, 104, 115, 98, 211, 213, 222, 124, 102, 61, 83,
    ]
}

/// The mint of the discount token.
pub fn srm_mint() -> (r: Address)
    ensures
        r@ == srm_mint_id(),
{
    let r = Address {
        bytes: [
            6, 131, 16, 134, 26, 152, 50, 125, 5, 80, 87, 77, 132, 65, 138, 166, 225, 12, 51, 82,
            221, 170, 127, 215, 245, 129, 82, 204, 238, 178, 56, 135,
        ],
    };
    assert(r@ =~= srm_mint_id());
    r
}

/// The mint of the premium discount token.
pub fn msrm_mint() -> (r: Address)
    ensures
        r@ == msrm_mint_id(),
{
    let r = Address {
        bytes: [
            5, 60, 91, 203, 210, 103, 82, 19, 118, 41, 168, 211, 132, 128, 50, 62, 59, 72, 20, 45,
            46, 53, 104, 115, 98, 211, 213, 222, 124, 102, 61, 83,
        ],
    };
    assert(r@ =~= msrm_mint_id());
    r
}

/// The tier that a parsed discount token account earns its owner: the
/// account must belong to `expected_owner` and hold one of the two discount
/// tokens.
pub open spec fn spec_tier_of_token_account(
    m: DexState,
    parsed: Result<TokenAccount, ProgramFault>,
    expected_owner: Seq<u8>,
) -> Result<FeeTier, ProgramFault> {
    match parsed {
        Err(e) => Err(e),
        Ok(account) => if account.owner@ != expected_owner {
            Err(ProgramFault::InvalidArgument)
        } else if account.mint@ == msrm_mint_id() {
            Ok(spec_tier_for_holdings(m, 0, account.amount))
        } else if account.mint@ == srm_mint_id() {
            Ok(spec_tier_for_holdings(m, account.amount, 0))
        } else {
            Err(ProgramFault::InvalidArgument)
        },
    }
}

impl FeeTier {
    /// The tier that a parsed discount token account earns its owner.
    pub fn of_token_account(
        dex_state: &DexState,
        parsed: Result<TokenAccount, ProgramFault>,
        expected_owner: &Address,
    ) -> (r: Result<FeeTier, ProgramFault>)
        requires
            ascending(dex_state.fee_schedule.thresholds@),
        ensures
            r == spec_tier_of_token_account(*dex_state, parsed, expected_owner@),
    {
        match parsed {
            Err(e) => Err(e),
            Ok(account) => {
                if !account.owner.same(expected_owner) {
                    return Err(ProgramFault::InvalidArgument);
                }
                if account.mint.same(&msrm_mint()) {
                    Ok(FeeTier::from_srm_and_msrm_balances(dex_state, 0, account.amount))
                } else if account.mint.same(&srm_mint()) {
                    Ok(FeeTier::from_srm_and_msrm_balances(dex_state, account.amount, 0))
                } else {
                    Err(ProgramFault::InvalidArgument)
                }
            },
        }
    }

    /// The tier that the stored discount token account earns its owner.
    pub fn get(dex_state: &DexState, account_data: &[u8], expected_owner: &Address) -> (r: Result<
        FeeTier,
        ProgramFault,
    >)
        requires
            ascending(dex_state.fee_schedule.thresholds@),
        ensures
            r == spec_tier_of_token_account(
                *dex_state,
                token_account_of(account_data@),
                expected_owner@,
            ),
    {
        FeeTier::of_token_account(dex_state, unpack_token_account(account_data), expected_owner)
    }

    /// Number of the tier in order of increasing discount.
    pub fn index(self) -> (r: u8)
        ensures
            r == tier_index(self),
            r < 8,
    {
        match self {
            FeeTier::Base => 0,
            FeeTier::Srm2 => 1,
            FeeTier::Srm3 => 2,
            FeeTier::Srm4 => 3,
            FeeTier::Srm5 => 4,
            FeeTier::Srm6 => 5,
            FeeTier::MSrm => 6,
            FeeTier::Stable => 7,
        }
    }

    /// The tier earned by holdings of the discount token and of the premium
    /// token. One unit of the premium token gives the highest tier at once,
    /// past the ladder of thresholds; a stable market has a single tier of
    /// its own.
    pub fn from_srm_and_msrm_balances(dex_state: &DexState, srm_held: u64, msrm_held: u64) -> (r:
        FeeTier)
        requires
            ascending(dex_state.fee_schedule.thresholds@),
        ensures
            r == spec_tier_for_holdings(*dex_state, srm_held, msrm_held),
    {
        match dex_state.fee_type {
            MarketFeeType::Stable => {
                return FeeTier::Stable;
            },
            MarketFeeType::Default => {},
        }
        if msrm_held >= 1 {
            return FeeTier::MSrm;
        }
        let rung: usize = tier_for_holdings(srm_held, &dex_state.fee_schedule.thresholds);
        proof {
            lemma_rung_counts_thresholds(
                srm_held,
                dex_state.fee_schedule.thresholds@,
                rung as int,
                5,
            );
        }
        if rung == 0 {
            FeeTier::Base
        } else if rung == 1 {
            FeeTier::Srm2
        } else if rung == 2 {
            FeeTier::Srm3
        } else if rung == 3 {
            FeeTier::Srm4
        } else if rung == 4 {
            FeeTier::Srm5
        } else {
            FeeTier::Srm6
        }
    }

    /// Whether the fee byte names a tier.
    pub fn is_valid_fee_byte(tag: u8) -> (r: bool)
        ensures
            r == spec_unpack_fee_byte(tag).is_some(),
    {
        (tag < 8) || (tag >= 128 && tag < 136)
    }

    /// Splits a callback's fee byte into the tier and the referral mark.
    pub fn from_u8(tag: u8) -> (r: (FeeTier, bool))
        requires
            spec_unpack_fee_byte(tag).is_some(),
        ensures
            Some(r) == spec_unpack_fee_byte(tag),
    {
        let is_referred = tag >= REFERRAL_MASK;
        let index: u8 = if is_referred { tag - REFERRAL_MASK } else { tag };
        let fee_tier = match index {
            0 => FeeTier::Base,
            1 => FeeTier::Srm2,
            2 => FeeTier::Srm3,
            3 => FeeTier::Srm4,
            4 => FeeTier::Srm5,
            5 => FeeTier::Srm6,
            6 => FeeTier::MSrm,
            _ => FeeTier::Stable,
        };
        (fee_tier, is_referred)
    }

    /// Packs the tier and the referral mark into a callback's fee byte.
    pub fn to_u8(self, referred: bool) -> (r: u8)
        ensures
            r == spec_pack_fee_byte(self, referred),
            spec_unpack_fee_byte(r) == Some((self, referred)),
    {
        let index: u8 = self.index();
        if referred {
            index + REFERRAL_MASK
        } else {
            index
        }
    }

    /// Taker fee rate in 32.32 fixed point.
    pub fn taker_rate(self) -> (r: u64)
        ensures
            r == spec_taker_rate(self),
            r < 0x1_0000_0000,
    {
        let numerator: u64 = match self {
            FeeTier::Base => 40,
            FeeTier::Srm2 => 39,
            FeeTier::Srm3 => 38,
            FeeTier::Srm4 => 36,
            FeeTier::Srm5 => 34,
            FeeTier::Srm6 => 32,
            FeeTier::MSrm => 30,
            FeeTier::Stable => 10,
        };
        (numerator * FP_32_ONE) / 100_000
    }

    /// Maker rebate rate in 32.32 fixed point.
    pub fn maker_rate(self) -> (r: u64)
        ensures
            r == 0,
    {
        0
    }

    /// Rebate paid to the maker on a quote quantity.
    pub fn maker_rebate(self, _quote_qty: u64) -> (r: u64)
        ensures
            r == 0,
    {
        0
    }

    /// The largest quantity that, with its taker fee on top, stays within
    /// `quote_qty`.
    pub fn remove_taker_fee(self, quote_qty: u64) -> (r: u64)
        ensures
            r == spec_remove_taker_fee(self, quote_qty),
            r <= quote_qty,
    {
        let rate: u64 = self.taker_rate();
        proof {
            let d = 0x1_0000_0000 + rate as int;
            assert(0 <= (quote_qty as int * 0x1_0000_0000) / d <= quote_qty as int)
                by (nonlinear_arith)
                requires
                    0 <= quote_qty as int,
                    0x1_0000_0000 <= d,
            ;
        }
        match fp32_div(quote_qty, FP_32_ONE + rate) {
            Some(q) => q,
            None => 0,
        }
    }

    /// Taker fee on a quote quantity.
    pub fn taker_fee(self, quote_qty: u64) -> (r: u64)
        ensures
            r == spec_taker_fee(self, quote_qty),
            r <= quote_qty,
    {
        let rate: u64 = self.taker_rate();
        proof {
            lemma_fp32_mul_bounded(quote_qty, rate);
        }
        match fp32_mul(quote_qty, rate) {
            Some(q) => q,
            None => 0,
        }
    }

    /// Share of a trade that goes to the referrer, in 32.32 fixed point: a
    /// fifth of what the taker rate leaves above the base maker rate.
    pub fn referral_rate(self) -> (r: u64)
        ensures
            r == spec_referral_rate(self),
            r <= spec_taker_rate(self),
    {
        let taker_rate: u64 = self.taker_rate();
        let min_maker_rebate: u64 = FeeTier::Base.maker_rate();
        (taker_rate - min_maker_rebate) / 5
    }

    /// Referral fee on a quote quantity.
    pub fn referral_fee(self, quote_qty: u64) -> (r: u64)
        ensures
            r == spec_referral_fee(self, quote_qty),
            r <= spec_taker_fee(self, quote_qty),
    {
        let rate: u64 = self.referral_rate();
        proof {
            lemma_referral_within_taker_fee(self, quote_qty);
            lemma_fp32_mul_bounded(quote_qty, rate);
        }
        match fp32_mul(quote_qty, rate) {
            Some(q) => q,
            None => 0,
        }
    }
}

/// A tier with a higher discount never charges a higher taker fee on the same
/// quantity.
pub proof fn lemma_taker_fee_monotone(lower: FeeTier, higher: FeeTier, quote_qty: u64)
    requires
        tier_index(lower) <= tier_index(higher),
    ensures
        spec_taker_fee(lower, quote_qty) >= spec_taker_fee(higher, quote_qty),
{
    assert(spec_taker_rate(higher) <= spec_taker_rate(lower));
    lemma_fp32_mul_monotone(quote_qty, spec_taker_rate(higher), spec_taker_rate(lower));
    lemma_fp32_mul_bounded(quote_qty, spec_taker_rate(higher));
    lemma_fp32_mul_bounded(quote_qty, spec_taker_rate(lower));
}

/// The referral fee is never more than the taker fee it is cut from.
pub proof fn lemma_referral_within_taker_fee(tier: FeeTier, quote_qty: u64)
    ensures
        spec_referral_fee(tier, quote_qty) <= spec_taker_fee(tier, quote_qty),
{
    lemma_fp32_mul_monotone(quote_qty, spec_referral_rate(tier), spec_taker_rate(tier));
    lemma_fp32_mul_bounded(quote_qty, spec_taker_rate(tier));
    lemma_fp32_mul_bounded(quote_qty, spec_referral_rate(tier));
}

} // verus!
