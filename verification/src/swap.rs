//! Swapping at once against the book, from wallet to wallet, without a user
//! account: nothing is posted and nothing stays in the vaults but fees.
use crate::address::Address;
use crate::consume_events::fits;
use crate::error::{dex_fault, DexError, ProgramFault};
use crate::new_order::{
    royalties, spec_optional_account, spec_royalties, spec_side_byte, spec_side_of_byte,
    EngineOrder, OrderSummary,
};
use crate::pda::{check_market_signer, market_signer_seeds, program_address, spec_signer_check};
use crate::state::{
    spec_pack_fee_byte, DexState, FeeTier, SelfTradeBehavior, Side,
};
use crate::user_account::CallBackInfo;
use crate::utils::{
    spl_token_id, spl_token_program, system_program, system_program_id, AccountInfo,
};
use crate::wire::{put_u64, read_u64, spec_u64_at};
use vstd::bytes::*;
use vstd::prelude::*;

verus! {

/// The arguments of a swap.
#[derive(Clone, Copy, Debug)]
pub struct Params {
    pub side: Side,
    /// A bid must receive this much base at least; an ask gives this much.
    pub base_qty: u64,
    /// A bid gives this much quote at most, fees included; an ask must
    /// receive this much at least.
    pub quote_qty: u64,
    /// The most resting orders to match against.
    pub match_limit: u64,
    /// Whether a discount token account accompanies the swap.
    pub has_discount_token_account: bool,
}

/// A validated swap: what to forward, and the quote that bounds it.
#[derive(Clone, Copy, Debug)]
pub struct PreparedSwap {
    pub engine_order: EngineOrder,
    pub quote_qty: u64,
}

/// What the wallets and the vaults exchange in a swap.
#[derive(Clone, Copy, Debug, PartialEq, Eq, Structural)]
pub struct SwapOutcome {
    /// Base that changes hands: into the vault for an ask, out for a bid.
    pub base_transfer_qty: u64,
    /// Quote that changes hands: into the vault for a bid, out for an ask.
    pub quote_transfer_qty: u64,
    /// What the quote vault pays the referrer; zero without one.
    pub referral_fee: u64,
}

/// The address that stands for "no user account".
pub open spec fn no_account() -> Seq<u8> {
    Seq::new(32, |i: int| 0u8)
}

/// The quote that bounds the swap: a bid sets the worst-case taker fee
/// aside.
pub open spec fn spec_swap_budget(market: DexState, params: Params, fee_tier: FeeTier) -> u64 {
    if params.side == Side::Bid {
        market.spec_remove_taker_fee(fee_tier, params.quote_qty)
    } else {
        params.quote_qty
    }
}

/// The highest price that is a multiple of the tick size.
pub open spec fn spec_highest_price(tick_size: u64) -> u64 {
    (u64::MAX - u64::MAX % tick_size) as u64
}

/// Fails unless the wallet can pay the reward of the event-draining driver
/// and still hold the minimum that its size requires.
pub fn check_funds(lamports: u64, minimum_balance: u64, cranker_reward: u64) -> (r: Result<
    (),
    DexError,
>)
    ensures
        r == (if lamports >= minimum_balance + cranker_reward {
            Ok::<(), DexError>(())
        } else {
            Err::<(), DexError>(DexError::OutofFunds)
        }),
{
    match minimum_balance.checked_add(cranker_reward) {
        Some(needed) => {
            if lamports < needed {
                Err(DexError::OutofFunds)
            } else {
                Ok(())
            }
        },
        None => Err(DexError::OutofFunds),
    }
}

/// Validates a swap and says what to forward to the matching engine: an
/// order that may neither post nor rest, at any price. A swap below the
/// market's minimum base size is refused.
pub fn prepare_swap(
    market: &DexState,
    params: &Params,
    fee_tier: FeeTier,
    has_referral: bool,
    tick_size: u64,
) -> (r: Result<PreparedSwap, ProgramFault>)
    requires
        tick_size != 0,
        market.fee_schedule.wf(),
    ensures
        params.base_qty < market.min_base_order_size ==> r == Err::<PreparedSwap, ProgramFault>(
            ProgramFault::InvalidArgument,
        ),
        params.base_qty >= market.min_base_order_size ==> {
            &&& r is Ok
            &&& r.unwrap().quote_qty == spec_swap_budget(*market, *params, fee_tier)
            &&& r.unwrap().engine_order.side == params.side
            &&& r.unwrap().engine_order.match_limit == params.match_limit
            &&& !r.unwrap().engine_order.post_only
            &&& !r.unwrap().engine_order.post_allowed
            &&& r.unwrap().engine_order.self_trade_behavior == SelfTradeBehavior::DecrementTake
            &&& r.unwrap().engine_order.callback_info.user_account@ == no_account()
            &&& r.unwrap().engine_order.callback_info.fee_tier == spec_pack_fee_byte(
                fee_tier,
                has_referral,
            )
            &&& params.side == Side::Bid ==> {
                &&& r.unwrap().engine_order.max_base_qty == u64::MAX
                &&& r.unwrap().engine_order.max_quote_qty == spec_swap_budget(*market, *params, fee_tier)
                &&& r.unwrap().engine_order.limit_price == spec_highest_price(tick_size)
            }
            &&& params.side == Side::Ask ==> {
                &&& r.unwrap().engine_order.max_base_qty == params.base_qty
                &&& r.unwrap().engine_order.max_quote_qty == u64::MAX
                &&& r.unwrap().engine_order.limit_price == 0
            }
        },
{
    if params.base_qty < market.min_base_order_size {
        return Err(ProgramFault::InvalidArgument);
    }
    let nobody = Address { bytes: [0u8; 32] };
    assert(nobody@ =~= no_account());
    let callback_info = CallBackInfo {
        user_account: nobody,
        fee_tier: fee_tier.to_u8(has_referral),
    };
    let (quote_qty, max_base_qty, max_quote_qty, limit_price) = match params.side {
        Side::Bid => {
            let budget: u64 = market.remove_taker_fee(fee_tier, params.quote_qty);
            (budget, u64::MAX, budget, u64::MAX - u64::MAX % tick_size)
        },
        Side::Ask => (params.quote_qty, params.base_qty, u64::MAX, 0),
    };
    Ok(
        PreparedSwap {
            engine_order: EngineOrder {
                max_base_qty,
                max_quote_qty,
                limit_price,
                side: params.side,
                match_limit: params.match_limit,
                callback_info,
                post_only: false,
                post_allowed: false,
                self_trade_behavior: SelfTradeBehavior::DecrementTake,
            },
            quote_qty,
        },
    )
}

/// What the wallets and the vaults exchange for a swap whose summary is
/// `s`, or why the swap fails. A bid pays the matched quote with taker fee
/// and royalty on top and must receive the base it asked for; an ask
/// receives the matched quote less taker fee and royalty, which must be
/// the quote it asked for at least.
pub open spec fn spec_swap_outcome(
    market: DexState,
    params: Params,
    quote_qty: u64,
    fee_tier: FeeTier,
    has_referral: bool,
    s: OrderSummary,
) -> Result<SwapOutcome, DexError> {
    let taker_fee = market.spec_taker_fee(fee_tier, s.total_quote_qty);
    let referral = if has_referral {
        market.spec_referral_fee(fee_tier, s.total_quote_qty)
    } else {
        0
    };
    match spec_royalties(s.total_quote_qty, market.royalties_bps) {
        None => Err(DexError::NumericalOverflow),
        Some(royalty) => if params.side == Side::Bid {
            if !fits(s.total_quote_qty + taker_fee + royalty) {
                Err(DexError::NumericalOverflow)
            } else if s.total_base_qty < params.base_qty {
                Err(DexError::TransactionAborted)
            } else {
                Ok(
                    SwapOutcome {
                        base_transfer_qty: s.total_base_qty,
                        quote_transfer_qty: (s.total_quote_qty + taker_fee + royalty) as u64,
                        referral_fee: referral,
                    },
                )
            }
        } else {
            if !fits(taker_fee + royalty) || s.total_quote_qty < taker_fee + royalty {
                Err(DexError::NumericalOverflow)
            } else if s.total_quote_qty < quote_qty {
                Err(DexError::TransactionAborted)
            } else {
                Ok(
                    SwapOutcome {
                        base_transfer_qty: s.total_base_qty,
                        quote_transfer_qty: (s.total_quote_qty - (taker_fee + royalty)) as u64,
                        referral_fee: referral,
                    },
                )
            }
        },
    }
}

/// Turns the matching engine's summary of a swap into what the wallets and
/// the vaults exchange.
pub fn swap_outcome(
    market: &DexState,
    params: &Params,
    quote_qty: u64,
    fee_tier: FeeTier,
    has_referral: bool,
    s: &OrderSummary,
) -> (r: Result<SwapOutcome, DexError>)
    requires
        market.fee_schedule.wf(),
    ensures
        r == spec_swap_outcome(*market, *params, quote_qty, fee_tier, has_referral, *s),
{
    let taker_fee: u64 = market.taker_fee(fee_tier, s.total_quote_qty);
    let referral_fee: u64 = if has_referral {
        market.referral_fee(fee_tier, s.total_quote_qty)
    } else {
        0
    };
    let royalty: u64 = match royalties(s.total_quote_qty, market.royalties_bps) {
        Some(v) => v,
        None => {
            return Err(DexError::NumericalOverflow);
        },
    };
    match params.side {
        Side::Bid => {
            let with_fee: u64 = match s.total_quote_qty.checked_add(taker_fee) {
                Some(v) => v,
                None => {
                    return Err(DexError::NumericalOverflow);
                },
            };
            let owed: u64 = match with_fee.checked_add(royalty) {
                Some(v) => v,
                None => {
                    return Err(DexError::NumericalOverflow);
                },
            };
            if s.total_base_qty < params.base_qty {
                return Err(DexError::TransactionAborted);
            }
            Ok(
                SwapOutcome {
                    base_transfer_qty: s.total_base_qty,
                    quote_transfer_qty: owed,
                    referral_fee,
                },
            )
        },
        Side::Ask => {
            let charges: u64 = match taker_fee.checked_add(royalty) {
                Some(v) => v,
                None => {
                    return Err(DexError::NumericalOverflow);
                },
            };
            let proceeds: u64 = match s.total_quote_qty.checked_sub(charges) {
                Some(v) => v,
                None => {
                    return Err(DexError::NumericalOverflow);
                },
            };
            if s.total_quote_qty < quote_qty {
                return Err(DexError::TransactionAborted);
            }
            Ok(
                SwapOutcome {
                    base_transfer_qty: s.total_base_qty,
                    quote_transfer_qty: proceeds,
                    referral_fee,
                },
            )
        },
    }
}

/// The accounts of a swap: thirteen fixed ones, then the discount token
/// account if the arguments announce one, then the referrer's token account
/// if one is given.
#[derive(Clone, Copy, Debug)]
pub struct Accounts {
    pub spl_token_program: AccountInfo,
    pub system_program: AccountInfo,
    pub market: AccountInfo,
    pub orderbook: AccountInfo,
    pub event_queue: AccountInfo,
    pub bids: AccountInfo,
    pub asks: AccountInfo,
    pub base_vault: AccountInfo,
    pub quote_vault: AccountInfo,
    pub market_signer: AccountInfo,
    pub user_base_account: AccountInfo,
    pub user_quote_account: AccountInfo,
    pub user_owner: AccountInfo,
    pub discount_token_account: Option<AccountInfo>,
    pub fee_referral_account: Option<AccountInfo>,
}

/// The accounts of the operation, read from the list in their fixed
/// order, or the first check that the list fails.
pub open spec fn spec_parse(
    program_id: Address,
    accounts: Seq<AccountInfo>,
    has_discount_token_account: bool,
) -> Result<Accounts, ProgramFault> {
    let discount = if has_discount_token_account {
        spec_optional_account(accounts, 13)
    } else {
        None
    };
    let referral = spec_optional_account(
        accounts,
        if has_discount_token_account {
            14
        } else {
            13
        },
    );
    if accounts.len() < 13 {
        Err(ProgramFault::NotEnoughAccountKeys)
    } else if !accounts[12].is_signer {
        Err(ProgramFault::MissingRequiredSignature)
    } else if accounts[0].key@ != spl_token_id() {
        Err(dex_fault(DexError::InvalidSplTokenProgram))
    } else if accounts[1].key@ != system_program_id() {
        Err(dex_fault(DexError::InvalidSystemProgramAccount))
    } else if discount is Some && discount.unwrap().owner@ != spl_token_id() {
        Err(dex_fault(DexError::InvalidSplTokenProgram))
    } else if accounts[2].owner@ != program_id@ {
        Err(dex_fault(DexError::InvalidStateAccountOwner))
    } else {
        Ok(
            Accounts {
                spl_token_program: accounts[0],
                system_program: accounts[1],
                market: accounts[2],
                orderbook: accounts[3],
                event_queue: accounts[4],
                bids: accounts[5],
                asks: accounts[6],
                base_vault: accounts[7],
                quote_vault: accounts[8],
                market_signer: accounts[9],
                user_base_account: accounts[10],
                user_quote_account: accounts[11],
                user_owner: accounts[12],
                discount_token_account: discount,
                fee_referral_account: referral,
            },
        )
    }
}

impl Accounts {
    /// Reads the accounts from the list in their fixed order and checks
    /// what can be checked of them without the ledgers.
    pub fn parse(
        program_id: &Address,
        accounts: &Vec<AccountInfo>,
        has_discount_token_account: bool,
    ) -> (r: Result<Accounts, ProgramFault>)
        ensures
            r == spec_parse(*program_id, accounts@, has_discount_token_account),
    {
        if accounts.len() < 13 {
            return Err(ProgramFault::NotEnoughAccountKeys);
        }
        let discount: Option<AccountInfo> = if has_discount_token_account && accounts.len() > 13 {
            Some(accounts[13])
        } else {
            None
        };
        let referral_index: usize = if has_discount_token_account {
            14
        } else {
            13
        };
        let referral: Option<AccountInfo> = if accounts.len() > referral_index {
            Some(accounts[referral_index])
        } else {
            None
        };
        let a = Accounts {
            spl_token_program: accounts[0],
            system_program: accounts[1],
            market: accounts[2],
            orderbook: accounts[3],
            event_queue: accounts[4],
            bids: accounts[5],
            asks: accounts[6],
            base_vault: accounts[7],
            quote_vault: accounts[8],
            market_signer: accounts[9],
            user_base_account: accounts[10],
            user_quote_account: accounts[11],
            user_owner: accounts[12],
            discount_token_account: discount,
            fee_referral_account: referral,
        };
        if !a.user_owner.is_signer {
            return Err(ProgramFault::MissingRequiredSignature);
        }
        if !a.spl_token_program.key.same(&spl_token_program()) {
            return Err(ProgramFault::from_dex(DexError::InvalidSplTokenProgram));
        }
        if !a.system_program.key.same(&system_program()) {
            return Err(ProgramFault::from_dex(DexError::InvalidSystemProgramAccount));
        }
        match discount {
            Some(d) => {
                if !d.owner.same(&spl_token_program()) {
                    return Err(ProgramFault::from_dex(DexError::InvalidSplTokenProgram));
                }
            },
            None => {},
        }
        if !a.market.owner.same(program_id) {
            return Err(ProgramFault::from_dex(DexError::InvalidStateAccountOwner));
        }
        Ok(a)
    }
}

/// Whether the accounts are the ones that the market's ledger names, or
/// the first that is not.
pub open spec fn spec_check_accounts(
    derived_signer: Option<Seq<u8>>,
    market_state: DexState,
    accounts: Accounts,
) -> Result<(), ProgramFault> {
    if spec_signer_check(derived_signer, accounts.market_signer.key@) is Err {
        spec_signer_check(derived_signer, accounts.market_signer.key@)
    } else if accounts.orderbook.key@ != market_state.orderbook@ {
        Err(dex_fault(DexError::InvalidOrderbookAccount))
    } else if accounts.base_vault.key@ != market_state.base_vault@ {
        Err(dex_fault(DexError::InvalidBaseVaultAccount))
    } else if accounts.quote_vault.key@ != market_state.quote_vault@ {
        Err(dex_fault(DexError::InvalidQuoteVaultAccount))
    } else {
        Ok(())
    }
}

/// Checks the accounts against the market's ledger and its signer.
pub fn check_accounts(program_id: &Address, market_state: &DexState, accounts: &Accounts) -> (r:
    Result<(), ProgramFault>)
    ensures
        r == spec_check_accounts(
            program_address(
                market_signer_seeds(accounts.market.key@, market_state.signer_nonce),
                program_id@,
            ),
            *market_state,
            *accounts,
        ),
{
    match check_market_signer(
        &accounts.market_signer.key,
        &accounts.market.key,
        market_state.signer_nonce,
        program_id,
    ) {
        Ok(()) => {},
        Err(e) => {
            return Err(e);
        },
    }
    if !accounts.orderbook.key.same(&market_state.orderbook) {
        return Err(ProgramFault::from_dex(DexError::InvalidOrderbookAccount));
    }
    if !accounts.base_vault.key.same(&market_state.base_vault) {
        return Err(ProgramFault::from_dex(DexError::InvalidBaseVaultAccount));
    }
    if !accounts.quote_vault.key.same(&market_state.quote_vault) {
        return Err(ProgramFault::from_dex(DexError::InvalidQuoteVaultAccount));
    }
    Ok(())
}

/// Whether the bytes hold the arguments of a swap: 32 bytes with a known
/// side.
pub open spec fn holds_swap_params(data: Seq<u8>) -> bool {
    data.len() == 32 && spec_side_of_byte(data[24]) is Some
}

impl Params {
    /// Reads the arguments from their stored form: three 64-bit integers,
    /// two bytes, and six bytes of padding.
    pub fn from_bytes(data: &[u8]) -> (r: Result<Params, ProgramFault>)
        ensures
            match r {
                Ok(p) => {
                    &&& holds_swap_params(data@)
                    &&& p.base_qty == spec_u64_at(data@, 0)
                    &&& p.quote_qty == spec_u64_at(data@, 8)
                    &&& p.match_limit == spec_u64_at(data@, 16)
                    &&& Some(p.side) == spec_side_of_byte(data@[24])
                    &&& p.has_discount_token_account == (data@[25] != 0)
                },
                Err(e) => e == ProgramFault::InvalidInstructionData && !holds_swap_params(data@),
            },
    {
        if data.len() != 32 {
            return Err(ProgramFault::InvalidInstructionData);
        }
        let side = match Side::from_u8(data[24]) {
            Some(s) => s,
            None => {
                return Err(ProgramFault::InvalidInstructionData);
            },
        };
        Ok(
            Params {
                side,
                base_qty: read_u64(data, 0),
                quote_qty: read_u64(data, 8),
                match_limit: read_u64(data, 16),
                has_discount_token_account: data[25] != 0,
            },
        )
    }

    /// The stored form of the arguments: 32 bytes.
    pub open spec fn spec_bytes(&self) -> Seq<u8> {
        spec_u64_to_le_bytes(self.base_qty) + spec_u64_to_le_bytes(self.quote_qty)
            + spec_u64_to_le_bytes(self.match_limit) + seq![
            spec_side_byte(self.side),
            if self.has_discount_token_account {
                1u8
            } else {
                0u8
            },
            0u8,
            0u8,
            0u8,
            0u8,
            0u8,
            0u8,
        ]
    }

    /// The stored form of the arguments.
    pub fn to_bytes(&self) -> (out: Vec<u8>)
        ensures
            out@ == self.spec_bytes(),
            out@.len() == 32,
    {
        let mut out: Vec<u8> = Vec::new();
        put_u64(&mut out, self.base_qty);
        put_u64(&mut out, self.quote_qty);
        put_u64(&mut out, self.match_limit);
        out.push(
            match self.side {
                Side::Bid => 0,
                Side::Ask => 1,
            },
        );
        out.push(if self.has_discount_token_account { 1 } else { 0 });
        out.push(0);
        out.push(0);
        out.push(0);
        out.push(0);
        out.push(0);
        out.push(0);
        assert(out@ =~= self.spec_bytes());
        out
    }
}

} // verus!
