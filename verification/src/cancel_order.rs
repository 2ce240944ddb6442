//! Cancelling an open order.
//!
//! `resolve_order` finds the order to cancel in the user account. The
//! matching engine then takes it off the book and says what it still held,
//! and `apply_cancel` returns that amount from locked to free and frees the
//! order's slot.
use crate::address::Address;
use crate::consume_events::fits;
use crate::error::{dex_fault, DexError, ProgramFault};
use crate::state::{DexState, Side};
use crate::user_account::{
    check_user_account, get_side_from_order_id, is_first_with_client_id,
    lemma_remove_then_read, spec_read_order, spec_remove_order, spec_side_of_order_id,
    spec_user_account_check, Order, UserAccount, UserAccountHeader,
};
use crate::utils::AccountInfo;
use crate::new_order::OrderSummary;
use crate::wire::{put_u128, put_u64, read_u128, read_u64, spec_u128_at, spec_u64_at};
use vstd::bytes::*;
use vstd::prelude::*;

verus! {

/// The arguments of a cancellation.
#[derive(Clone, Copy, Debug)]
pub struct Params {
    /// The id of the order, or its client id if `is_client_id` is set.
    pub order_id: u128,
    /// The slot of the order; ignored if `is_client_id` is set.
    pub order_index: u64,
    /// Whether `order_id` is the alias that the owner chose.
    pub is_client_id: bool,
}

/// The id and the slot of the order that the arguments name, or why they
/// name none.
pub open spec fn spec_resolve_order(live: Seq<Order>, params: Params) -> Result<
    (u128, int),
    ProgramFault,
> {
    if params.is_client_id {
        if exists|i: int| is_first_with_client_id(live, params.order_id, i) {
            let i = choose|i: int| is_first_with_client_id(live, params.order_id, i);
            Ok((live[i].id, i))
        } else {
            Err(dex_fault(DexError::OrderNotFound))
        }
    } else if params.order_index >= live.len() {
        Err(dex_fault(DexError::InvalidOrderIndex))
    } else if live[params.order_index as int].id != params.order_id {
        Err(ProgramFault::InvalidArgument)
    } else {
        Ok((params.order_id, params.order_index as int))
    }
}

/// Finds the order to cancel: by its client id, or by its slot, in which
/// case the id given must be the one that the slot holds.
pub fn resolve_order(user_account: &UserAccount, params: &Params) -> (r: Result<
    (u128, usize),
    ProgramFault,
>)
    requires
        user_account.wf(),
    ensures
        match spec_resolve_order(user_account.live_orders(), *params) {
            Ok((id, index)) => {
                &&& r == Ok::<(u128, usize), ProgramFault>((id, index as usize))
                &&& index < user_account.header.number_of_orders
            },
            Err(e) => r == Err::<(u128, usize), ProgramFault>(e),
        },
{
    if params.is_client_id {
        match user_account.find_order_index_by_client_id(params.order_id) {
            Ok(i) => {
                proof {
                    let c = choose|c: int|
                        is_first_with_client_id(user_account.live_orders(), params.order_id, c);
                    assert(c == i);
                }
                match user_account.read_order(i) {
                    Ok(order) => Ok((order.id, i)),
                    Err(e) => Err(ProgramFault::from_dex(e)),
                }
            },
            Err(e) => Err(ProgramFault::from_dex(e)),
        }
    } else {
        if params.order_index >= user_account.header.number_of_orders as u64 {
            return Err(ProgramFault::from_dex(DexError::InvalidOrderIndex));
        }
        let index: usize = params.order_index as usize;
        match user_account.read_order(index) {
            Ok(order) => {
                if order.id != params.order_id {
                    Err(ProgramFault::InvalidArgument)
                } else {
                    Ok((params.order_id, index))
                }
            },
            Err(e) => Err(ProgramFault::from_dex(e)),
        }
    }
}

/// The header once what the cancelled order held is back from locked to
/// free: quote for a bid, base for an ask, in the market's external units.
/// `None` when a quantity leaves its range or more is returned than is
/// locked.
pub open spec fn spec_cancel_header(
    market: DexState,
    h: UserAccountHeader,
    side: Side,
    s: OrderSummary,
) -> Option<UserAccountHeader> {
    let total_base = s.total_base_qty * market.base_currency_multiplier;
    let posted_base = s.total_base_qty_posted * market.base_currency_multiplier;
    let total_quote = s.total_quote_qty * market.quote_currency_multiplier;
    if !(fits(total_base) && fits(posted_base) && fits(total_quote)) {
        None
    } else {
        match side {
            Side::Bid => if fits(h.quote_token_free + total_quote) && fits(
                h.quote_token_locked - total_quote,
            ) {
                Some(
                    UserAccountHeader {
                        quote_token_free: (h.quote_token_free + total_quote) as u64,
                        quote_token_locked: (h.quote_token_locked - total_quote) as u64,
                        ..h
                    },
                )
            } else {
                None
            },
            Side::Ask => if fits(h.base_token_free + total_base) && fits(
                h.base_token_locked - total_base,
            ) {
                Some(
                    UserAccountHeader {
                        base_token_free: (h.base_token_free + total_base) as u64,
                        base_token_locked: (h.base_token_locked - total_base) as u64,
                        ..h
                    },
                )
            } else {
                None
            },
        }
    }
}

/// The header once what the cancelled order held is back from locked to
/// free.
pub fn cancel_header(market: &DexState, h: &UserAccountHeader, side: Side, s: &OrderSummary) -> (r:
    Option<UserAccountHeader>)
    ensures
        r == spec_cancel_header(*market, *h, side, *s),
{
    let total_base: u64 = match s.total_base_qty.checked_mul(market.base_currency_multiplier) {
        Some(v) => v,
        None => {
            return None;
        },
    };
    match s.total_base_qty_posted.checked_mul(market.base_currency_multiplier) {
        Some(_) => {},
        None => {
            return None;
        },
    }
    let total_quote: u64 = match s.total_quote_qty.checked_mul(market.quote_currency_multiplier) {
        Some(v) => v,
        None => {
            return None;
        },
    };
    let mut next = *h;
    match side {
        Side::Bid => {
            match (
                h.quote_token_free.checked_add(total_quote),
                h.quote_token_locked.checked_sub(total_quote),
            ) {
                (Some(free), Some(locked)) => {
                    next.quote_token_free = free;
                    next.quote_token_locked = locked;
                    Some(next)
                },
                _ => None,
            }
        },
        Side::Ask => {
            match (
                h.base_token_free.checked_add(total_base),
                h.base_token_locked.checked_sub(total_base),
            ) {
                (Some(free), Some(locked)) => {
                    next.base_token_free = free;
                    next.base_token_locked = locked;
                    Some(next)
                },
                _ => None,
            }
        },
    }
}

/// The header and the open orders after a cancellation, or why it fails.
pub open spec fn spec_apply_cancel(
    market: DexState,
    h: UserAccountHeader,
    live: Seq<Order>,
    order_id: u128,
    order_index: int,
    s: OrderSummary,
) -> Result<(UserAccountHeader, Seq<Order>), DexError> {
    match spec_cancel_header(market, h, spec_side_of_order_id(order_id), s) {
        None => Err(DexError::NumericalOverflow),
        Some(nh) => if 0 <= order_index < live.len() {
            Ok(
                (
                    UserAccountHeader {
                        number_of_orders: (h.number_of_orders - 1) as u32,
                        ..nh
                    },
                    spec_remove_order(live, order_index),
                ),
            )
        } else {
            Err(DexError::InvalidOrderIndex)
        },
    }
}

/// After a cancellation of the order in slot `order_index`, the order count
/// is one less, and a read of that slot gives the order that was last
/// before, unless the cancelled order was the last itself.
pub proof fn lemma_cancel_then_read(
    market: DexState,
    h: UserAccountHeader,
    live: Seq<Order>,
    order_id: u128,
    order_index: int,
    s: OrderSummary,
)
    requires
        h.number_of_orders == live.len(),
        spec_apply_cancel(market, h, live, order_id, order_index, s) is Ok,
    ensures
        ({
            let after = spec_apply_cancel(market, h, live, order_id, order_index, s).unwrap();
            &&& after.0.number_of_orders == h.number_of_orders - 1
            &&& after.1.len() == live.len() - 1
            &&& order_index < live.len() - 1 ==> spec_read_order(after.1, order_index) == Some(
                live.last(),
            )
            &&& order_index == live.len() - 1 ==> spec_read_order(after.1, order_index) is None
        }),
{
    lemma_remove_then_read(live, order_index);
}

/// Applies the matching engine's summary of a cancelled order: what the
/// order still held goes back from locked to free on the order's side, and
/// the order's slot is freed. A cancellation that fails changes nothing.
pub fn apply_cancel(
    market: &DexState,
    user_account: &mut UserAccount,
    order_id: u128,
    order_index: usize,
    summary: &OrderSummary,
) -> (r: Result<(), DexError>)
    requires
        old(user_account).wf(),
    ensures
        final(user_account).wf(),
        final(user_account).key == old(user_account).key,
        final(user_account).spec_capacity() == old(user_account).spec_capacity(),
        match spec_apply_cancel(
            *market,
            old(user_account).header,
            old(user_account).live_orders(),
            order_id,
            order_index as int,
            *summary,
        ) {
            Ok((h, live)) => {
                &&& r is Ok
                &&& final(user_account).header == h
                &&& final(user_account).live_orders() == live
            },
            Err(e) => r == Err::<(), DexError>(e) && *final(user_account) == *old(user_account),
        },
{
    let side = get_side_from_order_id(order_id);
    let next = match cancel_header(market, &user_account.header, side, summary) {
        Some(h) => h,
        None => {
            return Err(DexError::NumericalOverflow);
        },
    };
    match user_account.remove_order(order_index) {
        Ok(()) => {},
        Err(e) => {
            return Err(e);
        },
    }
    let count: u32 = user_account.header.number_of_orders;
    user_account.header = next;
    user_account.header.number_of_orders = count;
    Ok(())
}

/// The accounts of a cancellation.
#[derive(Clone, Copy, Debug)]
pub struct Accounts {
    pub market: AccountInfo,
    pub orderbook: AccountInfo,
    pub event_queue: AccountInfo,
    pub bids: AccountInfo,
    pub asks: AccountInfo,
    pub user: AccountInfo,
    pub user_owner: AccountInfo,
}

/// The accounts of the operation, read from the list in their fixed
/// order, or the first check that the list fails.
pub open spec fn spec_parse(program_id: Address, accounts: Seq<AccountInfo>) -> Result<
    Accounts,
    ProgramFault,
> {
    if accounts.len() < 7 {
        Err(ProgramFault::NotEnoughAccountKeys)
    } else if !accounts[6].is_signer {
        Err(ProgramFault::MissingRequiredSignature)
    } else if accounts[0].owner@ != program_id@ {
        Err(dex_fault(DexError::InvalidStateAccountOwner))
    } else if accounts[5].owner@ != program_id@ {
        Err(dex_fault(DexError::InvalidStateAccountOwner))
    } else {
        Ok(
            Accounts {
                market: accounts[0],
                orderbook: accounts[1],
                event_queue: accounts[2],
                bids: accounts[3],
                asks: accounts[4],
                user: accounts[5],
                user_owner: accounts[6],
            },
        )
    }
}

impl Accounts {
    /// Reads the accounts from the list in their fixed order and checks
    /// what can be checked of them without the ledgers.
    pub fn parse(program_id: &Address, accounts: &Vec<AccountInfo>) -> (r: Result<
        Accounts,
        ProgramFault,
    >)
        ensures
            r == spec_parse(*program_id, accounts@),
    {
        if accounts.len() < 7 {
            return Err(ProgramFault::NotEnoughAccountKeys);
        }
        let a = Accounts {
            market: accounts[0],
            orderbook: accounts[1],
            event_queue: accounts[2],
            bids: accounts[3],
            asks: accounts[4],
            user: accounts[5],
            user_owner: accounts[6],
        };
        if !a.user_owner.is_signer {
            return Err(ProgramFault::MissingRequiredSignature);
        }
        if !a.market.owner.same(program_id) {
            return Err(ProgramFault::from_dex(DexError::InvalidStateAccountOwner));
        }
        if !a.user.owner.same(program_id) {
            return Err(ProgramFault::from_dex(DexError::InvalidStateAccountOwner));
        }
        Ok(a)
    }

    /// Checks that the user account is initialized, belongs to the signing
    /// owner, and is an account of this market.
    pub fn load_user_account(&self, user_account: &UserAccount) -> (r: Result<(), ProgramFault>)
        ensures
            r == spec_user_account_check(
                user_account.header,
                self.user_owner.key@,
                Some(self.market.key@),
            ),
    {
        check_user_account(&user_account.header, &self.user_owner.key, Some(&self.market.key))
    }
}

/// Whether the accounts are the ones that the market's ledger names, or
/// the first that is not.
pub open spec fn spec_check_accounts(
    market_state: DexState,
    accounts: Accounts,
) -> Result<(), ProgramFault> {
    if accounts.orderbook.key@ != market_state.orderbook@ {
        Err(dex_fault(DexError::InvalidOrderbookAccount))
    } else {
        Ok(())
    }
}

/// Checks the accounts against the market's ledger.
pub fn check_accounts(market_state: &DexState, accounts: &Accounts) -> (r: Result<
    (),
    ProgramFault,
>)
    ensures
        r == spec_check_accounts(*market_state, *accounts),
{
    if !accounts.orderbook.key.same(&market_state.orderbook) {
        return Err(ProgramFault::from_dex(DexError::InvalidOrderbookAccount));
    }
    Ok(())
}

impl Params {
    /// Reads the arguments from their stored form: the order id, the slot,
    /// and a byte that is 1 if the id is a client id and 0 if not, padded to
    /// 32 bytes.
    pub fn from_bytes(data: &[u8]) -> (r: Result<Params, ProgramFault>)
        ensures
            match r {
                Ok(p) => {
                    &&& data@.len() == 32
                    &&& data@[24] <= 1
                    &&& p.order_id == spec_u128_at(data@, 0)
                    &&& p.order_index == spec_u64_at(data@, 16)
                    &&& p.is_client_id == (data@[24] == 1)
                },
                Err(e) => e == ProgramFault::InvalidInstructionData && (data@.len() != 32
                    || data@[24] > 1),
            },
    {
        if data.len() != 32 {
            return Err(ProgramFault::InvalidInstructionData);
        }
        if data[24] > 1 {
            return Err(ProgramFault::InvalidInstructionData);
        }
        Ok(
            Params {
                order_id: read_u128(data, 0),
                order_index: read_u64(data, 16),
                is_client_id: data[24] == 1,
            },
        )
    }
}

impl Params {
    /// The stored form of the arguments: 32 bytes.
    pub open spec fn spec_bytes(&self) -> Seq<u8> {
        spec_u128_to_le_bytes(self.order_id) + spec_u64_to_le_bytes(self.order_index) + seq![
            if self.is_client_id {
                1u8
            } else {
                0u8
            },
            0u8,
            0u8,
            0u8,
            0u8,
            0u8,
            0u8,
            0u8,
        ]
    }

    /// The stored form of the arguments.
    pub fn to_bytes(&self) -> (out: Vec<u8>)
        ensures
            out@ == self.spec_bytes(),
            out@.len() == 32,
    {
        let mut out: Vec<u8> = Vec::new();
        put_u128(&mut out, self.order_id);
        put_u64(&mut out, self.order_index);
        out.push(if self.is_client_id { 1 } else { 0 });
        out.push(0);
        out.push(0);
        out.push(0);
        out.push(0);
        out.push(0);
        out.push(0);
        out.push(0);
        assert(out@ =~= self.spec_bytes());
        out
    }
}

} // verus!
