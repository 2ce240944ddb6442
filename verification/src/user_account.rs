//! The user ledger: balances, metrics and a fixed number of order slots.
use crate::address::Address;
use crate::error::{DexError, ProgramFault};
use crate::state::{AccountTag, Side, ORDER_ID_SIDE_FLAG, ORDER_LEN, USER_ACCOUNT_HEADER_LEN};
use vstd::prelude::*;

verus! {

/// An open order as the user account records it. The client id is an alias
/// chosen by the owner.
#[derive(Clone, Copy, Debug, PartialEq, Eq, Structural)]
pub struct Order {
    pub id: u128,
    pub client_id: u128,
}

/// The side encoded in an order id.
pub open spec fn spec_side_of_order_id(order_id: u128) -> Side {
    if (order_id / 0x8000_0000_0000_0000) % 2 == 1 {
        Side::Bid
    } else {
        Side::Ask
    }
}

/// The limit price encoded in an order id, in 32.32 fixed point.
pub open spec fn spec_price_of_order_id(order_id: u128) -> u64 {
    (order_id / 0x1_0000_0000_0000_0000) as u64
}

/// The side encoded in an order id.
pub fn get_side_from_order_id(order_id: u128) -> (r: Side)
    ensures
        r == spec_side_of_order_id(order_id),
{
    assert((0x8000_0000_0000_0000u128 & order_id != 0) == ((order_id / 0x8000_0000_0000_0000) % 2
        == 1)) by (bit_vector);
    if ORDER_ID_SIDE_FLAG & order_id != 0 {
        Side::Bid
    } else {
        Side::Ask
    }
}

/// The limit price encoded in an order id, in 32.32 fixed point.
pub fn get_price_from_order_id(order_id: u128) -> (r: u64)
    ensures
        r == spec_price_of_order_id(order_id),
{
    assert(order_id / 0x1_0000_0000_0000_0000 <= 0xffff_ffff_ffff_ffff) by (bit_vector);
    (order_id / 0x1_0000_0000_0000_0000) as u64
}

/// Balances and metrics of a user account. The cumulative volumes and
/// rebates only inform; the four balances are what the account holds.
#[derive(Clone, Copy, Debug)]
pub struct UserAccountHeader {
    pub tag: AccountTag,
    pub market: Address,
    pub owner: Address,
    pub base_token_free: u64,
    pub base_token_locked: u64,
    pub quote_token_free: u64,
    pub quote_token_locked: u64,
    pub accumulated_rebates: u64,
    pub accumulated_maker_quote_volume: u64,
    pub accumulated_maker_base_volume: u64,
    pub accumulated_taker_quote_volume: u64,
    pub accumulated_taker_base_volume: u64,
    pub number_of_orders: u32,
}

impl UserAccountHeader {
    /// The header of a fresh account: no balance, no order.
    pub open spec fn spec_new(market: Address, owner: Address) -> UserAccountHeader {
        UserAccountHeader {
            tag: AccountTag::UserAccount,
            market,
            owner,
            base_token_free: 0,
            base_token_locked: 0,
            quote_token_free: 0,
            quote_token_locked: 0,
            accumulated_rebates: 0,
            accumulated_maker_quote_volume: 0,
            accumulated_maker_base_volume: 0,
            accumulated_taker_quote_volume: 0,
            accumulated_taker_base_volume: 0,
            number_of_orders: 0,
        }
    }

    /// The header of a fresh account: no balance, no order.
    pub fn new(market: &Address, owner: &Address) -> (r: UserAccountHeader)
        ensures
            r == Self::spec_new(*market, *owner),
    {
        UserAccountHeader {
            tag: AccountTag::UserAccount,
            market: *market,
            owner: *owner,
            base_token_free: 0,
            base_token_locked: 0,
            quote_token_free: 0,
            quote_token_locked: 0,
            accumulated_rebates: 0,
            accumulated_maker_quote_volume: 0,
            accumulated_maker_base_volume: 0,
            accumulated_taker_quote_volume: 0,
            accumulated_taker_base_volume: 0,
            number_of_orders: 0,
        }
    }
}

/// Whether a user account can be used by `owner` on `market`: it must be
/// initialized, belong to the owner and, where a market is given, be an
/// account of that market.
pub open spec fn spec_user_account_check(
    h: UserAccountHeader,
    owner: Seq<u8>,
    market: Option<Seq<u8>>,
) -> Result<(), ProgramFault> {
    if h.tag != AccountTag::UserAccount {
        Err(ProgramFault::InvalidAccountData)
    } else if h.owner@ != owner {
        Err(ProgramFault::InvalidArgument)
    } else if market is Some && h.market@ != market.unwrap() {
        Err(ProgramFault::InvalidArgument)
    } else {
        Ok(())
    }
}

/// Checks that a user account can be used by `owner` on `market`.
pub fn check_user_account(h: &UserAccountHeader, owner: &Address, market: Option<&Address>) -> (r:
    Result<(), ProgramFault>)
    ensures
        r == spec_user_account_check(
            *h,
            owner@,
            match market {
                Some(m) => Some(m@),
                None => None,
            },
        ),
{
    match h.tag {
        AccountTag::UserAccount => {},
        _ => {
            return Err(ProgramFault::InvalidAccountData);
        },
    }
    if !h.owner.same(owner) {
        return Err(ProgramFault::InvalidArgument);
    }
    match market {
        Some(m) => {
            if !h.market.same(m) {
                return Err(ProgramFault::InvalidArgument);
            }
        },
        None => {},
    }
    Ok(())
}

/// A user account: its address, its header, and its order slots. The first
/// `number_of_orders` slots are live; the others hold stale data.
#[derive(Debug)]
pub struct UserAccount {
    pub key: Address,
    pub header: UserAccountHeader,
    pub orders: Vec<Order>,
}

/// A user account as the contracts see it: its address, its header, its open
/// orders in slot order, and the number of slots.
pub struct AccountView {
    pub key: Seq<u8>,
    pub header: UserAccountHeader,
    pub live: Seq<Order>,
    pub capacity: int,
}

impl View for UserAccount {
    type V = AccountView;

    open spec fn view(&self) -> AccountView {
        AccountView {
            key: self.key@,
            header: self.header,
            live: self.live_orders(),
            capacity: self.spec_capacity(),
        }
    }
}

/// The views of the accounts of a list, in order.
pub open spec fn account_views(accounts: Seq<UserAccount>) -> Seq<AccountView> {
    accounts.map_values(|a: UserAccount| a@)
}

/// The addresses of the accounts of a list, in order.
pub open spec fn account_keys(accounts: Seq<AccountView>) -> Seq<Seq<u8>> {
    accounts.map_values(|a: AccountView| a.key)
}

/// Every account of the list keeps its order count within its capacity.
pub open spec fn accounts_wf(accounts: Seq<UserAccount>) -> bool {
    forall|i: int| 0 <= i < accounts.len() ==> (#[trigger] accounts[i]).wf()
}

/// At most one position is the first with a given id.
pub proof fn lemma_first_with_id_unique(live: Seq<Order>, order_id: u128, a: int, b: int)
    requires
        is_first_with_id(live, order_id, a),
        is_first_with_id(live, order_id, b),
    ensures
        a == b,
{
}

/// What a read at `index` gives among the live orders.
pub open spec fn spec_read_order(live: Seq<Order>, index: int) -> Option<Order> {
    if 0 <= index < live.len() {
        Some(live[index])
    } else {
        None
    }
}

/// The live orders once the one at `index` is removed: the last live order
/// takes its place.
pub open spec fn spec_remove_order(live: Seq<Order>, index: int) -> Seq<Order>
    recommends
        0 <= index < live.len(),
{
    if index == live.len() - 1 {
        live.drop_last()
    } else {
        live.update(index, live.last()).drop_last()
    }
}

/// Position of the first live order with the given id.
pub open spec fn is_first_with_id(live: Seq<Order>, order_id: u128, index: int) -> bool {
    &&& 0 <= index < live.len()
    &&& live[index].id == order_id
    &&& forall|j: int| 0 <= j < index ==> (#[trigger] live[j]).id != order_id
}

/// Position of the first live order with the given client id.
pub open spec fn is_first_with_client_id(live: Seq<Order>, client_id: u128, index: int) -> bool {
    &&& 0 <= index < live.len()
    &&& live[index].client_id == client_id
    &&& forall|j: int| 0 <= j < index ==> (#[trigger] live[j]).client_id != client_id
}

/// Removing the order at `index` shortens the list by one; a read at `index`
/// then gives the order that was last, unless the removed order was the last
/// itself, in which case nothing is left to read there.
pub proof fn lemma_remove_then_read(live: Seq<Order>, index: int)
    requires
        0 <= index < live.len(),
    ensures
        spec_remove_order(live, index).len() == live.len() - 1,
        index < live.len() - 1 ==> spec_read_order(spec_remove_order(live, index), index) == Some(
            live.last(),
        ),
        index == live.len() - 1 ==> spec_read_order(spec_remove_order(live, index), index)
            is None,
        forall|j: int|
            0 <= j < live.len() - 1 && j != index ==> spec_remove_order(live, index)[j] == live[j],
{
}

impl UserAccount {
    /// All order slots, live and stale.
    pub open spec fn slots(&self) -> Seq<Order> {
        self.orders@
    }

    /// The number of orders the account can hold.
    pub open spec fn spec_capacity(&self) -> int {
        self.slots().len() as int
    }

    /// The orders that are open.
    pub open spec fn live_orders(&self) -> Seq<Order> {
        self.slots().take(self.header.number_of_orders as int)
    }

    /// The order count is within the capacity, which fits the counter.
    pub open spec fn wf(&self) -> bool {
        &&& self.header.number_of_orders <= self.spec_capacity()
        &&& self.spec_capacity() <= u32::MAX
    }

    /// The bytes that an account of the given capacity takes when stored.
    pub fn compute_allocation_size(order_capacity: usize) -> (r: Result<usize, DexError>)
        ensures
            match r {
                Ok(n) => n == order_capacity * 32 + 152,
                Err(e) => e == DexError::NumericalOverflow && order_capacity * 32 + 152
                    > usize::MAX,
            },
    {
        if order_capacity > (usize::MAX - USER_ACCOUNT_HEADER_LEN) / ORDER_LEN {
            return Err(DexError::NumericalOverflow);
        }
        Ok(order_capacity * ORDER_LEN + USER_ACCOUNT_HEADER_LEN)
    }

    /// An account with the given header and `order_capacity` stale slots.
    pub fn from_parts(key: Address, header: UserAccountHeader, slots: Vec<Order>) -> (r:
        UserAccount)
        ensures
            r.key == key,
            r.header == header,
            r.slots() == slots@,
    {
        UserAccount { key, header, orders: slots }
    }

    /// A fresh account for `owner` on `market` with room for `order_capacity`
    /// orders.
    pub fn with_capacity(key: Address, market: &Address, owner: &Address, order_capacity: u32) -> (r:
        UserAccount)
        ensures
            r.wf(),
            r.key == key,
            r.header == UserAccountHeader::spec_new(*market, *owner),
            r.spec_capacity() == order_capacity,
            r.live_orders() == Seq::<Order>::empty(),
    {
        let mut orders: Vec<Order> = Vec::new();
        let mut i: u32 = 0;
        while i < order_capacity
            invariant
                0 <= i <= order_capacity,
                orders@.len() == i,
            decreases order_capacity - i,
        {
            orders.push(Order { id: 0, client_id: 0 });
            i += 1;
        }
        let r = UserAccount { key, header: UserAccountHeader::new(market, owner), orders };
        assert(r.live_orders() =~= Seq::<Order>::empty());
        r
    }

    /// The number of orders the account can hold.
    pub fn capacity(&self) -> (r: usize)
        ensures
            r == self.spec_capacity(),
    {
        self.orders.len()
    }

    /// The open order at `order_index`.
    pub fn read_order(&self, order_index: usize) -> (r: Result<Order, DexError>)
        requires
            self.wf(),
        ensures
            match r {
                Ok(order) => spec_read_order(self.live_orders(), order_index as int) == Some(
                    order,
                ),
                Err(e) => e == DexError::InvalidOrderIndex && spec_read_order(
                    self.live_orders(),
                    order_index as int,
                ) is None,
            },
    {
        if order_index >= self.header.number_of_orders as usize {
            return Err(DexError::InvalidOrderIndex);
        }
        Ok(self.orders[order_index])
    }

    /// Removes the open order at `order_index`: the last open order takes its
    /// slot and the count drops by one. The order of the others is kept.
    pub fn remove_order(&mut self, order_index: usize) -> (r: Result<(), DexError>)
        requires
            old(self).wf(),
        ensures
            final(self).wf(),
            final(self).key == old(self).key,
            final(self).spec_capacity() == old(self).spec_capacity(),
            match r {
                Ok(()) => {
                    &&& order_index < old(self).header.number_of_orders
                    &&& final(self).header == (UserAccountHeader {
                        number_of_orders: (old(self).header.number_of_orders - 1) as u32,
                        ..old(self).header
                    })
                    &&& final(self).live_orders() == spec_remove_order(
                        old(self).live_orders(),
                        order_index as int,
                    )
                },
                Err(e) => {
                    &&& e == DexError::InvalidOrderIndex
                    &&& order_index >= old(self).header.number_of_orders
                    &&& *final(self) == *old(self)
                },
            },
    {
        if order_index >= self.header.number_of_orders as usize {
            return Err(DexError::InvalidOrderIndex);
        }
        let last: usize = self.header.number_of_orders as usize - 1;
        if order_index != last {
            let moved = self.orders[last];
            self.orders.set(order_index, moved);
        }
        self.header.number_of_orders = self.header.number_of_orders - 1;
        assert(self.live_orders() =~= spec_remove_order(
            old(self).live_orders(),
            order_index as int,
        ));
        Ok(())
    }

    /// Records a new open order in the first free slot.
    pub fn add_order(&mut self, order: Order) -> (r: Result<(), DexError>)
        requires
            old(self).wf(),
        ensures
            final(self).wf(),
            final(self).key == old(self).key,
            final(self).spec_capacity() == old(self).spec_capacity(),
            match r {
                Ok(()) => {
                    &&& old(self).header.number_of_orders < old(self).spec_capacity()
                    &&& final(self).header == (UserAccountHeader {
                        number_of_orders: (old(self).header.number_of_orders + 1) as u32,
                        ..old(self).header
                    })
                    &&& final(self).live_orders() == old(self).live_orders().push(order)
                },
                Err(e) => {
                    &&& e == DexError::UserAccountFull
                    &&& old(self).header.number_of_orders == old(self).spec_capacity()
                    &&& *final(self) == *old(self)
                },
            },
    {
        let count: usize = self.header.number_of_orders as usize;
        if count >= self.orders.len() {
            return Err(DexError::UserAccountFull);
        }
        self.orders.set(count, order);
        self.header.number_of_orders = self.header.number_of_orders + 1;
        assert(self.live_orders() =~= old(self).live_orders().push(order));
        Ok(())
    }

    /// The slot of the open order with the given id.
    pub fn find_order_index(&self, order_id: u128) -> (r: Result<usize, DexError>)
        requires
            self.wf(),
        ensures
            match r {
                Ok(i) => is_first_with_id(self.live_orders(), order_id, i as int),
                Err(e) => e == DexError::OrderNotFound && forall|j: int|
                    0 <= j < self.live_orders().len() ==> (#[trigger] self.live_orders()[j]).id
                        != order_id,
            },
    {
        let count: usize = self.header.number_of_orders as usize;
        let mut i: usize = 0;
        while i < count
            invariant
                0 <= i <= count,
                count == self.header.number_of_orders,
                self.wf(),
                forall|j: int| 0 <= j < i ==> (#[trigger] self.live_orders()[j]).id != order_id,
            decreases count - i,
        {
            if self.orders[i].id == order_id {
                return Ok(i);
            }
            i += 1;
        }
        Err(DexError::OrderNotFound)
    }

    /// The slot of the open order with the given client id.
    pub fn find_order_index_by_client_id(&self, client_order_id: u128) -> (r: Result<
        usize,
        DexError,
    >)
        requires
            self.wf(),
        ensures
            match r {
                Ok(i) => is_first_with_client_id(self.live_orders(), client_order_id, i as int),
                Err(e) => e == DexError::OrderNotFound && forall|j: int|
                    0 <= j < self.live_orders().len() ==> (
                    #[trigger] self.live_orders()[j]).client_id != client_order_id,
            },
    {
        let count: usize = self.header.number_of_orders as usize;
        let mut i: usize = 0;
        while i < count
            invariant
                0 <= i <= count,
                count == self.header.number_of_orders,
                self.wf(),
                forall|j: int|
                    0 <= j < i ==> (#[trigger] self.live_orders()[j]).client_id
                        != client_order_id,
            decreases count - i,
        {
            if self.orders[i].client_id == client_order_id {
                return Ok(i);
            }
            i += 1;
        }
        Err(DexError::OrderNotFound)
    }

    /// The id of the open order with the given client id.
    pub fn find_order_id_by_client_id(&self, client_order_id: u128) -> (r: Result<u128, DexError>)
        requires
            self.wf(),
        ensures
            match r {
                Ok(id) => exists|i: int|
                    is_first_with_client_id(self.live_orders(), client_order_id, i)
                        && self.live_orders()[i].id == id,
                Err(e) => e == DexError::OrderNotFound && forall|j: int|
                    0 <= j < self.live_orders().len() ==> (
                    #[trigger] self.live_orders()[j]).client_id != client_order_id,
            },
    {
        match self.find_order_index_by_client_id(client_order_id) {
            Ok(i) => Ok(self.orders[i].id),
            Err(e) => Err(e),
        }
    }
}

/// What accompanies every order through the matching engine and comes back
/// with each event: the user account it belongs to, and the fee tier and
/// referral mark it was placed under.
#[derive(Clone, Copy, Debug)]
pub struct CallBackInfo {
    pub user_account: Address,
    pub fee_tier: u8,
}

} // verus!
