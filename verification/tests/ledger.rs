use dex_v4::address::{Address, Rank};
use dex_v4::consume_events::find_account;
use dex_v4::error::{DexError, ProgramFault};
use dex_v4::settle::{settle, Settlement};
use dex_v4::state::{AccountTag, Side};
use dex_v4::user_account::{
    check_user_account, get_price_from_order_id, get_side_from_order_id, Order, UserAccount,
    UserAccountHeader,
};

fn addr(b: u8) -> Address {
    Address::new([b; 32])
}

fn account(capacity: u32) -> UserAccount {
    UserAccount::with_capacity(addr(1), &addr(2), &addr(3), capacity)
}

fn order(n: u128) -> Order {
    Order {
        id: n,
        client_id: n + 1000,
    }
}

#[test]
fn fresh_account_is_empty() {
    let a = account(4);
    assert_eq!(a.capacity(), 4);
    assert_eq!(a.header.number_of_orders, 0);
    assert_eq!(a.header.tag, AccountTag::UserAccount);
    assert_eq!(a.header.market, addr(2));
    assert_eq!(a.header.owner, addr(3));
    assert_eq!(a.header.base_token_free, 0);
    assert_eq!(a.header.quote_token_locked, 0);
    assert_eq!(a.read_order(0), Err(DexError::InvalidOrderIndex));
    let h = UserAccountHeader::new(&addr(2), &addr(3));
    assert_eq!(h.number_of_orders, 0);
    assert_eq!(h.accumulated_rebates, 0);
}

#[test]
fn allocation_size_counts_header_and_slots() {
    assert_eq!(UserAccount::compute_allocation_size(0), Ok(152));
    assert_eq!(UserAccount::compute_allocation_size(1), Ok(184));
    assert_eq!(UserAccount::compute_allocation_size(100), Ok(3352));
    assert_eq!(
        UserAccount::compute_allocation_size(usize::MAX),
        Err(DexError::NumericalOverflow)
    );
    assert_eq!(
        UserAccount::compute_allocation_size(usize::MAX / 32),
        Err(DexError::NumericalOverflow)
    );
}

#[test]
fn full_account_refuses_an_order_and_keeps_its_orders() {
    let mut a = account(3);
    for n in 0..3 {
        assert_eq!(a.add_order(order(n)), Ok(()));
    }
    assert_eq!(a.header.number_of_orders, 3);
    assert_eq!(a.add_order(order(99)), Err(DexError::UserAccountFull));
    assert_eq!(a.header.number_of_orders, 3);
    for n in 0..3 {
        assert_eq!(a.read_order(n as usize), Ok(order(n)));
    }
    assert_eq!(a.find_order_index(99), Err(DexError::OrderNotFound));
}

#[test]
fn account_without_slots_is_always_full() {
    let mut a = account(0);
    assert_eq!(a.add_order(order(1)), Err(DexError::UserAccountFull));
    assert_eq!(a.header.number_of_orders, 0);
}

#[test]
fn removal_moves_the_last_order_into_the_slot() {
    let mut a = account(5);
    for n in 0..4 {
        a.add_order(order(n)).unwrap();
    }
    assert_eq!(a.remove_order(1), Ok(()));
    assert_eq!(a.header.number_of_orders, 3);
    assert_eq!(a.read_order(1), Ok(order(3)));
    assert_eq!(a.read_order(0), Ok(order(0)));
    assert_eq!(a.read_order(2), Ok(order(2)));
    assert_eq!(a.read_order(3), Err(DexError::InvalidOrderIndex));
}

#[test]
fn removal_of_the_last_order_leaves_nothing_to_read_there() {
    let mut a = account(5);
    for n in 0..3 {
        a.add_order(order(n)).unwrap();
    }
    assert_eq!(a.remove_order(2), Ok(()));
    assert_eq!(a.header.number_of_orders, 2);
    assert_eq!(a.read_order(2), Err(DexError::InvalidOrderIndex));
    assert_eq!(a.read_order(1), Ok(order(1)));
    assert_eq!(a.find_order_index(2), Err(DexError::OrderNotFound));
}

#[test]
fn removal_outside_the_live_orders_fails() {
    let mut a = account(5);
    a.add_order(order(7)).unwrap();
    assert_eq!(a.remove_order(1), Err(DexError::InvalidOrderIndex));
    assert_eq!(a.remove_order(5), Err(DexError::InvalidOrderIndex));
    assert_eq!(a.header.number_of_orders, 1);
    assert_eq!(a.read_order(0), Ok(order(7)));
}

#[test]
fn lookups_find_the_first_match() {
    let mut a = account(5);
    a.add_order(Order { id: 10, client_id: 1 }).unwrap();
    a.add_order(Order { id: 11, client_id: 2 }).unwrap();
    a.add_order(Order { id: 12, client_id: 2 }).unwrap();
    assert_eq!(a.find_order_index(11), Ok(1));
    assert_eq!(a.find_order_id_by_client_id(2), Ok(11));
    assert_eq!(a.find_order_index_by_client_id(2), Ok(1));
    assert_eq!(a.find_order_id_by_client_id(3), Err(DexError::OrderNotFound));
    assert_eq!(a.find_order_index(0), Err(DexError::OrderNotFound));
}

#[test]
fn stale_slots_are_not_found() {
    let mut a = account(2);
    a.add_order(order(5)).unwrap();
    a.remove_order(0).unwrap();
    assert_eq!(a.find_order_index(5), Err(DexError::OrderNotFound));
    assert_eq!(a.find_order_index(0), Err(DexError::OrderNotFound));
    assert_eq!(
        a.find_order_id_by_client_id(1005),
        Err(DexError::OrderNotFound)
    );
}

#[test]
fn order_id_encodes_side_and_price() {
    let ask: u128 = (9u128 << 64) | 5;
    let bid: u128 = (11u128 << 64) | (!5u64 as u128);
    assert_eq!(get_side_from_order_id(ask), Side::Ask);
    assert_eq!(get_side_from_order_id(bid), Side::Bid);
    assert_eq!(get_side_from_order_id(1 << 63), Side::Bid);
    assert_eq!(get_side_from_order_id((1 << 63) - 1), Side::Ask);
    assert_eq!(get_side_from_order_id(u128::MAX), Side::Bid);
    assert_eq!(get_price_from_order_id(ask), 9);
    assert_eq!(get_price_from_order_id(bid), 11);
    assert_eq!(get_price_from_order_id(u128::MAX), u64::MAX);
    assert_eq!(Side::Bid.opposite(), Side::Ask);
    assert_eq!(Side::Ask.opposite(), Side::Bid);
}

#[test]
fn settlement_pays_out_all_that_is_free() {
    let mut a = account(2);
    a.add_order(order(1)).unwrap();
    a.header.base_token_free = 7;
    a.header.base_token_locked = 3;
    a.header.quote_token_free = 11;
    a.header.quote_token_locked = 13;
    let paid = settle(&mut a);
    assert_eq!(
        paid,
        Settlement {
            base_amount: 7,
            quote_amount: 11
        }
    );
    assert_eq!(a.header.base_token_free, 0);
    assert_eq!(a.header.quote_token_free, 0);
    assert_eq!(a.header.base_token_locked, 3);
    assert_eq!(a.header.quote_token_locked, 13);
    assert_eq!(a.header.number_of_orders, 1);
    assert_eq!(
        settle(&mut a),
        Settlement {
            base_amount: 0,
            quote_amount: 0
        }
    );
}

#[test]
fn user_account_must_match_owner_and_market() {
    let a = account(1);
    assert_eq!(check_user_account(&a.header, &addr(3), Some(&addr(2))), Ok(()));
    assert_eq!(check_user_account(&a.header, &addr(3), None), Ok(()));
    assert_eq!(
        check_user_account(&a.header, &addr(4), Some(&addr(2))),
        Err(ProgramFault::InvalidArgument)
    );
    assert_eq!(
        check_user_account(&a.header, &addr(3), Some(&addr(9))),
        Err(ProgramFault::InvalidArgument)
    );
    let mut h = a.header;
    h.tag = AccountTag::Uninitialized;
    assert_eq!(
        check_user_account(&h, &addr(3), Some(&addr(2))),
        Err(ProgramFault::InvalidAccountData)
    );
}

#[test]
fn addresses_are_ordered_byte_by_byte() {
    let mut low = [0u8; 32];
    let mut high = [0u8; 32];
    low[31] = 255;
    high[0] = 1;
    let low = Address::new(low);
    let high = Address::new(high);
    assert_eq!(low.rank(&high), Rank::Before);
    assert_eq!(high.rank(&low), Rank::After);
    assert_eq!(low.rank(&low), Rank::Same);
    assert!(low.same(&low));
    assert!(!low.same(&high));
    assert_eq!(high.to_vec(), high.bytes.to_vec());
    assert!(low.bytes < high.bytes);
}

#[test]
fn sorted_search_finds_exactly_what_is_there() {
    let accounts: Vec<UserAccount> = [2u8, 4, 6, 8, 10]
        .iter()
        .map(|b| UserAccount::with_capacity(addr(*b), &addr(0), &addr(0), 0))
        .collect();
    for (i, a) in accounts.iter().enumerate() {
        assert_eq!(find_account(&accounts, &a.key), Some(i));
    }
    for b in [0u8, 1, 3, 5, 7, 9, 11, 255] {
        assert_eq!(find_account(&accounts, &addr(b)), None);
    }
    assert_eq!(find_account(&Vec::new(), &addr(1)), None);
}
