use dex_v4::address::Address;
use dex_v4::error::{DexError, ProgramFault};
use dex_v4::new_order::OrderSummary;
use dex_v4::state::{AccountTag, DexState, FeeSchedule, FeeTier, MarketFeeType, SelfTradeBehavior, Side};
use dex_v4::swap::{check_funds, prepare_swap, swap_outcome, Accounts, Params, SwapOutcome};
use dex_v4::utils::{spl_token_program, system_program, AccountInfo};

fn addr(b: u8) -> Address {
    Address::new([b; 32])
}

fn market() -> DexState {
    let zero = addr(0);
    DexState {
        tag: AccountTag::DexState,
        base_mint: zero,
        quote_mint: zero,
        base_vault: addr(8),
        quote_vault: addr(9),
        orderbook: addr(4),
        admin: zero,
        creation_timestamp: 0,
        base_volume: 0,
        quote_volume: 0,
        accumulated_fees: 0,
        min_base_order_size: 2,
        royalties_bps: 100,
        accumulated_royalties: 0,
        base_currency_multiplier: 1,
        quote_currency_multiplier: 1,
        signer_nonce: 0,
        fee_type: MarketFeeType::Default,
        fee_schedule: FeeSchedule::standard(),
    }
}

fn params(side: Side, base: u64, quote: u64) -> Params {
    Params {
        side,
        base_qty: base,
        quote_qty: quote,
        match_limit: 7,
        has_discount_token_account: false,
    }
}

fn summary(base: u64, quote: u64) -> OrderSummary {
    OrderSummary {
        posted_order_id: None,
        total_base_qty: base,
        total_quote_qty: quote,
        total_base_qty_posted: 0,
    }
}

#[test]
fn swap_below_the_minimum_size_is_refused() {
    let m = market();
    assert_eq!(
        prepare_swap(&m, &params(Side::Bid, 1, 100), FeeTier::Base, false, 10).err(),
        Some(ProgramFault::InvalidArgument)
    );
    assert!(prepare_swap(&m, &params(Side::Bid, 2, 100), FeeTier::Base, false, 10).is_ok());
}

#[test]
fn swap_is_forwarded_at_any_price_without_posting() {
    let m = market();
    let bid = prepare_swap(&m, &params(Side::Bid, 5, 1_000_000), FeeTier::Base, true, 10).unwrap();
    assert_eq!(bid.quote_qty, 999_600);
    assert_eq!(bid.engine_order.max_base_qty, u64::MAX);
    assert_eq!(bid.engine_order.max_quote_qty, 999_600);
    assert_eq!(bid.engine_order.limit_price, u64::MAX - 5);
    assert_eq!(bid.engine_order.match_limit, 7);
    assert!(!bid.engine_order.post_only && !bid.engine_order.post_allowed);
    assert_eq!(bid.engine_order.callback_info.user_account, addr(0));
    assert_eq!(bid.engine_order.callback_info.fee_tier, 0x80);
    assert_eq!(
        bid.engine_order.self_trade_behavior,
        SelfTradeBehavior::DecrementTake
    );
    let ask = prepare_swap(&m, &params(Side::Ask, 5, 1_000_000), FeeTier::Srm2, false, 10).unwrap();
    assert_eq!(ask.quote_qty, 1_000_000);
    assert_eq!(ask.engine_order.max_base_qty, 5);
    assert_eq!(ask.engine_order.max_quote_qty, u64::MAX);
    assert_eq!(ask.engine_order.limit_price, 0);
    assert_eq!(ask.engine_order.callback_info.fee_tier, 1);
}

#[test]
fn bid_swap_pays_quote_with_fee_and_royalty() {
    let m = market();
    let p = params(Side::Bid, 5, 2_000_000);
    assert_eq!(
        swap_outcome(&m, &p, 1_999_200, FeeTier::Base, true, &summary(5, 1_000_000)),
        Ok(SwapOutcome {
            base_transfer_qty: 5,
            quote_transfer_qty: 1_000_000 + 399 + 10_000,
            referral_fee: 79
        })
    );
    assert_eq!(
        swap_outcome(&m, &p, 1_999_200, FeeTier::Base, false, &summary(4, 1_000_000)),
        Err(DexError::TransactionAborted)
    );
    assert_eq!(
        swap_outcome(&m, &p, 0, FeeTier::Base, false, &summary(5, u64::MAX)),
        Err(DexError::NumericalOverflow)
    );
}

#[test]
fn ask_swap_earns_quote_less_fee_and_royalty() {
    let m = market();
    let p = params(Side::Ask, 5, 900_000);
    assert_eq!(
        swap_outcome(&m, &p, 900_000, FeeTier::Base, false, &summary(5, 1_000_000)),
        Ok(SwapOutcome {
            base_transfer_qty: 5,
            quote_transfer_qty: 1_000_000 - 399 - 10_000,
            referral_fee: 0
        })
    );
    assert_eq!(
        swap_outcome(&m, &p, 900_000, FeeTier::Base, false, &summary(5, 899_999)),
        Err(DexError::TransactionAborted)
    );
}

#[test]
fn wallet_must_afford_the_reward() {
    assert_eq!(check_funds(100, 60, 40), Ok(()));
    assert_eq!(check_funds(99, 60, 40), Err(DexError::OutofFunds));
    assert_eq!(check_funds(u64::MAX, u64::MAX, 1), Err(DexError::OutofFunds));
    assert_eq!(check_funds(0, 0, 0), Ok(()));
}

#[test]
fn swap_accounts_and_arguments() {
    let mut l: Vec<AccountInfo> = (0..15u8)
        .map(|i| AccountInfo {
            key: addr(i + 1),
            owner: addr(200),
            is_signer: true,
            is_writable: true,
            lamports: 0,
            data_len: 0,
        })
        .collect();
    l[0].key = spl_token_program();
    l[1].key = system_program();
    l[13].owner = spl_token_program();
    let a = Accounts::parse(&addr(200), &l, true).unwrap();
    assert_eq!(a.market_signer.key, addr(10));
    assert_eq!(a.user_owner.key, addr(13));
    assert_eq!(a.discount_token_account.map(|x| x.key), Some(addr(14)));
    assert_eq!(a.fee_referral_account.map(|x| x.key), Some(addr(15)));
    l[12].is_signer = false;
    assert_eq!(
        Accounts::parse(&addr(200), &l, true).err(),
        Some(ProgramFault::MissingRequiredSignature)
    );
    l.truncate(12);
    assert_eq!(
        Accounts::parse(&addr(200), &l, false).err(),
        Some(ProgramFault::NotEnoughAccountKeys)
    );
    let p = Params {
        side: Side::Ask,
        base_qty: 1,
        quote_qty: 2,
        match_limit: 3,
        has_discount_token_account: true,
    };
    let bytes = p.to_bytes();
    assert_eq!(bytes.len(), 32);
    assert_eq!(&bytes[24..], &[1, 1, 0, 0, 0, 0, 0, 0]);
    let q = Params::from_bytes(&bytes).unwrap();
    assert_eq!((q.base_qty, q.quote_qty, q.match_limit), (1, 2, 3));
    assert_eq!(q.side, Side::Ask);
    assert!(q.has_discount_token_account);
    let mut bad = bytes.clone();
    bad[24] = 2;
    assert_eq!(
        Params::from_bytes(&bad).err(),
        Some(ProgramFault::InvalidInstructionData)
    );
    let ix = dex_v4::instruction::swap(addr(200), &a, &p);
    assert_eq!(ix.accounts.len(), 15);
    assert_eq!(ix.data[0], 2);
    assert_eq!(ix.data.len(), 40);
    assert!(ix.accounts[12].is_signer);
    assert!(!ix.accounts[9].is_writable);
}
