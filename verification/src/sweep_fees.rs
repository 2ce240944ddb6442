//! Sweeping accumulated royalties and fees out of a market.
use crate::consume_events::fits;
use crate::error::{dex_fault, DexError, ProgramFault};
use crate::address::Address;
use crate::pda::{check_market_signer, market_signer_seeds, program_address, spec_signer_check};
use crate::state::DexState;
use crate::token_account::{
    check_token_account_owner, spec_owner_check, token_account_of, TokenAccount,
};
use crate::utils::{
    accounts_from, spl_token_id, spl_token_program, sweep_authority, sweep_authority_id,
    AccountInfo,
};
use vstd::prelude::*;

verus! {

/// What is known of the creators of the base token.
#[derive(Debug)]
pub enum Royalties {
    /// The base token has no metadata record.
    NoMetadata,
    /// The metadata record lists no creators.
    NoCreators,
    /// The shares of the listed creators, in percent, in the record's order.
    Creators(Vec<u8>),
}

/// What the quote vault pays out in a sweep.
#[derive(Debug)]
pub struct SweepPlan {
    /// What each creator receives, in the order of the shares.
    pub creator_payouts: Vec<u64>,
    /// What the fee destination receives.
    pub fee_payout: u64,
}

/// The payouts to the first `n` creators and the royalty balance that is
/// left after them: each creator in turn receives their percentage of the
/// balance that is left at that point, rounded down. `None` when a product
/// leaves its range.
pub open spec fn spec_royalty_payouts(balance: u64, shares: Seq<u8>, n: int) -> Option<
    (Seq<u64>, u64),
>
    decreases n,
{
    if n <= 0 {
        Some((Seq::empty(), balance))
    } else {
        match spec_royalty_payouts(balance, shares, n - 1) {
            None => None,
            Some((paid, left)) => if fits(left * shares[n - 1]) {
                let amount = ((left * shares[n - 1]) / 100) as u64;
                if amount <= left {
                    Some((paid.push(amount), (left - amount) as u64))
                } else {
                    None
                }
            } else {
                None
            },
        }
    }
}

/// The sum of the first `n` shares.
pub open spec fn spec_share_sum(shares: Seq<u8>, n: int) -> int
    decreases n,
{
    if n <= 0 {
        0
    } else {
        spec_share_sum(shares, n - 1) + shares[n - 1]
    }
}

/// The shares that take part in a sweep: none unless the base token has
/// metadata and royalties wait.
pub open spec fn spec_sweep_shares(market: DexState, royalties: Royalties) -> Option<Seq<u8>> {
    match royalties {
        Royalties::Creators(shares) => if market.accumulated_royalties != 0 {
            Some(shares@)
        } else {
            None
        },
        _ => None,
    }
}

/// Whether the sweep has anything to do.
pub open spec fn spec_sweep_is_no_op(market: DexState, royalties: Royalties) -> bool {
    &&& market.accumulated_fees == 0
    &&& (royalties is NoMetadata || market.accumulated_royalties == 0)
}

/// What the creators receive and the royalty balance that is left, or why
/// the distribution fails.
pub open spec fn spec_distribute(balance: u64, shares: Seq<u8>) -> Result<
    (Seq<u64>, u64),
    ProgramFault,
> {
    match spec_royalty_payouts(balance, shares, shares.len() as int) {
        None => Err(dex_fault(DexError::NumericalOverflow)),
        Some(p) => if spec_share_sum(shares, shares.len() as int) == 100 {
            Ok(p)
        } else {
            Err(ProgramFault::InvalidAccountData)
        },
    }
}

/// Distributes the royalty balance among the creators by their shares, which
/// must sum to exactly 100.
pub fn distribute(balance: u64, shares: &Vec<u8>) -> (r: Result<(Vec<u64>, u64), ProgramFault>)
    ensures
        match spec_distribute(balance, shares@) {
            Ok((paid, left)) => r is Ok && r.unwrap().0@ == paid && r.unwrap().1 == left,
            Err(e) => r is Err && r.unwrap_err() == e,
        },
{
    let mut payouts: Vec<u64> = Vec::new();
    let mut left: u64 = balance;
    let mut sum: u128 = 0;
    let mut i: usize = 0;
    while i < shares.len()
        invariant
            0 <= i <= shares.len(),
            sum == spec_share_sum(shares@, i as int),
            sum <= 255 * i,
            spec_royalty_payouts(balance, shares@, i as int) == Some((payouts@, left)),
        decreases shares.len() - i,
    {
        let share: u8 = shares[i];
        let amount: u64 = match left.checked_mul(share as u64) {
            Some(v) => v / 100,
            None => {
                proof {
                    lemma_payouts_stay_none(balance, shares@, i + 1, shares.len() as int);
                }
                return Err(ProgramFault::from_dex(DexError::NumericalOverflow));
            },
        };
        if amount > left {
            proof {
                lemma_payouts_stay_none(balance, shares@, i + 1, shares.len() as int);
            }
            return Err(ProgramFault::from_dex(DexError::NumericalOverflow));
        }
        left = left - amount;
        payouts.push(amount);
        assert(i < usize::MAX <= u64::MAX);
        sum = sum + share as u128;
        i += 1;
    }
    if sum != 100 {
        return Err(ProgramFault::InvalidAccountData);
    }
    Ok((payouts, left))
}

/// Once a payout fails, the distribution fails however many creators follow.
proof fn lemma_payouts_stay_none(balance: u64, shares: Seq<u8>, k: int, n: int)
    requires
        0 <= k <= n,
        spec_royalty_payouts(balance, shares, k) is None,
    ensures
        spec_royalty_payouts(balance, shares, n) is None,
    decreases n - k,
{
    if k < n {
        lemma_payouts_stay_none(balance, shares, k, n - 1);
    }
}

/// Sweeps the market: the royalties go to the creators by their shares, the
/// trading fees to the fee destination. Returns what the quote vault must
/// pay. Fails with `NoOp` when nothing waits, and changes nothing when it
/// fails.
pub fn sweep_fees(market: &mut DexState, royalties: &Royalties) -> (r: Result<
    SweepPlan,
    ProgramFault,
>)
    ensures
        match spec_sweep_shares(*old(market), *royalties) {
            Some(shares) => match spec_distribute(old(market).accumulated_royalties, shares) {
                Err(e) => r is Err && r.unwrap_err() == e && *final(market) == *old(market),
                Ok((paid, left)) => {
                    &&& r is Ok
                    &&& r.unwrap().creator_payouts@ == paid
                    &&& r.unwrap().fee_payout == old(market).accumulated_fees
                    &&& *final(market) == (DexState {
                        accumulated_royalties: left,
                        accumulated_fees: 0,
                        ..*old(market)
                    })
                },
            },
            None => if spec_sweep_is_no_op(*old(market), *royalties) {
                &&& r is Err
                &&& r.unwrap_err() == dex_fault(DexError::NoOp)
                &&& *final(market) == *old(market)
            } else {
                &&& r is Ok
                &&& r.unwrap().creator_payouts@ == Seq::<u64>::empty()
                &&& r.unwrap().fee_payout == old(market).accumulated_fees
                &&& *final(market) == (DexState { accumulated_fees: 0, ..*old(market) })
            },
        },
{
    let mut no_op: bool = true;
    let mut creator_payouts: Vec<u64> = Vec::new();
    let mut royalties_left: u64 = market.accumulated_royalties;
    match royalties {
        Royalties::NoMetadata => {},
        Royalties::NoCreators => {
            if market.accumulated_royalties != 0 {
                no_op = false;
            }
        },
        Royalties::Creators(shares) => {
            if market.accumulated_royalties != 0 {
                no_op = false;
                match distribute(market.accumulated_royalties, shares) {
                    Ok((paid, left)) => {
                        creator_payouts = paid;
                        royalties_left = left;
                    },
                    Err(e) => {
                        return Err(e);
                    },
                }
            }
        },
    }
    let fee_payout: u64 = market.accumulated_fees;
    if fee_payout != 0 {
        no_op = false;
    }
    if no_op {
        return Err(ProgramFault::from_dex(DexError::NoOp));
    }
    market.accumulated_royalties = royalties_left;
    market.accumulated_fees = 0;
    Ok(SweepPlan { creator_payouts, fee_payout })
}

/// A distribution never pays out more than the royalty balance: what the
/// creators receive and what is left add up to what was there.
pub proof fn lemma_distribution_conserves(balance: u64, shares: Seq<u8>, n: int)
    requires
        0 <= n <= shares.len(),
        spec_royalty_payouts(balance, shares, n) is Some,
    ensures
        ({
            let p = spec_royalty_payouts(balance, shares, n).unwrap();
            &&& p.0.len() == n
            &&& spec_total(p.0) + p.1 == balance
        }),
    decreases n,
{
    if n > 0 {
        lemma_distribution_conserves(balance, shares, n - 1);
        let prev = spec_royalty_payouts(balance, shares, n - 1).unwrap();
        let p = spec_royalty_payouts(balance, shares, n).unwrap();
        assert(p.0.drop_last() =~= prev.0);
    }
}

/// The sum of the amounts.
pub open spec fn spec_total(amounts: Seq<u64>) -> int
    decreases amounts.len(),
{
    if amounts.len() == 0 {
        0
    } else {
        spec_total(amounts.drop_last()) + amounts.last()
    }
}

/// The accounts of a sweep: six fixed ones, then the token accounts of
/// the creators, in the order of the metadata record.
#[derive(Debug)]
pub struct Accounts {
    pub market: AccountInfo,
    pub market_signer: AccountInfo,
    pub quote_vault: AccountInfo,
    pub destination_token_account: AccountInfo,
    pub spl_token_program: AccountInfo,
    pub token_metadata: AccountInfo,
    pub creators_token_accounts: Vec<AccountInfo>,
}

/// Whether the list of accounts passes the checks that need no ledger, or
/// the first that it fails.
pub open spec fn spec_parse_check(program_id: Address, accounts: Seq<AccountInfo>) -> Result<
    (),
    ProgramFault,
> {
    if accounts.len() < 6 {
        Err(ProgramFault::NotEnoughAccountKeys)
    } else if accounts[4].key@ != spl_token_id() {
        Err(dex_fault(DexError::InvalidSplTokenProgram))
    } else if accounts[0].owner@ != program_id@ {
        Err(dex_fault(DexError::InvalidStateAccountOwner))
    } else {
        Ok(())
    }
}

impl Accounts {
    /// Reads the accounts from the list in their fixed order and checks
    /// what can be checked of them without the ledgers.
    pub fn parse(program_id: &Address, accounts: &Vec<AccountInfo>) -> (r: Result<
        Accounts,
        ProgramFault,
    >)
        ensures
            match spec_parse_check(*program_id, accounts@) {
                Err(e) => r is Err && r.unwrap_err() == e,
                Ok(()) => {
                    &&& r is Ok
                    &&& r.unwrap().market == accounts[0]
                    &&& r.unwrap().market_signer == accounts[1]
                    &&& r.unwrap().quote_vault == accounts[2]
                    &&& r.unwrap().destination_token_account == accounts[3]
                    &&& r.unwrap().spl_token_program == accounts[4]
                    &&& r.unwrap().token_metadata == accounts[5]
                    &&& r.unwrap().creators_token_accounts@ == accounts@.skip(6)
                },
            },
    {
        if accounts.len() < 6 {
            return Err(ProgramFault::NotEnoughAccountKeys);
        }
        if !accounts[4].key.same(&spl_token_program()) {
            return Err(ProgramFault::from_dex(DexError::InvalidSplTokenProgram));
        }
        if !accounts[0].owner.same(program_id) {
            return Err(ProgramFault::from_dex(DexError::InvalidStateAccountOwner));
        }
        Ok(
            Accounts {
                market: accounts[0],
                market_signer: accounts[1],
                quote_vault: accounts[2],
                destination_token_account: accounts[3],
                spl_token_program: accounts[4],
                token_metadata: accounts[5],
                creators_token_accounts: accounts_from(accounts, 6),
            },
        )
    }
}

/// Whether the accounts of a sweep are the market's own and the
/// destination belongs to the sweep authority; or the first check that
/// fails.
pub open spec fn spec_check_accounts(
    derived_signer: Option<Seq<u8>>,
    market_state: DexState,
    market_signer: Seq<u8>,
    quote_vault: Seq<u8>,
    destination: Result<TokenAccount, ProgramFault>,
) -> Result<(), ProgramFault> {
    if spec_signer_check(derived_signer, market_signer) is Err {
        spec_signer_check(derived_signer, market_signer)
    } else if quote_vault != market_state.quote_vault@ {
        Err(dex_fault(DexError::InvalidQuoteVaultAccount))
    } else {
        spec_owner_check(destination, sweep_authority_id())
    }
}

/// Checks the accounts of a sweep against the market's ledger, its signer
/// and the sweep authority.
pub fn check_accounts(
    program_id: &Address,
    market_state: &DexState,
    accounts: &Accounts,
    destination_data: &[u8],
) -> (r: Result<(), ProgramFault>)
    ensures
        r == spec_check_accounts(
            program_address(
                market_signer_seeds(accounts.market.key@, market_state.signer_nonce),
                program_id@,
            ),
            *market_state,
            accounts.market_signer.key@,
            accounts.quote_vault.key@,
            token_account_of(destination_data@),
        ),
{
    match check_market_signer(
        &accounts.market_signer.key,
        &accounts.market.key,
        market_state.signer_nonce,
        program_id,
    ) {
        Ok(()) => {},
        Err(e) => {
            return Err(e);
        },
    }
    if !accounts.quote_vault.key.same(&market_state.quote_vault) {
        return Err(ProgramFault::from_dex(DexError::InvalidQuoteVaultAccount));
    }
    check_token_account_owner(destination_data, &sweep_authority())
}

} // verus!
