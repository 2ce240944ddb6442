//! Taking over the royalty rate of the base token's metadata.
use crate::error::{dex_fault, DexError, ProgramFault};
use crate::metadata::{spec_creator_share_sum, verify_metadata, Creator};
use crate::address::Address;
use crate::state::DexState;
use crate::utils::AccountInfo;
use vstd::prelude::*;

verus! {

/// Sets the market's royalty rate to the one the metadata record names. The
/// event queue presented must be the order book's, and must be empty, so
/// that no trade made under the old rate is still waiting; the creators'
/// shares must sum to 100. A refusal changes nothing.
pub fn update_royalties(
    market: &mut DexState,
    event_queue_matches: bool,
    event_queue_len: u64,
    creators: &Vec<Creator>,
    seller_fee_basis_points: u16,
) -> (r: Result<(), ProgramFault>)
    ensures
        r == (if !event_queue_matches {
            Err::<(), ProgramFault>(dex_fault(DexError::EventQueueMismatch))
        } else if event_queue_len != 0 {
            Err::<(), ProgramFault>(dex_fault(DexError::EventQueueMustBeEmpty))
        } else if spec_creator_share_sum(creators@, creators.len() as int) != 100 {
            Err::<(), ProgramFault>(ProgramFault::InvalidArgument)
        } else {
            Ok::<(), ProgramFault>(())
        }),
        *final(market) == (if r is Ok {
            DexState { royalties_bps: seller_fee_basis_points as u64, ..*old(market) }
        } else {
            *old(market)
        }),
{
    if !event_queue_matches {
        return Err(ProgramFault::from_dex(DexError::EventQueueMismatch));
    }
    if event_queue_len != 0 {
        return Err(ProgramFault::from_dex(DexError::EventQueueMustBeEmpty));
    }
    match verify_metadata(creators) {
        Ok(()) => {},
        Err(e) => {
            return Err(e);
        },
    }
    market.royalties_bps = seller_fee_basis_points as u64;
    Ok(())
}

/// The accounts of a royalty update.
#[derive(Clone, Copy, Debug)]
pub struct Accounts {
    pub market: AccountInfo,
    pub event_queue: AccountInfo,
    pub orderbook: AccountInfo,
    pub token_metadata: AccountInfo,
}

/// The accounts of the operation, read from the list in their fixed
/// order, or the first check that the list fails.
pub open spec fn spec_parse(program_id: Address, accounts: Seq<AccountInfo>) -> Result<
    Accounts,
    ProgramFault,
> {
    if accounts.len() < 4 {
        Err(ProgramFault::NotEnoughAccountKeys)
    } else if accounts[0].owner@ != program_id@ {
        Err(dex_fault(DexError::InvalidStateAccountOwner))
    } else if accounts[2].owner@ != program_id@ {
        Err(dex_fault(DexError::InvalidStateAccountOwner))
    } else if accounts[1].owner@ != program_id@ {
        Err(dex_fault(DexError::InvalidStateAccountOwner))
    } else {
        Ok(
            Accounts {
                market: accounts[0],
                event_queue: accounts[1],
                orderbook: accounts[2],
                token_metadata: accounts[3],
            },
        )
    }
}

impl Accounts {
    /// Reads the accounts from the list in their fixed order and checks
    /// what can be checked of them without the ledgers.
    pub fn parse(program_id: &Address, accounts: &Vec<AccountInfo>) -> (r: Result<
        Accounts,
        ProgramFault,
    >)
        ensures
            r == spec_parse(*program_id, accounts@),
    {
        if accounts.len() < 4 {
            return Err(ProgramFault::NotEnoughAccountKeys);
        }
        let a = Accounts {
            market: accounts[0],
            event_queue: accounts[1],
            orderbook: accounts[2],
            token_metadata: accounts[3],
        };
        if !a.market.owner.same(program_id) {
            return Err(ProgramFault::from_dex(DexError::InvalidStateAccountOwner));
        }
        if !a.orderbook.owner.same(program_id) {
            return Err(ProgramFault::from_dex(DexError::InvalidStateAccountOwner));
        }
        if !a.event_queue.owner.same(program_id) {
            return Err(ProgramFault::from_dex(DexError::InvalidStateAccountOwner));
        }
        Ok(a)
    }
}

/// Whether the accounts are the ones that the market's ledger names, or
/// the first that is not.
pub open spec fn spec_check_accounts(
    market_state: DexState,
    accounts: Accounts,
) -> Result<(), ProgramFault> {
    if accounts.orderbook.key@ != market_state.orderbook@ {
        Err(dex_fault(DexError::InvalidOrderbookAccount))
    } else {
        Ok(())
    }
}

/// Checks the accounts against the market's ledger.
pub fn check_accounts(market_state: &DexState, accounts: &Accounts) -> (r: Result<
    (),
    ProgramFault,
>)
    ensures
        r == spec_check_accounts(*market_state, *accounts),
{
    if !accounts.orderbook.key.same(&market_state.orderbook) {
        return Err(ProgramFault::from_dex(DexError::InvalidOrderbookAccount));
    }
    Ok(())
}

} // verus!
