//! Closing a market.
use crate::address::Address;
use crate::error::{dex_fault, DexError, ProgramFault};
use crate::pda::{check_market_signer, market_signer_seeds, program_address, spec_signer_check};
use crate::utils::{spl_token_id, spl_token_program, AccountInfo};
use crate::state::{AccountTag, DexState};
use vstd::prelude::*;

verus! {

/// Whether the market can be closed: both vaults are empty and no fee
/// waits to be swept.
pub open spec fn spec_can_close(market: DexState, base_vault_amount: u64, quote_vault_amount: u64)
    -> bool {
    base_vault_amount == 0 && quote_vault_amount == 0 && market.accumulated_fees == 0
}

/// Marks the market closed, which nothing undoes. A market whose vaults
/// still hold tokens, or which has fees to sweep, stays as it is.
pub fn close_market(market: &mut DexState, base_vault_amount: u64, quote_vault_amount: u64) -> (r:
    Result<(), DexError>)
    ensures
        r == (if spec_can_close(*old(market), base_vault_amount, quote_vault_amount) {
            Ok::<(), DexError>(())
        } else {
            Err::<(), DexError>(DexError::MarketStillActive)
        }),
        *final(market) == (if spec_can_close(*old(market), base_vault_amount, quote_vault_amount) {
            DexState { tag: AccountTag::Closed, ..*old(market) }
        } else {
            *old(market)
        }),
{
    if base_vault_amount != 0 || quote_vault_amount != 0 {
        return Err(DexError::MarketStillActive);
    }
    if market.accumulated_fees != 0 {
        return Err(DexError::MarketStillActive);
    }
    market.tag = AccountTag::Closed;
    Ok(())
}

/// The accounts of a market closure.
#[derive(Clone, Copy, Debug)]
pub struct Accounts {
    pub market: AccountInfo,
    pub base_vault: AccountInfo,
    pub quote_vault: AccountInfo,
    pub orderbook: AccountInfo,
    pub event_queue: AccountInfo,
    pub bids: AccountInfo,
    pub asks: AccountInfo,
    pub market_admin: AccountInfo,
    pub target_lamports_account: AccountInfo,
    pub market_signer: AccountInfo,
    pub spl_token_program: AccountInfo,
}

/// The accounts of the operation, read from the list in their fixed
/// order, or the first check that the list fails.
pub open spec fn spec_parse(program_id: Address, accounts: Seq<AccountInfo>) -> Result<
    Accounts,
    ProgramFault,
> {
    if accounts.len() < 11 {
        Err(ProgramFault::NotEnoughAccountKeys)
    } else if accounts[10].key@ != spl_token_id() {
        Err(dex_fault(DexError::InvalidStateAccountOwner))
    } else if accounts[0].owner@ != program_id@ {
        Err(dex_fault(DexError::InvalidStateAccountOwner))
    } else if !accounts[7].is_signer {
        Err(ProgramFault::MissingRequiredSignature)
    } else {
        Ok(
            Accounts {
                market: accounts[0],
                base_vault: accounts[1],
                quote_vault: accounts[2],
                orderbook: accounts[3],
                event_queue: accounts[4],
                bids: accounts[5],
                asks: accounts[6],
                market_admin: accounts[7],
                target_lamports_account: accounts[8],
                market_signer: accounts[9],
                spl_token_program: accounts[10],
            },
        )
    }
}

impl Accounts {
    /// Reads the accounts from the list in their fixed order and checks
    /// what can be checked of them without the ledgers.
    pub fn parse(program_id: &Address, accounts: &Vec<AccountInfo>) -> (r: Result<
        Accounts,
        ProgramFault,
    >)
        ensures
            r == spec_parse(*program_id, accounts@),
    {
        if accounts.len() < 11 {
            return Err(ProgramFault::NotEnoughAccountKeys);
        }
        let a = Accounts {
            market: accounts[0],
            base_vault: accounts[1],
            quote_vault: accounts[2],
            orderbook: accounts[3],
            event_queue: accounts[4],
            bids: accounts[5],
            asks: accounts[6],
            market_admin: accounts[7],
            target_lamports_account: accounts[8],
            market_signer: accounts[9],
            spl_token_program: accounts[10],
        };
        if !a.spl_token_program.key.same(&spl_token_program()) {
            return Err(ProgramFault::from_dex(DexError::InvalidStateAccountOwner));
        }
        if !a.market.owner.same(program_id) {
            return Err(ProgramFault::from_dex(DexError::InvalidStateAccountOwner));
        }
        if !a.market_admin.is_signer {
            return Err(ProgramFault::MissingRequiredSignature);
        }
        Ok(a)
    }
}

/// Whether the accounts are the ones that the market's ledger names, or
/// the first that is not.
pub open spec fn spec_check_accounts(
    derived_signer: Option<Seq<u8>>,
    market_state: DexState,
    accounts: Accounts,
) -> Result<(), ProgramFault> {
    if spec_signer_check(derived_signer, accounts.market_signer.key@) is Err {
        spec_signer_check(derived_signer, accounts.market_signer.key@)
    } else if accounts.orderbook.key@ != market_state.orderbook@ {
        Err(dex_fault(DexError::InvalidOrderbookAccount))
    } else if accounts.market_admin.key@ != market_state.admin@ {
        Err(dex_fault(DexError::InvalidMarketAdminAccount))
    } else if accounts.base_vault.key@ != market_state.base_vault@ {
        Err(dex_fault(DexError::InvalidBaseVaultAccount))
    } else if accounts.quote_vault.key@ != market_state.quote_vault@ {
        Err(dex_fault(DexError::InvalidQuoteVaultAccount))
    } else {
        Ok(())
    }
}

/// Checks the accounts against the market's ledger and its signer.
pub fn check_accounts(program_id: &Address, market_state: &DexState, accounts: &Accounts) -> (r:
    Result<(), ProgramFault>)
    ensures
        r == spec_check_accounts(
            program_address(
                market_signer_seeds(accounts.market.key@, market_state.signer_nonce),
                program_id@,
            ),
            *market_state,
            *accounts,
        ),
{
    match check_market_signer(
        &accounts.market_signer.key,
        &accounts.market.key,
        market_state.signer_nonce,
        program_id,
    ) {
        Ok(()) => {},
        Err(e) => {
            return Err(e);
        },
    }
    if !accounts.orderbook.key.same(&market_state.orderbook) {
        return Err(ProgramFault::from_dex(DexError::InvalidOrderbookAccount));
    }
    if !accounts.market_admin.key.same(&market_state.admin) {
        return Err(ProgramFault::from_dex(DexError::InvalidMarketAdminAccount));
    }
    if !accounts.base_vault.key.same(&market_state.base_vault) {
        return Err(ProgramFault::from_dex(DexError::InvalidBaseVaultAccount));
    }
    if !accounts.quote_vault.key.same(&market_state.quote_vault) {
        return Err(ProgramFault::from_dex(DexError::InvalidQuoteVaultAccount));
    }
    Ok(())
}

} // verus!
