//! Settlement: paying out everything that is free.
use crate::address::Address;
use crate::error::{dex_fault, DexError, ProgramFault};
use crate::pda::{check_market_signer, market_signer_seeds, program_address, spec_signer_check};
use crate::state::DexState;
use crate::user_account::{
    check_user_account, spec_user_account_check, UserAccount, UserAccountHeader,
};
use crate::utils::{spl_token_id, spl_token_program, AccountInfo};
use vstd::prelude::*;

verus! {

/// What the vaults pay out to the owner's token accounts.
#[derive(Clone, Copy, Debug, PartialEq, Eq, Structural)]
pub struct Settlement {
    pub base_amount: u64,
    pub quote_amount: u64,
}

/// Empties the free balances of the account and returns what they held,
/// which the vaults then pay out under the market's signer. There is no
/// partial settlement. Locked balances, metrics and orders stay.
pub fn settle(user_account: &mut UserAccount) -> (r: Settlement)
    ensures
        r.base_amount == old(user_account).header.base_token_free,
        r.quote_amount == old(user_account).header.quote_token_free,
        final(user_account).header == (UserAccountHeader {
            base_token_free: 0,
            quote_token_free: 0,
            ..old(user_account).header
        }),
        final(user_account).key == old(user_account).key,
        final(user_account).orders == old(user_account).orders,
{
    let r = Settlement {
        base_amount: user_account.header.base_token_free,
        quote_amount: user_account.header.quote_token_free,
    };
    user_account.header.quote_token_free = 0;
    user_account.header.base_token_free = 0;
    r
}

/// What an account holds of each currency, free and locked together.
pub open spec fn holdings(h: UserAccountHeader) -> (int, int) {
    (h.base_token_free + h.base_token_locked, h.quote_token_free + h.quote_token_locked)
}

/// A settlement takes from the account exactly what it pays out: nothing is
/// created and nothing is lost.
pub proof fn lemma_settle_conserves(before: UserAccountHeader, after: UserAccountHeader, paid: Settlement)
    requires
        paid.base_amount == before.base_token_free,
        paid.quote_amount == before.quote_token_free,
        after == (UserAccountHeader { base_token_free: 0, quote_token_free: 0, ..before }),
    ensures
        holdings(after).0 + paid.base_amount == holdings(before).0,
        holdings(after).1 + paid.quote_amount == holdings(before).1,
{
}

/// The accounts of a settlement.
#[derive(Clone, Copy, Debug)]
pub struct Accounts {
    pub spl_token_program: AccountInfo,
    pub market: AccountInfo,
    pub base_vault: AccountInfo,
    pub quote_vault: AccountInfo,
    pub market_signer: AccountInfo,
    pub user: AccountInfo,
    pub user_owner: AccountInfo,
    pub destination_base_account: AccountInfo,
    pub destination_quote_account: AccountInfo,
}

/// The accounts of the operation, read from the list in their fixed
/// order, or the first check that the list fails.
pub open spec fn spec_parse(program_id: Address, accounts: Seq<AccountInfo>) -> Result<
    Accounts,
    ProgramFault,
> {
    if accounts.len() < 9 {
        Err(ProgramFault::NotEnoughAccountKeys)
    } else if !accounts[6].is_signer {
        Err(ProgramFault::MissingRequiredSignature)
    } else if accounts[0].key@ != spl_token_id() {
        Err(dex_fault(DexError::InvalidSplTokenProgram))
    } else if accounts[1].owner@ != program_id@ {
        Err(dex_fault(DexError::InvalidStateAccountOwner))
    } else if accounts[5].owner@ != program_id@ {
        Err(dex_fault(DexError::InvalidStateAccountOwner))
    } else {
        Ok(
            Accounts {
                spl_token_program: accounts[0],
                market: accounts[1],
                base_vault: accounts[2],
                quote_vault: accounts[3],
                market_signer: accounts[4],
                user: accounts[5],
                user_owner: accounts[6],
                destination_base_account: accounts[7],
                destination_quote_account: accounts[8],
            },
        )
    }
}

impl Accounts {
    /// Reads the accounts from the list in their fixed order and checks
    /// what can be checked of them without the ledgers.
    pub fn parse(program_id: &Address, accounts: &Vec<AccountInfo>) -> (r: Result<
        Accounts,
        ProgramFault,
    >)
        ensures
            r == spec_parse(*program_id, accounts@),
    {
        if accounts.len() < 9 {
            return Err(ProgramFault::NotEnoughAccountKeys);
        }
        let a = Accounts {
            spl_token_program: accounts[0],
            market: accounts[1],
            base_vault: accounts[2],
            quote_vault: accounts[3],
            market_signer: accounts[4],
            user: accounts[5],
            user_owner: accounts[6],
            destination_base_account: accounts[7],
            destination_quote_account: accounts[8],
        };
        if !a.user_owner.is_signer {
            return Err(ProgramFault::MissingRequiredSignature);
        }
        if !a.spl_token_program.key.same(&spl_token_program()) {
            return Err(ProgramFault::from_dex(DexError::InvalidSplTokenProgram));
        }
        if !a.market.owner.same(program_id) {
            return Err(ProgramFault::from_dex(DexError::InvalidStateAccountOwner));
        }
        if !a.user.owner.same(program_id) {
            return Err(ProgramFault::from_dex(DexError::InvalidStateAccountOwner));
        }
        Ok(a)
    }

    /// Checks that the user account is initialized, belongs to the signing
    /// owner, and is an account of this market.
    pub fn load_user_account(&self, user_account: &UserAccount) -> (r: Result<(), ProgramFault>)
        ensures
            r == spec_user_account_check(
                user_account.header,
                self.user_owner.key@,
                Some(self.market.key@),
            ),
    {
        check_user_account(&user_account.header, &self.user_owner.key, Some(&self.market.key))
    }
}

/// Whether the accounts are the ones that the market's ledger names, or
/// the first that is not.
pub open spec fn spec_check_accounts(
    derived_signer: Option<Seq<u8>>,
    market_state: DexState,
    accounts: Accounts,
) -> Result<(), ProgramFault> {
    if spec_signer_check(derived_signer, accounts.market_signer.key@) is Err {
        spec_signer_check(derived_signer, accounts.market_signer.key@)
    } else if accounts.base_vault.key@ != market_state.base_vault@ {
        Err(dex_fault(DexError::InvalidBaseVaultAccount))
    } else if accounts.quote_vault.key@ != market_state.quote_vault@ {
        Err(dex_fault(DexError::InvalidQuoteVaultAccount))
    } else {
        Ok(())
    }
}

/// Checks the accounts against the market's ledger and its signer.
pub fn check_accounts(program_id: &Address, market_state: &DexState, accounts: &Accounts) -> (r:
    Result<(), ProgramFault>)
    ensures
        r == spec_check_accounts(
            program_address(
                market_signer_seeds(accounts.market.key@, market_state.signer_nonce),
                program_id@,
            ),
            *market_state,
            *accounts,
        ),
{
    match check_market_signer(
        &accounts.market_signer.key,
        &accounts.market.key,
        market_state.signer_nonce,
        program_id,
    ) {
        Ok(()) => {},
        Err(e) => {
            return Err(e);
        },
    }
    if !accounts.base_vault.key.same(&market_state.base_vault) {
        return Err(ProgramFault::from_dex(DexError::InvalidBaseVaultAccount));
    }
    if !accounts.quote_vault.key.same(&market_state.quote_vault) {
        return Err(ProgramFault::from_dex(DexError::InvalidQuoteVaultAccount));
    }
    Ok(())
}

} // verus!
