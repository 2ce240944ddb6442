//! Closing a user account.
use crate::address::Address;
use crate::error::{dex_fault, DexError, ProgramFault};
use crate::user_account::{
    check_user_account, spec_user_account_check, UserAccount, UserAccountHeader,
};
use crate::utils::AccountInfo;
use vstd::prelude::*;

verus! {

/// The account holds nothing and has no open order.
pub open spec fn spec_is_inactive(h: UserAccountHeader) -> bool {
    &&& h.number_of_orders == 0
    &&& h.quote_token_free == 0
    &&& h.base_token_free == 0
    &&& h.quote_token_locked == 0
    &&& h.base_token_locked == 0
}

/// A user account can be closed only when all its balances and its order
/// count are zero.
pub fn check_closable(h: &UserAccountHeader) -> (r: Result<(), DexError>)
    ensures
        r == (if spec_is_inactive(*h) {
            Ok::<(), DexError>(())
        } else {
            Err::<(), DexError>(DexError::UserAccountStillActive)
        }),
{
    if h.number_of_orders != 0 || h.quote_token_free != 0 || h.base_token_free != 0
        || h.quote_token_locked != 0 || h.base_token_locked != 0 {
        return Err(DexError::UserAccountStillActive);
    }
    Ok(())
}

/// The accounts of an account closure.
#[derive(Clone, Copy, Debug)]
pub struct Accounts {
    pub user: AccountInfo,
    pub user_owner: AccountInfo,
    pub target_lamports_account: AccountInfo,
}

/// The accounts of the operation, read from the list in their fixed
/// order, or the first check that the list fails.
pub open spec fn spec_parse(program_id: Address, accounts: Seq<AccountInfo>) -> Result<
    Accounts,
    ProgramFault,
> {
    if accounts.len() < 3 {
        Err(ProgramFault::NotEnoughAccountKeys)
    } else if !accounts[1].is_signer {
        Err(ProgramFault::MissingRequiredSignature)
    } else if accounts[0].owner@ != program_id@ {
        Err(dex_fault(DexError::InvalidStateAccountOwner))
    } else {
        Ok(
            Accounts {
                user: accounts[0],
                user_owner: accounts[1],
                target_lamports_account: accounts[2],
            },
        )
    }
}

impl Accounts {
    /// Reads the accounts from the list in their fixed order and checks
    /// what can be checked of them without the ledgers.
    pub fn parse(program_id: &Address, accounts: &Vec<AccountInfo>) -> (r: Result<
        Accounts,
        ProgramFault,
    >)
        ensures
            r == spec_parse(*program_id, accounts@),
    {
        if accounts.len() < 3 {
            return Err(ProgramFault::NotEnoughAccountKeys);
        }
        let a = Accounts {
            user: accounts[0],
            user_owner: accounts[1],
            target_lamports_account: accounts[2],
        };
        if !a.user_owner.is_signer {
            return Err(ProgramFault::MissingRequiredSignature);
        }
        if !a.user.owner.same(program_id) {
            return Err(ProgramFault::from_dex(DexError::InvalidStateAccountOwner));
        }
        Ok(a)
    }

    /// Checks that the user account is initialized and belongs to the
    /// signing owner.
    pub fn load_user_account(&self, user_account: &UserAccount) -> (r: Result<(), ProgramFault>)
        ensures
            r == spec_user_account_check(user_account.header, self.user_owner.key@, None),
    {
        check_user_account(&user_account.header, &self.user_owner.key, None)
    }
}

} // verus!
