//! Token accounts of the token-transfer primitive, as far as the exchange
//! core reads them.
use crate::address::Address;
use crate::error::ProgramFault;
use solana_program::program_error::ProgramError;
use solana_program::program_pack::Pack;
use spl_token::state::Account;
use vstd::prelude::*;

verus! {

/// What the exchange core reads of a token account.
#[derive(Clone, Copy, Debug)]
pub struct TokenAccount {
    pub mint: Address,
    pub owner: Address,
    pub amount: u64,
    pub has_delegate: bool,
    pub has_close_authority: bool,
}

/// What the stored bytes of a token account hold, or why they hold none.
pub uninterp spec fn token_account_of(data: Seq<u8>) -> Result<TokenAccount, ProgramFault>;

/// `Account::unpack` of the token program's library: reads a stored token
/// account and refuses one that is not initialized. The result depends on
/// the bytes alone; it is not computed here but named. Only data of 165
/// bytes holds a token account.
#[verifier::external_body]
pub(crate) fn unpack_token_account(data: &[u8]) -> (r: Result<TokenAccount, ProgramFault>)
    ensures
        r == token_account_of(data@),
        r is Ok ==> data@.len() == 165,
{
    match Account::unpack(data) {
        Ok(a) => Ok(
            TokenAccount {
                mint: Address { bytes: a.mint.to_bytes() },
                owner: Address { bytes: a.owner.to_bytes() },
                amount: a.amount,
                has_delegate: a.delegate.is_some(),
                has_close_authority: a.close_authority.is_some(),
            },
        ),
        Err(ProgramError::UninitializedAccount) => Err(ProgramFault::UninitializedAccount),
        Err(_) => Err(ProgramFault::InvalidAccountData),
    }
}

/// What a reading of a vault's balance answers.
pub open spec fn spec_vault_amount(parsed: Result<TokenAccount, ProgramFault>) -> Result<
    u64,
    ProgramFault,
> {
    match parsed {
        Err(e) => Err(e),
        Ok(account) => Ok(account.amount),
    }
}

/// The balance that a stored token account holds.
pub fn token_amount(data: &[u8]) -> (r: Result<u64, ProgramFault>)
    ensures
        r == spec_vault_amount(token_account_of(data@)),
{
    match unpack_token_account(data) {
        Err(e) => Err(e),
        Ok(account) => Ok(account.amount),
    }
}

/// What the check of a vault answers: the vault's mint, if the vault is
/// owned by the market signer and nobody else can move or close it.
pub open spec fn spec_vault_mint(parsed: Result<TokenAccount, ProgramFault>, market_signer: Seq<u8>)
    -> Result<Address, ProgramFault> {
    match parsed {
        Err(e) => Err(e),
        Ok(account) => if account.owner@ != market_signer {
            Err(ProgramFault::InvalidArgument)
        } else if account.has_close_authority || account.has_delegate {
            Err(ProgramFault::InvalidArgument)
        } else {
            Ok(account.mint)
        },
    }
}

/// The mint of a parsed vault, if the vault is owned by the market signer
/// and nobody else can move or close it.
pub fn vault_mint(parsed: Result<TokenAccount, ProgramFault>, market_signer: &Address) -> (r:
    Result<Address, ProgramFault>)
    ensures
        r == spec_vault_mint(parsed, market_signer@),
{
    match parsed {
        Err(e) => Err(e),
        Ok(account) => {
            if !account.owner.same(market_signer) {
                return Err(ProgramFault::InvalidArgument);
            }
            if account.has_close_authority || account.has_delegate {
                return Err(ProgramFault::InvalidArgument);
            }
            Ok(account.mint)
        },
    }
}

/// Checks a vault's stored data and returns the vault's mint.
pub fn check_vault_account_and_get_mint(data: &[u8], market_signer: &Address) -> (r: Result<
    Address,
    ProgramFault,
>)
    ensures
        r == spec_vault_mint(token_account_of(data@), market_signer@),
{
    vault_mint(unpack_token_account(data), market_signer)
}

/// What the check of a token account's owner answers.
pub open spec fn spec_owner_check(parsed: Result<TokenAccount, ProgramFault>, owner: Seq<u8>)
    -> Result<(), ProgramFault> {
    match parsed {
        Err(e) => Err(e),
        Ok(account) => if account.owner@ == owner {
            Ok(())
        } else {
            Err(ProgramFault::InvalidArgument)
        },
    }
}

/// Whether a parsed token account belongs to `owner`.
pub fn token_owner_matches(parsed: Result<TokenAccount, ProgramFault>, owner: &Address) -> (r:
    Result<(), ProgramFault>)
    ensures
        r == spec_owner_check(parsed, owner@),
{
    match parsed {
        Err(e) => Err(e),
        Ok(account) => {
            if account.owner.same(owner) {
                Ok(())
            } else {
                Err(ProgramFault::InvalidArgument)
            }
        },
    }
}

/// Checks that the stored token account belongs to `owner`.
pub fn check_token_account_owner(data: &[u8], owner: &Address) -> (r: Result<(), ProgramFault>)
    ensures
        r == spec_owner_check(token_account_of(data@), owner@),
{
    token_owner_matches(unpack_token_account(data), owner)
}

} // verus!
