//! Creating a user account.
use crate::address::Address;
use crate::error::{dex_fault, DexError, ProgramFault};
use crate::pda::{found_program_address, user_account_address, user_account_seeds};
use crate::user_account::UserAccountHeader;
use crate::utils::{system_program, system_program_id, AccountInfo};
use crate::wire::{
    put_address, put_u64, read_address, read_u64, spec_address_at, spec_u64_at,
};
use vstd::bytes::*;
use vstd::prelude::*;

verus! {

/// The arguments of an account creation.
#[derive(Clone, Copy, Debug)]
pub struct Params {
    /// The market that the account is for.
    pub market: Address,
    /// The number of orders that the account can hold; not zero.
    pub max_orders: u64,
}

/// What to allocate for a new user account and what to write into it.
#[derive(Clone, Copy, Debug)]
pub struct AccountPlan {
    pub header: UserAccountHeader,
    /// The bump seed under which the account's address signs its creation.
    pub nonce: u8,
    /// The size of the account in bytes.
    pub space: u64,
}

/// The plan of a new account, or why it is refused, given the address that
/// the market and the owner derive.
pub open spec fn spec_plan_account(
    derived: Option<(Seq<u8>, u8)>,
    user: Address,
    owner: Address,
    params: Params,
) -> Result<AccountPlan, ProgramFault> {
    match derived {
        None => Err(ProgramFault::InvalidSeeds),
        Some((address, nonce)) => if address != user@ {
            Err(ProgramFault::InvalidArgument)
        } else if params.max_orders == 0 {
            Err(ProgramFault::InvalidArgument)
        } else if 152 + params.max_orders * 32 > u64::MAX {
            Err(dex_fault(DexError::NumericalOverflow))
        } else {
            Ok(
                AccountPlan {
                    header: UserAccountHeader::spec_new(params.market, owner),
                    nonce,
                    space: (152 + params.max_orders * 32) as u64,
                },
            )
        },
    }
}

/// Plans a new account from the derived address. The account presented must
/// be at that address, and must hold one order at least.
pub fn plan_account(
    derived: Option<(Address, u8)>,
    user: &Address,
    owner: &Address,
    params: &Params,
) -> (r: Result<AccountPlan, ProgramFault>)
    ensures
        r == spec_plan_account(
            match derived {
                Some((a, n)) => Some((a@, n)),
                None => None,
            },
            *user,
            *owner,
            *params,
        ),
{
    match derived {
        None => Err(ProgramFault::InvalidSeeds),
        Some((address, nonce)) => {
            if !address.same(user) {
                return Err(ProgramFault::InvalidArgument);
            }
            if params.max_orders == 0 {
                return Err(ProgramFault::InvalidArgument);
            }
            if params.max_orders > (u64::MAX - 152) / 32 {
                return Err(ProgramFault::from_dex(DexError::NumericalOverflow));
            }
            Ok(
                AccountPlan {
                    header: UserAccountHeader::new(&params.market, owner),
                    nonce,
                    space: 152 + params.max_orders * 32,
                },
            )
        },
    }
}

/// Plans the user account of `owner` on the market that the arguments name.
pub fn initialize_account(program_id: &Address, user: &Address, owner: &Address, params: &Params)
    -> (r: Result<AccountPlan, ProgramFault>)
    ensures
        r == spec_plan_account(
            found_program_address(user_account_seeds(params.market@, owner@), program_id@),
            *user,
            *owner,
            *params,
        ),
{
    plan_account(user_account_address(&params.market, owner, program_id), user, owner, params)
}

/// The accounts of an account creation.
#[derive(Clone, Copy, Debug)]
pub struct Accounts {
    pub system_program: AccountInfo,
    pub user: AccountInfo,
    pub user_owner: AccountInfo,
    pub fee_payer: AccountInfo,
}

/// The accounts of the operation, read from the list in their fixed
/// order, or the first check that the list fails.
pub open spec fn spec_parse(program_id: Address, accounts: Seq<AccountInfo>) -> Result<
    Accounts,
    ProgramFault,
> {
    if accounts.len() < 4 {
        Err(ProgramFault::NotEnoughAccountKeys)
    } else if !accounts[2].is_signer {
        Err(ProgramFault::MissingRequiredSignature)
    } else if accounts[0].key@ != system_program_id() {
        Err(dex_fault(DexError::InvalidSystemProgramAccount))
    } else if accounts[1].owner@ != system_program_id() {
        Err(dex_fault(DexError::InvalidStateAccountOwner))
    } else {
        Ok(
            Accounts {
                system_program: accounts[0],
                user: accounts[1],
                user_owner: accounts[2],
                fee_payer: accounts[3],
            },
        )
    }
}

impl Accounts {
    /// Reads the accounts from the list in their fixed order and checks
    /// what can be checked of them without the ledgers.
    pub fn parse(program_id: &Address, accounts: &Vec<AccountInfo>) -> (r: Result<
        Accounts,
        ProgramFault,
    >)
        ensures
            r == spec_parse(*program_id, accounts@),
    {
        if accounts.len() < 4 {
            return Err(ProgramFault::NotEnoughAccountKeys);
        }
        let a = Accounts {
            system_program: accounts[0],
            user: accounts[1],
            user_owner: accounts[2],
            fee_payer: accounts[3],
        };
        if !a.user_owner.is_signer {
            return Err(ProgramFault::MissingRequiredSignature);
        }
        if !a.system_program.key.same(&system_program()) {
            return Err(ProgramFault::from_dex(DexError::InvalidSystemProgramAccount));
        }
        if !a.user.owner.same(&system_program()) {
            return Err(ProgramFault::from_dex(DexError::InvalidStateAccountOwner));
        }
        Ok(a)
    }
}

impl Params {
    /// Reads the arguments from their stored form: the market's address,
    /// then the number of orders.
    pub fn from_bytes(data: &[u8]) -> (r: Result<Params, ProgramFault>)
        ensures
            match r {
                Ok(p) => {
                    &&& data@.len() == 40
                    &&& p.market@ == spec_address_at(data@, 0)
                    &&& p.max_orders == spec_u64_at(data@, 32)
                },
                Err(e) => e == ProgramFault::InvalidInstructionData && data@.len() != 40,
            },
    {
        if data.len() != 40 {
            return Err(ProgramFault::InvalidInstructionData);
        }
        Ok(Params { market: read_address(data, 0), max_orders: read_u64(data, 32) })
    }
}

impl Params {
    /// The stored form of the arguments: 40 bytes.
    pub open spec fn spec_bytes(&self) -> Seq<u8> {
        self.market@ + spec_u64_to_le_bytes(self.max_orders)
    }

    /// The stored form of the arguments.
    pub fn to_bytes(&self) -> (out: Vec<u8>)
        ensures
            out@ == self.spec_bytes(),
            out@.len() == 40,
    {
        let mut out: Vec<u8> = Vec::new();
        put_address(&mut out, &self.market);
        put_u64(&mut out, self.max_orders);
        assert(out@ =~= self.spec_bytes());
        out
    }
}

} // verus!
