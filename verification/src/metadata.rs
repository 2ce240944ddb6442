//! The creators of the base token and their royalty shares, as the token's
//! metadata record lists them.
use crate::address::Address;
use crate::error::{dex_fault, DexError, ProgramFault};
use crate::pda::{
    found_program_address, metadata_address, metadata_program, metadata_program_id, metadata_seeds,
};
use crate::utils::AccountInfo;
use vstd::prelude::*;

verus! {

/// A creator of the base token.
#[derive(Clone, Copy, Debug)]
pub struct Creator {
    pub address: Address,
    /// Whether the creator confirmed the listing.
    pub verified: bool,
    /// The creator's share of the royalties, in percent.
    pub share: u8,
}

/// The sum of the shares of the first `n` creators.
pub open spec fn spec_creator_share_sum(creators: Seq<Creator>, n: int) -> int
    decreases n,
{
    if n <= 0 {
        0
    } else {
        spec_creator_share_sum(creators, n - 1) + creators[n - 1].share
    }
}

/// The shares of the creators must sum to exactly 100.
pub fn verify_metadata(creators: &Vec<Creator>) -> (r: Result<(), ProgramFault>)
    ensures
        r == (if spec_creator_share_sum(creators@, creators.len() as int) == 100 {
            Ok::<(), ProgramFault>(())
        } else {
            Err::<(), ProgramFault>(ProgramFault::InvalidArgument)
        }),
{
    let mut sum: u128 = 0;
    let mut i: usize = 0;
    while i < creators.len()
        invariant
            0 <= i <= creators.len(),
            sum == spec_creator_share_sum(creators@, i as int),
            sum <= 255 * i,
        decreases creators.len() - i,
    {
        assert(i < usize::MAX <= u64::MAX);
        sum = sum + creators[i].share as u128;
        i += 1;
    }
    if sum != 100 {
        return Err(ProgramFault::InvalidArgument);
    }
    Ok(())
}

/// The shares of the creators, in order.
pub fn creator_shares(creators: &Vec<Creator>) -> (r: Vec<u8>)
    ensures
        r@ == creators@.map_values(|c: Creator| c.share),
{
    let mut out: Vec<u8> = Vec::new();
    let mut i: usize = 0;
    while i < creators.len()
        invariant
            0 <= i <= creators.len(),
            out@ == creators@.take(i as int).map_values(|c: Creator| c.share),
        decreases creators.len() - i,
    {
        out.push(creators[i].share);
        assert(creators@.take(i + 1) =~= creators@.take(i as int).push(creators[i as int]));
        assert(out@ =~= creators@.take(i + 1).map_values(|c: Creator| c.share));
        i += 1;
    }
    assert(creators@.take(creators.len() as int) =~= creators@);
    out
}

/// The creators that confirmed their listing, in the record's order.
pub fn get_verified_creators(creators: &Option<Vec<Creator>>) -> (r: Option<Vec<Creator>>)
    ensures
        creators is None ==> r is None,
        creators is Some ==> r is Some && r.unwrap()@ == creators.unwrap()@.filter(
            |c: Creator| c.verified,
        ),
{
    match creators {
        None => None,
        Some(all) => {
            let mut out: Vec<Creator> = Vec::new();
            let mut i: usize = 0;
            while i < all.len()
                invariant
                    0 <= i <= all.len(),
                    out@ == all@.take(i as int).filter(|c: Creator| c.verified),
                decreases all.len() - i,
            {
                proof {
                    reveal(Seq::filter);
                    assert(all@.take(i + 1).drop_last() =~= all@.take(i as int));
                    assert(all@.take(i + 1).last() == all[i as int]);
                }
                if all[i].verified {
                    out.push(all[i]);
                }
                i += 1;
            }
            assert(all@.take(all.len() as int) =~= all@);
            Some(out)
        },
    }
}

/// What the check of a metadata account answers, given the address that
/// the mint's metadata record has.
pub open spec fn spec_metadata_check(expected: Option<Seq<u8>>, account: AccountInfo) -> Result<
    (),
    ProgramFault,
> {
    match expected {
        None => Err(ProgramFault::InvalidSeeds),
        Some(address) => if account.key@ != address {
            Err(dex_fault(DexError::InvalidMetadataKey))
        } else if account.data_len != 0 && account.owner@ != metadata_program_id() {
            Err(dex_fault(DexError::InvalidMetadataOwner))
        } else {
            Ok(())
        },
    }
}

/// Compares a presented metadata account with the address that the mint's
/// record has. An account that holds data must belong to the metadata
/// program; an empty one stands for a token without metadata.
pub fn metadata_matches(expected: Option<Address>, account: &AccountInfo) -> (r: Result<
    (),
    ProgramFault,
>)
    ensures
        r == spec_metadata_check(
            match expected {
                Some(a) => Some(a@),
                None => None,
            },
            *account,
        ),
{
    match expected {
        None => Err(ProgramFault::InvalidSeeds),
        Some(address) => {
            if !account.key.same(&address) {
                return Err(ProgramFault::from_dex(DexError::InvalidMetadataKey));
            }
            if account.data_len != 0 && !account.owner.same(&metadata_program()) {
                return Err(ProgramFault::from_dex(DexError::InvalidMetadataOwner));
            }
            Ok(())
        },
    }
}

/// Checks that `account` is the metadata account of `mint`.
pub fn check_metadata_account(account: &AccountInfo, mint: &Address) -> (r: Result<
    (),
    ProgramFault,
>)
    ensures
        r == spec_metadata_check(
            match found_program_address(metadata_seeds(mint@), metadata_program_id()) {
                Some(found) => Some(found.0),
                None => None,
            },
            *account,
        ),
{
    metadata_matches(metadata_address(mint), account)
}

} // verus!
