//! Program-derived addresses: the market's signer capability, the address
//! of a user account, and the address of a mint's metadata record.
use crate::address::Address;
use crate::error::ProgramFault;
use solana_program::pubkey::Pubkey;
use vstd::prelude::*;

verus! {

/// The address that the host ledger derives from the given seeds for the
/// given program, if the seeds derive one.
pub uninterp spec fn program_address(seeds: Seq<Seq<u8>>, program_id: Seq<u8>) -> Option<Seq<u8>>;

/// The first address, and the bump seed that gives it, that the host ledger
/// finds for the given seeds and program.
pub uninterp spec fn found_program_address(seeds: Seq<Seq<u8>>, program_id: Seq<u8>) -> Option<
    (Seq<u8>, u8),
>;

/// The seeds as sequences of bytes.
pub open spec fn seed_views(seeds: Seq<Vec<u8>>) -> Seq<Seq<u8>> {
    seeds.map_values(|s: Vec<u8>| s@)
}

/// `Pubkey::create_program_address` of the host ledger's library: hashes the
/// seeds with the program id and refuses a hash that lies on the curve. The
/// result depends on the seeds and the program id alone; it is not computed
/// here but named.
#[verifier::external_body]
fn create_program_address(seeds: &Vec<Vec<u8>>, program_id: &Address) -> (r: Option<Address>)
    ensures
        r is Some == program_address(seed_views(seeds@), program_id@) is Some,
        r is Some ==> Some(r.unwrap()@) == program_address(seed_views(seeds@), program_id@),
{
    let slices: Vec<&[u8]> = seeds.iter().map(|s| s.as_slice()).collect();
    match Pubkey::create_program_address(&slices, &Pubkey::new_from_array(program_id.bytes)) {
        Ok(key) => Some(Address { bytes: key.to_bytes() }),
        Err(_) => None,
    }
}

/// `Pubkey::try_find_program_address` of the host ledger's library: tries
/// the bump seeds from 255 downwards and returns the first address that
/// derives, with its bump seed. The result depends on the seeds and the
/// program id alone; it is not computed here but named.
#[verifier::external_body]
fn try_find_program_address(seeds: &Vec<Vec<u8>>, program_id: &Address) -> (r: Option<
    (Address, u8),
>)
    ensures
        r is Some == found_program_address(seed_views(seeds@), program_id@) is Some,
        r is Some ==> Some((r.unwrap().0@, r.unwrap().1)) == found_program_address(
            seed_views(seeds@),
            program_id@,
        ),
{
    let slices: Vec<&[u8]> = seeds.iter().map(|s| s.as_slice()).collect();
    match Pubkey::try_find_program_address(&slices, &Pubkey::new_from_array(program_id.bytes)) {
        Some((key, bump)) => Some((Address { bytes: key.to_bytes() }, bump)),
        None => None,
    }
}

/// The seeds of a market's signer: the market's address and the nonce.
pub open spec fn market_signer_seeds(market: Seq<u8>, nonce: u8) -> Seq<Seq<u8>> {
    seq![market, seq![nonce]]
}

/// The seeds of a user account: the market's address and the owner's.
pub open spec fn user_account_seeds(market: Seq<u8>, owner: Seq<u8>) -> Seq<Seq<u8>> {
    seq![market, owner]
}

/// The program that keeps token metadata.
pub open spec fn metadata_program_id() -> Seq<u8> {
    seq![
        11u8, 112, 101, 177, 227, 209, 124, 69, 56, 157, 82, 127, 107, 4, 195, 205, 88, 184, 108,
        115, 26, 160, 253, 181, 73, 182, 209, 188, 3, 248, 41, 70,
    ]
}

/// The seeds of a mint's metadata record: the word "metadata", the metadata
/// program's address, and the mint's.
pub open spec fn metadata_seeds(mint: Seq<u8>) -> Seq<Seq<u8>> {
    seq![seq![109u8, 101, 116, 97, 100, 97, 116, 97], metadata_program_id(), mint]
}

/// The address under which the market signs, if the nonce derives one. It
/// is computed anew at every use and never stored.
pub fn market_signer(market: &Address, nonce: u8, program_id: &Address) -> (r: Option<Address>)
    ensures
        r is Some == program_address(market_signer_seeds(market@, nonce), program_id@) is Some,
        r is Some ==> Some(r.unwrap()@) == program_address(
            market_signer_seeds(market@, nonce),
            program_id@,
        ),
{
    let mut seeds: Vec<Vec<u8>> = Vec::new();
    seeds.push(market.to_vec());
    let mut bump: Vec<u8> = Vec::new();
    bump.push(nonce);
    seeds.push(bump);
    assert(seed_views(seeds@) =~= market_signer_seeds(market@, nonce)) by {
        assert(seed_views(seeds@)[1] =~= seq![nonce]);
    }
    create_program_address(&seeds, program_id)
}

/// The address of the user account of `owner` on `market`, with the bump
/// seed that derives it.
pub fn user_account_address(market: &Address, owner: &Address, program_id: &Address) -> (r: Option<
    (Address, u8),
>)
    ensures
        r is Some == found_program_address(user_account_seeds(market@, owner@), program_id@)
            is Some,
        r is Some ==> Some((r.unwrap().0@, r.unwrap().1)) == found_program_address(
            user_account_seeds(market@, owner@),
            program_id@,
        ),
{
    let mut seeds: Vec<Vec<u8>> = Vec::new();
    seeds.push(market.to_vec());
    seeds.push(owner.to_vec());
    assert(seed_views(seeds@) =~= user_account_seeds(market@, owner@));
    try_find_program_address(&seeds, program_id)
}

/// The address of the metadata program.
pub fn metadata_program() -> (r: Address)
    ensures
        r@ == metadata_program_id(),
{
    let r = Address {
        bytes: [
            11, 112, 101, 177, 227, 209, 124, 69, 56, 157, 82, 127, 107, 4, 195, 205, 88, 184, 108,
            115, 26, 160, 253, 181, 73, 182, 209, 188, 3, 248, 41, 70,
        ],
    };
    assert(r@ =~= metadata_program_id());
    r
}

/// The address of the metadata record of `mint`.
pub fn metadata_address(mint: &Address) -> (r: Option<Address>)
    ensures
        r is Some == found_program_address(metadata_seeds(mint@), metadata_program_id())
            is Some,
        r is Some ==> r.unwrap()@ == found_program_address(
            metadata_seeds(mint@),
            metadata_program_id(),
        ).unwrap().0,
{
    let program = metadata_program();
    let mut word: Vec<u8> = Vec::new();
    word.push(109);
    word.push(101);
    word.push(116);
    word.push(97);
    word.push(100);
    word.push(97);
    word.push(116);
    word.push(97);
    assert(word@ =~= seq![109u8, 101, 116, 97, 100, 97, 116, 97]);
    let mut seeds: Vec<Vec<u8>> = Vec::new();
    seeds.push(word);
    seeds.push(program.to_vec());
    seeds.push(mint.to_vec());
    assert(seed_views(seeds@) =~= metadata_seeds(mint@));
    match try_find_program_address(&seeds, &program) {
        Some((address, _)) => Some(address),
        None => None,
    }
}

/// What the check of a market signer account answers, given the address
/// that the nonce derives.
pub open spec fn spec_signer_check(derived: Option<Seq<u8>>, presented: Seq<u8>) -> Result<
    (),
    ProgramFault,
> {
    match derived {
        None => Err(ProgramFault::InvalidSeeds),
        Some(d) => if d == presented {
            Ok(())
        } else {
            Err(ProgramFault::Custom(9))
        },
    }
}

/// Compares the presented signer address with the derived one. A nonce that
/// derives no address is a failure of its own.
pub fn signer_matches(derived: Option<Address>, presented: &Address) -> (r: Result<
    (),
    ProgramFault,
>)
    ensures
        r == spec_signer_check(
            match derived {
                Some(d) => Some(d@),
                None => None,
            },
            presented@,
        ),
{
    match derived {
        None => Err(ProgramFault::InvalidSeeds),
        Some(d) => {
            if d.same(presented) {
                Ok(())
            } else {
                Err(ProgramFault::Custom(9))
            }
        },
    }
}

/// Checks that `presented` is the address under which `market` signs with
/// `nonce`.
pub fn check_market_signer(
    presented: &Address,
    market: &Address,
    nonce: u8,
    program_id: &Address,
) -> (r: Result<(), ProgramFault>)
    ensures
        r == spec_signer_check(
            program_address(market_signer_seeds(market@, nonce), program_id@),
            presented@,
        ),
{
    let derived = market_signer(market, nonce, program_id);
    signer_matches(derived, presented)
}

} // verus!
