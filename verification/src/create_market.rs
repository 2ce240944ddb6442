//! Creating a market.
use crate::address::Address;
use crate::error::ProgramFault;
use crate::metadata::{
    check_metadata_account, spec_creator_share_sum, spec_metadata_check, verify_metadata, Creator,
};
use crate::pda::{
    found_program_address, market_signer, market_signer_seeds, metadata_program_id, metadata_seeds,
    program_address,
};
use crate::state::{AccountTag, DexState, FeeSchedule, MarketFeeType};
use crate::token_account::{
    check_vault_account_and_get_mint, spec_vault_mint, token_account_of,
};
use crate::error::{dex_fault, DexError};
use crate::utils::{spl_token_id, spl_token_program, AccountInfo};
use crate::wire::{put_u64, read_u64, spec_u64_at};
use vstd::bytes::*;
use vstd::prelude::*;

verus! {

/// Length in bytes of the callback information kept with every order.
pub const CALLBACK_INFO_LEN: u64 = 33;

/// Length in bytes of the part of it that identifies the user account.
pub const CALLBACK_ID_LEN: u64 = 32;

/// The arguments of a market creation.
#[derive(Clone, Copy, Debug)]
pub struct Params {
    /// The nonce that derives the market's signer; its low byte counts.
    pub signer_nonce: u64,
    /// The smallest order, in base units.
    pub min_base_order_size: u64,
    /// The price step; not zero.
    pub tick_size: u64,
    /// What the market pays for each event drained.
    pub cranker_reward: u64,
    /// External base units per unit of the matching engine; not zero.
    pub base_currency_multiplier: u64,
    /// External quote units per unit of the matching engine; not zero.
    pub quote_currency_multiplier: u64,
}

/// What the matching engine is told when the market's order book is made.
#[derive(Clone, Copy, Debug)]
pub struct EngineMarketParams {
    pub caller_authority: Address,
    pub callback_info_len: u64,
    pub callback_id_len: u64,
    pub min_base_order_size: u64,
    pub tick_size: u64,
    pub cranker_reward: u64,
}

/// The accounts of a market creation.
#[derive(Clone, Copy, Debug)]
pub struct Accounts {
    pub market: AccountInfo,
    pub orderbook: AccountInfo,
    pub base_vault: AccountInfo,
    pub quote_vault: AccountInfo,
    pub market_admin: AccountInfo,
    pub event_queue: AccountInfo,
    pub asks: AccountInfo,
    pub bids: AccountInfo,
    pub token_metadata: AccountInfo,
}

/// What the metadata record of the base token says of royalties.
#[derive(Debug)]
pub struct RoyaltyTerms {
    pub creators: Vec<Creator>,
    pub seller_fee_basis_points: u16,
}

/// The low byte of the nonce.
pub open spec fn spec_nonce_byte(signer_nonce: u64) -> u8 {
    (signer_nonce % 256) as u8
}

/// The royalty rate that the market takes from the metadata record, if the
/// base token has one: the shares of its creators must sum to 100.
pub open spec fn spec_royalties_bps(token_metadata: AccountInfo, terms: Option<RoyaltyTerms>)
    -> Result<u64, ProgramFault> {
    if token_metadata.data_len != 0 {
        match terms {
            None => Err(ProgramFault::InvalidAccountData),
            Some(t) => if spec_creator_share_sum(t.creators@, t.creators@.len() as int) == 100 {
                Ok(t.seller_fee_basis_points as u64)
            } else {
                Err(ProgramFault::InvalidArgument)
            },
        }
    } else {
        Ok(0)
    }
}

/// The market ledger and the engine's parameters that a creation gives, or
/// why it is refused. `derived_signer`, `base_parsed`, `quote_parsed` and
/// `metadata_address` are what the host ledger's and the token program's
/// libraries answer for the accounts at hand.
pub open spec fn spec_create_market(
    program_id: Address,
    accounts: Accounts,
    params: Params,
    derived_signer: Option<Seq<u8>>,
    base_mint: Result<Address, ProgramFault>,
    quote_mint: Result<Address, ProgramFault>,
    metadata_check: Result<(), ProgramFault>,
    market_tag_byte: u8,
    royalties_bps: Result<u64, ProgramFault>,
    current_timestamp: i64,
    fee_schedule: FeeSchedule,
) -> Result<(DexState, EngineMarketParams), ProgramFault> {
    if params.base_currency_multiplier == 0 || params.quote_currency_multiplier == 0
        || params.tick_size == 0 {
        Err(ProgramFault::InvalidArgument)
    } else if derived_signer is None {
        Err(ProgramFault::InvalidSeeds)
    } else if base_mint is Err {
        Err(base_mint.unwrap_err())
    } else if quote_mint is Err {
        Err(quote_mint.unwrap_err())
    } else if metadata_check is Err {
        Err(metadata_check.unwrap_err())
    } else if market_tag_byte != 0 {
        Err(ProgramFault::InvalidArgument)
    } else if royalties_bps is Err {
        Err(royalties_bps.unwrap_err())
    } else {
        Ok(
            (
                DexState {
                    tag: AccountTag::DexState,
                    base_mint: base_mint.unwrap(),
                    quote_mint: quote_mint.unwrap(),
                    base_vault: accounts.base_vault.key,
                    quote_vault: accounts.quote_vault.key,
                    orderbook: accounts.orderbook.key,
                    admin: accounts.market_admin.key,
                    creation_timestamp: current_timestamp,
                    base_volume: 0,
                    quote_volume: 0,
                    accumulated_fees: 0,
                    min_base_order_size: params.min_base_order_size
                        / params.base_currency_multiplier,
                    royalties_bps: royalties_bps.unwrap(),
                    accumulated_royalties: 0,
                    base_currency_multiplier: params.base_currency_multiplier,
                    quote_currency_multiplier: params.quote_currency_multiplier,
                    signer_nonce: spec_nonce_byte(params.signer_nonce),
                    fee_type: MarketFeeType::Default,
                    fee_schedule,
                },
                EngineMarketParams {
                    caller_authority: program_id,
                    callback_info_len: 33,
                    callback_id_len: 32,
                    min_base_order_size: params.min_base_order_size
                        / params.base_currency_multiplier,
                    tick_size: params.tick_size,
                    cranker_reward: params.cranker_reward,
                },
            ),
        )
    }
}

/// The royalty rate that the market takes from the metadata record.
pub fn royalties_bps(token_metadata: &AccountInfo, terms: &Option<RoyaltyTerms>) -> (r: Result<
    u64,
    ProgramFault,
>)
    ensures
        r == spec_royalties_bps(*token_metadata, *terms),
{
    if token_metadata.data_len != 0 {
        match terms {
            None => Err(ProgramFault::InvalidAccountData),
            Some(t) => match verify_metadata(&t.creators) {
                Ok(()) => Ok(t.seller_fee_basis_points as u64),
                Err(e) => Err(e),
            },
        }
    } else {
        Ok(0)
    }
}

/// Creates the market ledger for an account that is still uninitialized,
/// and says what to tell the matching engine. The vaults must belong to
/// the signer that the nonce derives; the multipliers and the tick size
/// must not be zero; the metadata account must be the base mint's. The fee
/// schedule is written into the ledger and stays with the market.
pub fn create_market(
    program_id: &Address,
    accounts: &Accounts,
    params: &Params,
    base_vault_data: &[u8],
    quote_vault_data: &[u8],
    market_tag_byte: u8,
    terms: &Option<RoyaltyTerms>,
    current_timestamp: i64,
    fee_schedule: &FeeSchedule,
) -> (r: Result<(DexState, EngineMarketParams), ProgramFault>)
    ensures
        r is Ok && fee_schedule.wf() ==> r.unwrap().0.wf(),
        ({
            let derived = program_address(
                market_signer_seeds(accounts.market.key@, spec_nonce_byte(params.signer_nonce)),
                program_id@,
            );
            let signer = derived.unwrap();
            let base_mint = spec_vault_mint(token_account_of(base_vault_data@), signer);
            let quote_mint = spec_vault_mint(token_account_of(quote_vault_data@), signer);
            let metadata_check = spec_metadata_check(
                match found_program_address(
                    metadata_seeds(base_mint.unwrap()@),
                    metadata_program_id(),
                ) {
                    Some(found) => Some(found.0),
                    None => None,
                },
                accounts.token_metadata,
            );
            r == spec_create_market(
                *program_id,
                *accounts,
                *params,
                derived,
                base_mint,
                quote_mint,
                metadata_check,
                market_tag_byte,
                spec_royalties_bps(accounts.token_metadata, *terms),
                current_timestamp,
                *fee_schedule,
            )
        }),
{
    if params.base_currency_multiplier == 0 || params.quote_currency_multiplier == 0
        || params.tick_size == 0 {
        return Err(ProgramFault::InvalidArgument);
    }
    let nonce: u8 = (params.signer_nonce % 256) as u8;
    let signer = match market_signer(&accounts.market.key, nonce, program_id) {
        Some(s) => s,
        None => {
            return Err(ProgramFault::InvalidSeeds);
        },
    };
    let base_mint = match check_vault_account_and_get_mint(base_vault_data, &signer) {
        Ok(m) => m,
        Err(e) => {
            return Err(e);
        },
    };
    let quote_mint = match check_vault_account_and_get_mint(quote_vault_data, &signer) {
        Ok(m) => m,
        Err(e) => {
            return Err(e);
        },
    };
    match check_metadata_account(&accounts.token_metadata, &base_mint) {
        Ok(()) => {},
        Err(e) => {
            return Err(e);
        },
    }
    if market_tag_byte != 0 {
        return Err(ProgramFault::InvalidArgument);
    }
    let bps: u64 = match royalties_bps(&accounts.token_metadata, terms) {
        Ok(b) => b,
        Err(e) => {
            return Err(e);
        },
    };
    let min_base_order_size: u64 = params.min_base_order_size / params.base_currency_multiplier;
    Ok(
        (
            DexState {
                tag: AccountTag::DexState,
                base_mint,
                quote_mint,
                base_vault: accounts.base_vault.key,
                quote_vault: accounts.quote_vault.key,
                orderbook: accounts.orderbook.key,
                admin: accounts.market_admin.key,
                creation_timestamp: current_timestamp,
                base_volume: 0,
                quote_volume: 0,
                accumulated_fees: 0,
                min_base_order_size,
                royalties_bps: bps,
                accumulated_royalties: 0,
                base_currency_multiplier: params.base_currency_multiplier,
                quote_currency_multiplier: params.quote_currency_multiplier,
                signer_nonce: nonce,
                fee_type: MarketFeeType::Default,
                fee_schedule: *fee_schedule,
            },
            EngineMarketParams {
                caller_authority: *program_id,
                callback_info_len: CALLBACK_INFO_LEN,
                callback_id_len: CALLBACK_ID_LEN,
                min_base_order_size,
                tick_size: params.tick_size,
                cranker_reward: params.cranker_reward,
            },
        ),
    )
}

/// The accounts of the operation, read from the list in their fixed
/// order, or the first check that the list fails.
pub open spec fn spec_parse(program_id: Address, accounts: Seq<AccountInfo>) -> Result<
    Accounts,
    ProgramFault,
> {
    if accounts.len() < 9 {
        Err(ProgramFault::NotEnoughAccountKeys)
    } else if accounts[0].owner@ != program_id@ {
        Err(dex_fault(DexError::InvalidStateAccountOwner))
    } else if accounts[1].owner@ != program_id@ {
        Err(dex_fault(DexError::InvalidStateAccountOwner))
    } else if accounts[2].owner@ != spl_token_id() {
        Err(dex_fault(DexError::InvalidStateAccountOwner))
    } else if accounts[3].owner@ != spl_token_id() {
        Err(dex_fault(DexError::InvalidStateAccountOwner))
    } else {
        Ok(
            Accounts {
                market: accounts[0],
                orderbook: accounts[1],
                base_vault: accounts[2],
                quote_vault: accounts[3],
                market_admin: accounts[4],
                event_queue: accounts[5],
                asks: accounts[6],
                bids: accounts[7],
                token_metadata: accounts[8],
            },
        )
    }
}

impl Accounts {
    /// Reads the accounts from the list in their fixed order and checks
    /// what can be checked of them without the ledgers.
    pub fn parse(program_id: &Address, accounts: &Vec<AccountInfo>) -> (r: Result<
        Accounts,
        ProgramFault,
    >)
        ensures
            r == spec_parse(*program_id, accounts@),
    {
        if accounts.len() < 9 {
            return Err(ProgramFault::NotEnoughAccountKeys);
        }
        let a = Accounts {
            market: accounts[0],
            orderbook: accounts[1],
            base_vault: accounts[2],
            quote_vault: accounts[3],
            market_admin: accounts[4],
            event_queue: accounts[5],
            asks: accounts[6],
            bids: accounts[7],
            token_metadata: accounts[8],
        };
        if !a.market.owner.same(program_id) {
            return Err(ProgramFault::from_dex(DexError::InvalidStateAccountOwner));
        }
        if !a.orderbook.owner.same(program_id) {
            return Err(ProgramFault::from_dex(DexError::InvalidStateAccountOwner));
        }
        if !a.base_vault.owner.same(&spl_token_program()) {
            return Err(ProgramFault::from_dex(DexError::InvalidStateAccountOwner));
        }
        if !a.quote_vault.owner.same(&spl_token_program()) {
            return Err(ProgramFault::from_dex(DexError::InvalidStateAccountOwner));
        }
        Ok(a)
    }
}

impl Params {
    /// Reads the arguments from their stored form: six 64-bit integers.
    pub fn from_bytes(data: &[u8]) -> (r: Result<Params, ProgramFault>)
        ensures
            match r {
                Ok(p) => {
                    &&& data@.len() == 48
                    &&& p.signer_nonce == spec_u64_at(data@, 0)
                    &&& p.min_base_order_size == spec_u64_at(data@, 8)
                    &&& p.tick_size == spec_u64_at(data@, 16)
                    &&& p.cranker_reward == spec_u64_at(data@, 24)
                    &&& p.base_currency_multiplier == spec_u64_at(data@, 32)
                    &&& p.quote_currency_multiplier == spec_u64_at(data@, 40)
                },
                Err(e) => e == ProgramFault::InvalidInstructionData && data@.len() != 48,
            },
    {
        if data.len() != 48 {
            return Err(ProgramFault::InvalidInstructionData);
        }
        Ok(
            Params {
                signer_nonce: read_u64(data, 0),
                min_base_order_size: read_u64(data, 8),
                tick_size: read_u64(data, 16),
                cranker_reward: read_u64(data, 24),
                base_currency_multiplier: read_u64(data, 32),
                quote_currency_multiplier: read_u64(data, 40),
            },
        )
    }
}

impl Params {
    /// The stored form of the arguments: 48 bytes.
    pub open spec fn spec_bytes(&self) -> Seq<u8> {
        spec_u64_to_le_bytes(self.signer_nonce) + spec_u64_to_le_bytes(self.min_base_order_size)
            + spec_u64_to_le_bytes(self.tick_size) + spec_u64_to_le_bytes(self.cranker_reward)
            + spec_u64_to_le_bytes(self.base_currency_multiplier) + spec_u64_to_le_bytes(
            self.quote_currency_multiplier,
        )
    }

    /// The stored form of the arguments.
    pub fn to_bytes(&self) -> (out: Vec<u8>)
        ensures
            out@ == self.spec_bytes(),
            out@.len() == 48,
    {
        let mut out: Vec<u8> = Vec::new();
        put_u64(&mut out, self.signer_nonce);
        put_u64(&mut out, self.min_base_order_size);
        put_u64(&mut out, self.tick_size);
        put_u64(&mut out, self.cranker_reward);
        put_u64(&mut out, self.base_currency_multiplier);
        put_u64(&mut out, self.quote_currency_multiplier);
        assert(out@ =~= self.spec_bytes());
        out
    }
}

/// Checks what the matching engine's ledger says of an order book that is
/// run under a signer: it must be an order book, and the signer must be its
/// caller authority.
pub fn check_orderbook(is_orderbook: bool, caller_authority: &Address, market_signer: &Address) -> (r:
    Result<(), ProgramFault>)
    ensures
        r == (if is_orderbook && caller_authority@ == market_signer@ {
            Ok::<(), ProgramFault>(())
        } else {
            Err::<(), ProgramFault>(ProgramFault::InvalidArgument)
        }),
{
    if !is_orderbook {
        return Err(ProgramFault::InvalidArgument);
    }
    if !caller_authority.same(market_signer) {
        return Err(ProgramFault::InvalidArgument);
    }
    Ok(())
}

} // verus!
