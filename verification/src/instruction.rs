//! The operations of the exchange and how a request names one.
use crate::address::Address;
use crate::error::ProgramFault;
use crate::utils::AccountInfo;
use crate::{
    cancel_order, close_account, close_market, consume_events, create_market, initialize_account,
    new_order, settle, swap, sweep_fees,
};
use vstd::prelude::*;

verus! {

/// Where the arguments of an operation start in a request: the tag takes
/// one byte and is padded so that the arguments stay aligned.
pub const INSTRUCTION_TAG_OFFSET: usize = 8;

/// The operations of the exchange, in the order of their tags.
#[derive(Clone, Copy, Debug, PartialEq, Eq, Structural)]
pub enum DexInstruction {
    /// Creates a market.
    CreateMarket,
    /// Places an order.
    NewOrder,
    /// Matches an order at once against the book, without a user account.
    Swap,
    /// Cancels an open order.
    CancelOrder,
    /// Drains match events into the ledgers.
    ConsumeEvents,
    /// Pays out the free balances of a user account.
    Settle,
    /// Creates a user account.
    InitializeAccount,
    /// Pays out the accumulated royalties and fees of a market.
    SweepFees,
    /// Closes an inactive user account.
    CloseAccount,
    /// Closes an inactive market.
    CloseMarket,
}

/// The tag of an operation.
pub open spec fn spec_tag(instruction: DexInstruction) -> u8 {
    match instruction {
        DexInstruction::CreateMarket => 0,
        DexInstruction::NewOrder => 1,
        DexInstruction::Swap => 2,
        DexInstruction::CancelOrder => 3,
        DexInstruction::ConsumeEvents => 4,
        DexInstruction::Settle => 5,
        DexInstruction::InitializeAccount => 6,
        DexInstruction::SweepFees => 7,
        DexInstruction::CloseAccount => 8,
        DexInstruction::CloseMarket => 9,
    }
}

impl DexInstruction {
    /// The tag of the operation.
    pub fn tag(self) -> (r: u8)
        ensures
            r == spec_tag(self),
    {
        match self {
            DexInstruction::CreateMarket => 0,
            DexInstruction::NewOrder => 1,
            DexInstruction::Swap => 2,
            DexInstruction::CancelOrder => 3,
            DexInstruction::ConsumeEvents => 4,
            DexInstruction::Settle => 5,
            DexInstruction::InitializeAccount => 6,
            DexInstruction::SweepFees => 7,
            DexInstruction::CloseAccount => 8,
            DexInstruction::CloseMarket => 9,
        }
    }

    /// The operation with the given tag, if there is one.
    pub fn from_u8(tag: u8) -> (r: Option<DexInstruction>)
        ensures
            match r {
                Some(i) => spec_tag(i) == tag,
                None => tag >= 10,
            },
    {
        match tag {
            0 => Some(DexInstruction::CreateMarket),
            1 => Some(DexInstruction::NewOrder),
            2 => Some(DexInstruction::Swap),
            3 => Some(DexInstruction::CancelOrder),
            4 => Some(DexInstruction::ConsumeEvents),
            5 => Some(DexInstruction::Settle),
            6 => Some(DexInstruction::InitializeAccount),
            7 => Some(DexInstruction::SweepFees),
            8 => Some(DexInstruction::CloseAccount),
            9 => Some(DexInstruction::CloseMarket),
            _ => None,
        }
    }
}

/// The entry of the exchange: tells which operation a request names.
pub struct Processor {}

impl Processor {
    /// Reads the tag of a request and returns the operation with the bytes
    /// of its arguments. A request without a known tag, or too short to hold
    /// the padded tag, is refused.
    pub fn process_instruction(instruction_data: &[u8]) -> (r: Result<
        (DexInstruction, &[u8]),
        ProgramFault,
    >)
        ensures
            match r {
                Ok((instruction, arguments)) => {
                    &&& instruction_data@.len() >= 8
                    &&& spec_tag(instruction) == instruction_data@[0]
                    &&& arguments@ == instruction_data@.skip(8)
                },
                Err(e) => {
                    &&& e == ProgramFault::InvalidInstructionData
                    &&& (instruction_data@.len() < 8 || instruction_data@[0] >= 10)
                },
            },
    {
        if instruction_data.len() < INSTRUCTION_TAG_OFFSET {
            return Err(ProgramFault::InvalidInstructionData);
        }
        let instruction = match DexInstruction::from_u8(instruction_data[0]) {
            Some(i) => i,
            None => {
                return Err(ProgramFault::InvalidInstructionData);
            },
        };
        let arguments = vstd::slice::slice_subrange(
            instruction_data,
            INSTRUCTION_TAG_OFFSET,
            instruction_data.len(),
        );
        assert(arguments@ =~= instruction_data@.skip(8));
        Ok((instruction, arguments))
    }
}

/// An account as a request names it: its address and its role.
#[derive(Clone, Copy, Debug)]
pub struct AccountMeta {
    pub pubkey: Address,
    pub is_signer: bool,
    pub is_writable: bool,
}

/// A request to the exchange: the program it goes to, the accounts it
/// names in their fixed order, and the operation's tag with its arguments.
#[derive(Debug)]
pub struct Instruction {
    pub program_id: Address,
    pub accounts: Vec<AccountMeta>,
    pub data: Vec<u8>,
}

/// The data of a request: the tag, padded to eight bytes, then the
/// arguments.
pub open spec fn spec_request_data(tag: u8, arguments: Seq<u8>) -> Seq<u8> {
    seq![tag, 0u8, 0u8, 0u8, 0u8, 0u8, 0u8, 0u8] + arguments
}

/// The accounts of a list, all in the same role.
pub open spec fn spec_metas(accounts: Seq<AccountInfo>, signer: bool, writable: bool) -> Seq<
    AccountMeta,
> {
    accounts.map_values(
        |a: AccountInfo| AccountMeta { pubkey: a.key, is_signer: signer, is_writable: writable },
    )
}

/// The account in its role, if there is one.
pub open spec fn spec_optional_meta(account: Option<AccountInfo>, signer: bool, writable: bool)
    -> Seq<AccountMeta> {
    match account {
        Some(a) => seq![AccountMeta { pubkey: a.key, is_signer: signer, is_writable: writable }],
        None => Seq::empty(),
    }
}

/// The data of a request.
pub fn request_data(instruction: DexInstruction, arguments: &Vec<u8>) -> (r: Vec<u8>)
    ensures
        r@ == spec_request_data(spec_tag(instruction), arguments@),
{
    let mut out: Vec<u8> = Vec::new();
    out.push(instruction.tag());
    out.push(0);
    out.push(0);
    out.push(0);
    out.push(0);
    out.push(0);
    out.push(0);
    out.push(0);
    let mut i: usize = 0;
    while i < arguments.len()
        invariant
            0 <= i <= arguments.len(),
            out@ == spec_request_data(spec_tag(instruction), arguments@.take(i as int)),
        decreases arguments.len() - i,
    {
        out.push(arguments[i]);
        assert(arguments@.take(i + 1) =~= arguments@.take(i as int).push(arguments[i as int]));
        assert(out@ =~= spec_request_data(spec_tag(instruction), arguments@.take(i + 1)));
        i += 1;
    }
    assert(arguments@.take(arguments.len() as int) =~= arguments@);
    out
}

/// Appends the accounts of a list, all in the same role.
pub fn push_metas(metas: &mut Vec<AccountMeta>, accounts: &Vec<AccountInfo>, signer: bool, writable: bool)
    ensures
        final(metas)@ == old(metas)@ + spec_metas(accounts@, signer, writable),
{
    let mut i: usize = 0;
    assert(metas@ =~= old(metas)@ + spec_metas(accounts@.take(0), signer, writable));
    while i < accounts.len()
        invariant
            0 <= i <= accounts.len(),
            metas@ == old(metas)@ + spec_metas(accounts@.take(i as int), signer, writable),
        decreases accounts.len() - i,
    {
        metas.push(AccountMeta { pubkey: accounts[i].key, is_signer: signer, is_writable: writable });
        assert(accounts@.take(i + 1) =~= accounts@.take(i as int).push(accounts[i as int]));
        assert(metas@ =~= old(metas)@ + spec_metas(accounts@.take(i + 1), signer, writable));
        i += 1;
    }
    assert(accounts@.take(accounts.len() as int) =~= accounts@);
}

/// Appends the account in its role, if there is one.
pub fn push_optional_meta(
    metas: &mut Vec<AccountMeta>,
    account: &Option<AccountInfo>,
    signer: bool,
    writable: bool,
)
    ensures
        final(metas)@ == old(metas)@ + spec_optional_meta(*account, signer, writable),
{
    match account {
        Some(a) => {
            metas.push(AccountMeta { pubkey: a.key, is_signer: signer, is_writable: writable });
            assert(metas@ =~= old(metas)@ + spec_optional_meta(*account, signer, writable));
        },
        None => {
            assert(metas@ =~= old(metas)@ + spec_optional_meta(*account, signer, writable));
        },
    }
}

/// The accounts of a request that creates a market, in their fixed order and with
/// their fixed roles.
pub open spec fn spec_create_market_accounts(accounts: create_market::Accounts) -> Seq<AccountMeta> {
    seq![
        AccountMeta { pubkey: accounts.market.key, is_signer: false, is_writable: true },
        AccountMeta { pubkey: accounts.orderbook.key, is_signer: false, is_writable: true },
        AccountMeta { pubkey: accounts.base_vault.key, is_signer: false, is_writable: false },
        AccountMeta { pubkey: accounts.quote_vault.key, is_signer: false, is_writable: false },
        AccountMeta { pubkey: accounts.market_admin.key, is_signer: false, is_writable: false },
        AccountMeta { pubkey: accounts.event_queue.key, is_signer: false, is_writable: true },
        AccountMeta { pubkey: accounts.asks.key, is_signer: false, is_writable: true },
        AccountMeta { pubkey: accounts.bids.key, is_signer: false, is_writable: true },
        AccountMeta { pubkey: accounts.token_metadata.key, is_signer: false, is_writable: false },
    ]
}

/// The request that creates a market.
pub fn create_market(
    program_id: Address,
    accounts: &create_market::Accounts,
    params: &create_market::Params,
) -> (r: Instruction)
    ensures
        r.program_id == program_id,
        r.accounts@ == spec_create_market_accounts(*accounts),
        r.data@ == spec_request_data(spec_tag(DexInstruction::CreateMarket), params.spec_bytes()),
{
    let mut metas: Vec<AccountMeta> = Vec::new();
    metas.push(AccountMeta { pubkey: accounts.market.key, is_signer: false, is_writable: true });
    metas.push(AccountMeta { pubkey: accounts.orderbook.key, is_signer: false, is_writable: true });
    metas.push(AccountMeta { pubkey: accounts.base_vault.key, is_signer: false, is_writable: false });
    metas.push(AccountMeta { pubkey: accounts.quote_vault.key, is_signer: false, is_writable: false });
    metas.push(AccountMeta { pubkey: accounts.market_admin.key, is_signer: false, is_writable: false });
    metas.push(AccountMeta { pubkey: accounts.event_queue.key, is_signer: false, is_writable: true });
    metas.push(AccountMeta { pubkey: accounts.asks.key, is_signer: false, is_writable: true });
    metas.push(AccountMeta { pubkey: accounts.bids.key, is_signer: false, is_writable: true });
    metas.push(AccountMeta { pubkey: accounts.token_metadata.key, is_signer: false, is_writable: false });
    assert(metas@ =~= spec_create_market_accounts(*accounts));
    let arguments = params.to_bytes();
    Instruction {
        program_id,
        accounts: metas,
        data: request_data(DexInstruction::CreateMarket, &arguments),
    }
}

/// The accounts of a request that places an order, in their fixed order and with
/// their fixed roles.
pub open spec fn spec_new_order_accounts(accounts: new_order::Accounts) -> Seq<AccountMeta> {
    seq![
        AccountMeta { pubkey: accounts.spl_token_program.key, is_signer: false, is_writable: false },
        AccountMeta { pubkey: accounts.system_program.key, is_signer: false, is_writable: false },
        AccountMeta { pubkey: accounts.market.key, is_signer: false, is_writable: true },
        AccountMeta { pubkey: accounts.orderbook.key, is_signer: false, is_writable: true },
        AccountMeta { pubkey: accounts.event_queue.key, is_signer: false, is_writable: true },
        AccountMeta { pubkey: accounts.bids.key, is_signer: false, is_writable: true },
        AccountMeta { pubkey: accounts.asks.key, is_signer: false, is_writable: true },
        AccountMeta { pubkey: accounts.base_vault.key, is_signer: false, is_writable: true },
        AccountMeta { pubkey: accounts.quote_vault.key, is_signer: false, is_writable: true },
        AccountMeta { pubkey: accounts.user.key, is_signer: false, is_writable: true },
        AccountMeta { pubkey: accounts.user_token_account.key, is_signer: false, is_writable: true },
        AccountMeta { pubkey: accounts.user_owner.key, is_signer: true, is_writable: true },
    ] + spec_optional_meta(accounts.discount_token_account, false, false) + spec_optional_meta(accounts.fee_referral_account, false, true)
}

/// The request that places an order.
pub fn new_order(
    program_id: Address,
    accounts: &new_order::Accounts,
    params: &new_order::Params,
) -> (r: Instruction)
    ensures
        r.program_id == program_id,
        r.accounts@ == spec_new_order_accounts(*accounts),
        r.data@ == spec_request_data(spec_tag(DexInstruction::NewOrder), params.spec_bytes()),
{
    let mut metas: Vec<AccountMeta> = Vec::new();
    metas.push(AccountMeta { pubkey: accounts.spl_token_program.key, is_signer: false, is_writable: false });
    metas.push(AccountMeta { pubkey: accounts.system_program.key, is_signer: false, is_writable: false });
    metas.push(AccountMeta { pubkey: accounts.market.key, is_signer: false, is_writable: true });
    metas.push(AccountMeta { pubkey: accounts.orderbook.key, is_signer: false, is_writable: true });
    metas.push(AccountMeta { pubkey: accounts.event_queue.key, is_signer: false, is_writable: true });
    metas.push(AccountMeta { pubkey: accounts.bids.key, is_signer: false, is_writable: true });
    metas.push(AccountMeta { pubkey: accounts.asks.key, is_signer: false, is_writable: true });
    metas.push(AccountMeta { pubkey: accounts.base_vault.key, is_signer: false, is_writable: true });
    metas.push(AccountMeta { pubkey: accounts.quote_vault.key, is_signer: false, is_writable: true });
    metas.push(AccountMeta { pubkey: accounts.user.key, is_signer: false, is_writable: true });
    metas.push(AccountMeta { pubkey: accounts.user_token_account.key, is_signer: false, is_writable: true });
    metas.push(AccountMeta { pubkey: accounts.user_owner.key, is_signer: true, is_writable: true });
    push_optional_meta(&mut metas, &accounts.discount_token_account, false, false);
    push_optional_meta(&mut metas, &accounts.fee_referral_account, false, true);
    assert(metas@ =~= spec_new_order_accounts(*accounts));
    let arguments = params.to_bytes();
    Instruction {
        program_id,
        accounts: metas,
        data: request_data(DexInstruction::NewOrder, &arguments),
    }
}

/// The accounts of a request that cancels an order, in their fixed order and with
/// their fixed roles.
pub open spec fn spec_cancel_order_accounts(accounts: cancel_order::Accounts) -> Seq<AccountMeta> {
    seq![
        AccountMeta { pubkey: accounts.market.key, is_signer: false, is_writable: false },
        AccountMeta { pubkey: accounts.orderbook.key, is_signer: false, is_writable: true },
        AccountMeta { pubkey: accounts.event_queue.key, is_signer: false, is_writable: true },
        AccountMeta { pubkey: accounts.bids.key, is_signer: false, is_writable: true },
        AccountMeta { pubkey: accounts.asks.key, is_signer: false, is_writable: true },
        AccountMeta { pubkey: accounts.user.key, is_signer: false, is_writable: true },
        AccountMeta { pubkey: accounts.user_owner.key, is_signer: true, is_writable: false },
    ]
}

/// The request that cancels an order.
pub fn cancel_order(
    program_id: Address,
    accounts: &cancel_order::Accounts,
    params: &cancel_order::Params,
) -> (r: Instruction)
    ensures
        r.program_id == program_id,
        r.accounts@ == spec_cancel_order_accounts(*accounts),
        r.data@ == spec_request_data(spec_tag(DexInstruction::CancelOrder), params.spec_bytes()),
{
    let mut metas: Vec<AccountMeta> = Vec::new();
    metas.push(AccountMeta { pubkey: accounts.market.key, is_signer: false, is_writable: false });
    metas.push(AccountMeta { pubkey: accounts.orderbook.key, is_signer: false, is_writable: true });
    metas.push(AccountMeta { pubkey: accounts.event_queue.key, is_signer: false, is_writable: true });
    metas.push(AccountMeta { pubkey: accounts.bids.key, is_signer: false, is_writable: true });
    metas.push(AccountMeta { pubkey: accounts.asks.key, is_signer: false, is_writable: true });
    metas.push(AccountMeta { pubkey: accounts.user.key, is_signer: false, is_writable: true });
    metas.push(AccountMeta { pubkey: accounts.user_owner.key, is_signer: true, is_writable: false });
    assert(metas@ =~= spec_cancel_order_accounts(*accounts));
    let arguments = params.to_bytes();
    Instruction {
        program_id,
        accounts: metas,
        data: request_data(DexInstruction::CancelOrder, &arguments),
    }
}

/// The accounts of a request that drains events, in their fixed order and with
/// their fixed roles.
pub open spec fn spec_consume_events_accounts(accounts: consume_events::Accounts) -> Seq<AccountMeta> {
    seq![
        AccountMeta { pubkey: accounts.market.key, is_signer: false, is_writable: true },
        AccountMeta { pubkey: accounts.orderbook.key, is_signer: false, is_writable: true },
        AccountMeta { pubkey: accounts.event_queue.key, is_signer: false, is_writable: true },
        AccountMeta { pubkey: accounts.reward_target.key, is_signer: false, is_writable: true },
    ] + spec_metas(accounts.user_accounts@, false, true)
}

/// The request that drains events.
pub fn consume_events(
    program_id: Address,
    accounts: &consume_events::Accounts,
    params: &consume_events::Params,
) -> (r: Instruction)
    ensures
        r.program_id == program_id,
        r.accounts@ == spec_consume_events_accounts(*accounts),
        r.data@ == spec_request_data(spec_tag(DexInstruction::ConsumeEvents), params.spec_bytes()),
{
    let mut metas: Vec<AccountMeta> = Vec::new();
    metas.push(AccountMeta { pubkey: accounts.market.key, is_signer: false, is_writable: true });
    metas.push(AccountMeta { pubkey: accounts.orderbook.key, is_signer: false, is_writable: true });
    metas.push(AccountMeta { pubkey: accounts.event_queue.key, is_signer: false, is_writable: true });
    metas.push(AccountMeta { pubkey: accounts.reward_target.key, is_signer: false, is_writable: true });
    push_metas(&mut metas, &accounts.user_accounts, false, true);
    assert(metas@ =~= spec_consume_events_accounts(*accounts));
    let arguments = params.to_bytes();
    Instruction {
        program_id,
        accounts: metas,
        data: request_data(DexInstruction::ConsumeEvents, &arguments),
    }
}

/// The accounts of a request that settles a user account, in their fixed order and with
/// their fixed roles.
pub open spec fn spec_settle_accounts(accounts: settle::Accounts) -> Seq<AccountMeta> {
    seq![
        AccountMeta { pubkey: accounts.spl_token_program.key, is_signer: false, is_writable: false },
        AccountMeta { pubkey: accounts.market.key, is_signer: false, is_writable: false },
        AccountMeta { pubkey: accounts.base_vault.key, is_signer: false, is_writable: true },
        AccountMeta { pubkey: accounts.quote_vault.key, is_signer: false, is_writable: true },
        AccountMeta { pubkey: accounts.market_signer.key, is_signer: false, is_writable: false },
        AccountMeta { pubkey: accounts.user.key, is_signer: false, is_writable: true },
        AccountMeta { pubkey: accounts.user_owner.key, is_signer: true, is_writable: false },
        AccountMeta { pubkey: accounts.destination_base_account.key, is_signer: false, is_writable: true },
        AccountMeta { pubkey: accounts.destination_quote_account.key, is_signer: false, is_writable: true },
    ]
}

/// The request that settles a user account.
pub fn settle(
    program_id: Address,
    accounts: &settle::Accounts,
) -> (r: Instruction)
    ensures
        r.program_id == program_id,
        r.accounts@ == spec_settle_accounts(*accounts),
        r.data@ == spec_request_data(spec_tag(DexInstruction::Settle), Seq::empty()),
{
    let mut metas: Vec<AccountMeta> = Vec::new();
    metas.push(AccountMeta { pubkey: accounts.spl_token_program.key, is_signer: false, is_writable: false });
    metas.push(AccountMeta { pubkey: accounts.market.key, is_signer: false, is_writable: false });
    metas.push(AccountMeta { pubkey: accounts.base_vault.key, is_signer: false, is_writable: true });
    metas.push(AccountMeta { pubkey: accounts.quote_vault.key, is_signer: false, is_writable: true });
    metas.push(AccountMeta { pubkey: accounts.market_signer.key, is_signer: false, is_writable: false });
    metas.push(AccountMeta { pubkey: accounts.user.key, is_signer: false, is_writable: true });
    metas.push(AccountMeta { pubkey: accounts.user_owner.key, is_signer: true, is_writable: false });
    metas.push(AccountMeta { pubkey: accounts.destination_base_account.key, is_signer: false, is_writable: true });
    metas.push(AccountMeta { pubkey: accounts.destination_quote_account.key, is_signer: false, is_writable: true });
    assert(metas@ =~= spec_settle_accounts(*accounts));
    let arguments: Vec<u8> = Vec::new();
    Instruction {
        program_id,
        accounts: metas,
        data: request_data(DexInstruction::Settle, &arguments),
    }
}

/// The accounts of a request that creates a user account, in their fixed order and with
/// their fixed roles.
pub open spec fn spec_initialize_account_accounts(accounts: initialize_account::Accounts) -> Seq<AccountMeta> {
    seq![
        AccountMeta { pubkey: accounts.system_program.key, is_signer: false, is_writable: false },
        AccountMeta { pubkey: accounts.user.key, is_signer: false, is_writable: true },
        AccountMeta { pubkey: accounts.user_owner.key, is_signer: true, is_writable: false },
        AccountMeta { pubkey: accounts.fee_payer.key, is_signer: true, is_writable: true },
    ]
}

/// The request that creates a user account.
pub fn initialize_account(
    program_id: Address,
    accounts: &initialize_account::Accounts,
    params: &initialize_account::Params,
) -> (r: Instruction)
    ensures
        r.program_id == program_id,
        r.accounts@ == spec_initialize_account_accounts(*accounts),
        r.data@ == spec_request_data(spec_tag(DexInstruction::InitializeAccount), params.spec_bytes()),
{
    let mut metas: Vec<AccountMeta> = Vec::new();
    metas.push(AccountMeta { pubkey: accounts.system_program.key, is_signer: false, is_writable: false });
    metas.push(AccountMeta { pubkey: accounts.user.key, is_signer: false, is_writable: true });
    metas.push(AccountMeta { pubkey: accounts.user_owner.key, is_signer: true, is_writable: false });
    metas.push(AccountMeta { pubkey: accounts.fee_payer.key, is_signer: true, is_writable: true });
    assert(metas@ =~= spec_initialize_account_accounts(*accounts));
    let arguments = params.to_bytes();
    Instruction {
        program_id,
        accounts: metas,
        data: request_data(DexInstruction::InitializeAccount, &arguments),
    }
}

/// The accounts of a request that sweeps royalties and fees, in their fixed order and with
/// their fixed roles.
pub open spec fn spec_sweep_fees_accounts(accounts: sweep_fees::Accounts) -> Seq<AccountMeta> {
    seq![
        AccountMeta { pubkey: accounts.market.key, is_signer: false, is_writable: true },
        AccountMeta { pubkey: accounts.market_signer.key, is_signer: false, is_writable: false },
        AccountMeta { pubkey: accounts.quote_vault.key, is_signer: false, is_writable: true },
        AccountMeta { pubkey: accounts.destination_token_account.key, is_signer: false, is_writable: true },
        AccountMeta { pubkey: accounts.spl_token_program.key, is_signer: false, is_writable: false },
        AccountMeta { pubkey: accounts.token_metadata.key, is_signer: false, is_writable: false },
    ] + spec_metas(accounts.creators_token_accounts@, false, true)
}

/// The request that sweeps royalties and fees.
pub fn sweep_fees(
    program_id: Address,
    accounts: &sweep_fees::Accounts,
) -> (r: Instruction)
    ensures
        r.program_id == program_id,
        r.accounts@ == spec_sweep_fees_accounts(*accounts),
        r.data@ == spec_request_data(spec_tag(DexInstruction::SweepFees), Seq::empty()),
{
    let mut metas: Vec<AccountMeta> = Vec::new();
    metas.push(AccountMeta { pubkey: accounts.market.key, is_signer: false, is_writable: true });
    metas.push(AccountMeta { pubkey: accounts.market_signer.key, is_signer: false, is_writable: false });
    metas.push(AccountMeta { pubkey: accounts.quote_vault.key, is_signer: false, is_writable: true });
    metas.push(AccountMeta { pubkey: accounts.destination_token_account.key, is_signer: false, is_writable: true });
    metas.push(AccountMeta { pubkey: accounts.spl_token_program.key, is_signer: false, is_writable: false });
    metas.push(AccountMeta { pubkey: accounts.token_metadata.key, is_signer: false, is_writable: false });
    push_metas(&mut metas, &accounts.creators_token_accounts, false, true);
    assert(metas@ =~= spec_sweep_fees_accounts(*accounts));
    let arguments: Vec<u8> = Vec::new();
    Instruction {
        program_id,
        accounts: metas,
        data: request_data(DexInstruction::SweepFees, &arguments),
    }
}

/// The accounts of a request that closes a user account, in their fixed order and with
/// their fixed roles.
pub open spec fn spec_close_account_accounts(accounts: close_account::Accounts) -> Seq<AccountMeta> {
    seq![
        AccountMeta { pubkey: accounts.user.key, is_signer: false, is_writable: true },
        AccountMeta { pubkey: accounts.user_owner.key, is_signer: true, is_writable: false },
        AccountMeta { pubkey: accounts.target_lamports_account.key, is_signer: false, is_writable: true },
    ]
}

/// The request that closes a user account.
pub fn close_account(
    program_id: Address,
    accounts: &close_account::Accounts,
) -> (r: Instruction)
    ensures
        r.program_id == program_id,
        r.accounts@ == spec_close_account_accounts(*accounts),
        r.data@ == spec_request_data(spec_tag(DexInstruction::CloseAccount), Seq::empty()),
{
    let mut metas: Vec<AccountMeta> = Vec::new();
    metas.push(AccountMeta { pubkey: accounts.user.key, is_signer: false, is_writable: true });
    metas.push(AccountMeta { pubkey: accounts.user_owner.key, is_signer: true, is_writable: false });
    metas.push(AccountMeta { pubkey: accounts.target_lamports_account.key, is_signer: false, is_writable: true });
    assert(metas@ =~= spec_close_account_accounts(*accounts));
    let arguments: Vec<u8> = Vec::new();
    Instruction {
        program_id,
        accounts: metas,
        data: request_data(DexInstruction::CloseAccount, &arguments),
    }
}

/// The accounts of a request that closes a market, in their fixed order and with
/// their fixed roles.
pub open spec fn spec_close_market_accounts(accounts: close_market::Accounts) -> Seq<AccountMeta> {
    seq![
        AccountMeta { pubkey: accounts.market.key, is_signer: false, is_writable: true },
        AccountMeta { pubkey: accounts.base_vault.key, is_signer: false, is_writable: true },
        AccountMeta { pubkey: accounts.quote_vault.key, is_signer: false, is_writable: true },
        AccountMeta { pubkey: accounts.orderbook.key, is_signer: false, is_writable: true },
        AccountMeta { pubkey: accounts.event_queue.key, is_signer: false, is_writable: true },
        AccountMeta { pubkey: accounts.bids.key, is_signer: false, is_writable: true },
        AccountMeta { pubkey: accounts.asks.key, is_signer: false, is_writable: true },
        AccountMeta { pubkey: accounts.market_admin.key, is_signer: true, is_writable: false },
        AccountMeta { pubkey: accounts.target_lamports_account.key, is_signer: false, is_writable: true },
        AccountMeta { pubkey: accounts.market_signer.key, is_signer: false, is_writable: false },
        AccountMeta { pubkey: accounts.spl_token_program.key, is_signer: false, is_writable: false },
    ]
}

/// The request that closes a market.
pub fn close_market(
    program_id: Address,
    accounts: &close_market::Accounts,
) -> (r: Instruction)
    ensures
        r.program_id == program_id,
        r.accounts@ == spec_close_market_accounts(*accounts),
        r.data@ == spec_request_data(spec_tag(DexInstruction::CloseMarket), Seq::empty()),
{
    let mut metas: Vec<AccountMeta> = Vec::new();
    metas.push(AccountMeta { pubkey: accounts.market.key, is_signer: false, is_writable: true });
    metas.push(AccountMeta { pubkey: accounts.base_vault.key, is_signer: false, is_writable: true });
    metas.push(AccountMeta { pubkey: accounts.quote_vault.key, is_signer: false, is_writable: true });
    metas.push(AccountMeta { pubkey: accounts.orderbook.key, is_signer: false, is_writable: true });
    metas.push(AccountMeta { pubkey: accounts.event_queue.key, is_signer: false, is_writable: true });
    metas.push(AccountMeta { pubkey: accounts.bids.key, is_signer: false, is_writable: true });
    metas.push(AccountMeta { pubkey: accounts.asks.key, is_signer: false, is_writable: true });
    metas.push(AccountMeta { pubkey: accounts.market_admin.key, is_signer: true, is_writable: false });
    metas.push(AccountMeta { pubkey: accounts.target_lamports_account.key, is_signer: false, is_writable: true });
    metas.push(AccountMeta { pubkey: accounts.market_signer.key, is_signer: false, is_writable: false });
    metas.push(AccountMeta { pubkey: accounts.spl_token_program.key, is_signer: false, is_writable: false });
    assert(metas@ =~= spec_close_market_accounts(*accounts));
    let arguments: Vec<u8> = Vec::new();
    Instruction {
        program_id,
        accounts: metas,
        data: request_data(DexInstruction::CloseMarket, &arguments),
    }
}

/// The accounts of a request that swaps, in their fixed order and with
/// their fixed roles.
pub open spec fn spec_swap_accounts(accounts: swap::Accounts) -> Seq<AccountMeta> {
    seq![
        AccountMeta { pubkey: accounts.spl_token_program.key, is_signer: false, is_writable: false },
        AccountMeta { pubkey: accounts.system_program.key, is_signer: false, is_writable: false },
        AccountMeta { pubkey: accounts.market.key, is_signer: false, is_writable: true },
        AccountMeta { pubkey: accounts.orderbook.key, is_signer: false, is_writable: true },
        AccountMeta { pubkey: accounts.event_queue.key, is_signer: false, is_writable: true },
        AccountMeta { pubkey: accounts.bids.key, is_signer: false, is_writable: true },
        AccountMeta { pubkey: accounts.asks.key, is_signer: false, is_writable: true },
        AccountMeta { pubkey: accounts.base_vault.key, is_signer: false, is_writable: true },
        AccountMeta { pubkey: accounts.quote_vault.key, is_signer: false, is_writable: true },
        AccountMeta { pubkey: accounts.market_signer.key, is_signer: false, is_writable: false },
        AccountMeta { pubkey: accounts.user_base_account.key, is_signer: false, is_writable: true },
        AccountMeta { pubkey: accounts.user_quote_account.key, is_signer: false, is_writable: true },
        AccountMeta { pubkey: accounts.user_owner.key, is_signer: true, is_writable: true },
    ] + spec_optional_meta(accounts.discount_token_account, false, false) + spec_optional_meta(
        accounts.fee_referral_account,
        false,
        true,
    )
}

/// The request that swaps.
pub fn swap(program_id: Address, accounts: &swap::Accounts, params: &swap::Params) -> (r:
    Instruction)
    ensures
        r.program_id == program_id,
        r.accounts@ == spec_swap_accounts(*accounts),
        r.data@ == spec_request_data(spec_tag(DexInstruction::Swap), params.spec_bytes()),
{
    let mut metas: Vec<AccountMeta> = Vec::new();
    metas.push(AccountMeta { pubkey: accounts.spl_token_program.key, is_signer: false, is_writable: false });
    metas.push(AccountMeta { pubkey: accounts.system_program.key, is_signer: false, is_writable: false });
    metas.push(AccountMeta { pubkey: accounts.market.key, is_signer: false, is_writable: true });
    metas.push(AccountMeta { pubkey: accounts.orderbook.key, is_signer: false, is_writable: true });
    metas.push(AccountMeta { pubkey: accounts.event_queue.key, is_signer: false, is_writable: true });
    metas.push(AccountMeta { pubkey: accounts.bids.key, is_signer: false, is_writable: true });
    metas.push(AccountMeta { pubkey: accounts.asks.key, is_signer: false, is_writable: true });
    metas.push(AccountMeta { pubkey: accounts.base_vault.key, is_signer: false, is_writable: true });
    metas.push(AccountMeta { pubkey: accounts.quote_vault.key, is_signer: false, is_writable: true });
    metas.push(AccountMeta { pubkey: accounts.market_signer.key, is_signer: false, is_writable: false });
    metas.push(AccountMeta { pubkey: accounts.user_base_account.key, is_signer: false, is_writable: true });
    metas.push(AccountMeta { pubkey: accounts.user_quote_account.key, is_signer: false, is_writable: true });
    metas.push(AccountMeta { pubkey: accounts.user_owner.key, is_signer: true, is_writable: true });
    push_optional_meta(&mut metas, &accounts.discount_token_account, false, false);
    push_optional_meta(&mut metas, &accounts.fee_referral_account, false, true);
    assert(metas@ =~= spec_swap_accounts(*accounts));
    let arguments = params.to_bytes();
    Instruction { program_id, accounts: metas, data: request_data(DexInstruction::Swap, &arguments) }
}

} // verus!
