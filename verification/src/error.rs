//! The failures that the exchange core reports.
use vstd::prelude::*;

verus! {

/// A failure of the exchange core itself.
#[derive(Clone, Copy, Debug, PartialEq, Eq, Structural)]
pub enum DexError {
    InvalidOrderIndex,
    UserAccountFull,
    TransactionAborted,
    MissingUserAccount,
    OrderNotFound,
    NoOp,
    OutofFunds,
    UserAccountStillActive,
    MarketStillActive,
    InvalidMarketSignerAccount,
    InvalidOrderbookAccount,
    InvalidAobProgramAccount,
    InvalidMarketAdminAccount,
    InvalidBaseVaultAccount,
    InvalidQuoteVaultAccount,
    InvalidSystemProgramAccount,
    InvalidSplTokenProgram,
    InvalidStateAccountOwner,
    AOBError,
    NumericalOverflow,
    InvalidMetadataKey,
    InvalidMetadataOwner,
    EventQueueMismatch,
    EventQueueMustBeEmpty,
}

/// A failure as the host ledger sees it: one of its own generic conditions,
/// or a failure of the exchange core carried by its code.
#[derive(Clone, Copy, Debug, PartialEq, Eq, Structural)]
pub enum ProgramFault {
    InvalidArgument,
    InvalidInstructionData,
    InvalidAccountData,
    MissingRequiredSignature,
    NotEnoughAccountKeys,
    UninitializedAccount,
    InvalidSeeds,
    Custom(u32),
}

impl DexError {
    /// The number under which the host ledger reports this failure.
    pub open spec fn spec_code(self) -> u32 {
        match self {
            DexError::InvalidOrderIndex => 0,
            DexError::UserAccountFull => 1,
            DexError::TransactionAborted => 2,
            DexError::MissingUserAccount => 3,
            DexError::OrderNotFound => 4,
            DexError::NoOp => 5,
            DexError::OutofFunds => 6,
            DexError::UserAccountStillActive => 7,
            DexError::MarketStillActive => 8,
            DexError::InvalidMarketSignerAccount => 9,
            DexError::InvalidOrderbookAccount => 10,
            DexError::InvalidAobProgramAccount => 11,
            DexError::InvalidMarketAdminAccount => 12,
            DexError::InvalidBaseVaultAccount => 13,
            DexError::InvalidQuoteVaultAccount => 14,
            DexError::InvalidSystemProgramAccount => 15,
            DexError::InvalidSplTokenProgram => 16,
            DexError::InvalidStateAccountOwner => 17,
            DexError::AOBError => 18,
            DexError::NumericalOverflow => 19,
            DexError::InvalidMetadataKey => 20,
            DexError::InvalidMetadataOwner => 21,
            DexError::EventQueueMismatch => 22,
            DexError::EventQueueMustBeEmpty => 23,
        }
    }

    /// The number under which the host ledger reports this failure.
    pub fn code(self) -> (r: u32)
        ensures
            r == self.spec_code(),
    {
        match self {
            DexError::InvalidOrderIndex => 0,
            DexError::UserAccountFull => 1,
            DexError::TransactionAborted => 2,
            DexError::MissingUserAccount => 3,
            DexError::OrderNotFound => 4,
            DexError::NoOp => 5,
            DexError::OutofFunds => 6,
            DexError::UserAccountStillActive => 7,
            DexError::MarketStillActive => 8,
            DexError::InvalidMarketSignerAccount => 9,
            DexError::InvalidOrderbookAccount => 10,
            DexError::InvalidAobProgramAccount => 11,
            DexError::InvalidMarketAdminAccount => 12,
            DexError::InvalidBaseVaultAccount => 13,
            DexError::InvalidQuoteVaultAccount => 14,
            DexError::InvalidSystemProgramAccount => 15,
            DexError::InvalidSplTokenProgram => 16,
            DexError::InvalidStateAccountOwner => 17,
            DexError::AOBError => 18,
            DexError::NumericalOverflow => 19,
            DexError::InvalidMetadataKey => 20,
            DexError::InvalidMetadataOwner => 21,
            DexError::EventQueueMismatch => 22,
            DexError::EventQueueMustBeEmpty => 23,
        }
    }

    /// The failure with the given code, if there is one.
    pub fn from_code(code: u32) -> (r: Option<DexError>)
        ensures
            match r {
                Some(e) => e.spec_code() == code,
                None => forall|e: DexError| e.spec_code() != code,
            },
    {
        match code {
            0 => Some(DexError::InvalidOrderIndex),
            1 => Some(DexError::UserAccountFull),
            2 => Some(DexError::TransactionAborted),
            3 => Some(DexError::MissingUserAccount),
            4 => Some(DexError::OrderNotFound),
            5 => Some(DexError::NoOp),
            6 => Some(DexError::OutofFunds),
            7 => Some(DexError::UserAccountStillActive),
            8 => Some(DexError::MarketStillActive),
            9 => Some(DexError::InvalidMarketSignerAccount),
            10 => Some(DexError::InvalidOrderbookAccount),
            11 => Some(DexError::InvalidAobProgramAccount),
            12 => Some(DexError::InvalidMarketAdminAccount),
            13 => Some(DexError::InvalidBaseVaultAccount),
            14 => Some(DexError::InvalidQuoteVaultAccount),
            15 => Some(DexError::InvalidSystemProgramAccount),
            16 => Some(DexError::InvalidSplTokenProgram),
            17 => Some(DexError::InvalidStateAccountOwner),
            18 => Some(DexError::AOBError),
            19 => Some(DexError::NumericalOverflow),
            20 => Some(DexError::InvalidMetadataKey),
            21 => Some(DexError::InvalidMetadataOwner),
            22 => Some(DexError::EventQueueMismatch),
            23 => Some(DexError::EventQueueMustBeEmpty),
            _ => None,
        }
    }

    /// The line that is logged when this failure ends an operation.
    pub open spec fn spec_print(self) -> Seq<char> {
        match self {
            DexError::InvalidOrderIndex => "Error: The given order index is invalid."@,
            DexError::UserAccountFull => {
                "Error: The user account has reached its maximum capacity for open orders."@
            },
            DexError::TransactionAborted => "Error: The transaction has been aborted."@,
            DexError::MissingUserAccount => "Error: A required user account is missing."@,
            DexError::OrderNotFound => "Error: The specified order has not been found."@,
            DexError::NoOp => "Error: The operation is a no-op"@,
            DexError::OutofFunds => "Error: The user does not own enough lamports"@,
            DexError::UserAccountStillActive => "Error: The user account is still active"@,
            DexError::MarketStillActive => "Error: Market is still active"@,
            DexError::InvalidMarketSignerAccount => "Error: Invalid market signer provided"@,
            DexError::InvalidOrderbookAccount => "Error: Invalid orderbook account provided"@,
            DexError::InvalidAobProgramAccount => "Error: Invalid AOB program account provided"@,
            DexError::InvalidMarketAdminAccount => "Error: Invalid market admin account provided"@,
            DexError::InvalidBaseVaultAccount => "Error: Invalid base vault account provided"@,
            DexError::InvalidQuoteVaultAccount => "Error: Invalid quote vault account provided"@,
            DexError::InvalidSystemProgramAccount => {
                "Error: Invalid system program account provided"@
            },
            DexError::InvalidSplTokenProgram => "Error: Invalid spl token program account provided"@,
            DexError::InvalidStateAccountOwner => {
                "Error: A provided state account was not owned by the current program"@
            },
            DexError::AOBError => "Error: The AOB instruction call returned an error."@,
            DexError::NumericalOverflow => "Error: A numerical operation overflowed"@,
            DexError::InvalidMetadataKey => "Error: Invalid metadata account provided"@,
            DexError::InvalidMetadataOwner => "Error: Invalid metadata account owner"@,
            DexError::EventQueueMismatch => "Error: The event queue does not match the orderbook"@,
            DexError::EventQueueMustBeEmpty => "Error: The event queue must be empty"@,
        }
    }

    /// The line that is logged when this failure ends an operation.
    pub fn print(&self) -> (r: &'static str)
        ensures
            r@ == self.spec_print(),
    {
        match self {
            DexError::InvalidOrderIndex => "Error: The given order index is invalid.",
            DexError::UserAccountFull => {
                "Error: The user account has reached its maximum capacity for open orders."
            },
            DexError::TransactionAborted => "Error: The transaction has been aborted.",
            DexError::MissingUserAccount => "Error: A required user account is missing.",
            DexError::OrderNotFound => "Error: The specified order has not been found.",
            DexError::NoOp => "Error: The operation is a no-op",
            DexError::OutofFunds => "Error: The user does not own enough lamports",
            DexError::UserAccountStillActive => "Error: The user account is still active",
            DexError::MarketStillActive => "Error: Market is still active",
            DexError::InvalidMarketSignerAccount => "Error: Invalid market signer provided",
            DexError::InvalidOrderbookAccount => "Error: Invalid orderbook account provided",
            DexError::InvalidAobProgramAccount => "Error: Invalid AOB program account provided",
            DexError::InvalidMarketAdminAccount => "Error: Invalid market admin account provided",
            DexError::InvalidBaseVaultAccount => "Error: Invalid base vault account provided",
            DexError::InvalidQuoteVaultAccount => "Error: Invalid quote vault account provided",
            DexError::InvalidSystemProgramAccount => {
                "Error: Invalid system program account provided"
            },
            DexError::InvalidSplTokenProgram => "Error: Invalid spl token program account provided",
            DexError::InvalidStateAccountOwner => {
                "Error: A provided state account was not owned by the current program"
            },
            DexError::AOBError => "Error: The AOB instruction call returned an error.",
            DexError::NumericalOverflow => "Error: A numerical operation overflowed",
            DexError::InvalidMetadataKey => "Error: Invalid metadata account provided",
            DexError::InvalidMetadataOwner => "Error: Invalid metadata account owner",
            DexError::EventQueueMismatch => "Error: The event queue does not match the orderbook",
            DexError::EventQueueMustBeEmpty => "Error: The event queue must be empty",
        }
    }

    /// The name under which failures of this kind are decoded.
    pub fn type_of() -> (r: &'static str)
        ensures
            r@ == "AOError"@,
    {
        "AOError"
    }
}

/// How a failure of the exchange core is reported to the host ledger.
pub open spec fn dex_fault(e: DexError) -> ProgramFault {
    ProgramFault::Custom(e.spec_code())
}

impl ProgramFault {
    /// How a failure of the exchange core is reported to the host ledger.
    pub fn from_dex(e: DexError) -> (r: ProgramFault)
        ensures
            r == dex_fault(e),
    {
        ProgramFault::Custom(e.code())
    }
}

/// Failures of the event-draining driver.
#[derive(Clone, Copy, Debug, PartialEq, Eq, Structural)]
pub enum CrankError {
    ConnectionError,
    InvalidMarketState,
}

} // verus!
