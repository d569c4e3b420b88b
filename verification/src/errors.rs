use vstd::prelude::*;

verus! {

/// Every way a settlement call can be refused.
#[derive(Copy, Clone, Debug, PartialEq, Eq, PartialOrd, Ord, Hash, Structural)]
pub enum SettlementError {
    AlreadyInitialized,
    BadDeadline,
    IdOverflow,
    InvalidAmount,
    InvalidRoute,
    UnsupportedCurrency,
    RequestNotFound,
    InvalidRequestStatus,
    BadFundingStatus,
    SettlementExpired,
    FiatFundingNotRequired,
    QuoteNotSet,
    SourceAmountMissing,
    SettlerAmountMissing,
    SourceSettlerNotNeeded,
    DestinationSettlerNotNeeded,
    FiatNotConfirmed,
    SourceSettlerMissing,
    DestinationSettlerMissing,
    ConditionFailed,
    SettlementAssetNotDeposited,
    PayoutExceedsDeposit,
    NotAuthorized,
    RequestCancelled,
    RequestDisputed,
    ReadyForClaim,
    NothingToDispute,
    AlreadyProcessed,
}

/// The numeric contract error code under which each error is reported on chain.
pub open spec fn error_code(e: SettlementError) -> u32 {
    match e {
        SettlementError::AlreadyInitialized => 200,
        SettlementError::BadDeadline => 201,
        SettlementError::IdOverflow => 202,
        SettlementError::InvalidAmount => 203,
        SettlementError::InvalidRoute => 204,
        SettlementError::UnsupportedCurrency => 205,
        SettlementError::RequestNotFound => 206,
        SettlementError::InvalidRequestStatus => 207,
        SettlementError::BadFundingStatus => 208,
        SettlementError::SettlementExpired => 209,
        SettlementError::FiatFundingNotRequired => 210,
        SettlementError::QuoteNotSet => 211,
        SettlementError::SourceAmountMissing => 212,
        SettlementError::SettlerAmountMissing => 213,
        SettlementError::SourceSettlerNotNeeded => 214,
        SettlementError::DestinationSettlerNotNeeded => 215,
        SettlementError::FiatNotConfirmed => 216,
        SettlementError::SourceSettlerMissing => 219,
        SettlementError::DestinationSettlerMissing => 220,
        SettlementError::ConditionFailed => 224,
        SettlementError::SettlementAssetNotDeposited => 228,
        SettlementError::PayoutExceedsDeposit => 230,
        SettlementError::NotAuthorized => 232,
        SettlementError::RequestCancelled => 237,
        SettlementError::RequestDisputed => 238,
        SettlementError::ReadyForClaim => 239,
        SettlementError::NothingToDispute => 240,
        SettlementError::AlreadyProcessed => 245,
    }
}

impl SettlementError {
    /// The contract error code of this error.
    pub fn code(&self) -> (c: u32)
        ensures
            c == error_code(*self),
    {
        match self {
            SettlementError::AlreadyInitialized => 200,
            SettlementError::BadDeadline => 201,
            SettlementError::IdOverflow => 202,
            SettlementError::InvalidAmount => 203,
            SettlementError::InvalidRoute => 204,
            SettlementError::UnsupportedCurrency => 205,
            SettlementError::RequestNotFound => 206,
            SettlementError::InvalidRequestStatus => 207,
            SettlementError::BadFundingStatus => 208,
            SettlementError::SettlementExpired => 209,
            SettlementError::FiatFundingNotRequired => 210,
            SettlementError::QuoteNotSet => 211,
            SettlementError::SourceAmountMissing => 212,
            SettlementError::SettlerAmountMissing => 213,
            SettlementError::SourceSettlerNotNeeded => 214,
            SettlementError::DestinationSettlerNotNeeded => 215,
            SettlementError::FiatNotConfirmed => 216,
            SettlementError::SourceSettlerMissing => 219,
            SettlementError::DestinationSettlerMissing => 220,
            SettlementError::ConditionFailed => 224,
            SettlementError::SettlementAssetNotDeposited => 228,
            SettlementError::PayoutExceedsDeposit => 230,
            SettlementError::NotAuthorized => 232,
            SettlementError::RequestCancelled => 237,
            SettlementError::RequestDisputed => 238,
            SettlementError::ReadyForClaim => 239,
            SettlementError::NothingToDispute => 240,
            SettlementError::AlreadyProcessed => 245,
        }
    }
}

} // verus!

verus! {

/// Why the registry, treasury or dispute contract refuses a call.
#[derive(Copy, Clone, Debug, PartialEq, Eq, Structural)]
pub enum Refusal {
    AlreadyInitialized,
    DisputeExists,
    NotParty,
    AlreadyResolved,
    SettlerExists,
    FeeTooHigh,
    NotPayments,
    NotAuthorized,
    InsufficientBalance,
    NothingLocked,
    ArithmeticOverflow,
}

} // verus!
