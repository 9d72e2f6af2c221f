//! The reasons for which an escrow operation is refused.

use vstd::prelude::*;

verus! {

#[derive(Copy, Clone, Debug, Eq, PartialEq, PartialOrd, Ord, Structural)]
pub enum Error {
    InvalidAmount,
    SameSenderRecipient,
    UnsupportedAsset,
    CounterOverflow,
    EscrowNotFound,
    InvalidStatus,
    NotApproved,
    Expired,
    Unauthorized,
    AlreadyReleased,
    NotExpired,
    WrongSender,
    EscrowNotPending,
    InvalidAsset,
    InsufficientAmount,
    AlreadyFunded,
    DepositOverflow,
    ConditionsNotMet,
    UnauthorizedCaller,
    InsufficientFunds,
    ConversionFailed,
    InvalidFeePercentage,
    PartialReleaseNotAllowed,
    ArithmeticOverflow,
    AlreadyRefunded,
    UnauthorizedRefund,
    NoFundsAvailable,
    InvalidRefundAmount,
    SignatureMismatch,
    OracleFailure,
    InvalidProof,
    TimestampNotReached,
    ApprovalRequired,
    OracleDataMissing,
    FeeExceedsAmount,
    InvalidRate,
    AlreadyApproved,
    QuorumNotMet,
    ApproverNotWhitelisted,
    ApprovalExpired,
    EscrowFinalized,
    InvalidApproverCount,
    ApprovalNotFound,
    KycFailed,
    KycNotConfigured,
    KycProofRequired,
}

} // verus!
