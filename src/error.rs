use vstd::prelude::*;

verus! {

/// Every way an operation of the ledger can be refused.
#[derive(Clone, Copy, Debug, PartialEq, Eq, Structural)]
pub enum ErrorCode {
    AmountTooSmall,
    InvalidLockOption,
    MathOverflow,
    InvalidTokenOwner,
    InvalidMint,
    InvalidPositionOwner,
    ProgramPaused,
    InsufficientRewardPool,
    StakeLocked,
    OutstandingYield,
    NothingToUnstake,
    InvalidTranche,
    NothingToClaim,
    UnauthorizedAuthority,
    StringTooLong,
    SubscriptionNotFound,
    SubscriptionServiceNotFound,
    SubscriptionNotActive,
    SubscriptionAlreadyExists,
    SubscriptionBudgetExceeded,
    InvalidSubscriptionAccount,
    InvalidPayPalRecipientType,
    PayPalInfoMissing,
    SubscriptionNotPayable,
    AbortedComputation,
    PendingComputationMismatch,
    ClockOverflow,
    PendingComputationInProgress,
    ComputationValidationFailed,
    ClusterNotSet,
}

impl ErrorCode {
    /// Human-readable description of the error.
    pub fn message(&self) -> (r: &'static str)
        ensures
            *self == ErrorCode::AmountTooSmall ==> r@ == "Amount must be greater than zero"@,
            *self == ErrorCode::InvalidLockOption ==> r@ == "Invalid lock option supplied"@,
            *self == ErrorCode::MathOverflow ==> r@ == "Math overflow"@,
            *self == ErrorCode::InvalidTokenOwner ==> r@ == "Invalid token owner for provided account"@,
            *self == ErrorCode::InvalidMint ==> r@ == "Invalid token mint for provided account"@,
            *self == ErrorCode::InvalidPositionOwner ==> r@ == "Invalid position owner"@,
            *self == ErrorCode::ProgramPaused ==> r@ == "Program is paused"@,
            *self == ErrorCode::InsufficientRewardPool ==> r@ == "Insufficient rewards available in the pool"@,
            *self == ErrorCode::StakeLocked ==> r@ == "Stake position is still locked"@,
            *self == ErrorCode::OutstandingYield ==> r@ == "Stake position still has unclaimed yield"@,
            *self == ErrorCode::NothingToUnstake ==> r@ == "Nothing available to unstake"@,
            *self == ErrorCode::InvalidTranche ==> r@ == "Requested tranche could not be found"@,
            *self == ErrorCode::NothingToClaim ==> r@ == "Nothing available to claim"@,
            *self == ErrorCode::UnauthorizedAuthority ==> r@ == "Only the configured authority may perform this action"@,
            *self == ErrorCode::StringTooLong ==> r@ == "Provided string exceeds the allowed length"@,
            *self == ErrorCode::SubscriptionNotFound ==> r@ == "Requested subscription record could not be found"@,
            *self == ErrorCode::SubscriptionServiceNotFound ==> r@ == "Requested service could not be found"@,
            *self == ErrorCode::SubscriptionNotActive ==> r@ == "Subscription is not currently active"@,
            *self == ErrorCode::SubscriptionAlreadyExists ==> r@ == "Subscription already exists for the selected service"@,
            *self == ErrorCode::SubscriptionBudgetExceeded ==> r@ == "Subscription commitments would exceed the available budget"@,
            *self == ErrorCode::InvalidSubscriptionAccount ==> r@ == "Invalid subscription account for the provided user"@,
            *self == ErrorCode::InvalidPayPalRecipientType ==> r@ == "Invalid PayPal recipient type"@,
            *self == ErrorCode::PayPalInfoMissing ==> r@ == "PayPal recipient information is not configured"@,
            *self == ErrorCode::SubscriptionNotPayable ==> r@ == "Subscription is not payable in its current state"@,
            *self == ErrorCode::AbortedComputation ==> r@ == "The computation was aborted by the MPC network"@,
            *self == ErrorCode::PendingComputationMismatch ==> r@ == "Pending computation offset mismatch"@,
            *self == ErrorCode::ClockOverflow ==> r@ == "Clock timestamp overflowed u64"@,
            *self == ErrorCode::PendingComputationInProgress ==> r@ == "An encrypted computation is already in progress"@,
            *self == ErrorCode::ComputationValidationFailed ==> r@ == "Encrypted computation produced an invalid result"@,
            *self == ErrorCode::ClusterNotSet ==> r@ == "Cluster not set"@,
    {
        match self {
            ErrorCode::AmountTooSmall => "Amount must be greater than zero",
            ErrorCode::InvalidLockOption => "Invalid lock option supplied",
            ErrorCode::MathOverflow => "Math overflow",
            ErrorCode::InvalidTokenOwner => "Invalid token owner for provided account",
            ErrorCode::InvalidMint => "Invalid token mint for provided account",
            ErrorCode::InvalidPositionOwner => "Invalid position owner",
            ErrorCode::ProgramPaused => "Program is paused",
            ErrorCode::InsufficientRewardPool => "Insufficient rewards available in the pool",
            ErrorCode::StakeLocked => "Stake position is still locked",
            ErrorCode::OutstandingYield => "Stake position still has unclaimed yield",
            ErrorCode::NothingToUnstake => "Nothing available to unstake",
            ErrorCode::InvalidTranche => "Requested tranche could not be found",
            ErrorCode::NothingToClaim => "Nothing available to claim",
            ErrorCode::UnauthorizedAuthority => "Only the configured authority may perform this action",
            ErrorCode::StringTooLong => "Provided string exceeds the allowed length",
            ErrorCode::SubscriptionNotFound => "Requested subscription record could not be found",
            ErrorCode::SubscriptionServiceNotFound => "Requested service could not be found",
            ErrorCode::SubscriptionNotActive => "Subscription is not currently active",
            ErrorCode::SubscriptionAlreadyExists => "Subscription already exists for the selected service",
            ErrorCode::SubscriptionBudgetExceeded => "Subscription commitments would exceed the available budget",
            ErrorCode::InvalidSubscriptionAccount => "Invalid subscription account for the provided user",
            ErrorCode::InvalidPayPalRecipientType => "Invalid PayPal recipient type",
            ErrorCode::PayPalInfoMissing => "PayPal recipient information is not configured",
            ErrorCode::SubscriptionNotPayable => "Subscription is not payable in its current state",
            ErrorCode::AbortedComputation => "The computation was aborted by the MPC network",
            ErrorCode::PendingComputationMismatch => "Pending computation offset mismatch",
            ErrorCode::ClockOverflow => "Clock timestamp overflowed u64",
            ErrorCode::PendingComputationInProgress => "An encrypted computation is already in progress",
            ErrorCode::ComputationValidationFailed => "Encrypted computation produced an invalid result",
            ErrorCode::ClusterNotSet => "Cluster not set",
        }
    }
}

} // verus!
