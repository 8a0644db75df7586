//! Error codes returned by the ledger's entry points.
use vstd::prelude::*;

verus! {

/// Typed failures of the ledger. Each has a stable numeric code (see `code`).
#[derive(Clone, Copy, Debug, PartialEq, Eq, Structural)]
pub enum RevoraError {
    /// revenue_share_bps exceeded 10000 (100%).
    InvalidRevenueShareBps,
    /// A capacity or role lookup failed (no admin set, offering list full, or
    /// the offering is not found for the guardrail setters).
    LimitReached,
    /// Holder concentration exceeds the configured limit and enforcement is on.
    ConcentrationLimitExceeded,
    /// No offering found for the given (issuer, token) pair.
    OfferingNotFound,
    /// Revenue already deposited for this period.
    PeriodAlreadyDeposited,
    /// No unclaimed periods for this holder.
    NoPendingClaims,
    /// Holder is blacklisted for this offering.
    HolderBlacklisted,
    /// Holder share_bps exceeded 10000 (100%).
    InvalidShareBps,
    /// Payment token does not match the token locked by the first deposit.
    PaymentTokenMismatch,
    /// The ledger is frozen; state-changing operations are disabled.
    ContractFrozen,
    /// Revenue for the next period is not yet claimable (delay not elapsed).
    ClaimDelayNotElapsed,
    /// A transfer is already pending for this offering.
    IssuerTransferPending,
    /// No transfer is pending for this offering.
    NoTransferPending,
    /// Caller is not authorized to accept this transfer.
    UnauthorizedTransferAccept,
    /// Payout asset does not match the configured payout asset of the offering.
    PayoutAssetMismatch,
    /// The ledger is paused; state-changing operations are disabled until unpaused.
    ContractPaused,
    /// A proportional distribution was asked for with a total supply of zero.
    InvalidTotalSupply,
    /// The caller does not hold the role the operation requires.
    Unauthorized,
}

impl RevoraError {
    /// The stable numeric code of this error.
    pub fn code(&self) -> (r: u32)
        ensures
            r == self.spec_code(),
    {
        match self {
            RevoraError::InvalidRevenueShareBps => 1,
            RevoraError::LimitReached => 2,
            RevoraError::ConcentrationLimitExceeded => 3,
            RevoraError::OfferingNotFound => 4,
            RevoraError::PeriodAlreadyDeposited => 5,
            RevoraError::NoPendingClaims => 6,
            RevoraError::HolderBlacklisted => 7,
            RevoraError::InvalidShareBps => 8,
            RevoraError::PaymentTokenMismatch => 9,
            RevoraError::ContractFrozen => 10,
            RevoraError::ClaimDelayNotElapsed => 11,
            RevoraError::IssuerTransferPending => 12,
            RevoraError::NoTransferPending => 13,
            RevoraError::UnauthorizedTransferAccept => 14,
            RevoraError::PayoutAssetMismatch => 15,
            RevoraError::ContractPaused => 16,
            RevoraError::InvalidTotalSupply => 17,
            RevoraError::Unauthorized => 18,
        }
    }

    pub open spec fn spec_code(&self) -> u32 {
        match self {
            RevoraError::InvalidRevenueShareBps => 1,
            RevoraError::LimitReached => 2,
            RevoraError::ConcentrationLimitExceeded => 3,
            RevoraError::OfferingNotFound => 4,
            RevoraError::PeriodAlreadyDeposited => 5,
            RevoraError::NoPendingClaims => 6,
            RevoraError::HolderBlacklisted => 7,
            RevoraError::InvalidShareBps => 8,
            RevoraError::PaymentTokenMismatch => 9,
            RevoraError::ContractFrozen => 10,
            RevoraError::ClaimDelayNotElapsed => 11,
            RevoraError::IssuerTransferPending => 12,
            RevoraError::NoTransferPending => 13,
            RevoraError::UnauthorizedTransferAccept => 14,
            RevoraError::PayoutAssetMismatch => 15,
            RevoraError::ContractPaused => 16,
            RevoraError::InvalidTotalSupply => 17,
            RevoraError::Unauthorized => 18,
        }
    }
}

} // verus!
