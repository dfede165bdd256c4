//! Errors returned by the escrow contract.
use vstd::prelude::*;

verus! {

/// Why the escrow contract refused a call.
#[derive(Clone, Copy, Debug, PartialEq, Eq, PartialOrd, Ord, Structural)]
pub enum Error {
    NotInitialized,
    AlreadyInitialized,
    Unauthorized,
    CampaignNotFound,
    ApplicationNotFound,
    InvalidStatus,
    InvalidAmount,
    DeadlinePassed,
    MaxCreatorsReached,
    InsufficientEscrowBalance,
    /// The caller is not the business that created the campaign.
    NotCampaignOwner,
    /// The payout is not yet, or no longer, eligible for settlement.
    SubmissionNotPayable,
    /// The creator has already applied to this campaign.
    AlreadyApplied,
    /// The creator has already been selected for this campaign.
    AlreadySelected,
    /// Applications are no longer accepted.
    ApplicationDeadlinePassed,
    /// The content deadline has passed: proof can neither be submitted nor
    /// turned down any more.
    ContentDeadlinePassed,
    /// A deadline was supplied that is not in the future.
    DeadlineInPast,
    /// The campaign is not yet past the deadline that the call waits for.
    DeadlineNotReached,
    /// State-changing calls are suspended.
    ContractPaused,
    /// The application deadline is not before the completion deadline.
    InvalidDeadlineOrder,
    /// The fee is outside the accepted range.
    FeeTooHigh,
    /// A creator has already applied, so the brief is locked.
    ApplicationsExist,
    /// The metadata string must be non-empty.
    InvalidMetadata,
    /// `max_creators` was zero.
    InvalidCreatorCount,
    /// The payout is frozen pending arbitration.
    PayoutFrozen,
    /// The other party still has time to answer the dispute.
    EvidenceWindowOpen,
    /// Nothing was frozen for this application, so there is nothing to settle.
    NoDisputeOpen,
    /// The asset's token address does not answer as a token contract.
    InvalidAsset,
}

impl Error {
    /// The number under which the error is reported on chain.
    pub open spec fn spec_code(self) -> u32 {
        match self {
            Error::NotInitialized => 1,
            Error::AlreadyInitialized => 2,
            Error::Unauthorized => 3,
            Error::CampaignNotFound => 4,
            Error::ApplicationNotFound => 5,
            Error::InvalidStatus => 6,
            Error::InvalidAmount => 7,
            Error::DeadlinePassed => 8,
            Error::MaxCreatorsReached => 9,
            Error::InsufficientEscrowBalance => 10,
            Error::NotCampaignOwner => 11,
            Error::SubmissionNotPayable => 12,
            Error::AlreadyApplied => 13,
            Error::AlreadySelected => 14,
            Error::ApplicationDeadlinePassed => 15,
            Error::ContentDeadlinePassed => 16,
            Error::DeadlineInPast => 17,
            Error::DeadlineNotReached => 18,
            Error::ContractPaused => 19,
            Error::InvalidDeadlineOrder => 20,
            Error::FeeTooHigh => 21,
            Error::ApplicationsExist => 22,
            Error::InvalidMetadata => 23,
            Error::InvalidCreatorCount => 24,
            Error::PayoutFrozen => 25,
            Error::EvidenceWindowOpen => 26,
            Error::NoDisputeOpen => 27,
            Error::InvalidAsset => 28,
        }
    }

    /// The number under which the error is reported on chain.
    pub fn code(self) -> (r: u32)
        ensures
            r == self.spec_code(),
    {
        match self {
            Error::NotInitialized => 1,
            Error::AlreadyInitialized => 2,
            Error::Unauthorized => 3,
            Error::CampaignNotFound => 4,
            Error::ApplicationNotFound => 5,
            Error::InvalidStatus => 6,
            Error::InvalidAmount => 7,
            Error::DeadlinePassed => 8,
            Error::MaxCreatorsReached => 9,
            Error::InsufficientEscrowBalance => 10,
            Error::NotCampaignOwner => 11,
            Error::SubmissionNotPayable => 12,
            Error::AlreadyApplied => 13,
            Error::AlreadySelected => 14,
            Error::ApplicationDeadlinePassed => 15,
            Error::ContentDeadlinePassed => 16,
            Error::DeadlineInPast => 17,
            Error::DeadlineNotReached => 18,
            Error::ContractPaused => 19,
            Error::InvalidDeadlineOrder => 20,
            Error::FeeTooHigh => 21,
            Error::ApplicationsExist => 22,
            Error::InvalidMetadata => 23,
            Error::InvalidCreatorCount => 24,
            Error::PayoutFrozen => 25,
            Error::EvidenceWindowOpen => 26,
            Error::NoDisputeOpen => 27,
            Error::InvalidAsset => 28,
        }
    }
}

/// No two errors are reported under one number, and none under zero.
pub proof fn law_codes_tell_errors_apart(a: Error, b: Error)
    ensures
        a.spec_code() == b.spec_code() ==> a == b,
        a.spec_code() > 0,
{
}

/// Why a call was refused, by what it returned, if it was.
pub open spec fn refused_with<T>(r: Result<T, Error>) -> Option<Error> {
    match r {
        Ok(_) => None,
        Err(e) => Some(e),
    }
}

} // verus!
