//! Events that the escrow contract publishes.
use vstd::prelude::*;

use crate::shared::{Address, CampaignId, DisputeOutcome};

verus! {

#[derive(Clone, Copy, Debug, PartialEq, Eq, Structural)]
pub struct CampaignCreated {
    pub business: Address,
    pub campaign_id: CampaignId,
}

#[derive(Clone, Copy, Debug, PartialEq, Eq, Structural)]
pub struct CampaignFunded {
    pub campaign_id: CampaignId,
    pub amount: i128,
}

#[derive(Clone, Copy, Debug, PartialEq, Eq, Structural)]
pub struct CreatorApplied {
    pub campaign_id: CampaignId,
    pub creator: Address,
}

#[derive(Clone, Copy, Debug, PartialEq, Eq, Structural)]
pub struct CreatorApproved {
    pub campaign_id: CampaignId,
    pub creator: Address,
    pub payout_amount: i128,
}

#[derive(Clone, Copy, Debug, PartialEq, Eq, Structural)]
pub struct ProofSubmitted {
    pub campaign_id: CampaignId,
    pub creator: Address,
}

#[derive(Clone, Copy, Debug, PartialEq, Eq, Structural)]
pub struct SubmissionRejected {
    pub campaign_id: CampaignId,
    pub creator: Address,
}

#[derive(Clone, Copy, Debug, PartialEq, Eq, Structural)]
pub struct PaymentReleased {
    pub campaign_id: CampaignId,
    pub creator: Address,
    /// What the creator received, after the fee.
    pub amount: i128,
}

#[derive(Clone, Copy, Debug, PartialEq, Eq, Structural)]
pub struct CampaignCancelled {
    pub campaign_id: CampaignId,
    pub refunded_amount: i128,
}

#[derive(Clone, Copy, Debug, PartialEq, Eq, Structural)]
pub struct SurplusReclaimed {
    pub campaign_id: CampaignId,
    pub amount: i128,
}

#[derive(Clone, Copy, Debug, PartialEq, Eq, Structural)]
pub struct ContractPaused {
    pub admin: Address,
}

#[derive(Clone, Copy, Debug, PartialEq, Eq, Structural)]
pub struct ContractUnpaused {
    pub admin: Address,
}

#[derive(Clone, Copy, Debug, PartialEq, Eq, Structural)]
pub struct AdminProposed {
    pub current_admin: Address,
    pub new_admin: Address,
}

#[derive(Clone, Copy, Debug, PartialEq, Eq, Structural)]
pub struct AdminTransferred {
    pub previous_admin: Address,
    pub new_admin: Address,
}

#[derive(Clone, Copy, Debug, PartialEq, Eq)]
pub struct ContractUpgraded {
    pub new_wasm_hash: [u8; 32],
}

#[derive(Clone, Copy, Debug, PartialEq, Eq, Structural)]
pub struct FeeUpdated {
    pub admin: Address,
    pub new_fee_bps: i128,
}

#[derive(Clone, Copy, Debug, PartialEq, Eq, Structural)]
pub struct TreasuryUpdated {
    pub admin: Address,
    pub new_treasury: Address,
}

#[derive(Clone, Debug, PartialEq, Eq)]
pub struct CampaignMetadataUpdated {
    pub campaign_id: CampaignId,
    pub business: Address,
    pub new_metadata: String,
}

/// A creator's payout was locked for arbitration.
#[derive(Clone, Copy, Debug, PartialEq, Eq, Structural)]
pub struct DisputeFrozen {
    pub campaign_id: CampaignId,
    pub creator: Address,
}

/// A contested payout was settled by the admin.
#[derive(Clone, Copy, Debug, PartialEq, Eq, Structural)]
pub struct DisputeResolved {
    pub campaign_id: CampaignId,
    pub creator: Address,
    pub dispute_outcome: DisputeOutcome,
    pub creator_amount: i128,
    pub business_amount: i128,
}

/// An abandoned campaign's unallocated budget went to the treasury. Kept
/// apart from [`CampaignCancelled`]: this path does without the business's
/// consent and has to stand out.
#[derive(Clone, Copy, Debug, PartialEq, Eq, Structural)]
pub struct EmergencyRecovery {
    pub campaign_id: CampaignId,
    pub amount: i128,
}

/// Any event of the escrow contract.
#[derive(Clone, Debug, PartialEq, Eq)]
pub enum Event {
    CampaignCreated(CampaignCreated),
    CampaignFunded(CampaignFunded),
    CreatorApplied(CreatorApplied),
    CreatorApproved(CreatorApproved),
    ProofSubmitted(ProofSubmitted),
    SubmissionRejected(SubmissionRejected),
    PaymentReleased(PaymentReleased),
    CampaignCancelled(CampaignCancelled),
    SurplusReclaimed(SurplusReclaimed),
    ContractPaused(ContractPaused),
    ContractUnpaused(ContractUnpaused),
    AdminProposed(AdminProposed),
    AdminTransferred(AdminTransferred),
    ContractUpgraded(ContractUpgraded),
    FeeUpdated(FeeUpdated),
    TreasuryUpdated(TreasuryUpdated),
    CampaignMetadataUpdated(CampaignMetadataUpdated),
    DisputeFrozen(DisputeFrozen),
    DisputeResolved(DisputeResolved),
    EmergencyRecovery(EmergencyRecovery),
}

} // verus!
