//! The escrow contract's records.
use vstd::prelude::*;

use crate::shared::{
    Address, ApplicationStatus, CampaignId, CampaignStatus, DisputeOutcome, PayoutAsset,
};

verus! {

/// A creator campaign funded and escrowed by a single business.
///
/// `escrow_balance` is tracked separately from `total_budget`: it is what the
/// contract still holds for this campaign, whatever was deposited at first.
#[derive(Debug, PartialEq, Eq)]
pub struct Campaign {
    /// Platform fee in basis points, fixed when the campaign is created.
    pub fee_bps: i128,
    pub id: CampaignId,
    pub business: Address,
    pub asset: PayoutAsset,
    pub total_budget: i128,
    pub escrow_balance: i128,
    /// Sum of the payouts agreed with selected creators and not yet settled.
    pub committed_payouts: i128,
    pub max_creators: u32,
    pub approved_count: u32,
    /// Ledger timestamp after which new applications are refused.
    pub application_deadline: u64,
    /// Ledger timestamp by which selected creators must submit proof.
    pub completion_deadline: u64,
    /// Off-chain pointer to the full brief.
    pub metadata_uri: String,
    pub status: CampaignStatus,
}

impl Clone for Campaign {
    fn clone(&self) -> (r: Self)
        ensures
            r == *self,
    {
        Campaign {
            fee_bps: self.fee_bps,
            id: self.id,
            business: self.business,
            asset: self.asset.clone(),
            total_budget: self.total_budget,
            escrow_balance: self.escrow_balance,
            committed_payouts: self.committed_payouts,
            max_creators: self.max_creators,
            approved_count: self.approved_count,
            application_deadline: self.application_deadline,
            completion_deadline: self.completion_deadline,
            metadata_uri: self.metadata_uri.clone(),
            status: self.status,
        }
    }
}

/// A single creator's application to a campaign.
#[derive(Debug, PartialEq, Eq)]
pub struct Application {
    pub campaign_id: CampaignId,
    pub creator: Address,
    pub pitch_uri: String,
    pub proof_uri: Option<String>,
    /// The agreed payout; zero until the creator is selected.
    pub payout_amount: i128,
    /// Whether the business has accepted the submitted proof.
    pub proof_approved: bool,
    /// Whether a dispute over this payout is under review. One contested
    /// creator does not hold up the others on the same campaign.
    pub frozen: bool,
    /// Ledger timestamp at which the dispute was opened, if one is open.
    pub dispute_opened_at: Option<u64>,
    pub status: ApplicationStatus,
}

impl Clone for Application {
    fn clone(&self) -> (r: Self)
        ensures
            r == *self,
    {
        Application {
            campaign_id: self.campaign_id,
            creator: self.creator,
            pitch_uri: self.pitch_uri.clone(),
            proof_uri: match &self.proof_uri {
                Some(uri) => Some(uri.clone()),
                None => None,
            },
            payout_amount: self.payout_amount,
            proof_approved: self.proof_approved,
            frozen: self.frozen,
            dispute_opened_at: self.dispute_opened_at,
            status: self.status,
        }
    }
}

/// The protocol-level settings that a fee breakdown needs.
#[derive(Clone, Copy, Debug, PartialEq, Eq, Structural)]
pub struct ProtocolConfig {
    pub admin: Address,
    pub treasury: Address,
    pub fee_bps: i128,
}

/// The admin's settlement of one contested payout.
#[derive(Clone, Copy, Debug, PartialEq, Eq, Structural)]
pub enum DisputeResolution {
    /// The creator receives the full payout, minus the platform fee.
    PayCreator,
    /// The business receives the full payout back.
    RefundBusiness,
    /// The creator receives this many basis points of the payout, minus the
    /// fee on that part; the business receives the rest.
    Split(i128),
}

impl DisputeResolution {
    /// The outcome that is recorded for a payout settled this way.
    pub open spec fn spec_outcome(self) -> DisputeOutcome {
        match self {
            DisputeResolution::PayCreator => DisputeOutcome::PayCreator,
            DisputeResolution::RefundBusiness => DisputeOutcome::RefundBusiness,
            DisputeResolution::Split(bps) => DisputeOutcome::Split(bps),
        }
    }

    /// The outcome that is recorded for a payout settled this way.
    pub fn outcome(self) -> (r: DisputeOutcome)
        ensures
            r == self.spec_outcome(),
            r != DisputeOutcome::Pending,
    {
        match self {
            DisputeResolution::PayCreator => DisputeOutcome::PayCreator,
            DisputeResolution::RefundBusiness => DisputeOutcome::RefundBusiness,
            DisputeResolution::Split(bps) => DisputeOutcome::Split(bps),
        }
    }
}

} // verus!
