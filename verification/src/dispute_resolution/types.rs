//! The arbitration contract's record.
use vstd::prelude::*;

use crate::shared::{Address, CampaignId, DisputeOutcome, DisputeStatus};

verus! {

/// A dispute over one creator's payout on one campaign.
#[derive(Debug, PartialEq, Eq)]
pub struct Dispute {
    pub campaign_id: CampaignId,
    pub creator: Address,
    /// The creator, or the campaign's business.
    pub raised_by: Address,
    /// Off-chain pointer to the complaint.
    pub reason_uri: String,
    /// Who reviews the dispute, once assigned.
    pub arbiter: Option<Address>,
    pub status: DisputeStatus,
    /// Pending until the dispute is resolved.
    pub outcome: DisputeOutcome,
    pub raised_at: u64,
    pub resolved_at: Option<u64>,
}

impl Clone for Dispute {
    fn clone(&self) -> (r: Self)
        ensures
            r == *self,
    {
        Dispute {
            campaign_id: self.campaign_id,
            creator: self.creator,
            raised_by: self.raised_by,
            reason_uri: self.reason_uri.clone(),
            arbiter: self.arbiter,
            status: self.status,
            outcome: self.outcome,
            raised_at: self.raised_at,
            resolved_at: self.resolved_at,
        }
    }
}

} // verus!
