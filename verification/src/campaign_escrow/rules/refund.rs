//! Winding campaigns up, and returning budget that nobody was promised.
use vstd::prelude::*;

use crate::campaign_escrow::amounts::fits;
use crate::campaign_escrow::contract::EMERGENCY_RECOVERY_GRACE_PERIOD;
use crate::campaign_escrow::env::EscrowState;
use crate::campaign_escrow::error::Error;
use crate::campaign_escrow::events::{
    CampaignCancelled, EmergencyRecovery, Event, SurplusReclaimed,
};
use crate::campaign_escrow::types::Campaign;
use crate::shared::{Address, CampaignId, CampaignStatus};

verus! {

impl EscrowState {
    /// Why `business` cannot cancel the campaign, if they cannot.
    pub open spec fn cancel_refusal(self, business: Address, campaign_id: CampaignId) -> Option<
        Error,
    > {
        let c = self.campaigns[campaign_id];
        if self.is_paused() {
            Some(Error::ContractPaused)
        } else if !self.campaigns.contains_key(campaign_id) {
            Some(Error::CampaignNotFound)
        } else if c.business != business {
            Some(Error::NotCampaignOwner)
        } else if c.closed() {
            Some(Error::InvalidStatus)
        } else if !fits(c.unallocated()) {
            Some(Error::InvalidAmount)
        } else {
            None
        }
    }

    /// Why `business` cannot expire the campaign, if they cannot.
    pub open spec fn expire_refusal(self, business: Address, campaign_id: CampaignId) -> Option<
        Error,
    > {
        let c = self.campaigns[campaign_id];
        if self.is_paused() {
            Some(Error::ContractPaused)
        } else if !self.campaigns.contains_key(campaign_id) {
            Some(Error::CampaignNotFound)
        } else if c.business != business {
            Some(Error::NotCampaignOwner)
        } else if self.now <= c.completion_deadline {
            Some(Error::DeadlineNotReached)
        } else if c.closed() {
            Some(Error::InvalidStatus)
        } else if !fits(c.unallocated()) {
            Some(Error::InvalidAmount)
        } else {
            None
        }
    }

    /// The state after `business` cancels or expires the campaign: they get
    /// the unallocated budget, what is promised to creators stays.
    pub open spec fn wound_up(self, business: Address, campaign_id: CampaignId) -> EscrowState {
        let c = self.campaigns[campaign_id];
        self.asked(business).paid_out_if_any(
            c.asset.token,
            business,
            c.unallocated(),
        ).with_campaign(
            Campaign {
                escrow_balance: c.committed_payouts,
                status: CampaignStatus::Cancelled,
                ..c
            },
        ).published(
            Event::CampaignCancelled(
                CampaignCancelled { campaign_id, refunded_amount: c.unallocated() as i128 },
            ),
        )
    }

    /// Why the admin cannot recover the campaign, if they cannot.
    pub open spec fn recover_refusal(self, admin: Address, campaign_id: CampaignId) -> Option<
        Error,
    > {
        let c = self.campaigns[campaign_id];
        if self.is_paused() {
            Some(Error::ContractPaused)
        } else if self.admin_refusal(admin) is Some {
            self.admin_refusal(admin)
        } else if !self.campaigns.contains_key(campaign_id) {
            Some(Error::CampaignNotFound)
        } else if c.closed() {
            Some(Error::InvalidStatus)
        } else if c.completion_deadline + EMERGENCY_RECOVERY_GRACE_PERIOD > u64::MAX {
            Some(Error::InvalidAmount)
        } else if self.now <= c.completion_deadline + EMERGENCY_RECOVERY_GRACE_PERIOD {
            Some(Error::DeadlineNotReached)
        } else if !fits(c.unallocated()) {
            Some(Error::InvalidAmount)
        } else if c.unallocated() > 0 && self.treasury is None {
            Some(Error::NotInitialized)
        } else {
            None
        }
    }

    /// The state after the admin recovers an abandoned campaign: the treasury
    /// gets the unallocated budget, what is promised to creators stays.
    pub open spec fn recovered(self, admin: Address, campaign_id: CampaignId) -> EscrowState {
        let c = self.campaigns[campaign_id];
        self.asked(admin).paid_out_if_any(
            c.asset.token,
            self.treasury->0,
            c.unallocated(),
        ).with_campaign(
            Campaign {
                escrow_balance: c.committed_payouts,
                status: CampaignStatus::Cancelled,
                ..c
            },
        ).published(
            Event::EmergencyRecovery(
                EmergencyRecovery { campaign_id, amount: c.unallocated() as i128 },
            ),
        )
    }

    /// Why `business` cannot take the surplus back, if they cannot.
    pub open spec fn reclaim_refusal(self, business: Address, campaign_id: CampaignId) -> Option<
        Error,
    > {
        let c = self.campaigns[campaign_id];
        if self.is_paused() {
            Some(Error::ContractPaused)
        } else if !self.campaigns.contains_key(campaign_id) {
            Some(Error::CampaignNotFound)
        } else if c.business != business {
            Some(Error::NotCampaignOwner)
        } else if c.status == CampaignStatus::Cancelled {
            Some(Error::InvalidStatus)
        } else if !fits(c.unallocated()) {
            Some(Error::InvalidAmount)
        } else {
            None
        }
    }

    /// The state after `business` takes the surplus back. With nothing left in
    /// escrow the campaign is complete.
    pub open spec fn reclaimed(self, business: Address, campaign_id: CampaignId) -> EscrowState {
        let c = self.campaigns[campaign_id];
        self.asked(business).paid_out_if_any(
            c.asset.token,
            business,
            c.unallocated(),
        ).with_campaign(
            Campaign {
                escrow_balance: c.committed_payouts,
                status: if c.committed_payouts == 0 {
                    CampaignStatus::Completed
                } else {
                    c.status
                },
                ..c
            },
        ).published(
            Event::SurplusReclaimed(
                SurplusReclaimed { campaign_id, amount: c.unallocated() as i128 },
            ),
        )
    }
}

} // verus!
