//! Contested payouts: the freeze and the settlement.
use vstd::prelude::*;

use crate::campaign_escrow::amounts::{fits, share};
use crate::campaign_escrow::contract::MIN_EVIDENCE_WINDOW;
use crate::campaign_escrow::env::{Effect, EscrowState};
use crate::campaign_escrow::error::Error;
use crate::campaign_escrow::events::{DisputeFrozen, DisputeResolved, Event};
use crate::campaign_escrow::types::{Application, DisputeResolution};
use crate::shared::{
    Address, ApplicationStatus, CampaignId, CampaignStatus, BASIS_POINTS_DENOMINATOR,
};

verus! {

/// What a settlement grants the creator of a payout, before the fee.
pub open spec fn creator_gross(payout: int, resolution: DisputeResolution) -> int {
    match resolution {
        DisputeResolution::PayCreator => payout,
        DisputeResolution::RefundBusiness => 0,
        DisputeResolution::Split(bps) => share(payout, bps as int),
    }
}

impl EscrowState {
    /// Why `caller` cannot freeze the creator's payout, if they cannot.
    pub open spec fn freeze_refusal(
        self,
        caller: Address,
        campaign_id: CampaignId,
        creator: Address,
    ) -> Option<Error> {
        let c = self.campaigns[campaign_id];
        let a = self.applications[(campaign_id, creator)];
        if self.is_paused() {
            Some(Error::ContractPaused)
        } else if self.dispute_contract is None {
            Some(Error::NotInitialized)
        } else if self.dispute_contract != Some(caller) && self.admin_refusal(caller) is Some {
            self.admin_refusal(caller)
        } else if !self.campaigns.contains_key(campaign_id) {
            Some(Error::CampaignNotFound)
        } else if c.status == CampaignStatus::Cancelled {
            Some(Error::InvalidStatus)
        } else if !self.applications.contains_key((campaign_id, creator)) {
            Some(Error::ApplicationNotFound)
        } else if a.frozen {
            Some(Error::PayoutFrozen)
        } else if a.status == ApplicationStatus::Paid || a.payout_amount <= 0 {
            Some(Error::SubmissionNotPayable)
        } else {
            None
        }
    }

    /// The state after the creator's payout is frozen.
    pub open spec fn froze(
        self,
        caller: Address,
        campaign_id: CampaignId,
        creator: Address,
    ) -> EscrowState {
        let a = self.applications[(campaign_id, creator)];
        self.asked(caller).with_application(
            Application { frozen: true, dispute_opened_at: Some(self.now), ..a },
        ).published(Event::DisputeFrozen(DisputeFrozen { campaign_id, creator }))
    }

    /// Why the admin may not settle a contested payout this way, if they may
    /// not.
    pub open spec fn resolve_refusal(
        self,
        admin: Address,
        campaign_id: CampaignId,
        creator: Address,
        resolution: DisputeResolution,
    ) -> Option<Error> {
        let c = self.campaigns[campaign_id];
        let a = self.applications[(campaign_id, creator)];
        let gross = creator_gross(a.payout_amount as int, resolution);
        let fee = share(gross, c.fee_bps as int);
        if self.is_paused() {
            Some(Error::ContractPaused)
        } else if self.admin_refusal(admin) is Some {
            self.admin_refusal(admin)
        } else if !self.campaigns.contains_key(campaign_id) {
            Some(Error::CampaignNotFound)
        } else if c.closed() {
            Some(Error::InvalidStatus)
        } else if !self.applications.contains_key((campaign_id, creator)) {
            Some(Error::ApplicationNotFound)
        } else if a.status == ApplicationStatus::Paid || a.payout_amount <= 0 {
            Some(Error::SubmissionNotPayable)
        } else if a.dispute_opened_at is None {
            Some(Error::NoDisputeOpen)
        } else if a.dispute_opened_at->0 + MIN_EVIDENCE_WINDOW > u64::MAX {
            Some(Error::InvalidAmount)
        } else if a.dispute_opened_at->0 + MIN_EVIDENCE_WINDOW > self.now {
            Some(Error::EvidenceWindowOpen)
        } else if resolution matches DisputeResolution::Split(bps) && !(0 <= bps
            <= BASIS_POINTS_DENOMINATOR && fits(a.payout_amount * bps)) {
            Some(Error::InvalidAmount)
        } else if !fits(gross * c.fee_bps) || !fits(gross - fee) {
            Some(Error::InvalidAmount)
        } else if fee > 0 && self.treasury is None {
            Some(Error::NotInitialized)
        } else if !fits(c.escrow_balance - a.payout_amount) || !fits(
            c.committed_payouts - a.payout_amount,
        ) {
            Some(Error::InvalidAmount)
        } else {
            None
        }
    }

    /// The state after a contested payout is settled: the creator's share less
    /// the fee on it, the fee to the treasury, the rest to the business.
    pub open spec fn resolved(
        self,
        admin: Address,
        campaign_id: CampaignId,
        creator: Address,
        resolution: DisputeResolution,
    ) -> EscrowState {
        let c = self.campaigns[campaign_id];
        let a = self.applications[(campaign_id, creator)];
        let gross = creator_gross(a.payout_amount as int, resolution);
        let fee = share(gross, c.fee_bps as int);
        let net = gross - fee;
        let business_amount = a.payout_amount - gross;
        self.asked(admin).paid_out_if_any(
            c.asset.token,
            self.treasury->0,
            fee,
        ).paid_out_if_any(c.asset.token, creator, net).paid_out_if_any(
            c.asset.token,
            c.business,
            business_amount,
        ).with_application(
            Application {
                status: ApplicationStatus::Paid,
                frozen: false,
                dispute_opened_at: None,
                ..a
            },
        ).with_campaign(c.settled(a.payout_amount as int)).dispute_closed(
            campaign_id,
            creator,
            resolution,
        ).published(
            Event::DisputeResolved(
                DisputeResolved {
                    campaign_id,
                    creator,
                    dispute_outcome: resolution.spec_outcome(),
                    creator_amount: net as i128,
                    business_amount: business_amount as i128,
                },
            ),
        )
    }

    /// The state after telling the dispute contract, if one is set, how a
    /// payout was settled.
    pub open spec fn dispute_closed(
        self,
        campaign_id: CampaignId,
        creator: Address,
        resolution: DisputeResolution,
    ) -> EscrowState {
        match self.dispute_contract {
            Some(dispute_contract) => self.logged(
                Effect::CloseDispute {
                    dispute_contract,
                    caller: self.contract,
                    campaign_id,
                    creator,
                    outcome: resolution.spec_outcome(),
                },
            ),
            None => self,
        }
    }
}

} // verus!
