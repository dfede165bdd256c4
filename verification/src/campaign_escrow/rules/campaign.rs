//! Opening a campaign, funding it and filling it with creators.
use vstd::prelude::*;

use crate::campaign_escrow::amounts::fits;
use crate::campaign_escrow::env::{Effect, EscrowState};
use crate::campaign_escrow::error::Error;
use crate::campaign_escrow::events::{
    CampaignCreated, CampaignFunded, CampaignMetadataUpdated, CreatorApplied, CreatorApproved,
    Event,
};
use crate::campaign_escrow::types::{Application, Campaign};
use crate::shared::{Address, ApplicationStatus, CampaignId, CampaignStatus, PayoutAsset};

verus! {

impl Campaign {
    /// Whether the campaign has been wound up: no budget can be swept from it
    /// any more.
    pub open spec fn closed(self) -> bool {
        self.status == CampaignStatus::Cancelled || self.status == CampaignStatus::Completed
    }

    /// Whether creators may apply and be selected.
    pub open spec fn recruiting(self) -> bool {
        self.status == CampaignStatus::Funded || self.status == CampaignStatus::Active
    }

    /// The part of the escrow that is not promised to anyone.
    pub open spec fn unallocated(self) -> int {
        self.escrow_balance - self.committed_payouts
    }

    /// The campaign after a promised payout has left the escrow.
    pub open spec fn settled(self, payout: int) -> Campaign {
        Campaign {
            escrow_balance: (self.escrow_balance - payout) as i128,
            committed_payouts: (self.committed_payouts - payout) as i128,
            status: if self.escrow_balance - payout == 0 {
                CampaignStatus::Completed
            } else {
                self.status
            },
            ..self
        }
    }
}

impl EscrowState {
    /// What stands against a campaign with these terms before anyone is asked
    /// to authorise it.
    pub open spec fn terms_refusal(
        self,
        total_budget: i128,
        max_creators: u32,
        application_deadline: u64,
        completion_deadline: u64,
    ) -> Option<Error> {
        if self.is_paused() {
            Some(Error::ContractPaused)
        } else if !self.initialized() {
            Some(Error::NotInitialized)
        } else if total_budget <= 0 {
            Some(Error::InvalidAmount)
        } else if max_creators == 0 {
            Some(Error::InvalidCreatorCount)
        } else if application_deadline <= self.now || completion_deadline <= self.now {
            Some(Error::DeadlineInPast)
        } else if application_deadline >= completion_deadline {
            Some(Error::InvalidDeadlineOrder)
        } else {
            None
        }
    }

    /// Why a campaign with these terms cannot be opened, if it cannot.
    pub open spec fn create_refusal(
        self,
        asset: PayoutAsset,
        total_budget: i128,
        max_creators: u32,
        application_deadline: u64,
        completion_deadline: u64,
    ) -> Option<Error> {
        let terms = self.terms_refusal(
            total_budget,
            max_creators,
            application_deadline,
            completion_deadline,
        );
        if terms is Some {
            terms
        } else if self.fee_bps is None {
            Some(Error::NotInitialized)
        } else if !self.tokens.contains(asset.token) {
            Some(Error::InvalidAsset)
        } else {
            None
        }
    }

    /// The state after `business` opens a campaign. The fee of the moment is
    /// fixed for it.
    pub open spec fn created(
        self,
        business: Address,
        asset: PayoutAsset,
        total_budget: i128,
        max_creators: u32,
        application_deadline: u64,
        completion_deadline: u64,
        metadata_uri: String,
    ) -> EscrowState {
        let id = self.next_id();
        self.asked(business).with_id_taken().with_campaign(
            Campaign {
                fee_bps: self.fee_bps->0,
                id,
                business,
                asset,
                total_budget,
                escrow_balance: 0,
                committed_payouts: 0,
                max_creators,
                approved_count: 0,
                application_deadline,
                completion_deadline,
                metadata_uri,
                status: CampaignStatus::Draft,
            },
        ).published(Event::CampaignCreated(CampaignCreated { business, campaign_id: id }))
    }

    /// Why `business` cannot fund the campaign, if they cannot.
    pub open spec fn fund_refusal(self, business: Address, campaign_id: CampaignId) -> Option<
        Error,
    > {
        let c = self.campaigns[campaign_id];
        if self.is_paused() {
            Some(Error::ContractPaused)
        } else if !self.campaigns.contains_key(campaign_id) {
            Some(Error::CampaignNotFound)
        } else if c.status != CampaignStatus::Draft {
            Some(Error::InvalidStatus)
        } else if c.business != business {
            Some(Error::NotCampaignOwner)
        } else {
            None
        }
    }

    /// The state after `business` deposits the whole budget.
    pub open spec fn funded(self, business: Address, campaign_id: CampaignId) -> EscrowState {
        let c = self.campaigns[campaign_id];
        self.asked(business).logged(
            Effect::Transfer {
                token: c.asset.token,
                from: business,
                to: self.contract,
                amount: c.total_budget,
            },
        ).with_campaign(
            Campaign { escrow_balance: c.total_budget, status: CampaignStatus::Funded, ..c },
        ).published(
            Event::CampaignFunded(CampaignFunded { campaign_id, amount: c.total_budget }),
        )
    }

    /// Why `creator` cannot apply, if they cannot.
    pub open spec fn apply_refusal(self, creator: Address, campaign_id: CampaignId) -> Option<
        Error,
    > {
        let c = self.campaigns[campaign_id];
        if self.is_paused() {
            Some(Error::ContractPaused)
        } else if !self.campaigns.contains_key(campaign_id) {
            Some(Error::CampaignNotFound)
        } else if !c.recruiting() {
            Some(Error::InvalidStatus)
        } else if self.now > c.application_deadline {
            Some(Error::ApplicationDeadlinePassed)
        } else if self.applications.contains_key((campaign_id, creator)) {
            Some(Error::AlreadyApplied)
        } else {
            None
        }
    }

    /// The state after `creator` applies.
    pub open spec fn applied(
        self,
        creator: Address,
        campaign_id: CampaignId,
        pitch_uri: String,
    ) -> EscrowState {
        self.asked(creator).with_application(
            Application {
                campaign_id,
                creator,
                pitch_uri,
                proof_uri: None,
                payout_amount: 0,
                proof_approved: false,
                frozen: false,
                dispute_opened_at: None,
                status: ApplicationStatus::Pending,
            },
        ).with_applicant(campaign_id, creator).published(
            Event::CreatorApplied(CreatorApplied { campaign_id, creator }),
        )
    }

    /// Why `business` cannot select the creator for this payout, if they
    /// cannot.
    pub open spec fn select_refusal(
        self,
        business: Address,
        campaign_id: CampaignId,
        creator: Address,
        payout_amount: i128,
    ) -> Option<Error> {
        let c = self.campaigns[campaign_id];
        let a = self.applications[(campaign_id, creator)];
        if self.is_paused() {
            Some(Error::ContractPaused)
        } else if !self.campaigns.contains_key(campaign_id) {
            Some(Error::CampaignNotFound)
        } else if c.business != business {
            Some(Error::NotCampaignOwner)
        } else if !c.recruiting() {
            Some(Error::InvalidStatus)
        } else if payout_amount <= 0 {
            Some(Error::InvalidAmount)
        } else if !self.applications.contains_key((campaign_id, creator)) {
            Some(Error::ApplicationNotFound)
        } else if a.status != ApplicationStatus::Pending {
            Some(Error::AlreadySelected)
        } else if c.approved_count >= c.max_creators {
            Some(Error::MaxCreatorsReached)
        } else if !fits(c.committed_payouts + payout_amount) {
            Some(Error::InvalidAmount)
        } else if c.committed_payouts + payout_amount > c.escrow_balance {
            Some(Error::InsufficientEscrowBalance)
        } else {
            None
        }
    }

    /// The state after `business` selects the creator and promises them the
    /// payout.
    pub open spec fn selected(
        self,
        business: Address,
        campaign_id: CampaignId,
        creator: Address,
        payout_amount: i128,
    ) -> EscrowState {
        let c = self.campaigns[campaign_id];
        let a = self.applications[(campaign_id, creator)];
        self.asked(business).with_application(
            Application { payout_amount, status: ApplicationStatus::Approved, ..a },
        ).with_campaign(
            Campaign {
                approved_count: (c.approved_count + 1) as u32,
                committed_payouts: (c.committed_payouts + payout_amount) as i128,
                status: CampaignStatus::Active,
                ..c
            },
        ).published(
            Event::CreatorApproved(CreatorApproved { campaign_id, creator, payout_amount }),
        )
    }

    /// Why `business` cannot change the brief, if they cannot.
    pub open spec fn metadata_refusal(
        self,
        campaign_id: CampaignId,
        business: Address,
        new_metadata: Seq<char>,
    ) -> Option<Error> {
        let c = self.campaigns[campaign_id];
        if self.is_paused() {
            Some(Error::ContractPaused)
        } else if !self.campaigns.contains_key(campaign_id) {
            Some(Error::CampaignNotFound)
        } else if c.business != business {
            Some(Error::NotCampaignOwner)
        } else if c.closed() {
            Some(Error::InvalidStatus)
        } else if self.applicant_count(campaign_id) > 0 {
            Some(Error::ApplicationsExist)
        } else if new_metadata.len() == 0 {
            Some(Error::InvalidMetadata)
        } else {
            None
        }
    }

    /// The state after `business` changes the brief.
    pub open spec fn metadata_changed(
        self,
        campaign_id: CampaignId,
        business: Address,
        new_metadata: String,
    ) -> EscrowState {
        let c = self.campaigns[campaign_id];
        self.asked(business).with_campaign(
            Campaign { metadata_uri: new_metadata, ..c },
        ).published(
            Event::CampaignMetadataUpdated(
                CampaignMetadataUpdated { campaign_id, business, new_metadata },
            ),
        )
    }
}

} // verus!
