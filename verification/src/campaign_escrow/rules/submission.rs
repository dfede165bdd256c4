//! Proofs of work, their review, and the release of payouts.
use vstd::prelude::*;

use crate::campaign_escrow::amounts::{fits, share};
use crate::campaign_escrow::env::EscrowState;
use crate::campaign_escrow::error::Error;
use crate::campaign_escrow::events::{Event, PaymentReleased, ProofSubmitted, SubmissionRejected};
use crate::campaign_escrow::types::Application;
use crate::shared::{Address, ApplicationStatus, CampaignId};

verus! {

impl EscrowState {
    /// Why `creator` cannot submit a proof, if they cannot.
    pub open spec fn submit_refusal(self, creator: Address, campaign_id: CampaignId) -> Option<
        Error,
    > {
        let c = self.campaigns[campaign_id];
        let a = self.applications[(campaign_id, creator)];
        if self.is_paused() {
            Some(Error::ContractPaused)
        } else if !self.campaigns.contains_key(campaign_id) {
            Some(Error::CampaignNotFound)
        } else if self.now > c.completion_deadline {
            Some(Error::ContentDeadlinePassed)
        } else if !self.applications.contains_key((campaign_id, creator)) {
            Some(Error::ApplicationNotFound)
        } else if a.frozen {
            Some(Error::PayoutFrozen)
        } else if a.status != ApplicationStatus::Approved && a.status
            != ApplicationStatus::Rejected {
            Some(Error::InvalidStatus)
        } else {
            None
        }
    }

    /// The state after `creator` submits a proof.
    pub open spec fn submitted(
        self,
        creator: Address,
        campaign_id: CampaignId,
        proof_uri: String,
    ) -> EscrowState {
        let a = self.applications[(campaign_id, creator)];
        self.asked(creator).with_application(
            Application {
                proof_uri: Some(proof_uri),
                status: ApplicationStatus::ProofSubmitted,
                proof_approved: false,
                ..a
            },
        ).published(Event::ProofSubmitted(ProofSubmitted { campaign_id, creator }))
    }

    /// Why `business` cannot accept the submitted proof, if they cannot.
    pub open spec fn accept_proof_refusal(
        self,
        business: Address,
        campaign_id: CampaignId,
        creator: Address,
    ) -> Option<Error> {
        let c = self.campaigns[campaign_id];
        let a = self.applications[(campaign_id, creator)];
        if self.is_paused() {
            Some(Error::ContractPaused)
        } else if !self.campaigns.contains_key(campaign_id) {
            Some(Error::CampaignNotFound)
        } else if c.business != business {
            Some(Error::NotCampaignOwner)
        } else if !self.applications.contains_key((campaign_id, creator)) {
            Some(Error::ApplicationNotFound)
        } else if a.frozen {
            Some(Error::PayoutFrozen)
        } else if a.status != ApplicationStatus::ProofSubmitted {
            Some(Error::InvalidStatus)
        } else {
            None
        }
    }

    /// The state after `business` accepts the submitted proof.
    pub open spec fn proof_accepted(
        self,
        business: Address,
        campaign_id: CampaignId,
        creator: Address,
    ) -> EscrowState {
        let a = self.applications[(campaign_id, creator)];
        self.asked(business).with_application(Application { proof_approved: true, ..a })
    }

    /// Why `business` cannot turn the submitted proof down, if they cannot.
    /// Past the content deadline a proof left unanswered counts as accepted,
    /// and the creator could not submit another.
    pub open spec fn reject_proof_refusal(
        self,
        business: Address,
        campaign_id: CampaignId,
        creator: Address,
    ) -> Option<Error> {
        let c = self.campaigns[campaign_id];
        let a = self.applications[(campaign_id, creator)];
        if self.is_paused() {
            Some(Error::ContractPaused)
        } else if !self.campaigns.contains_key(campaign_id) {
            Some(Error::CampaignNotFound)
        } else if c.business != business {
            Some(Error::NotCampaignOwner)
        } else if !self.applications.contains_key((campaign_id, creator)) {
            Some(Error::ApplicationNotFound)
        } else if a.frozen {
            Some(Error::PayoutFrozen)
        } else if a.status != ApplicationStatus::ProofSubmitted {
            Some(Error::InvalidStatus)
        } else if self.now > c.completion_deadline {
            Some(Error::ContentDeadlinePassed)
        } else {
            None
        }
    }

    /// The state after `business` turns the submitted proof down.
    pub open spec fn proof_rejected(
        self,
        business: Address,
        campaign_id: CampaignId,
        creator: Address,
    ) -> EscrowState {
        let a = self.applications[(campaign_id, creator)];
        self.asked(business).with_application(
            Application {
                proof_uri: None,
                proof_approved: false,
                status: ApplicationStatus::Rejected,
                ..a
            },
        ).published(Event::SubmissionRejected(SubmissionRejected { campaign_id, creator }))
    }

    /// Why `creator` may not claim their payout, if they may not.
    pub open spec fn claim_refusal(self, creator: Address, campaign_id: CampaignId) -> Option<
        Error,
    > {
        let c = self.campaigns[campaign_id];
        let a = self.applications[(campaign_id, creator)];
        let fee = share(a.payout_amount as int, c.fee_bps as int);
        if self.is_paused() {
            Some(Error::ContractPaused)
        } else if !self.campaigns.contains_key(campaign_id) {
            Some(Error::CampaignNotFound)
        } else if !self.applications.contains_key((campaign_id, creator)) {
            Some(Error::ApplicationNotFound)
        } else if a.frozen {
            Some(Error::PayoutFrozen)
        } else if a.status != ApplicationStatus::ProofSubmitted {
            Some(Error::SubmissionNotPayable)
        } else if !a.proof_approved && self.now <= c.completion_deadline {
            Some(Error::SubmissionNotPayable)
        } else if !fits(a.payout_amount * c.fee_bps) || !fits(a.payout_amount - fee) {
            Some(Error::InvalidAmount)
        } else if fee > 0 && self.treasury is None {
            Some(Error::NotInitialized)
        } else if !fits(c.escrow_balance - a.payout_amount) || !fits(
            c.committed_payouts - a.payout_amount,
        ) {
            Some(Error::InvalidAmount)
        } else {
            None
        }
    }

    /// The state after `creator`'s payout is released: the fee fixed for the
    /// campaign goes to the treasury, the rest to the creator.
    pub open spec fn claimed(self, creator: Address, campaign_id: CampaignId) -> EscrowState {
        let c = self.campaigns[campaign_id];
        let a = self.applications[(campaign_id, creator)];
        let fee = share(a.payout_amount as int, c.fee_bps as int);
        let net = a.payout_amount - fee;
        self.asked(creator).paid_out_if_any(c.asset.token, self.treasury->0, fee).paid_out(
            c.asset.token,
            creator,
            net,
        ).with_application(
            Application { status: ApplicationStatus::Paid, ..a },
        ).with_campaign(c.settled(a.payout_amount as int)).published(
            Event::PaymentReleased(PaymentReleased { campaign_id, creator, amount: net as i128 }),
        )
    }
}

} // verus!
