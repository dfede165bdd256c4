//! The entry points that may change the escrow contract, as one type of call,
//! and series of such calls.
use vstd::prelude::*;

use crate::campaign_escrow::contract::INITIAL_VERSION;
use crate::campaign_escrow::env::EscrowState;
use crate::campaign_escrow::error::Error;
use crate::campaign_escrow::types::DisputeResolution;
use crate::shared::{Address, CampaignId, PayoutAsset};

verus! {

/// A call of an entry point that may change the contract, with its arguments.
pub enum Call {
    Initialize { admin: Address, dispute_contract: Address, fee_bps: i128 },
    Pause { admin: Address },
    Unpause { admin: Address },
    ProposeAdmin { current_admin: Address, new_admin: Address },
    AcceptAdmin { new_admin: Address },
    UpdateFeeBps { admin: Address, new_fee_bps: i128 },
    UpdateTreasury { admin: Address, new_treasury: Address },
    CreateCampaign {
        business: Address,
        asset: PayoutAsset,
        total_budget: i128,
        max_creators: u32,
        application_deadline: u64,
        completion_deadline: u64,
        metadata_uri: String,
    },
    FundCampaign { business: Address, campaign_id: CampaignId },
    ApplyToCampaign { creator: Address, campaign_id: CampaignId, pitch_uri: String },
    ApproveCreator {
        business: Address,
        campaign_id: CampaignId,
        creator: Address,
        payout_amount: i128,
    },
    SubmitProof { creator: Address, campaign_id: CampaignId, proof_uri: String },
    ApproveSubmission { business: Address, campaign_id: CampaignId, creator: Address },
    RejectSubmission { business: Address, campaign_id: CampaignId, creator: Address },
    ClaimPayment { creator: Address, campaign_id: CampaignId },
    CancelCampaign { business: Address, campaign_id: CampaignId },
    ExpireCampaign { business: Address, campaign_id: CampaignId },
    EmergencyRecoverCampaign { admin: Address, campaign_id: CampaignId },
    ReclaimSurplus { business: Address, campaign_id: CampaignId },
    FreezeForDispute { caller: Address, campaign_id: CampaignId, creator: Address },
    ResolveDispute {
        admin: Address,
        campaign_id: CampaignId,
        creator: Address,
        resolution: DisputeResolution,
    },
    UpdateCampaignMetadata { campaign_id: CampaignId, business: Address, new_metadata: String },
    Upgrade { admin: Address, new_wasm_hash: [u8; 32] },
}

impl Call {
    /// Whose authorisation the call asks for.
    pub open spec fn actor(self) -> Address {
        match self {
            Call::Initialize { admin, .. } => admin,
            Call::Pause { admin } => admin,
            Call::Unpause { admin } => admin,
            Call::ProposeAdmin { current_admin, .. } => current_admin,
            Call::AcceptAdmin { new_admin } => new_admin,
            Call::UpdateFeeBps { admin, .. } => admin,
            Call::UpdateTreasury { admin, .. } => admin,
            Call::CreateCampaign { business, .. } => business,
            Call::FundCampaign { business, .. } => business,
            Call::ApplyToCampaign { creator, .. } => creator,
            Call::ApproveCreator { business, .. } => business,
            Call::SubmitProof { creator, .. } => creator,
            Call::ApproveSubmission { business, .. } => business,
            Call::RejectSubmission { business, .. } => business,
            Call::ClaimPayment { creator, .. } => creator,
            Call::CancelCampaign { business, .. } => business,
            Call::ExpireCampaign { business, .. } => business,
            Call::EmergencyRecoverCampaign { admin, .. } => admin,
            Call::ReclaimSurplus { business, .. } => business,
            Call::FreezeForDispute { caller, .. } => caller,
            Call::ResolveDispute { admin, .. } => admin,
            Call::UpdateCampaignMetadata { business, .. } => business,
            Call::Upgrade { admin, .. } => admin,
        }
    }

    /// The campaign that the call looks up, if it does.
    pub open spec fn campaign(self) -> Option<CampaignId> {
        match self {
            Call::FundCampaign { campaign_id, .. } => Some(campaign_id),
            Call::ApplyToCampaign { campaign_id, .. } => Some(campaign_id),
            Call::ApproveCreator { campaign_id, .. } => Some(campaign_id),
            Call::SubmitProof { campaign_id, .. } => Some(campaign_id),
            Call::ApproveSubmission { campaign_id, .. } => Some(campaign_id),
            Call::RejectSubmission { campaign_id, .. } => Some(campaign_id),
            Call::ClaimPayment { campaign_id, .. } => Some(campaign_id),
            Call::CancelCampaign { campaign_id, .. } => Some(campaign_id),
            Call::ExpireCampaign { campaign_id, .. } => Some(campaign_id),
            Call::EmergencyRecoverCampaign { campaign_id, .. } => Some(campaign_id),
            Call::ReclaimSurplus { campaign_id, .. } => Some(campaign_id),
            Call::FreezeForDispute { campaign_id, .. } => Some(campaign_id),
            Call::ResolveDispute { campaign_id, .. } => Some(campaign_id),
            Call::UpdateCampaignMetadata { campaign_id, .. } => Some(campaign_id),
            _ => None,
        }
    }

    /// The application that the call is about, if it is about one.
    pub open spec fn application(self) -> Option<(CampaignId, Address)> {
        match self {
            Call::ApplyToCampaign { campaign_id, creator, .. } => Some((campaign_id, creator)),
            Call::ApproveCreator { campaign_id, creator, .. } => Some((campaign_id, creator)),
            Call::SubmitProof { campaign_id, creator, .. } => Some((campaign_id, creator)),
            Call::ApproveSubmission { campaign_id, creator, .. } => Some((campaign_id, creator)),
            Call::RejectSubmission { campaign_id, creator, .. } => Some((campaign_id, creator)),
            Call::ClaimPayment { campaign_id, creator } => Some((campaign_id, creator)),
            Call::FreezeForDispute { campaign_id, creator, .. } => Some((campaign_id, creator)),
            Call::ResolveDispute { campaign_id, creator, .. } => Some((campaign_id, creator)),
            _ => None,
        }
    }

    /// Whether the call opens, funds or fills a campaign, or changes its brief.
    pub open spec fn recruits(self) -> bool {
        self is CreateCampaign || self is FundCampaign || self is ApplyToCampaign
            || self is ApproveCreator || self is UpdateCampaignMetadata
    }

    /// Whether the call touches an application, and nothing else.
    pub open spec fn reviews(self) -> bool {
        self is SubmitProof || self is ApproveSubmission || self is RejectSubmission
            || self is FreezeForDispute
    }

    /// Whether the call returns a campaign's unallocated budget.
    pub open spec fn refunds(self) -> bool {
        self is CancelCampaign || self is ExpireCampaign || self is EmergencyRecoverCampaign
            || self is ReclaimSurplus
    }

    /// Whether the call settles a payout.
    pub open spec fn settles(self) -> bool {
        self is ClaimPayment || self is ResolveDispute
    }

    /// Whether the call is about the contract's own settings. Such calls go
    /// through while the contract is paused.
    pub open spec fn administrative(self) -> bool {
        match self {
            Call::Initialize { .. } => true,
            Call::Pause { .. } => true,
            Call::Unpause { .. } => true,
            Call::ProposeAdmin { .. } => true,
            Call::AcceptAdmin { .. } => true,
            Call::UpdateFeeBps { .. } => true,
            Call::UpdateTreasury { .. } => true,
            Call::Upgrade { .. } => true,
            _ => false,
        }
    }
}

impl EscrowState {
    /// Why the call is refused, if it is.
    pub open spec fn refusal(self, call: Call) -> Option<Error> {
        match call {
            Call::Initialize { fee_bps, .. } => self.initialize_refusal(fee_bps),
            Call::Pause { admin } => self.admin_refusal(admin),
            Call::Unpause { admin } => self.admin_refusal(admin),
            Call::ProposeAdmin { current_admin, .. } => self.admin_refusal(current_admin),
            Call::AcceptAdmin { new_admin } => self.accept_refusal(new_admin),
            Call::UpdateFeeBps { admin, new_fee_bps } => self.fee_refusal(admin, new_fee_bps),
            Call::UpdateTreasury { admin, .. } => self.admin_refusal(admin),
            Call::CreateCampaign {
                asset,
                total_budget,
                max_creators,
                application_deadline,
                completion_deadline,
                ..
            } => self.create_refusal(
                asset,
                total_budget,
                max_creators,
                application_deadline,
                completion_deadline,
            ),
            Call::FundCampaign { business, campaign_id } => self.fund_refusal(
                business,
                campaign_id,
            ),
            Call::ApplyToCampaign { creator, campaign_id, .. } => self.apply_refusal(
                creator,
                campaign_id,
            ),
            Call::ApproveCreator { business, campaign_id, creator, payout_amount } =>
                self.select_refusal(business, campaign_id, creator, payout_amount),
            Call::SubmitProof { creator, campaign_id, .. } => self.submit_refusal(
                creator,
                campaign_id,
            ),
            Call::ApproveSubmission { business, campaign_id, creator } =>
                self.accept_proof_refusal(business, campaign_id, creator),
            Call::RejectSubmission { business, campaign_id, creator } =>
                self.reject_proof_refusal(business, campaign_id, creator),
            Call::ClaimPayment { creator, campaign_id } => self.claim_refusal(
                creator,
                campaign_id,
            ),
            Call::CancelCampaign { business, campaign_id } => self.cancel_refusal(
                business,
                campaign_id,
            ),
            Call::ExpireCampaign { business, campaign_id } => self.expire_refusal(
                business,
                campaign_id,
            ),
            Call::EmergencyRecoverCampaign { admin, campaign_id } => self.recover_refusal(
                admin,
                campaign_id,
            ),
            Call::ReclaimSurplus { business, campaign_id } => self.reclaim_refusal(
                business,
                campaign_id,
            ),
            Call::FreezeForDispute { caller, campaign_id, creator } => self.freeze_refusal(
                caller,
                campaign_id,
                creator,
            ),
            Call::ResolveDispute { admin, campaign_id, creator, resolution } =>
                self.resolve_refusal(admin, campaign_id, creator, resolution),
            Call::UpdateCampaignMetadata { campaign_id, business, new_metadata } =>
                self.metadata_refusal(campaign_id, business, new_metadata@),
            Call::Upgrade { admin, .. } => self.admin_refusal(admin),
        }
    }

    /// What a refused call leaves behind: at most the request for the actor's
    /// authorisation.
    pub open spec fn refused(self, call: Call) -> EscrowState {
        match call {
            Call::Initialize { .. } => self,
            Call::CreateCampaign {
                total_budget,
                max_creators,
                application_deadline,
                completion_deadline,
                ..
            } => if self.terms_refusal(
                total_budget,
                max_creators,
                application_deadline,
                completion_deadline,
            ) is Some {
                self
            } else {
                self.asked(call.actor())
            },
            _ => if call.administrative() {
                self.asked(call.actor())
            } else {
                self.asked_if_running(call.actor())
            },
        }
    }

    /// What an accepted administrative call leaves behind. This function and
    /// its like below are opaque: a proof about every call unfolds them one
    /// kind of call at a time.
    #[verifier::opaque]
    pub open spec fn administered(self, call: Call) -> EscrowState {
        match call {
            Call::Initialize { admin, dispute_contract, fee_bps } => self.set_up(
                admin,
                dispute_contract,
                fee_bps,
                INITIAL_VERSION@,
            ),
            Call::Pause { admin } => self.suspended(admin),
            Call::Unpause { admin } => self.resumed(admin),
            Call::ProposeAdmin { current_admin, new_admin } => self.proposed(
                current_admin,
                new_admin,
            ),
            Call::AcceptAdmin { new_admin } => self.handed_over(new_admin),
            Call::UpdateFeeBps { admin, new_fee_bps } => self.fee_changed(admin, new_fee_bps),
            Call::UpdateTreasury { admin, new_treasury } => self.treasury_changed(
                admin,
                new_treasury,
            ),
            Call::Upgrade { admin, new_wasm_hash } => self.upgraded(admin, new_wasm_hash),
            _ => self,
        }
    }

    /// What an accepted call leaves behind that opens, funds or fills a campaign.
    #[verifier::opaque]
    pub open spec fn recruited(self, call: Call) -> EscrowState {
        match call {
            Call::CreateCampaign {
                business,
                asset,
                total_budget,
                max_creators,
                application_deadline,
                completion_deadline,
                metadata_uri,
            } => self.created(
                business,
                asset,
                total_budget,
                max_creators,
                application_deadline,
                completion_deadline,
                metadata_uri,
            ),
            Call::FundCampaign { business, campaign_id } => self.funded(business, campaign_id),
            Call::ApplyToCampaign { creator, campaign_id, pitch_uri } => self.applied(
                creator,
                campaign_id,
                pitch_uri,
            ),
            Call::ApproveCreator { business, campaign_id, creator, payout_amount } =>
                self.selected(business, campaign_id, creator, payout_amount),
            Call::UpdateCampaignMetadata { campaign_id, business, new_metadata } =>
                self.metadata_changed(campaign_id, business, new_metadata),
            _ => self,
        }
    }

    /// What an accepted call leaves behind that touches an application alone.
    #[verifier::opaque]
    pub open spec fn reviewed(self, call: Call) -> EscrowState {
        match call {
            Call::SubmitProof { creator, campaign_id, proof_uri } => self.submitted(
                creator,
                campaign_id,
                proof_uri,
            ),
            Call::ApproveSubmission { business, campaign_id, creator } => self.proof_accepted(
                business,
                campaign_id,
                creator,
            ),
            Call::RejectSubmission { business, campaign_id, creator } => self.proof_rejected(
                business,
                campaign_id,
                creator,
            ),
            Call::FreezeForDispute { caller, campaign_id, creator } => self.froze(
                caller,
                campaign_id,
                creator,
            ),
            _ => self,
        }
    }

    /// What an accepted call leaves behind that returns unallocated budget.
    #[verifier::opaque]
    pub open spec fn refunded(self, call: Call) -> EscrowState {
        match call {
            Call::CancelCampaign { business, campaign_id } => self.wound_up(business, campaign_id),
            Call::ExpireCampaign { business, campaign_id } => self.wound_up(business, campaign_id),
            Call::EmergencyRecoverCampaign { admin, campaign_id } => self.recovered(
                admin,
                campaign_id,
            ),
            Call::ReclaimSurplus { business, campaign_id } => self.reclaimed(
                business,
                campaign_id,
            ),
            _ => self,
        }
    }

    /// What an accepted call leaves behind that settles a payout.
    #[verifier::opaque]
    pub open spec fn settled(self, call: Call) -> EscrowState {
        match call {
            Call::ClaimPayment { creator, campaign_id } => self.claimed(creator, campaign_id),
            Call::ResolveDispute { admin, campaign_id, creator, resolution } => self.resolved(
                admin,
                campaign_id,
                creator,
                resolution,
            ),
            _ => self,
        }
    }

    /// What an accepted call leaves behind.
    pub open spec fn accepted(self, call: Call) -> EscrowState {
        if call.administrative() {
            self.administered(call)
        } else if call.recruits() {
            self.recruited(call)
        } else if call.reviews() {
            self.reviewed(call)
        } else if call.refunds() {
            self.refunded(call)
        } else {
            self.settled(call)
        }
    }

    /// The state after the call.
    pub open spec fn after(self, call: Call) -> EscrowState {
        if self.refusal(call) is Some {
            self.refused(call)
        } else {
            self.accepted(call)
        }
    }

    /// Whether the counters that the call would advance have room.
    pub open spec fn countable(self, call: Call) -> bool {
        match call {
            Call::CreateCampaign { .. } => self.next_id() < u64::MAX,
            Call::ApplyToCampaign { campaign_id, .. } => self.applicant_count(campaign_id)
                < u32::MAX,
            _ => true,
        }
    }

    /// The same contract at another moment.
    pub open spec fn at(self, now: u64, tokens: Seq<Address>) -> EscrowState {
        EscrowState { now, tokens, ..self }
    }
}

/// A call together with the moment at which it is made: the ledger's time and
/// the token contracts known then.
pub struct Step {
    pub now: u64,
    pub tokens: Seq<Address>,
    pub call: Call,
}

/// The contract after a series of calls.
pub open spec fn run(start: EscrowState, steps: Seq<Step>) -> EscrowState
    decreases steps.len(),
{
    if steps.len() == 0 {
        start
    } else {
        let step = steps.last();
        run(start, steps.drop_last()).at(step.now, step.tokens).after(step.call)
    }
}

/// Whether time never runs backwards in a series of calls, and no counter
/// overflows.
pub open spec fn possible(start: EscrowState, steps: Seq<Step>) -> bool
    decreases steps.len(),
{
    steps.len() > 0 ==> {
        let earlier = run(start, steps.drop_last());
        let step = steps.last();
        &&& possible(start, steps.drop_last())
        &&& earlier.now <= step.now
        &&& earlier.at(step.now, step.tokens).countable(step.call)
    }
}

} // verus!
