//! The entry points of the escrow contract.
use vstd::prelude::*;

use crate::campaign_escrow::amounts::{lemma_share_bounds, share_of};
use crate::campaign_escrow::calls::Call;
use crate::campaign_escrow::env::{Effect, Env, EscrowState};
use crate::campaign_escrow::error::{refused_with, Error};
use crate::campaign_escrow::events::{
    AdminProposed, AdminTransferred, CampaignCancelled, CampaignCreated, CampaignFunded,
    CampaignMetadataUpdated, ContractPaused, ContractUnpaused, ContractUpgraded, CreatorApplied,
    CreatorApproved, DisputeFrozen, DisputeResolved, EmergencyRecovery, Event, FeeUpdated,
    PaymentReleased, ProofSubmitted, SubmissionRejected, SurplusReclaimed, TreasuryUpdated,
};
use crate::campaign_escrow::storage;
use crate::campaign_escrow::types::{Application, Campaign, DisputeResolution, ProtocolConfig};
use crate::shared::{
    Address, ApplicationStatus, CampaignId, CampaignStatus, PayoutAsset, BASIS_POINTS_DENOMINATOR,
};

verus! {

/// The version recorded when the contract is set up. Replacing the code does
/// not change it.
pub const INITIAL_VERSION: &'static str = "0.1.0";

/// How long an abandoned campaign has to lie past its completion deadline
/// before the admin may recover its unallocated budget: 180 days, far longer
/// than any campaign runs, so that recovery never stands in for expiry.
pub const EMERGENCY_RECOVERY_GRACE_PERIOD: u64 = 180 * 24 * 60 * 60;

/// How long a dispute has to be open before the admin may settle it: 72 hours,
/// enough to span a weekend in any timezone. Without it, a contested payout
/// could be reallocated before the other party could answer, or notice.
pub const MIN_EVIDENCE_WINDOW: u64 = 72 * 60 * 60;

/// The largest fee that a live contract can be changed to, in basis points:
/// ten percent.
pub const MAX_UPDATED_FEE_BPS: i128 = 1_000;

/// Refuses anyone but the stored admin.
fn require_admin(env: &mut Env, admin: Address) -> (r: Result<(), Error>)
    ensures
        final(env)@ == old(env)@.asked(admin),
        match old(env)@.admin_refusal(admin) {
            Some(e) => r == Err::<(), Error>(e),
            None => r == Ok::<(), Error>(()),
        },
{
    env.require_auth(admin);
    let stored_admin = storage::get_admin(env)?;
    if stored_admin != admin {
        return Err(Error::Unauthorized);
    }
    Ok(())
}

/// Refuses state changes while the contract is paused.
fn require_not_paused(env: &Env) -> (r: Result<(), Error>)
    ensures
        r == (if env@.is_paused() {
            Err::<(), Error>(Error::ContractPaused)
        } else {
            Ok(())
        }),
{
    if storage::get_paused(env) {
        return Err(Error::ContractPaused);
    }
    Ok(())
}

/// Refuses any change to an application whose payout is frozen. This covers
/// the proof too: it is the evidence that the arbiter reviews.
fn require_not_frozen(application: &Application) -> (r: Result<(), Error>)
    ensures
        r == (if application.frozen {
            Err::<(), Error>(Error::PayoutFrozen)
        } else {
            Ok(())
        }),
{
    if application.frozen {
        return Err(Error::PayoutFrozen);
    }
    Ok(())
}

/// The escrow contract.
pub struct CampaignEscrowContract;

impl CampaignEscrowContract {
    /// Sets the contract up, once, before anything else.
    ///
    /// `dispute_contract` is the contract that may freeze payouts, besides the
    /// admin. Fees go to the admin until another treasury is named.
    pub fn initialize(
        env: &mut Env,
        admin: Address,
        dispute_contract: Address,
        fee_bps: i128,
    ) -> (r: Result<(), Error>)
        ensures
            match old(env)@.initialize_refusal(fee_bps) {
                Some(e) => {
                    &&& r == Err::<(), Error>(e)
                    &&& final(env)@ == old(env)@
                },
                None => {
                    &&& r == Ok::<(), Error>(())
                    &&& final(env)@ == old(env)@.set_up(
                        admin,
                        dispute_contract,
                        fee_bps,
                        INITIAL_VERSION@,
                    )
                },
            },
            final(env)@ == old(env)@.after(Call::Initialize { admin, dispute_contract, fee_bps }),
            refused_with(r) == old(env)@.refusal(
                Call::Initialize { admin, dispute_contract, fee_bps },
            ),
    {
        proof {
            reveal(EscrowState::administered);
        }
        if storage::is_initialized(env) {
            return Err(Error::AlreadyInitialized);
        }
        if fee_bps < 0 || fee_bps > BASIS_POINTS_DENOMINATOR {
            return Err(Error::FeeTooHigh);
        }
        env.require_auth(admin);

        storage::set_admin(env, admin);
        storage::set_treasury(env, admin);
        storage::set_dispute_contract(env, dispute_contract);
        storage::set_fee_bps(env, fee_bps);
        storage::set_version(env, INITIAL_VERSION.to_string());
        Ok(())
    }

    /// Suspends every state-changing call. Reads are unaffected.
    pub fn pause(env: &mut Env, admin: Address) -> (r: Result<(), Error>)
        ensures
            match old(env)@.admin_refusal(admin) {
                Some(e) => {
                    &&& r == Err::<(), Error>(e)
                    &&& final(env)@ == old(env)@.asked(admin)
                },
                None => {
                    &&& r == Ok::<(), Error>(())
                    &&& final(env)@ == old(env)@.suspended(admin)
                },
            },
            final(env)@ == old(env)@.after(Call::Pause { admin }),
            refused_with(r) == old(env)@.refusal(Call::Pause { admin }),
    {
        proof {
            reveal(EscrowState::administered);
        }
        require_admin(env, admin)?;
        storage::set_paused(env, true);
        env.publish(Event::ContractPaused(ContractPaused { admin }));
        Ok(())
    }

    /// Lets state-changing calls through again.
    pub fn unpause(env: &mut Env, admin: Address) -> (r: Result<(), Error>)
        ensures
            match old(env)@.admin_refusal(admin) {
                Some(e) => {
                    &&& r == Err::<(), Error>(e)
                    &&& final(env)@ == old(env)@.asked(admin)
                },
                None => {
                    &&& r == Ok::<(), Error>(())
                    &&& final(env)@ == old(env)@.resumed(admin)
                },
            },
            final(env)@ == old(env)@.after(Call::Unpause { admin }),
            refused_with(r) == old(env)@.refusal(Call::Unpause { admin }),
    {
        proof {
            reveal(EscrowState::administered);
        }
        require_admin(env, admin)?;
        storage::set_paused(env, false);
        env.publish(Event::ContractUnpaused(ContractUnpaused { admin }));
        Ok(())
    }

    /// Whether state-changing calls are suspended.
    pub fn is_paused(env: &Env) -> (r: bool)
        ensures
            r == env@.is_paused(),
    {
        storage::get_paused(env)
    }

    /// Proposes a new admin. Nothing changes hands until the proposed address
    /// calls [`Self::accept_admin`], which proves control of that key.
    pub fn propose_admin(
        env: &mut Env,
        current_admin: Address,
        new_admin: Address,
    ) -> (r: Result<(), Error>)
        ensures
            match old(env)@.admin_refusal(current_admin) {
                Some(e) => {
                    &&& r == Err::<(), Error>(e)
                    &&& final(env)@ == old(env)@.asked(current_admin)
                },
                None => {
                    &&& r == Ok::<(), Error>(())
                    &&& final(env)@ == old(env)@.proposed(current_admin, new_admin)
                },
            },
            final(env)@ == old(env)@.after(Call::ProposeAdmin { current_admin, new_admin }),
            refused_with(r) == old(env)@.refusal(Call::ProposeAdmin { current_admin, new_admin }),
    {
        proof {
            reveal(EscrowState::administered);
        }
        require_admin(env, current_admin)?;
        storage::set_pending_admin(env, new_admin);
        storage::extend_instance_ttl(env);
        env.publish(Event::AdminProposed(AdminProposed { current_admin, new_admin }));
        Ok(())
    }

    /// Completes a proposed handover. Only the proposed address may.
    pub fn accept_admin(env: &mut Env, new_admin: Address) -> (r: Result<(), Error>)
        ensures
            match old(env)@.accept_refusal(new_admin) {
                Some(e) => {
                    &&& r == Err::<(), Error>(e)
                    &&& final(env)@ == old(env)@.asked(new_admin)
                },
                None => {
                    &&& r == Ok::<(), Error>(())
                    &&& final(env)@ == old(env)@.handed_over(new_admin)
                },
            },
            final(env)@ == old(env)@.after(Call::AcceptAdmin { new_admin }),
            refused_with(r) == old(env)@.refusal(Call::AcceptAdmin { new_admin }),
    {
        proof {
            reveal(EscrowState::administered);
        }
        env.require_auth(new_admin);
        let pending_admin = storage::get_pending_admin(env).ok_or(Error::Unauthorized)?;
        if pending_admin != new_admin {
            return Err(Error::Unauthorized);
        }
        let previous_admin = storage::get_admin(env)?;
        storage::set_admin(env, new_admin);
        storage::clear_pending_admin(env);
        storage::extend_instance_ttl(env);
        env.publish(Event::AdminTransferred(AdminTransferred { previous_admin, new_admin }));
        Ok(())
    }

    /// Changes the platform fee for campaigns created from now on. Capped at
    /// [`MAX_UPDATED_FEE_BPS`], tighter than the range open at setup.
    pub fn update_fee_bps(
        env: &mut Env,
        admin: Address,
        new_fee_bps: i128,
    ) -> (r: Result<(), Error>)
        ensures
            match old(env)@.fee_refusal(admin, new_fee_bps) {
                Some(e) => {
                    &&& r == Err::<(), Error>(e)
                    &&& final(env)@ == old(env)@.asked(admin)
                },
                None => {
                    &&& r == Ok::<(), Error>(())
                    &&& final(env)@ == old(env)@.fee_changed(admin, new_fee_bps)
                },
            },
            final(env)@ == old(env)@.after(Call::UpdateFeeBps { admin, new_fee_bps }),
            refused_with(r) == old(env)@.refusal(Call::UpdateFeeBps { admin, new_fee_bps }),
    {
        proof {
            reveal(EscrowState::administered);
        }
        require_admin(env, admin)?;
        if new_fee_bps < 0 || new_fee_bps > MAX_UPDATED_FEE_BPS {
            return Err(Error::FeeTooHigh);
        }
        storage::set_fee_bps(env, new_fee_bps);
        env.publish(Event::FeeUpdated(FeeUpdated { admin, new_fee_bps }));
        Ok(())
    }

    /// Changes where platform fees go.
    pub fn update_treasury(
        env: &mut Env,
        admin: Address,
        new_treasury: Address,
    ) -> (r: Result<(), Error>)
        ensures
            match old(env)@.admin_refusal(admin) {
                Some(e) => {
                    &&& r == Err::<(), Error>(e)
                    &&& final(env)@ == old(env)@.asked(admin)
                },
                None => {
                    &&& r == Ok::<(), Error>(())
                    &&& final(env)@ == old(env)@.treasury_changed(admin, new_treasury)
                },
            },
            final(env)@ == old(env)@.after(Call::UpdateTreasury { admin, new_treasury }),
            refused_with(r) == old(env)@.refusal(Call::UpdateTreasury { admin, new_treasury }),
    {
        proof {
            reveal(EscrowState::administered);
        }
        require_admin(env, admin)?;
        storage::set_treasury(env, new_treasury);
        env.publish(Event::TreasuryUpdated(TreasuryUpdated { admin, new_treasury }));
        Ok(())
    }

    /// Opens a draft campaign owned by `business`, and returns its number.
    /// Nothing is escrowed until [`Self::fund_campaign`].
    pub fn create_campaign(
        env: &mut Env,
        business: Address,
        asset: PayoutAsset,
        total_budget: i128,
        max_creators: u32,
        application_deadline: u64,
        completion_deadline: u64,
        metadata_uri: String,
    ) -> (r: Result<CampaignId, Error>)
        requires
            old(env)@.create_refusal(
                asset,
                total_budget,
                max_creators,
                application_deadline,
                completion_deadline,
            ) is None ==> old(env)@.next_id() < u64::MAX,
        ensures
            match old(env)@.create_refusal(
                asset,
                total_budget,
                max_creators,
                application_deadline,
                completion_deadline,
            ) {
                Some(e) => {
                    &&& r == Err::<CampaignId, Error>(e)
                    &&& final(env)@ == (if old(env)@.terms_refusal(
                        total_budget,
                        max_creators,
                        application_deadline,
                        completion_deadline,
                    ) is Some {
                        old(env)@
                    } else {
                        old(env)@.asked(business)
                    })
                },
                None => {
                    &&& r == Ok::<CampaignId, Error>(old(env)@.next_id())
                    &&& final(env)@ == old(env)@.created(
                        business,
                        asset,
                        total_budget,
                        max_creators,
                        application_deadline,
                        completion_deadline,
                        metadata_uri,
                    )
                },
            },
            final(env)@ == old(env)@.after(
                Call::CreateCampaign {
                    business,
                    asset,
                    total_budget,
                    max_creators,
                    application_deadline,
                    completion_deadline,
                    metadata_uri,
                },
            ),
            refused_with(r) == old(env)@.refusal(
                Call::CreateCampaign {
                    business,
                    asset,
                    total_budget,
                    max_creators,
                    application_deadline,
                    completion_deadline,
                    metadata_uri,
                },
            ),
    {
        proof {
            reveal(EscrowState::recruited);
        }
        require_not_paused(env)?;
        if !storage::is_initialized(env) {
            return Err(Error::NotInitialized);
        }
        if total_budget <= 0 {
            return Err(Error::InvalidAmount);
        }
        if max_creators == 0 {
            return Err(Error::InvalidCreatorCount);
        }
        let now: u64 = env.timestamp;
        if application_deadline <= now || completion_deadline <= now {
            return Err(Error::DeadlineInPast);
        }
        if application_deadline >= completion_deadline {
            return Err(Error::InvalidDeadlineOrder);
        }
        env.require_auth(business);

        let fee_bps: i128 = storage::get_fee_bps(env)?;
        if !env.is_token(asset.token) {
            return Err(Error::InvalidAsset);
        }
        let id: CampaignId = storage::next_campaign_id(env);
        let campaign = Campaign {
            fee_bps,
            id,
            business,
            asset,
            total_budget,
            escrow_balance: 0,
            committed_payouts: 0,
            max_creators,
            approved_count: 0,
            application_deadline,
            completion_deadline,
            metadata_uri,
            status: CampaignStatus::Draft,
        };
        storage::set_campaign(env, campaign);
        env.publish(Event::CampaignCreated(CampaignCreated { business, campaign_id: id }));
        Ok(id)
    }

    /// Moves the whole budget from `business` into escrow, all at once.
    pub fn fund_campaign(
        env: &mut Env,
        business: Address,
        campaign_id: CampaignId,
    ) -> (r: Result<(), Error>)
        ensures
            match old(env)@.fund_refusal(business, campaign_id) {
                Some(e) => {
                    &&& r == Err::<(), Error>(e)
                    &&& final(env)@ == old(env)@.asked_if_running(business)
                },
                None => {
                    &&& r == Ok::<(), Error>(())
                    &&& final(env)@ == old(env)@.funded(business, campaign_id)
                },
            },
            final(env)@ == old(env)@.after(Call::FundCampaign { business, campaign_id }),
            refused_with(r) == old(env)@.refusal(Call::FundCampaign { business, campaign_id }),
    {
        proof {
            reveal(EscrowState::recruited);
        }
        require_not_paused(env)?;
        env.require_auth(business);
        let mut campaign = storage::get_campaign(env, campaign_id)?;
        if campaign.status != CampaignStatus::Draft {
            return Err(Error::InvalidStatus);
        }
        if campaign.business != business {
            return Err(Error::NotCampaignOwner);
        }
        let amount: i128 = campaign.total_budget;
        let to = env.contract;
        env.request(
            Effect::Transfer { token: campaign.asset.token, from: business, to, amount },
        );
        campaign.escrow_balance = amount;
        campaign.status = CampaignStatus::Funded;
        storage::set_campaign(env, campaign);
        env.publish(Event::CampaignFunded(CampaignFunded { campaign_id, amount }));
        Ok(())
    }

    /// Applies to a funded campaign before its application deadline. A creator
    /// may apply to a campaign only once.
    pub fn apply_to_campaign(
        env: &mut Env,
        creator: Address,
        campaign_id: CampaignId,
        pitch_uri: String,
    ) -> (r: Result<(), Error>)
        requires
            old(env)@.apply_refusal(creator, campaign_id) is None ==> old(env)@.applicant_count(
                campaign_id,
            ) < u32::MAX,
        ensures
            match old(env)@.apply_refusal(creator, campaign_id) {
                Some(e) => {
                    &&& r == Err::<(), Error>(e)
                    &&& final(env)@ == old(env)@.asked_if_running(creator)
                },
                None => {
                    &&& r == Ok::<(), Error>(())
                    &&& final(env)@ == old(env)@.applied(creator, campaign_id, pitch_uri)
                },
            },
            final(env)@ == old(env)@.after(
                Call::ApplyToCampaign { creator, campaign_id, pitch_uri },
            ),
            refused_with(r) == old(env)@.refusal(
                Call::ApplyToCampaign { creator, campaign_id, pitch_uri },
            ),
    {
        proof {
            reveal(EscrowState::recruited);
        }
        require_not_paused(env)?;
        env.require_auth(creator);
        let campaign = storage::get_campaign(env, campaign_id)?;
        if campaign.status != CampaignStatus::Funded && campaign.status != CampaignStatus::Active {
            return Err(Error::InvalidStatus);
        }
        if env.timestamp > campaign.application_deadline {
            return Err(Error::ApplicationDeadlinePassed);
        }
        if storage::get_application(env, campaign_id, creator).is_ok() {
            return Err(Error::AlreadyApplied);
        }
        let application = Application {
            campaign_id,
            creator,
            pitch_uri,
            proof_uri: None,
            payout_amount: 0,
            proof_approved: false,
            frozen: false,
            dispute_opened_at: None,
            status: ApplicationStatus::Pending,
        };
        storage::set_application(env, application);
        storage::add_campaign_applicant(env, campaign_id, creator);
        env.publish(Event::CreatorApplied(CreatorApplied { campaign_id, creator }));
        Ok(())
    }

    /// Selects an applicant and promises them `payout_amount` out of the
    /// escrow. No more creators than the campaign allows, no creator twice, and
    /// no promise beyond what is held.
    pub fn approve_creator(
        env: &mut Env,
        business: Address,
        campaign_id: CampaignId,
        creator: Address,
        payout_amount: i128,
    ) -> (r: Result<(), Error>)
        ensures
            match old(env)@.select_refusal(business, campaign_id, creator, payout_amount) {
                Some(e) => {
                    &&& r == Err::<(), Error>(e)
                    &&& final(env)@ == old(env)@.asked_if_running(business)
                },
                None => {
                    &&& r == Ok::<(), Error>(())
                    &&& final(env)@ == old(env)@.selected(
                        business,
                        campaign_id,
                        creator,
                        payout_amount,
                    )
                },
            },
            final(env)@ == old(env)@.after(
                Call::ApproveCreator { business, campaign_id, creator, payout_amount },
            ),
            refused_with(r) == old(env)@.refusal(
                Call::ApproveCreator { business, campaign_id, creator, payout_amount },
            ),
    {
        proof {
            reveal(EscrowState::recruited);
        }
        require_not_paused(env)?;
        env.require_auth(business);
        let mut campaign = storage::get_campaign(env, campaign_id)?;
        if campaign.business != business {
            return Err(Error::NotCampaignOwner);
        }
        if campaign.status != CampaignStatus::Funded && campaign.status != CampaignStatus::Active {
            return Err(Error::InvalidStatus);
        }
        if payout_amount <= 0 {
            return Err(Error::InvalidAmount);
        }
        let mut application = storage::get_application(env, campaign_id, creator)?;
        if application.status != ApplicationStatus::Pending {
            return Err(Error::AlreadySelected);
        }
        if campaign.approved_count >= campaign.max_creators {
            return Err(Error::MaxCreatorsReached);
        }
        let new_committed: i128 = campaign.committed_payouts.checked_add(payout_amount).ok_or(
            Error::InvalidAmount,
        )?;
        if new_committed > campaign.escrow_balance {
            return Err(Error::InsufficientEscrowBalance);
        }

        application.payout_amount = payout_amount;
        application.status = ApplicationStatus::Approved;
        storage::set_application(env, application);

        campaign.approved_count = campaign.approved_count + 1;
        campaign.committed_payouts = new_committed;
        if campaign.status == CampaignStatus::Funded {
            campaign.status = CampaignStatus::Active;
        }
        storage::set_campaign(env, campaign);
        env.publish(
            Event::CreatorApproved(CreatorApproved { campaign_id, creator, payout_amount }),
        );
        Ok(())
    }

    /// Submits proof of completed work, up to the content deadline.
    pub fn submit_proof(
        env: &mut Env,
        creator: Address,
        campaign_id: CampaignId,
        proof_uri: String,
    ) -> (r: Result<(), Error>)
        ensures
            match old(env)@.submit_refusal(creator, campaign_id) {
                Some(e) => {
                    &&& r == Err::<(), Error>(e)
                    &&& final(env)@ == old(env)@.asked_if_running(creator)
                },
                None => {
                    &&& r == Ok::<(), Error>(())
                    &&& final(env)@ == old(env)@.submitted(creator, campaign_id, proof_uri)
                },
            },
            final(env)@ == old(env)@.after(Call::SubmitProof { creator, campaign_id, proof_uri }),
            refused_with(r) == old(env)@.refusal(
                Call::SubmitProof { creator, campaign_id, proof_uri },
            ),
    {
        proof {
            reveal(EscrowState::reviewed);
        }
        require_not_paused(env)?;
        env.require_auth(creator);
        let campaign = storage::get_campaign(env, campaign_id)?;
        if env.timestamp > campaign.completion_deadline {
            return Err(Error::ContentDeadlinePassed);
        }
        let mut application = storage::get_application(env, campaign_id, creator)?;
        require_not_frozen(&application)?;
        if application.status != ApplicationStatus::Approved && application.status
            != ApplicationStatus::Rejected {
            return Err(Error::InvalidStatus);
        }
        application.proof_uri = Some(proof_uri);
        application.status = ApplicationStatus::ProofSubmitted;
        application.proof_approved = false;
        storage::set_application(env, application);
        env.publish(Event::ProofSubmitted(ProofSubmitted { campaign_id, creator }));
        Ok(())
    }

    /// Accepts a submitted proof, which makes the payout claimable.
    pub fn approve_submission(
        env: &mut Env,
        business: Address,
        campaign_id: CampaignId,
        creator: Address,
    ) -> (r: Result<(), Error>)
        ensures
            match old(env)@.accept_proof_refusal(business, campaign_id, creator) {
                Some(e) => {
                    &&& r == Err::<(), Error>(e)
                    &&& final(env)@ == old(env)@.asked_if_running(business)
                },
                None => {
                    &&& r == Ok::<(), Error>(())
                    &&& final(env)@ == old(env)@.proof_accepted(business, campaign_id, creator)
                },
            },
            final(env)@ == old(env)@.after(
                Call::ApproveSubmission { business, campaign_id, creator },
            ),
            refused_with(r) == old(env)@.refusal(
                Call::ApproveSubmission { business, campaign_id, creator },
            ),
    {
        proof {
            reveal(EscrowState::reviewed);
        }
        require_not_paused(env)?;
        env.require_auth(business);
        let campaign = storage::get_campaign(env, campaign_id)?;
        if campaign.business != business {
            return Err(Error::NotCampaignOwner);
        }
        let mut application = storage::get_application(env, campaign_id, creator)?;
        require_not_frozen(&application)?;
        if application.status != ApplicationStatus::ProofSubmitted {
            return Err(Error::InvalidStatus);
        }
        application.proof_approved = true;
        storage::set_application(env, application);
        Ok(())
    }

    /// Turns a submitted proof down, so that the creator may submit another.
    /// Only up to the content deadline: after it a proof left unanswered counts
    /// as accepted, and the creator could not answer a refusal.
    pub fn reject_submission(
        env: &mut Env,
        business: Address,
        campaign_id: CampaignId,
        creator: Address,
    ) -> (r: Result<(), Error>)
        ensures
            match old(env)@.reject_proof_refusal(business, campaign_id, creator) {
                Some(e) => {
                    &&& r == Err::<(), Error>(e)
                    &&& final(env)@ == old(env)@.asked_if_running(business)
                },
                None => {
                    &&& r == Ok::<(), Error>(())
                    &&& final(env)@ == old(env)@.proof_rejected(business, campaign_id, creator)
                },
            },
            final(env)@ == old(env)@.after(
                Call::RejectSubmission { business, campaign_id, creator },
            ),
            refused_with(r) == old(env)@.refusal(
                Call::RejectSubmission { business, campaign_id, creator },
            ),
    {
        proof {
            reveal(EscrowState::reviewed);
        }
        require_not_paused(env)?;
        env.require_auth(business);
        let campaign = storage::get_campaign(env, campaign_id)?;
        if campaign.business != business {
            return Err(Error::NotCampaignOwner);
        }
        let mut application = storage::get_application(env, campaign_id, creator)?;
        require_not_frozen(&application)?;
        if application.status != ApplicationStatus::ProofSubmitted {
            return Err(Error::InvalidStatus);
        }
        if env.timestamp > campaign.completion_deadline {
            return Err(Error::ContentDeadlinePassed);
        }
        application.proof_uri = None;
        application.proof_approved = false;
        application.status = ApplicationStatus::Rejected;
        storage::set_application(env, application);
        env.publish(Event::SubmissionRejected(SubmissionRejected { campaign_id, creator }));
        Ok(())
    }

    /// Releases an approved creator's payout, less the platform fee fixed when
    /// the campaign was created. A submission that the business left
    /// unanswered counts as approved once the content deadline has passed.
    pub fn claim_payment(env: &mut Env, creator: Address, campaign_id: CampaignId) -> (r: Result<
        (),
        Error,
    >)
        ensures
            match old(env)@.claim_refusal(creator, campaign_id) {
                Some(e) => {
                    &&& r == Err::<(), Error>(e)
                    &&& final(env)@ == old(env)@.asked_if_running(creator)
                },
                None => {
                    &&& r == Ok::<(), Error>(())
                    &&& final(env)@ == old(env)@.claimed(creator, campaign_id)
                },
            },
            final(env)@ == old(env)@.after(Call::ClaimPayment { creator, campaign_id }),
            refused_with(r) == old(env)@.refusal(Call::ClaimPayment { creator, campaign_id }),
    {
        proof {
            reveal(EscrowState::settled);
        }
        require_not_paused(env)?;
        env.require_auth(creator);
        let mut campaign = storage::get_campaign(env, campaign_id)?;

        let mut application = storage::get_application(env, campaign_id, creator)?;
        require_not_frozen(&application)?;
        if application.status != ApplicationStatus::ProofSubmitted {
            return Err(Error::SubmissionNotPayable);
        }
        let auto_approved = env.timestamp > campaign.completion_deadline;
        if !application.proof_approved && !auto_approved {
            return Err(Error::SubmissionNotPayable);
        }
        let payout: i128 = application.payout_amount;
        let fee: i128 = share_of(payout, campaign.fee_bps)?;
        let net: i128 = payout.checked_sub(fee).ok_or(Error::InvalidAmount)?;
        if fee > 0 && storage::get_treasury(env).is_err() {
            return Err(Error::NotInitialized);
        }
        let escrow_balance: i128 = campaign.escrow_balance.checked_sub(payout).ok_or(
            Error::InvalidAmount,
        )?;
        let committed_payouts: i128 = campaign.committed_payouts.checked_sub(payout).ok_or(
            Error::InvalidAmount,
        )?;

        if fee > 0 {
            let treasury = storage::get_treasury(env)?;
            env.pay_out(campaign.asset.token, treasury, fee);
        }
        env.pay_out(campaign.asset.token, creator, net);

        application.status = ApplicationStatus::Paid;
        storage::set_application(env, application);

        campaign.escrow_balance = escrow_balance;
        campaign.committed_payouts = committed_payouts;
        if campaign.escrow_balance == 0 {
            campaign.status = CampaignStatus::Completed;
        }
        storage::set_campaign(env, campaign);
        env.publish(Event::PaymentReleased(PaymentReleased { campaign_id, creator, amount: net }));
        Ok(())
    }

    /// Cancels a campaign and returns its unallocated budget. What is promised
    /// to selected creators stays reserved and can still be claimed.
    pub fn cancel_campaign(
        env: &mut Env,
        business: Address,
        campaign_id: CampaignId,
    ) -> (r: Result<(), Error>)
        ensures
            match old(env)@.cancel_refusal(business, campaign_id) {
                Some(e) => {
                    &&& r == Err::<(), Error>(e)
                    &&& final(env)@ == old(env)@.asked_if_running(business)
                },
                None => {
                    &&& r == Ok::<(), Error>(())
                    &&& final(env)@ == old(env)@.wound_up(business, campaign_id)
                },
            },
            final(env)@ == old(env)@.after(Call::CancelCampaign { business, campaign_id }),
            refused_with(r) == old(env)@.refusal(Call::CancelCampaign { business, campaign_id }),
    {
        proof {
            reveal(EscrowState::refunded);
        }
        require_not_paused(env)?;
        env.require_auth(business);
        let mut campaign = storage::get_campaign(env, campaign_id)?;
        if campaign.business != business {
            return Err(Error::NotCampaignOwner);
        }
        if campaign.status == CampaignStatus::Cancelled || campaign.status
            == CampaignStatus::Completed {
            return Err(Error::InvalidStatus);
        }
        let refund: i128 = campaign.escrow_balance.checked_sub(campaign.committed_payouts).ok_or(
            Error::InvalidAmount,
        )?;
        if refund > 0 {
            env.pay_out(campaign.asset.token, business, refund);
        }
        campaign.escrow_balance = campaign.committed_payouts;
        campaign.status = CampaignStatus::Cancelled;
        storage::set_campaign(env, campaign);
        env.publish(
            Event::CampaignCancelled(CampaignCancelled { campaign_id, refunded_amount: refund }),
        );
        Ok(())
    }

    /// Expires a campaign past its content deadline and returns its unallocated
    /// budget. What is promised to selected creators stays reserved and can
    /// still be claimed.
    pub fn expire_campaign(
        env: &mut Env,
        business: Address,
        campaign_id: CampaignId,
    ) -> (r: Result<(), Error>)
        ensures
            match old(env)@.expire_refusal(business, campaign_id) {
                Some(e) => {
                    &&& r == Err::<(), Error>(e)
                    &&& final(env)@ == old(env)@.asked_if_running(business)
                },
                None => {
                    &&& r == Ok::<(), Error>(())
                    &&& final(env)@ == old(env)@.wound_up(business, campaign_id)
                },
            },
            final(env)@ == old(env)@.after(Call::ExpireCampaign { business, campaign_id }),
            refused_with(r) == old(env)@.refusal(Call::ExpireCampaign { business, campaign_id }),
    {
        proof {
            reveal(EscrowState::refunded);
        }
        require_not_paused(env)?;
        env.require_auth(business);
        let mut campaign = storage::get_campaign(env, campaign_id)?;
        if campaign.business != business {
            return Err(Error::NotCampaignOwner);
        }
        if env.timestamp <= campaign.completion_deadline {
            return Err(Error::DeadlineNotReached);
        }
        if campaign.status == CampaignStatus::Cancelled || campaign.status
            == CampaignStatus::Completed {
            return Err(Error::InvalidStatus);
        }
        let refund: i128 = campaign.escrow_balance.checked_sub(campaign.committed_payouts).ok_or(
            Error::InvalidAmount,
        )?;
        if refund > 0 {
            env.pay_out(campaign.asset.token, business, refund);
        }
        campaign.escrow_balance = campaign.committed_payouts;
        campaign.status = CampaignStatus::Cancelled;
        storage::set_campaign(env, campaign);
        env.publish(
            Event::CampaignCancelled(CampaignCancelled { campaign_id, refunded_amount: refund }),
        );
        Ok(())
    }

    /// Recovers the unallocated budget of a campaign whose business can no
    /// longer be reached, [`EMERGENCY_RECOVERY_GRACE_PERIOD`] past its
    /// completion deadline. The budget goes to the treasury: the business's own
    /// address is the one that nobody can use any more. What is promised to
    /// selected creators stays reserved and can still be claimed.
    pub fn emergency_recover_campaign(
        env: &mut Env,
        admin: Address,
        campaign_id: CampaignId,
    ) -> (r: Result<(), Error>)
        ensures
            match old(env)@.recover_refusal(admin, campaign_id) {
                Some(e) => {
                    &&& r == Err::<(), Error>(e)
                    &&& final(env)@ == old(env)@.asked_if_running(admin)
                },
                None => {
                    &&& r == Ok::<(), Error>(())
                    &&& final(env)@ == old(env)@.recovered(admin, campaign_id)
                },
            },
            final(env)@ == old(env)@.after(Call::EmergencyRecoverCampaign { admin, campaign_id }),
            refused_with(r) == old(env)@.refusal(
                Call::EmergencyRecoverCampaign { admin, campaign_id },
            ),
    {
        proof {
            reveal(EscrowState::refunded);
        }
        require_not_paused(env)?;
        require_admin(env, admin)?;
        let mut campaign = storage::get_campaign(env, campaign_id)?;
        if campaign.status == CampaignStatus::Cancelled || campaign.status
            == CampaignStatus::Completed {
            return Err(Error::InvalidStatus);
        }
        let grace_period_end: u64 = campaign.completion_deadline.checked_add(
            EMERGENCY_RECOVERY_GRACE_PERIOD,
        ).ok_or(Error::InvalidAmount)?;
        if env.timestamp <= grace_period_end {
            return Err(Error::DeadlineNotReached);
        }
        let recovered: i128 = campaign.escrow_balance.checked_sub(
            campaign.committed_payouts,
        ).ok_or(Error::InvalidAmount)?;
        if recovered > 0 {
            let treasury = storage::get_treasury(env)?;
            env.pay_out(campaign.asset.token, treasury, recovered);
        }
        campaign.escrow_balance = campaign.committed_payouts;
        campaign.status = CampaignStatus::Cancelled;
        storage::set_campaign(env, campaign);
        env.publish(
            Event::EmergencyRecovery(EmergencyRecovery { campaign_id, amount: recovered }),
        );
        Ok(())
    }

    /// Returns the unallocated budget while the campaign goes on. What is
    /// promised to selected creators stays reserved.
    pub fn reclaim_surplus(
        env: &mut Env,
        business: Address,
        campaign_id: CampaignId,
    ) -> (r: Result<(), Error>)
        ensures
            match old(env)@.reclaim_refusal(business, campaign_id) {
                Some(e) => {
                    &&& r == Err::<(), Error>(e)
                    &&& final(env)@ == old(env)@.asked_if_running(business)
                },
                None => {
                    &&& r == Ok::<(), Error>(())
                    &&& final(env)@ == old(env)@.reclaimed(business, campaign_id)
                },
            },
            final(env)@ == old(env)@.after(Call::ReclaimSurplus { business, campaign_id }),
            refused_with(r) == old(env)@.refusal(Call::ReclaimSurplus { business, campaign_id }),
    {
        proof {
            reveal(EscrowState::refunded);
        }
        require_not_paused(env)?;
        env.require_auth(business);
        let mut campaign = storage::get_campaign(env, campaign_id)?;
        if campaign.business != business {
            return Err(Error::NotCampaignOwner);
        }
        if campaign.status == CampaignStatus::Cancelled {
            return Err(Error::InvalidStatus);
        }
        let surplus: i128 = campaign.escrow_balance.checked_sub(campaign.committed_payouts).ok_or(
            Error::InvalidAmount,
        )?;
        if surplus > 0 {
            env.pay_out(campaign.asset.token, business, surplus);
        }
        campaign.escrow_balance = campaign.committed_payouts;
        if campaign.escrow_balance == 0 {
            campaign.status = CampaignStatus::Completed;
        }
        storage::set_campaign(env, campaign);
        env.publish(Event::SurplusReclaimed(SurplusReclaimed { campaign_id, amount: surplus }));
        Ok(())
    }

    /// Freezes one creator's payout while a dispute over it is under review.
    /// For the dispute contract, or the admin directly.
    ///
    /// The freeze covers a single application: the other creators on the
    /// campaign are paid as before. It also starts the [`MIN_EVIDENCE_WINDOW`]
    /// clock, which a second freeze cannot reset.
    pub fn freeze_for_dispute(
        env: &mut Env,
        caller: Address,
        campaign_id: CampaignId,
        creator: Address,
    ) -> (r: Result<(), Error>)
        ensures
            match old(env)@.freeze_refusal(caller, campaign_id, creator) {
                Some(e) => {
                    &&& r == Err::<(), Error>(e)
                    &&& final(env)@ == old(env)@.asked_if_running(caller)
                },
                None => {
                    &&& r == Ok::<(), Error>(())
                    &&& final(env)@ == old(env)@.froze(caller, campaign_id, creator)
                },
            },
            final(env)@ == old(env)@.after(Call::FreezeForDispute { caller, campaign_id, creator }),
            refused_with(r) == old(env)@.refusal(
                Call::FreezeForDispute { caller, campaign_id, creator },
            ),
    {
        proof {
            reveal(EscrowState::reviewed);
        }
        require_not_paused(env)?;
        env.require_auth(caller);
        if caller != storage::get_dispute_contract(env)? && caller != storage::get_admin(env)? {
            return Err(Error::Unauthorized);
        }
        let campaign = storage::get_campaign(env, campaign_id)?;
        if campaign.status == CampaignStatus::Cancelled {
            return Err(Error::InvalidStatus);
        }
        let mut application = storage::get_application(env, campaign_id, creator)?;
        require_not_frozen(&application)?;
        if application.status == ApplicationStatus::Paid || application.payout_amount <= 0 {
            return Err(Error::SubmissionNotPayable);
        }
        application.frozen = true;
        application.dispute_opened_at = Some(env.timestamp);
        storage::set_application(env, application);
        env.publish(Event::DisputeFrozen(DisputeFrozen { campaign_id, creator }));
        Ok(())
    }

    /// The business that owns a campaign: all that the dispute contract needs
    /// to know of it.
    pub fn get_campaign_business(env: &Env, campaign_id: CampaignId) -> (r: Result<Address, Error>)
        ensures
            r == (if env@.campaigns.contains_key(campaign_id) {
                Ok::<Address, Error>(env@.campaigns[campaign_id].business)
            } else {
                Err(Error::CampaignNotFound)
            }),
    {
        Ok(storage::get_campaign(env, campaign_id)?.business)
    }

    /// Reserved for settlements decided by the dispute contract. While the
    /// contract is paused it is refused like every other change; there is
    /// nothing yet that it would do otherwise.
    pub fn resolve_dispute_payout(
        env: &Env,
        campaign_id: CampaignId,
        creator: Address,
        creator_bps: i128,
    ) -> (r: Result<(), Error>)
        requires
            env@.is_paused(),
        ensures
            r == Err::<(), Error>(Error::ContractPaused),
    {
        require_not_paused(env)
    }

    /// Settles one creator's contested payout on the admin's word.
    ///
    /// The payout has to be frozen first, and the dispute has to have been
    /// open for [`MIN_EVIDENCE_WINDOW`]: nobody's payout is reallocated before
    /// they could notice and answer.
    pub fn resolve_dispute(
        env: &mut Env,
        admin: Address,
        campaign_id: CampaignId,
        creator: Address,
        resolution: DisputeResolution,
    ) -> (r: Result<(), Error>)
        ensures
            match old(env)@.resolve_refusal(admin, campaign_id, creator, resolution) {
                Some(e) => {
                    &&& r == Err::<(), Error>(e)
                    &&& final(env)@ == old(env)@.asked_if_running(admin)
                },
                None => {
                    &&& r == Ok::<(), Error>(())
                    &&& final(env)@ == old(env)@.resolved(admin, campaign_id, creator, resolution)
                },
            },
            final(env)@ == old(env)@.after(
                Call::ResolveDispute { admin, campaign_id, creator, resolution },
            ),
            refused_with(r) == old(env)@.refusal(
                Call::ResolveDispute { admin, campaign_id, creator, resolution },
            ),
    {
        proof {
            reveal(EscrowState::settled);
        }
        require_not_paused(env)?;
        require_admin(env, admin)?;

        let mut campaign = storage::get_campaign(env, campaign_id)?;
        if campaign.status == CampaignStatus::Cancelled || campaign.status
            == CampaignStatus::Completed {
            return Err(Error::InvalidStatus);
        }
        let mut application = storage::get_application(env, campaign_id, creator)?;
        if application.status == ApplicationStatus::Paid || application.payout_amount <= 0 {
            return Err(Error::SubmissionNotPayable);
        }
        let dispute_opened_at: u64 = application.dispute_opened_at.ok_or(Error::NoDisputeOpen)?;
        let window_end: u64 = dispute_opened_at.checked_add(MIN_EVIDENCE_WINDOW).ok_or(
            Error::InvalidAmount,
        )?;
        if window_end > env.timestamp {
            return Err(Error::EvidenceWindowOpen);
        }
        let payout: i128 = application.payout_amount;
        let creator_gross: i128 = match resolution {
            DisputeResolution::PayCreator => payout,
            DisputeResolution::RefundBusiness => 0,
            DisputeResolution::Split(bps) => {
                if bps < 0 || bps > BASIS_POINTS_DENOMINATOR {
                    return Err(Error::InvalidAmount);
                }
                proof {
                    lemma_share_bounds(payout as int, bps as int);
                }
                share_of(payout, bps)?
            },
        };
        let business_amount: i128 = payout - creator_gross;
        // The fee applies to the creator's share only: a full refund is free.
        let fee: i128 = share_of(creator_gross, campaign.fee_bps)?;
        let creator_net: i128 = creator_gross.checked_sub(fee).ok_or(Error::InvalidAmount)?;
        if fee > 0 && storage::get_treasury(env).is_err() {
            return Err(Error::NotInitialized);
        }
        let escrow_balance: i128 = campaign.escrow_balance.checked_sub(payout).ok_or(
            Error::InvalidAmount,
        )?;
        let committed_payouts: i128 = campaign.committed_payouts.checked_sub(payout).ok_or(
            Error::InvalidAmount,
        )?;

        if fee > 0 {
            let treasury = storage::get_treasury(env)?;
            env.pay_out(campaign.asset.token, treasury, fee);
        }
        if creator_net > 0 {
            env.pay_out(campaign.asset.token, creator, creator_net);
        }
        if business_amount > 0 {
            env.pay_out(campaign.asset.token, campaign.business, business_amount);
        }
        application.status = ApplicationStatus::Paid;
        application.frozen = false;
        application.dispute_opened_at = None;
        storage::set_application(env, application);

        campaign.escrow_balance = escrow_balance;
        campaign.committed_payouts = committed_payouts;
        if campaign.escrow_balance == 0 {
            campaign.status = CampaignStatus::Completed;
        }
        storage::set_campaign(env, campaign);

        let outcome = resolution.outcome();
        if let Ok(dispute_contract) = storage::get_dispute_contract(env) {
            let caller = env.contract;
            env.request(
                Effect::CloseDispute { dispute_contract, caller, campaign_id, creator, outcome },
            );
        }
        env.publish(
            Event::DisputeResolved(
                DisputeResolved {
                    campaign_id,
                    creator,
                    dispute_outcome: outcome,
                    creator_amount: creator_net,
                    business_amount,
                },
            ),
        );
        Ok(())
    }

    /// Changes a campaign's brief. Once a creator has applied it is locked, so
    /// that nobody's terms change under them.
    pub fn update_campaign_metadata(
        env: &mut Env,
        campaign_id: CampaignId,
        business: Address,
        new_metadata: String,
    ) -> (r: Result<(), Error>)
        ensures
            match old(env)@.metadata_refusal(campaign_id, business, new_metadata@) {
                Some(e) => {
                    &&& r == Err::<(), Error>(e)
                    &&& final(env)@ == old(env)@.asked_if_running(business)
                },
                None => {
                    &&& r == Ok::<(), Error>(())
                    &&& final(env)@ == old(env)@.metadata_changed(
                        campaign_id,
                        business,
                        new_metadata,
                    )
                },
            },
            final(env)@ == old(env)@.after(
                Call::UpdateCampaignMetadata { campaign_id, business, new_metadata },
            ),
            refused_with(r) == old(env)@.refusal(
                Call::UpdateCampaignMetadata { campaign_id, business, new_metadata },
            ),
    {
        proof {
            reveal(EscrowState::recruited);
        }
        require_not_paused(env)?;
        env.require_auth(business);
        let mut campaign = storage::get_campaign(env, campaign_id)?;
        if campaign.business != business {
            return Err(Error::NotCampaignOwner);
        }
        if campaign.status == CampaignStatus::Cancelled || campaign.status
            == CampaignStatus::Completed {
            return Err(Error::InvalidStatus);
        }
        if storage::has_campaign_applicants(env, campaign_id) {
            return Err(Error::ApplicationsExist);
        }
        if new_metadata.as_str().is_empty() {
            return Err(Error::InvalidMetadata);
        }
        campaign.metadata_uri = new_metadata.clone();
        storage::set_campaign(env, campaign);
        env.publish(
            Event::CampaignMetadataUpdated(
                CampaignMetadataUpdated { campaign_id, business, new_metadata },
            ),
        );
        Ok(())
    }

    /// A campaign's current state.
    pub fn get_campaign(env: &Env, campaign_id: CampaignId) -> (r: Result<Campaign, Error>)
        ensures
            r == (if env@.campaigns.contains_key(campaign_id) {
                Ok::<Campaign, Error>(env@.campaigns[campaign_id])
            } else {
                Err(Error::CampaignNotFound)
            }),
    {
        storage::get_campaign(env, campaign_id)
    }

    /// A creator's application to a campaign.
    pub fn get_application(env: &Env, campaign_id: CampaignId, creator: Address) -> (r: Result<
        Application,
        Error,
    >)
        ensures
            r == (if env@.applications.contains_key((campaign_id, creator)) {
                Ok::<Application, Error>(env@.applications[(campaign_id, creator)])
            } else {
                Err(Error::ApplicationNotFound)
            }),
    {
        storage::get_application(env, campaign_id, creator)
    }

    /// The settings from which a caller can work out a fee breakdown.
    pub fn get_protocol_config(env: &mut Env) -> (r: Result<ProtocolConfig, Error>)
        ensures
            if old(env)@.admin is Some && old(env)@.treasury is Some && old(env)@.fee_bps is Some {
                &&& r == Ok::<ProtocolConfig, Error>(
                    ProtocolConfig {
                        admin: old(env)@.admin->0,
                        treasury: old(env)@.treasury->0,
                        fee_bps: old(env)@.fee_bps->0,
                    },
                )
                &&& final(env)@ == old(env)@.instance_kept()
            } else {
                &&& r == Err::<ProtocolConfig, Error>(Error::NotInitialized)
                &&& final(env)@ == old(env)@
            },
    {
        let admin = storage::get_admin(env)?;
        let treasury = storage::get_treasury(env)?;
        let fee_bps: i128 = storage::get_fee_bps(env)?;
        storage::extend_instance_ttl(env);
        Ok(ProtocolConfig { admin, treasury, fee_bps })
    }

    /// The version recorded when the contract was set up.
    pub fn version(env: &Env) -> (r: Result<String, Error>)
        ensures
            match env@.version {
                Some(version) => r is Ok && r->Ok_0@ == version,
                None => r == Err::<String, Error>(Error::NotInitialized),
            },
    {
        storage::get_version(env)
    }

    /// Replaces the contract's code, keeping its address and its entries. The
    /// recorded version stays as it is.
    pub fn upgrade(env: &mut Env, admin: Address, new_wasm_hash: [u8; 32]) -> (r: Result<(), Error>)
        ensures
            match old(env)@.admin_refusal(admin) {
                Some(e) => {
                    &&& r == Err::<(), Error>(e)
                    &&& final(env)@ == old(env)@.asked(admin)
                },
                None => {
                    &&& r == Ok::<(), Error>(())
                    &&& final(env)@ == old(env)@.upgraded(admin, new_wasm_hash)
                },
            },
            final(env)@ == old(env)@.after(Call::Upgrade { admin, new_wasm_hash }),
            refused_with(r) == old(env)@.refusal(Call::Upgrade { admin, new_wasm_hash }),
    {
        proof {
            reveal(EscrowState::administered);
        }
        require_admin(env, admin)?;
        env.request(Effect::UpdateWasm(new_wasm_hash));
        env.publish(Event::ContractUpgraded(ContractUpgraded { new_wasm_hash }));
        Ok(())
    }
}

} // verus!
