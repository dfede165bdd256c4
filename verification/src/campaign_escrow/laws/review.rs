//! Laws on proofs of work, their review, and the freeze of a contested payout:
//! when each call is accepted, for what else it is refused, and what it does.
use vstd::prelude::*;

use crate::campaign_escrow::calls::Call;
use crate::campaign_escrow::env::{Effect, EscrowState};
use crate::campaign_escrow::error::Error;
use crate::campaign_escrow::events::{DisputeFrozen, Event, ProofSubmitted, SubmissionRejected};
use crate::campaign_escrow::laws::books::lemma_own_key;
use crate::campaign_escrow::laws::log::saving;
use crate::campaign_escrow::storage::DataKey;
use crate::campaign_escrow::types::Application;
use crate::shared::{Address, ApplicationStatus, CampaignId, CampaignStatus};

verus! {

/// A proof is taken exactly when the contract runs, the content deadline has
/// not passed, and the creator was selected, is not frozen, and has no proof
/// under review. What became of the campaign does not matter: a creator whose
/// payout stayed reserved can still deliver.
pub proof fn law_submitting_is_decided(
    s: EscrowState,
    creator: Address,
    id: CampaignId,
    proof_uri: String,
)
    ensures
        ({
            let r = s.refusal(Call::SubmitProof { creator, campaign_id: id, proof_uri });
            let c = s.campaigns[id];
            let a = s.applications[(id, creator)];
            let running = s.paused != Some(true);
            let known = running && s.campaigns.contains_key(id);
            let in_time = known && s.now <= c.completion_deadline;
            let applied = in_time && s.applications.contains_key((id, creator));
            let free = applied && !a.frozen;
            let accepted = free && (a.status == ApplicationStatus::Approved || a.status
                == ApplicationStatus::Rejected);
            &&& r is None <==> accepted
            &&& r == Some(Error::ContractPaused) <==> !running
            &&& r == Some(Error::CampaignNotFound) <==> running && !known
            &&& r == Some(Error::ContentDeadlinePassed) <==> known && !in_time
            &&& r == Some(Error::ApplicationNotFound) <==> in_time && !applied
            &&& r == Some(Error::PayoutFrozen) <==> applied && !free
            &&& r == Some(Error::InvalidStatus) <==> free && !accepted
        }),
{
}

/// Submitting puts the proof that was given under review, not approved yet.
/// The agreed payout and everything else stays.
pub proof fn law_submitting_records_the_proof(
    s: EscrowState,
    creator: Address,
    id: CampaignId,
    proof_uri: String,
)
    requires
        s.sound(),
        s.refusal(Call::SubmitProof { creator, campaign_id: id, proof_uri }) is None,
    ensures
        ({
            let t = s.after(Call::SubmitProof { creator, campaign_id: id, proof_uri });
            let a = s.applications[(id, creator)];
            let b = t.applications[(id, creator)];
            &&& b.proof_uri == Some(proof_uri)
            &&& b.status == ApplicationStatus::ProofSubmitted
            &&& !b.proof_approved
            &&& b == (Application {
                proof_uri: b.proof_uri,
                status: b.status,
                proof_approved: b.proof_approved,
                ..a
            })
            &&& t.applications == s.applications.insert((id, creator), b)
            &&& t.log == s.log + seq![Effect::RequireAuth(creator)] + saving(
                DataKey::Application(id, creator),
            ) + seq![
                Effect::Publish(
                    Event::ProofSubmitted(ProofSubmitted { campaign_id: id, creator }),
                ),
            ]
            &&& t == (EscrowState { applications: t.applications, log: t.log, ..s })
        }),
{
    reveal(EscrowState::reviewed);
    lemma_own_key(s, Call::SubmitProof { creator, campaign_id: id, proof_uri });
    let t = s.submitted(creator, id, proof_uri);
    assert(t.log =~= s.log + seq![Effect::RequireAuth(creator)] + saving(
        DataKey::Application(id, creator),
    ) + seq![
        Effect::Publish(Event::ProofSubmitted(ProofSubmitted { campaign_id: id, creator })),
    ]);
}

/// A proof is accepted exactly when the contract runs, the business that asks
/// owns the campaign, and the proof is under review and not frozen, at
/// whatever time and whatever became of the campaign.
pub proof fn law_accepting_is_decided(
    s: EscrowState,
    business: Address,
    id: CampaignId,
    creator: Address,
)
    ensures
        ({
            let r = s.refusal(Call::ApproveSubmission { business, campaign_id: id, creator });
            let c = s.campaigns[id];
            let a = s.applications[(id, creator)];
            let running = s.paused != Some(true);
            let known = running && s.campaigns.contains_key(id);
            let owned = known && c.business == business;
            let applied = owned && s.applications.contains_key((id, creator));
            let free = applied && !a.frozen;
            let accepted = free && a.status == ApplicationStatus::ProofSubmitted;
            &&& r is None <==> accepted
            &&& r == Some(Error::ContractPaused) <==> !running
            &&& r == Some(Error::CampaignNotFound) <==> running && !known
            &&& r == Some(Error::NotCampaignOwner) <==> known && !owned
            &&& r == Some(Error::ApplicationNotFound) <==> owned && !applied
            &&& r == Some(Error::PayoutFrozen) <==> applied && !free
            &&& r == Some(Error::InvalidStatus) <==> free && !accepted
        }),
{
}

/// Accepting a proof marks it as approved, and changes nothing else.
pub proof fn law_accepting_approves_the_proof(
    s: EscrowState,
    business: Address,
    id: CampaignId,
    creator: Address,
)
    requires
        s.sound(),
        s.refusal(Call::ApproveSubmission { business, campaign_id: id, creator }) is None,
    ensures
        ({
            let t = s.after(Call::ApproveSubmission { business, campaign_id: id, creator });
            let a = s.applications[(id, creator)];
            let b = t.applications[(id, creator)];
            &&& b.proof_approved
            &&& b == (Application { proof_approved: b.proof_approved, ..a })
            &&& t.applications == s.applications.insert((id, creator), b)
            &&& t.log == s.log + seq![Effect::RequireAuth(business)] + saving(
                DataKey::Application(id, creator),
            )
            &&& t == (EscrowState { applications: t.applications, log: t.log, ..s })
        }),
{
    reveal(EscrowState::reviewed);
    lemma_own_key(s, Call::ApproveSubmission { business, campaign_id: id, creator });
    let t = s.proof_accepted(business, id, creator);
    assert(t.log =~= s.log + seq![Effect::RequireAuth(business)] + saving(
        DataKey::Application(id, creator),
    ));
}

/// A proof is turned down exactly when it could be accepted and the content
/// deadline has not passed: up to then the creator has time for another, and
/// after it silence counts as approval.
pub proof fn law_rejecting_is_decided(
    s: EscrowState,
    business: Address,
    id: CampaignId,
    creator: Address,
)
    ensures
        ({
            let r = s.refusal(Call::RejectSubmission { business, campaign_id: id, creator });
            let c = s.campaigns[id];
            let a = s.applications[(id, creator)];
            let running = s.paused != Some(true);
            let known = running && s.campaigns.contains_key(id);
            let owned = known && c.business == business;
            let applied = owned && s.applications.contains_key((id, creator));
            let free = applied && !a.frozen;
            let under_review = free && a.status == ApplicationStatus::ProofSubmitted;
            let accepted = under_review && s.now <= c.completion_deadline;
            &&& r is None <==> accepted
            &&& r == Some(Error::ContractPaused) <==> !running
            &&& r == Some(Error::CampaignNotFound) <==> running && !known
            &&& r == Some(Error::NotCampaignOwner) <==> known && !owned
            &&& r == Some(Error::ApplicationNotFound) <==> owned && !applied
            &&& r == Some(Error::PayoutFrozen) <==> applied && !free
            &&& r == Some(Error::InvalidStatus) <==> free && !under_review
            &&& r == Some(Error::ContentDeadlinePassed) <==> under_review && !accepted
        }),
{
}

/// Turning a proof down drops it and any approval of it. The creator stays
/// selected, for the same payout.
pub proof fn law_rejecting_drops_the_proof(
    s: EscrowState,
    business: Address,
    id: CampaignId,
    creator: Address,
)
    requires
        s.sound(),
        s.refusal(Call::RejectSubmission { business, campaign_id: id, creator }) is None,
    ensures
        ({
            let t = s.after(Call::RejectSubmission { business, campaign_id: id, creator });
            let a = s.applications[(id, creator)];
            let b = t.applications[(id, creator)];
            &&& b.proof_uri is None
            &&& !b.proof_approved
            &&& b.status == ApplicationStatus::Rejected
            &&& b == (Application {
                proof_uri: b.proof_uri,
                proof_approved: b.proof_approved,
                status: b.status,
                ..a
            })
            &&& t.applications == s.applications.insert((id, creator), b)
            &&& t.log == s.log + seq![Effect::RequireAuth(business)] + saving(
                DataKey::Application(id, creator),
            ) + seq![
                Effect::Publish(
                    Event::SubmissionRejected(SubmissionRejected { campaign_id: id, creator }),
                ),
            ]
            &&& t == (EscrowState { applications: t.applications, log: t.log, ..s })
        }),
{
    reveal(EscrowState::reviewed);
    lemma_own_key(s, Call::RejectSubmission { business, campaign_id: id, creator });
    let t = s.proof_rejected(business, id, creator);
    assert(t.log =~= s.log + seq![Effect::RequireAuth(business)] + saving(
        DataKey::Application(id, creator),
    ) + seq![
        Effect::Publish(Event::SubmissionRejected(SubmissionRejected { campaign_id: id, creator })),
    ]);
}

/// A creator whose proof was turned down can submit another at once, and it is
/// then under review like the first.
pub proof fn law_rejected_may_resubmit(
    s: EscrowState,
    business: Address,
    id: CampaignId,
    creator: Address,
    proof_uri: String,
)
    requires
        s.sound(),
        s.refusal(Call::RejectSubmission { business, campaign_id: id, creator }) is None,
    ensures
        ({
            let t = s.after(Call::RejectSubmission { business, campaign_id: id, creator });
            let submit = Call::SubmitProof { creator, campaign_id: id, proof_uri };
            let accept = Call::ApproveSubmission { business, campaign_id: id, creator };
            &&& t.refusal(submit) is None
            &&& t.after(submit).refusal(accept) is None
        }),
{
    law_rejecting_is_decided(s, business, id, creator);
    law_rejecting_drops_the_proof(s, business, id, creator);
    let t = s.after(Call::RejectSubmission { business, campaign_id: id, creator });
    assert(t.campaigns == s.campaigns);
    law_submitting_is_decided(t, creator, id, proof_uri);
    reveal(EscrowState::reviewed);
    lemma_own_key(s, Call::RejectSubmission { business, campaign_id: id, creator });
}

/// A payout is frozen exactly when the contract runs and is set up, the caller
/// is the dispute contract or the admin, the campaign was not cancelled, and
/// the creator is owed a payout that is not frozen already. Neither time nor
/// the state of the proof matters.
pub proof fn law_freezing_is_decided(
    s: EscrowState,
    caller: Address,
    id: CampaignId,
    creator: Address,
)
    ensures
        ({
            let r = s.refusal(Call::FreezeForDispute { caller, campaign_id: id, creator });
            let c = s.campaigns[id];
            let a = s.applications[(id, creator)];
            let running = s.paused != Some(true);
            let set_up = running && s.dispute_contract is Some && (s.admin is Some
                || s.dispute_contract == Some(caller));
            let entitled = set_up && (s.dispute_contract == Some(caller) || s.admin == Some(
                caller,
            ));
            let known = entitled && s.campaigns.contains_key(id);
            let standing = known && c.status != CampaignStatus::Cancelled;
            let applied = standing && s.applications.contains_key((id, creator));
            let free = applied && !a.frozen;
            let accepted = free && a.status != ApplicationStatus::Paid && a.payout_amount > 0;
            &&& r is None <==> accepted
            &&& r == Some(Error::ContractPaused) <==> !running
            &&& r == Some(Error::NotInitialized) <==> running && !set_up
            &&& r == Some(Error::Unauthorized) <==> set_up && !entitled
            &&& r == Some(Error::CampaignNotFound) <==> entitled && !known
            &&& r == Some(Error::InvalidStatus) <==> known && !standing
            &&& r == Some(Error::ApplicationNotFound) <==> standing && !applied
            &&& r == Some(Error::PayoutFrozen) <==> applied && !free
            &&& r == Some(Error::SubmissionNotPayable) <==> free && !accepted
        }),
{
}

/// A freeze marks the one application and the moment at which it came, and
/// changes nothing else: no funds move, the proof and the payout stay.
pub proof fn law_freezing_marks_the_payout(
    s: EscrowState,
    caller: Address,
    id: CampaignId,
    creator: Address,
)
    requires
        s.sound(),
        s.refusal(Call::FreezeForDispute { caller, campaign_id: id, creator }) is None,
    ensures
        ({
            let t = s.after(Call::FreezeForDispute { caller, campaign_id: id, creator });
            let a = s.applications[(id, creator)];
            let b = t.applications[(id, creator)];
            &&& b.frozen
            &&& b.dispute_opened_at == Some(s.now)
            &&& b == (Application {
                frozen: b.frozen,
                dispute_opened_at: b.dispute_opened_at,
                ..a
            })
            &&& t.applications == s.applications.insert((id, creator), b)
            &&& t.log == s.log + seq![Effect::RequireAuth(caller)] + saving(
                DataKey::Application(id, creator),
            ) + seq![
                Effect::Publish(
                    Event::DisputeFrozen(DisputeFrozen { campaign_id: id, creator }),
                ),
            ]
            &&& t == (EscrowState { applications: t.applications, log: t.log, ..s })
        }),
{
    reveal(EscrowState::reviewed);
    lemma_own_key(s, Call::FreezeForDispute { caller, campaign_id: id, creator });
    let t = s.froze(caller, id, creator);
    assert(t.log =~= s.log + seq![Effect::RequireAuth(caller)] + saving(
        DataKey::Application(id, creator),
    ) + seq![Effect::Publish(Event::DisputeFrozen(DisputeFrozen { campaign_id: id, creator }))]);
}

} // verus!
