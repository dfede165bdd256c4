//! Laws on the way of a selected creator from their proof to their payout:
//! what others do does not close it.
use vstd::prelude::*;

use crate::campaign_escrow::calls::Call;
use crate::campaign_escrow::env::{Effect, EscrowState};
use crate::campaign_escrow::laws::books::{
    law_calls_keep_sound, law_other_applications_untouched, law_other_campaigns_untouched,
    law_time_keeps_sound,
};
use crate::campaign_escrow::laws::campaigns::law_terms_are_fixed;
use crate::campaign_escrow::laws::frame::law_settings_and_records_are_apart;
use crate::campaign_escrow::laws::review::{
    law_accepting_approves_the_proof, law_accepting_is_decided, law_rejecting_is_decided,
    law_submitting_is_decided, law_submitting_records_the_proof,
};
use crate::campaign_escrow::laws::settings::law_refusal_has_asked_at_most;
use crate::campaign_escrow::laws::settling::law_claiming_is_decided;
use crate::shared::{Address, ApplicationStatus, CampaignId};

verus! {

/// Time decides on new campaigns, applications, proofs and their rejection,
/// claims, expiry, recovery and settlements. Every other call is decided the
/// same way at every moment: a creator who applied in time can be selected
/// after applications have closed, and a proof can be accepted at any time.
pub proof fn law_other_calls_ignore_time(
    s: EscrowState,
    call: Call,
    now: u64,
    tokens: Seq<Address>,
)
    requires
        !(call is CreateCampaign),
        !(call is ApplyToCampaign),
        !(call is SubmitProof),
        !(call is RejectSubmission),
        !(call is ClaimPayment),
        !(call is ExpireCampaign),
        !(call is EmergencyRecoverCampaign),
        !(call is ResolveDispute),
    ensures
        s.at(now, tokens).refusal(call) == s.refusal(call),
{
}

proof fn lemma_mine_is_kept(s: EscrowState, call: Call, key: (CampaignId, Address))
    requires
        s.sound(),
        s.countable(call),
        s.applications.contains_key(key),
        call.application() != Some(key),
        !(call is Pause),
        s.paused != Some(true),
    ensures
        ({
            let t = s.after(call);
            &&& t.sound()
            &&& t.paused != Some(true)
            &&& t.now == s.now
            &&& t.applications.contains_key(key)
            &&& t.applications[key] == s.applications[key]
            &&& t.campaigns.contains_key(key.0)
            &&& t.campaigns[key.0].business == s.campaigns[key.0].business
            &&& t.campaigns[key.0].fee_bps == s.campaigns[key.0].fee_bps
            &&& t.campaigns[key.0].completion_deadline == s.campaigns[key.0].completion_deadline
        }),
{
    assert(s.application_sound(key));
    law_calls_keep_sound(s, call);
    law_other_applications_untouched(s, call, key);
    law_terms_are_fixed(s, call, key.0);
    law_settings_and_records_are_apart(s, call);
    reveal(EscrowState::administered);
}

/// A creator who may submit a proof still may after any call that is not about
/// their own application, unless it pauses the contract: a refund, the end of
/// the campaign, or the selection and payment of others does not lock them
/// out.
pub proof fn law_others_keep_submissions_open(
    s: EscrowState,
    call: Call,
    creator: Address,
    id: CampaignId,
    proof_uri: String,
)
    requires
        s.sound(),
        s.countable(call),
        s.refusal(Call::SubmitProof { creator, campaign_id: id, proof_uri }) is None,
        call.application() != Some((id, creator)),
        !(call is Pause),
    ensures
        s.after(call).refusal(Call::SubmitProof { creator, campaign_id: id, proof_uri }) is None,
{
    law_submitting_is_decided(s, creator, id, proof_uri);
    lemma_mine_is_kept(s, call, (id, creator));
    law_submitting_is_decided(s.after(call), creator, id, proof_uri);
}

/// The review of a proof, too, stays open whatever is done that is not about
/// the application itself, unless the contract is paused.
pub proof fn law_others_keep_reviews_open(
    s: EscrowState,
    call: Call,
    business: Address,
    id: CampaignId,
    creator: Address,
)
    requires
        s.sound(),
        s.countable(call),
        call.application() != Some((id, creator)),
        !(call is Pause),
    ensures
        ({
            let accept = Call::ApproveSubmission { business, campaign_id: id, creator };
            let reject = Call::RejectSubmission { business, campaign_id: id, creator };
            &&& s.refusal(accept) is None ==> s.after(call).refusal(accept) is None
            &&& s.refusal(reject) is None ==> s.after(call).refusal(reject) is None
        }),
{
    law_accepting_is_decided(s, business, id, creator);
    law_rejecting_is_decided(s, business, id, creator);
    law_accepting_is_decided(s.after(call), business, id, creator);
    law_rejecting_is_decided(s.after(call), business, id, creator);
    if s.paused != Some(true) && s.applications.contains_key((id, creator)) {
        lemma_mine_is_kept(s, call, (id, creator));
    }
}

/// A payout that can be claimed still can after any call that is not about it,
/// unless it pauses the contract: creators do not compete for the escrow, and
/// a refund leaves them theirs.
pub proof fn law_others_keep_claims_open(
    s: EscrowState,
    call: Call,
    creator: Address,
    id: CampaignId,
)
    requires
        s.sound(),
        s.countable(call),
        s.refusal(Call::ClaimPayment { creator, campaign_id: id }) is None,
        call.application() != Some((id, creator)),
        !(call is Pause),
    ensures
        s.after(call).refusal(Call::ClaimPayment { creator, campaign_id: id }) is None,
{
    law_claiming_is_decided(s, creator, id);
    lemma_mine_is_kept(s, call, (id, creator));
    law_claiming_is_decided(s.after(call), creator, id);
}

/// A selected creator gets to their payout in three calls: they submit a proof
/// up to the content deadline, the business accepts it, and they claim, at
/// once or at any later time, whatever became of the campaign.
pub proof fn law_accepted_delivery_is_paid(
    s: EscrowState,
    creator: Address,
    id: CampaignId,
    proof_uri: String,
    now: u64,
    tokens: Seq<Address>,
)
    requires
        s.sound(),
        s.paused != Some(true),
        s.applications.contains_key((id, creator)),
        s.applications[(id, creator)].status == ApplicationStatus::Approved
            || s.applications[(id, creator)].status == ApplicationStatus::Rejected,
        !s.applications[(id, creator)].frozen,
        s.applications[(id, creator)].payout_amount * s.campaigns[id].fee_bps <= i128::MAX,
        s.now <= s.campaigns[id].completion_deadline,
        s.now <= now,
    ensures
        ({
            let business = s.campaigns[id].business;
            let submit = Call::SubmitProof { creator, campaign_id: id, proof_uri };
            let accept = Call::ApproveSubmission { business, campaign_id: id, creator };
            let claim = Call::ClaimPayment { creator, campaign_id: id };
            let delivered = s.after(submit);
            let approved = delivered.after(accept);
            &&& s.refusal(submit) is None
            &&& delivered.refusal(accept) is None
            &&& approved.at(now, tokens).refusal(claim) is None
        }),
{
    let business = s.campaigns[id].business;
    let submit = Call::SubmitProof { creator, campaign_id: id, proof_uri };
    let accept = Call::ApproveSubmission { business, campaign_id: id, creator };
    assert(s.application_sound((id, creator)));
    law_submitting_is_decided(s, creator, id, proof_uri);
    law_submitting_records_the_proof(s, creator, id, proof_uri);
    law_calls_keep_sound(s, submit);
    let delivered = s.after(submit);
    assert(delivered.campaigns == s.campaigns);
    law_accepting_is_decided(delivered, business, id, creator);
    law_accepting_approves_the_proof(delivered, business, id, creator);
    law_calls_keep_sound(delivered, accept);
    let approved = delivered.after(accept);
    assert(approved.campaigns == s.campaigns);
    law_time_keeps_sound(approved, now, tokens);
    law_claiming_is_decided(approved.at(now, tokens), creator, id);
}

/// Where the business leaves the proof unanswered, the creator can claim as
/// soon as the content deadline has passed.
pub proof fn law_unanswered_delivery_is_paid(
    s: EscrowState,
    creator: Address,
    id: CampaignId,
    proof_uri: String,
    now: u64,
    tokens: Seq<Address>,
)
    requires
        s.sound(),
        s.refusal(Call::SubmitProof { creator, campaign_id: id, proof_uri }) is None,
        s.applications[(id, creator)].payout_amount * s.campaigns[id].fee_bps <= i128::MAX,
        now > s.campaigns[id].completion_deadline,
    ensures
        s.after(Call::SubmitProof { creator, campaign_id: id, proof_uri }).at(
            now,
            tokens,
        ).refusal(Call::ClaimPayment { creator, campaign_id: id }) is None,
{
    let submit = Call::SubmitProof { creator, campaign_id: id, proof_uri };
    law_submitting_is_decided(s, creator, id, proof_uri);
    law_submitting_records_the_proof(s, creator, id, proof_uri);
    law_calls_keep_sound(s, submit);
    let delivered = s.after(submit);
    assert(delivered.campaigns == s.campaigns);
    law_time_keeps_sound(delivered, now, tokens);
    law_claiming_is_decided(delivered.at(now, tokens), creator, id);
}

proof fn lemma_other_applicants_kept(s: EscrowState, call: Call, id: CampaignId)
    requires
        call.campaign() != Some(id),
    ensures
        s.after(call).applicant_count(id) == s.applicant_count(id),
{
    law_settings_and_records_are_apart(s, call);
    if call is ApplyToCampaign {
        reveal(EscrowState::recruited);
    }
}

/// What is done on one campaign decides nothing on another: every call about
/// the other is accepted, or refused for the same reason, as before.
pub proof fn law_campaigns_are_independent(s: EscrowState, call: Call, other: Call)
    requires
        s.sound(),
        call.campaign() is Some,
        other.campaign() is Some,
        call.campaign() != other.campaign(),
    ensures
        s.after(call).refusal(other) == s.refusal(other),
{
    let id = other.campaign()->0;
    let t = s.after(call);
    law_settings_and_records_are_apart(s, call);
    law_other_campaigns_untouched(s, call, id);
    lemma_other_applicants_kept(s, call, id);
    if let Some(key) = other.application() {
        law_other_applications_untouched(s, call, key);
        assert(t.applications[key] == s.applications[key]);
    }
    assert(t.campaigns[id] == s.campaigns[id]);
}

/// What was asked of the host before decides nothing.
proof fn lemma_log_decides_nothing(s: EscrowState, log: Seq<Effect>, next: Call)
    ensures
        (EscrowState { log, ..s }).refusal(next) == s.refusal(next),
{
    let t = EscrowState { log, ..s };
    // One kind of call at a time.
    if next.settles() {
        assert(t.refusal(next) == s.refusal(next));
    } else if next.administrative() {
        assert(t.refusal(next) == s.refusal(next));
    } else if next.recruits() {
        assert(t.refusal(next) == s.refusal(next));
    }
}

/// A call that is refused decides nothing: the next is answered as if it had
/// not been made.
pub proof fn law_refusals_leave_no_trace(s: EscrowState, call: Call, next: Call)
    requires
        s.refusal(call) is Some,
    ensures
        s.after(call).refusal(next) == s.refusal(next),
{
    law_refusal_has_asked_at_most(s, call);
    lemma_log_decides_nothing(s, s.after(call).log, next);
}

} // verus!
