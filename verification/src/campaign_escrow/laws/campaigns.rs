//! Laws on campaigns and applications over their lives.
use vstd::prelude::*;

use crate::campaign_escrow::calls::{possible, run, Call, Step};
use crate::campaign_escrow::contract::EMERGENCY_RECOVERY_GRACE_PERIOD;
use crate::campaign_escrow::env::{Effect, EscrowState};
use crate::campaign_escrow::laws::books::{
    law_other_applications_untouched, law_other_campaigns_untouched, law_runs_keep_sound,
    law_time_keeps_sound, lemma_owed_is_committed, lemma_own_key,
};
use crate::campaign_escrow::laws::frame::law_settings_and_records_are_apart;
use crate::campaign_escrow::laws::log::law_accepted_is_announced;
use crate::campaign_escrow::storage::DataKey;
use crate::campaign_escrow::types::Campaign;
use crate::shared::{Address, ApplicationStatus, CampaignId, CampaignStatus, PayoutAsset};

verus! {

impl Campaign {
    /// Whether two campaigns have the same owner and the same terms.
    pub open spec fn same_terms(self, other: Campaign) -> bool {
        &&& self.id == other.id
        &&& self.business == other.business
        &&& self.asset == other.asset
        &&& self.total_budget == other.total_budget
        &&& self.fee_bps == other.fee_bps
        &&& self.max_creators == other.max_creators
        &&& self.application_deadline == other.application_deadline
        &&& self.completion_deadline == other.completion_deadline
    }
}

/// Whether a campaign may go from one status to another in one call.
pub open spec fn campaign_step(from: CampaignStatus, to: CampaignStatus) -> bool {
    from == to || match from {
        CampaignStatus::Draft => to == CampaignStatus::Funded || to == CampaignStatus::Cancelled
            || to == CampaignStatus::Completed,
        CampaignStatus::Funded => to == CampaignStatus::Active || to == CampaignStatus::Cancelled
            || to == CampaignStatus::Completed,
        CampaignStatus::Active => to == CampaignStatus::Cancelled || to
            == CampaignStatus::Completed,
        CampaignStatus::Cancelled => to == CampaignStatus::Completed,
        CampaignStatus::Completed => false,
        CampaignStatus::Disputed => false,
    }
}

/// Whether an application may go from one status to another in one call.
pub open spec fn application_step(from: ApplicationStatus, to: ApplicationStatus) -> bool {
    from == to || match from {
        ApplicationStatus::Pending => to == ApplicationStatus::Approved,
        ApplicationStatus::Approved => to == ApplicationStatus::ProofSubmitted || to
            == ApplicationStatus::Paid,
        ApplicationStatus::ProofSubmitted => to == ApplicationStatus::Rejected || to
            == ApplicationStatus::Paid,
        ApplicationStatus::Rejected => to == ApplicationStatus::ProofSubmitted || to
            == ApplicationStatus::Paid,
        ApplicationStatus::Paid => false,
    }
}

/// A campaign is never lost, and its owner, its terms and its fee never
/// change: a later change of the platform fee does not reach it. Its status
/// only moves forward.
pub proof fn law_terms_are_fixed(s: EscrowState, call: Call, id: CampaignId)
    requires
        s.sound(),
        s.campaigns.contains_key(id),
    ensures
        s.after(call).campaigns.contains_key(id),
        s.after(call).campaigns[id].same_terms(s.campaigns[id]),
        campaign_step(s.campaigns[id].status, s.after(call).campaigns[id].status),
{
    if call.campaign() != Some(id) {
        assert(s.campaign_sound(id));
        law_other_campaigns_untouched(s, call, id);
    } else if call is ClaimPayment || call is ResolveDispute {
        lemma_settling_keeps_terms(s, call);
    } else {
        lemma_other_calls_keep_terms(s, call);
    }
}

proof fn lemma_settling_keeps_terms(s: EscrowState, call: Call)
    requires
        s.sound(),
        call is ClaimPayment || call is ResolveDispute,
        s.campaigns.contains_key(call.campaign()->0),
    ensures
        ({
            let id = call.campaign()->0;
            let t = s.after(call);
            &&& t.campaigns.contains_key(id)
            &&& t.campaigns[id].same_terms(s.campaigns[id])
            &&& campaign_step(s.campaigns[id].status, t.campaigns[id].status)
        }),
{
    reveal(EscrowState::settled);
    lemma_own_key(s, call);
    if s.refusal(call) is None {
        lemma_owed_is_committed(s, call.application()->0);
    }
}

proof fn lemma_other_calls_keep_terms(s: EscrowState, call: Call)
    requires
        s.sound(),
        !(call is ClaimPayment),
        !(call is ResolveDispute),
        call.campaign() is Some,
        s.campaigns.contains_key(call.campaign()->0),
    ensures
        ({
            let id = call.campaign()->0;
            let t = s.after(call);
            &&& t.campaigns.contains_key(id)
            &&& t.campaigns[id].same_terms(s.campaigns[id])
            &&& campaign_step(s.campaigns[id].status, t.campaigns[id].status)
        }),
{
    if call.recruits() {
        reveal(EscrowState::recruited);
    } else if call.reviews() {
        reveal(EscrowState::reviewed);
    } else if call.refunds() {
        reveal(EscrowState::refunded);
    }
    lemma_own_key(s, call);
}

/// A new campaign gets a number that no campaign has had, and the fee of the
/// moment.
pub proof fn law_new_campaign_is_fresh(s: EscrowState, call: Call)
    requires
        s.sound(),
        s.countable(call),
        call is CreateCampaign,
        s.refusal(call) is None,
    ensures
        !s.campaigns.contains_key(s.next_id()),
        s.after(call).campaigns.contains_key(s.next_id()),
        s.after(call).campaigns[s.next_id()].fee_bps == s.fee_bps->0,
        s.after(call).campaigns[s.next_id()].business == call.actor(),
        s.after(call).campaigns[s.next_id()].status == CampaignStatus::Draft,
        s.after(call).next_id() == s.next_id() + 1,
{
    reveal(EscrowState::recruited);
    if s.campaigns.contains_key(s.next_id()) {
        assert(s.campaign_sound(s.next_id()));
    }
}

/// A campaign has applicants exactly when there is an application to it.
pub proof fn law_applicants_are_counted(s: EscrowState, id: CampaignId)
    requires
        s.sound(),
    ensures
        s.applicant_count(id) > 0 <==> exists|creator: Address|
            s.applications.contains_key((id, creator)),
{
    if s.applicant_count(id) > 0 {
        assert(s.applicants.contains_key((id, 0u32)));
        assert(s.applications.contains_key((id, s.applicants[(id, 0u32)])));
    }
}

/// Once a creator has applied, the brief is locked for good.
pub proof fn law_brief_is_locked(s: EscrowState, call: Call, id: CampaignId)
    requires
        s.sound(),
        s.countable(call),
        s.campaigns.contains_key(id),
        s.applicant_count(id) > 0,
    ensures
        s.after(call).campaigns[id].metadata_uri == s.campaigns[id].metadata_uri,
        s.after(call).applicant_count(id) >= s.applicant_count(id),
{
    if call.campaign() == Some(id) {
        lemma_own_key(s, call);
        if call.recruits() {
            reveal(EscrowState::recruited);
        } else if call.reviews() {
            reveal(EscrowState::reviewed);
        } else if call.refunds() {
            reveal(EscrowState::refunded);
        } else if call.settles() {
            reveal(EscrowState::settled);
        }
    } else {
        law_other_campaigns_untouched(s, call, id);
    }
    law_applicants_only_grow(s, call, id);
}

/// The brief is changed only by the business that owns the campaign.
pub proof fn law_only_owner_changes_brief(s: EscrowState, call: Call, id: CampaignId)
    requires
        s.sound(),
        s.campaigns.contains_key(id),
        s.after(call).campaigns[id].metadata_uri != s.campaigns[id].metadata_uri,
    ensures
        call is UpdateCampaignMetadata,
        s.campaigns[id].business == call.actor(),
{
    assert(s.campaign_sound(id));
    if call.campaign() == Some(id) {
        lemma_own_key(s, call);
        if call.recruits() {
            reveal(EscrowState::recruited);
        } else if call.reviews() {
            reveal(EscrowState::reviewed);
        } else if call.refunds() {
            reveal(EscrowState::refunded);
        } else if call.settles() {
            reveal(EscrowState::settled);
        }
    } else {
        law_other_campaigns_untouched(s, call, id);
    }
}

/// An application is never lost. Who applied, and with what pitch, never
/// changes; the payout is agreed once, on selection. Its status moves only
/// along the review.
pub proof fn law_applications_are_kept(s: EscrowState, call: Call, key: (CampaignId, Address))
    requires
        s.sound(),
        s.applications.contains_key(key),
    ensures
        ({
            let a = s.applications[key];
            let b = s.after(call).applications[key];
            &&& s.after(call).applications.contains_key(key)
            &&& b.campaign_id == a.campaign_id
            &&& b.creator == a.creator
            &&& b.pitch_uri == a.pitch_uri
            &&& a.selected() ==> b.payout_amount == a.payout_amount
            &&& application_step(a.status, b.status)
        }),
{
    assert(s.application_sound(key));
    if call.application() != Some(key) {
        law_other_applications_untouched(s, call, key);
    } else {
        if call.recruits() {
            reveal(EscrowState::recruited);
        } else if call.reviews() {
            reveal(EscrowState::reviewed);
        } else if call.settles() {
            reveal(EscrowState::settled);
        }
    }
}

/// A creator applies to a campaign at most once.
pub proof fn law_one_application_each(s: EscrowState, call: Call)
    requires
        call is ApplyToCampaign,
        s.applications.contains_key(call.application()->0),
    ensures
        s.refusal(call) is Some,
{
}

/// Applicants are never taken off a campaign's list.
pub proof fn law_applicants_only_grow(s: EscrowState, call: Call, id: CampaignId)
    requires
        s.countable(call),
    ensures
        s.after(call).applicant_count(id) >= s.applicant_count(id),
        forall|i: u32|
            i < s.applicant_count(id) ==> #[trigger] s.after(call).applicants[(id, i)]
                == s.applicants[(id, i)],
{
    reveal(EscrowState::recruited);
    law_settings_and_records_are_apart(s, call);
}

/// A new applicant gets the next place in the order of application.
pub proof fn law_applicants_keep_their_order(s: EscrowState, call: Call)
    requires
        s.countable(call),
        call is ApplyToCampaign,
        s.refusal(call) is None,
    ensures
        ({
            let (id, creator) = call.application()->0;
            let count = s.applicant_count(id);
            &&& s.after(call).applicant_count(id) == count + 1
            &&& s.after(call).applicants[(id, count)] == creator
        }),
{
    reveal(EscrowState::recruited);
}

/// How many entries a log writes.
pub open spec fn writes(log: Seq<Effect>) -> nat
    decreases log.len(),
{
    if log.len() == 0 {
        0
    } else {
        writes(log.drop_last()) + (if log.last() is Write {
            1nat
        } else {
            0
        })
    }
}

pub broadcast proof fn lemma_writes_push(log: Seq<Effect>, effect: Effect)
    ensures
        #[trigger] writes(log.push(effect)) == writes(log) + (if effect is Write {
            1nat
        } else {
            0
        }),
{
    assert(log.push(effect).drop_last() =~= log);
}

/// Applying writes the same entries, however many have applied before: the
/// application, its place in the order, and the count. None of them lists the
/// other applicants.
pub proof fn law_applying_costs_the_same(s: EscrowState, call: Call)
    requires
        call is ApplyToCampaign,
        s.refusal(call) is None,
    ensures
        writes(s.after(call).log) == writes(s.log) + 3,
        forall|i: int|
            s.log.len() <= i < s.after(call).log.len() && (
            #[trigger] s.after(call).log[i]) is Write ==> {
                let (id, creator) = call.application()->0;
                let key = s.after(call).log[i]->Write_0;
                ||| key == DataKey::Application(id, creator)
                ||| key == DataKey::CampaignApplicant(id, s.applicant_count(id))
                ||| key == DataKey::ApplicantCount(id)
            },
{
    reveal(EscrowState::recruited);
    broadcast use lemma_writes_push;

}

/// Every change of a campaign's or an application's status is accompanied by
/// an event, the last request of the call.
pub proof fn law_status_changes_are_published(
    s: EscrowState,
    call: Call,
    key: (CampaignId, Address),
)
    requires
        s.sound(),
        s.after(call).campaigns.contains_key(key.0) != s.campaigns.contains_key(key.0)
            || s.after(call).campaigns[key.0].status != s.campaigns[key.0].status
            || s.after(call).applications.contains_key(key) != s.applications.contains_key(key)
            || s.after(call).applications[key].status != s.applications[key].status,
    ensures
        s.after(call).log.len() > s.log.len(),
        s.after(call).log.last() is Publish,
{
    lemma_own_key(s, call);
    law_settings_and_records_are_apart(s, call);
    if s.refusal(call) is None && call.announces() {
        law_accepted_is_announced(s, call);
    } else {
        reveal(EscrowState::reviewed);
    }
}

impl Campaign {
    /// The campaign with its asset under another display name.
    pub open spec fn renamed(self, symbol: String) -> Campaign {
        Campaign { asset: PayoutAsset { symbol, ..self.asset }, ..self }
    }
}

impl EscrowState {
    /// The state with the asset of one campaign under another display name.
    pub open spec fn with_symbol(self, id: CampaignId, symbol: String) -> EscrowState {
        EscrowState {
            campaigns: self.campaigns.insert(id, self.campaigns[id].renamed(symbol)),
            ..self
        }
    }
}

#[verifier::rlimit(40)]
proof fn lemma_symbol_does_not_refuse(
    s: EscrowState,
    call: Call,
    id: CampaignId,
    symbol: String,
)
    requires
        s.campaigns.contains_key(id),
    ensures
        s.with_symbol(id, symbol).refusal(call) == s.refusal(call),
{
    let t = s.with_symbol(id, symbol);
    if let Some(looked_up) = call.campaign() {
        let c = s.campaigns[looked_up];
        let d = t.campaigns[looked_up];
        assert(d.same_terms(Campaign { asset: d.asset, ..c }));
        assert(d.status == c.status && d.escrow_balance == c.escrow_balance);
        assert(d.committed_payouts == c.committed_payouts);
        assert(d.approved_count == c.approved_count);
        assert(t.campaigns.contains_key(looked_up) == s.campaigns.contains_key(looked_up));
        if call is ResolveDispute || call is ClaimPayment {
            assert(t.refusal(call) == s.refusal(call));
        }
    }
}

proof fn lemma_symbol_in_settings(
    s: EscrowState,
    call: Call,
    id: CampaignId,
    symbol: String,
)
    requires
        s.sound(),
        s.campaigns.contains_key(id),
        s.refusal(call) is None,
        call.administrative(),
    ensures
        s.with_symbol(id, symbol).accepted(call) == s.accepted(call).with_symbol(id, symbol),
{
    reveal(EscrowState::administered);
    assert(s.campaign_sound(id));
    lemma_own_key(s, call);
    let t = s.with_symbol(id, symbol).accepted(call);
    let u = s.accepted(call).with_symbol(id, symbol);
    assert(t.log == u.log);
    assert(t == u);
}

proof fn lemma_symbol_in_recruiting(
    s: EscrowState,
    call: Call,
    id: CampaignId,
    symbol: String,
)
    requires
        s.sound(),
        s.campaigns.contains_key(id),
        s.refusal(call) is None,
        call.recruits(),
    ensures
        s.with_symbol(id, symbol).accepted(call) == s.accepted(call).with_symbol(id, symbol),
{
    reveal(EscrowState::recruited);
    assert(s.campaign_sound(id));
    lemma_own_key(s, call);
    let t = s.with_symbol(id, symbol).accepted(call);
    let u = s.accepted(call).with_symbol(id, symbol);
    assert(t.campaigns =~= u.campaigns);
    assert(t.log == u.log);
    assert(t == u);
}

proof fn lemma_symbol_in_review(
    s: EscrowState,
    call: Call,
    id: CampaignId,
    symbol: String,
)
    requires
        s.sound(),
        s.campaigns.contains_key(id),
        s.refusal(call) is None,
        call.reviews(),
    ensures
        s.with_symbol(id, symbol).accepted(call) == s.accepted(call).with_symbol(id, symbol),
{
    reveal(EscrowState::reviewed);
    assert(s.campaign_sound(id));
    lemma_own_key(s, call);
    let t = s.with_symbol(id, symbol).accepted(call);
    let u = s.accepted(call).with_symbol(id, symbol);
    assert(t.log == u.log);
    assert(t == u);
}

proof fn lemma_symbol_in_refunds(
    s: EscrowState,
    call: Call,
    id: CampaignId,
    symbol: String,
)
    requires
        s.sound(),
        s.campaigns.contains_key(id),
        s.refusal(call) is None,
        call.refunds(),
    ensures
        s.with_symbol(id, symbol).accepted(call) == s.accepted(call).with_symbol(id, symbol),
{
    reveal(EscrowState::refunded);
    assert(s.campaign_sound(id));
    lemma_own_key(s, call);
    let t = s.with_symbol(id, symbol).accepted(call);
    let u = s.accepted(call).with_symbol(id, symbol);
    assert(t.campaigns =~= u.campaigns);
    assert(t.log == u.log);
    assert(t == u);
}

proof fn lemma_symbol_in_settling(
    s: EscrowState,
    call: Call,
    id: CampaignId,
    symbol: String,
)
    requires
        s.sound(),
        s.campaigns.contains_key(id),
        s.refusal(call) is None,
        call.settles(),
    ensures
        s.with_symbol(id, symbol).accepted(call) == s.accepted(call).with_symbol(id, symbol),
{
    reveal(EscrowState::settled);
    assert(s.campaign_sound(id));
    lemma_own_key(s, call);
    let t = s.with_symbol(id, symbol).accepted(call);
    let u = s.accepted(call).with_symbol(id, symbol);
    assert(t.campaigns =~= u.campaigns);
    assert(t.log == u.log);
    assert(t == u);
}

/// The name of an asset is for display: under another name every call is
/// decided the same way, requests the same, and leaves the same behind but for
/// the name.
pub proof fn law_symbol_is_for_display(
    s: EscrowState,
    call: Call,
    id: CampaignId,
    symbol: String,
)
    requires
        s.sound(),
        s.campaigns.contains_key(id),
    ensures
        s.with_symbol(id, symbol).refusal(call) == s.refusal(call),
        s.with_symbol(id, symbol).after(call) == s.after(call).with_symbol(id, symbol),
{
    lemma_symbol_does_not_refuse(s, call, id, symbol);
    if s.refusal(call) is None {
        if call.administrative() {
            lemma_symbol_in_settings(s, call, id, symbol);
        } else if call.recruits() {
            lemma_symbol_in_recruiting(s, call, id, symbol);
        } else if call.reviews() {
            lemma_symbol_in_review(s, call, id, symbol);
        } else if call.refunds() {
            lemma_symbol_in_refunds(s, call, id, symbol);
        } else {
            lemma_symbol_in_settling(s, call, id, symbol);
        }
    }
}

/// The same over any series of calls.
pub proof fn law_symbol_is_for_display_throughout(
    start: EscrowState,
    steps: Seq<Step>,
    id: CampaignId,
    symbol: String,
)
    requires
        start.sound(),
        start.campaigns.contains_key(id),
        possible(start, steps),
    ensures
        run(start, steps).campaigns.contains_key(id),
        run(start.with_symbol(id, symbol), steps) == run(start, steps).with_symbol(id, symbol),
    decreases steps.len(),
{
    if steps.len() > 0 {
        let step = steps.last();
        let earlier = run(start, steps.drop_last());
        let moment = earlier.at(step.now, step.tokens);
        law_symbol_is_for_display_throughout(start, steps.drop_last(), id, symbol);
        law_runs_keep_sound(start, steps.drop_last());
        law_time_keeps_sound(earlier, step.now, step.tokens);
        law_terms_are_fixed(moment, step.call, id);
        law_symbol_is_for_display(moment, step.call, id, symbol);
    }
}

/// Nor does the name matter when a campaign is opened.
pub proof fn law_symbol_does_not_decide(
    s: EscrowState,
    business: Address,
    asset: PayoutAsset,
    symbol: String,
    total_budget: i128,
    max_creators: u32,
    application_deadline: u64,
    completion_deadline: u64,
    metadata_uri: String,
)
    ensures
        ({
            let call = Call::CreateCampaign {
                business,
                asset,
                total_budget,
                max_creators,
                application_deadline,
                completion_deadline,
                metadata_uri,
            };
            let renamed = Call::CreateCampaign {
                business,
                asset: PayoutAsset { symbol, ..asset },
                total_budget,
                max_creators,
                application_deadline,
                completion_deadline,
                metadata_uri,
            };
            &&& s.refusal(renamed) == s.refusal(call)
            &&& s.refusal(call) is Some ==> s.after(renamed) == s.after(call)
            &&& s.refusal(call) is None ==> s.after(renamed) == s.after(call).with_symbol(
                s.next_id(),
                symbol,
            )
        }),
{
    reveal(EscrowState::recruited);
}

/// Emergency recovery is open only where expiry has been open to the business
/// for months.
pub proof fn law_recovery_is_harder_than_expiry(s: EscrowState, admin: Address, id: CampaignId)
    requires
        s.refusal(Call::EmergencyRecoverCampaign { admin, campaign_id: id }) is None,
    ensures
        s.now > s.campaigns[id].completion_deadline + EMERGENCY_RECOVERY_GRACE_PERIOD,
        s.refusal(
            Call::ExpireCampaign { business: s.campaigns[id].business, campaign_id: id },
        ) is None,
{
}

} // verus!
