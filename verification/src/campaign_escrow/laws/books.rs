//! The escrow's books: what the recorded amounts have to do with each other,
//! after any series of calls.
use vstd::prelude::*;

use crate::campaign_escrow::calls::{possible, run, Call, Step};
use crate::campaign_escrow::env::{Effect, EscrowState};
use crate::campaign_escrow::events::{DisputeFrozen, Event};
use crate::campaign_escrow::laws::frame::law_settings_and_records_are_apart;
use crate::campaign_escrow::laws::log::{continues, law_log_grows};
use crate::campaign_escrow::totals::{lemma_total_at_least, lemma_total_insert, total};
use crate::campaign_escrow::types::{Application, Campaign};
use crate::shared::{
    Address, ApplicationStatus, CampaignId, CampaignStatus, BASIS_POINTS_DENOMINATOR,
};

verus! {

impl Application {
    /// Whether the business has selected the creator.
    pub open spec fn selected(self) -> bool {
        self.status != ApplicationStatus::Pending
    }

    /// What the creator was promised and has not been paid.
    pub open spec fn owed(self) -> int {
        if self.status == ApplicationStatus::Paid {
            0
        } else {
            self.payout_amount as int
        }
    }

    /// Whether the parts of an application agree with each other at time `now`.
    pub open spec fn sound(self, now: u64) -> bool {
        &&& self.selected() ==> self.payout_amount > 0
        &&& !self.selected() ==> self.payout_amount == 0
        &&& self.frozen == (self.dispute_opened_at is Some)
        &&& self.frozen ==> self.owed() > 0 && self.dispute_opened_at->0 <= now
        &&& self.proof_approved ==> self.status == ApplicationStatus::ProofSubmitted || self.status
            == ApplicationStatus::Paid
        &&& match self.status {
            ApplicationStatus::ProofSubmitted => self.proof_uri is Some,
            ApplicationStatus::Paid => true,
            _ => self.proof_uri is None,
        }
    }
}

impl Campaign {
    /// Whether the parts of a campaign agree with each other.
    pub open spec fn sound(self) -> bool {
        &&& 0 <= self.committed_payouts <= self.escrow_balance <= self.total_budget
        &&& 0 < self.total_budget
        &&& 0 <= self.fee_bps <= BASIS_POINTS_DENOMINATOR
        &&& self.approved_count <= self.max_creators
        &&& 0 < self.max_creators
        &&& self.application_deadline < self.completion_deadline
        &&& match self.status {
            CampaignStatus::Draft => self.escrow_balance == 0 && self.approved_count == 0,
            CampaignStatus::Funded => self.escrow_balance == self.total_budget
                && self.committed_payouts == 0 && self.approved_count == 0,
            CampaignStatus::Active => self.escrow_balance > 0 && self.approved_count > 0,
            CampaignStatus::Completed => self.escrow_balance == 0,
            CampaignStatus::Cancelled => self.escrow_balance == self.committed_payouts,
            CampaignStatus::Disputed => false,
        }
    }
}

/// What an application adds to the payouts promised on a campaign.
pub open spec fn owed_on(campaign_id: CampaignId) -> spec_fn(
    (CampaignId, Address),
    Application,
) -> int {
    |key: (CampaignId, Address), a: Application|
        if key.0 == campaign_id {
            a.owed()
        } else {
            0
        }
}

/// What an application adds to the creators selected on a campaign.
pub open spec fn selected_on(campaign_id: CampaignId) -> spec_fn(
    (CampaignId, Address),
    Application,
) -> int {
    |key: (CampaignId, Address), a: Application|
        if key.0 == campaign_id && a.selected() {
            1
        } else {
            0
        }
}

/// Whether the log says that a payout was frozen.
pub open spec fn announced(log: Seq<Effect>, campaign_id: CampaignId, creator: Address) -> bool {
    log.contains(
        Effect::Publish(Event::DisputeFrozen(DisputeFrozen { campaign_id, creator })),
    )
}

impl EscrowState {
    /// Whether the settings are all there or none is, and the fee in range.
    pub open spec fn settings_sound(self) -> bool {
        &&& self.treasury is Some == self.initialized()
        &&& self.fee_bps is Some == self.initialized()
        &&& self.dispute_contract is Some == self.initialized()
        &&& self.version is Some == self.initialized()
        &&& self.pending_admin is Some ==> self.initialized()
        &&& self.fee_bps is Some ==> 0 <= self.fee_bps->0 <= BASIS_POINTS_DENOMINATOR
    }

    /// Whether a campaign's entry is sound and agrees with the applications:
    /// what is committed is what selected creators are owed, and each selected
    /// creator is counted.
    pub open spec fn campaign_sound(self, id: CampaignId) -> bool {
        let c = self.campaigns[id];
        &&& c.sound()
        &&& c.id == id
        &&& id < self.next_id()
        &&& self.initialized()
        &&& c.committed_payouts == total(self.applications, owed_on(id))
        &&& c.approved_count == total(self.applications, selected_on(id))
    }

    /// Whether an application's entry is sound, its campaign known and funded
    /// at some time, and a freeze announced.
    pub open spec fn application_sound(self, key: (CampaignId, Address)) -> bool {
        let a = self.applications[key];
        &&& a.sound(self.now)
        &&& a.campaign_id == key.0
        &&& a.creator == key.1
        &&& self.campaigns.contains_key(key.0)
        &&& self.campaigns[key.0].status != CampaignStatus::Draft
        &&& a.frozen ==> announced(self.log, key.0, key.1)
    }

    /// Whether the applicants are numbered from zero without gap or
    /// repetition.
    pub open spec fn applicants_sound(self) -> bool {
        &&& forall|id: CampaignId, i: u32|
            i < self.applicant_count(id) ==> {
                &&& #[trigger] self.applicants.contains_key((id, i))
                &&& self.applications.contains_key((id, self.applicants[(id, i)]))
            }
        &&& forall|id: CampaignId, i: u32, j: u32|
            i < j < self.applicant_count(id) ==> #[trigger] self.applicants[(id, i)]
                != #[trigger] self.applicants[(id, j)]
        &&& forall|key: (CampaignId, Address)| #[trigger]
            self.applications.contains_key(key) ==> exists|i: u32|
                i < self.applicant_count(key.0) && #[trigger] self.applicants[(key.0, i)] == key.1
    }

    /// Whether the contract's books are in order.
    pub open spec fn sound(self) -> bool {
        &&& self.campaigns.dom().finite()
        &&& self.applications.dom().finite()
        &&& self.settings_sound()
        &&& forall|id: CampaignId| #[trigger]
            self.campaigns.contains_key(id) ==> self.campaign_sound(id)
        &&& forall|key: (CampaignId, Address)| #[trigger]
            self.applications.contains_key(key) ==> self.application_sound(key)
        &&& self.applicants_sound()
    }
}

/// A contract starts out with its books in order.
pub proof fn law_deployed_is_sound(contract: Address, now: u64)
    ensures
        EscrowState::deployed(contract, now).sound(),
{
}

/// Time does not disturb the books.
pub proof fn law_time_keeps_sound(s: EscrowState, now: u64, tokens: Seq<Address>)
    requires
        s.sound(),
        s.now <= now,
    ensures
        s.at(now, tokens).sound(),
{
    let t = s.at(now, tokens);
    assert forall|id: CampaignId| #[trigger] t.campaigns.contains_key(id) implies t.campaign_sound(
        id,
    ) by {
        assert(s.campaigns.contains_key(id));
    }
    assert forall|key: (CampaignId, Address)| #[trigger]
        t.applications.contains_key(key) implies t.application_sound(key) by {
        assert(s.applications.contains_key(key));
    }
    lemma_same_applicants(s, t);
}

proof fn lemma_same_applicants(s: EscrowState, t: EscrowState)
    requires
        s.applicants_sound(),
        s.applicants == t.applicants,
        s.applicant_counts == t.applicant_counts,
        s.applications.dom() == t.applications.dom(),
    ensures
        t.applicants_sound(),
{
    assert forall|id: CampaignId, i: u32| i < t.applicant_count(id) implies {
        &&& #[trigger] t.applicants.contains_key((id, i))
        &&& t.applications.contains_key((id, t.applicants[(id, i)]))
    } by {
        assert(s.applicants.contains_key((id, i)));
        assert(s.applications.contains_key((id, s.applicants[(id, i)])));
    }
    assert forall|key: (CampaignId, Address)| #[trigger]
        t.applications.contains_key(key) implies exists|i: u32|
        i < t.applicant_count(key.0) && #[trigger] t.applicants[(key.0, i)] == key.1 by {
        assert(s.applications.contains_key(key));
        let i = choose|i: u32|
            i < s.applicant_count(key.0) && #[trigger] s.applicants[(key.0, i)] == key.1;
        assert(t.applicants[(key.0, i)] == key.1);
    }
}

proof fn lemma_still_announced(
    earlier: Seq<Effect>,
    later: Seq<Effect>,
    campaign_id: CampaignId,
    creator: Address,
)
    requires
        continues(earlier, later),
        announced(earlier, campaign_id, creator),
    ensures
        announced(later, campaign_id, creator),
{
    let effect = Effect::Publish(
        Event::DisputeFrozen(DisputeFrozen { campaign_id, creator }),
    );
    let i = earlier.index_of(effect);
    assert(later[i] == effect);
}

proof fn lemma_settings_kept(s: EscrowState, t: EscrowState)
    requires
        s.sound(),
        t.same_records(s),
        t.same_moment(s),
        s.initialized() ==> t.initialized(),
        continues(s.log, t.log),
        t.settings_sound(),
    ensures
        t.sound(),
{
    assert forall|id: CampaignId| #[trigger] t.campaigns.contains_key(id) implies t.campaign_sound(
        id,
    ) by {
        assert(s.campaigns.contains_key(id));
    }
    assert forall|key: (CampaignId, Address)| #[trigger]
        t.applications.contains_key(key) implies t.application_sound(key) by {
        assert(s.applications.contains_key(key));
        if s.applications[key].frozen {
            lemma_still_announced(s.log, t.log, key.0, key.1);
        }
    }
    lemma_same_applicants(s, t);
}

/// Nothing but one campaign, one application and the log differs.
spec fn same_but(
    s: EscrowState,
    t: EscrowState,
    key: (CampaignId, Address),
    c: Campaign,
    a: Application,
) -> bool {
    &&& t == (EscrowState {
        campaigns: s.campaigns.insert(key.0, c),
        applications: s.applications.insert(key, a),
        log: t.log,
        ..s
    })
    &&& continues(s.log, t.log)
}

proof fn lemma_payout_written(
    s: EscrowState,
    t: EscrowState,
    key: (CampaignId, Address),
    c: Campaign,
    a: Application,
)
    requires
        s.sound(),
        same_but(s, t, key, c, a),
        s.campaigns.contains_key(key.0),
        s.applications.contains_key(key),
        c.sound(),
        c.id == key.0,
        c.status != CampaignStatus::Draft,
        a.sound(s.now),
        a.campaign_id == key.0,
        a.creator == key.1,
        a.frozen ==> announced(t.log, key.0, key.1),
        c.committed_payouts - s.campaigns[key.0].committed_payouts == a.owed()
            - s.applications[key].owed(),
        c.approved_count - s.campaigns[key.0].approved_count == (if a.selected() {
            1int
        } else {
            0
        }) - (if s.applications[key].selected() {
            1int
        } else {
            0
        }),
    ensures
        t.sound(),
{
    assert(s.campaign_sound(key.0));
    assert forall|id: CampaignId| #[trigger] t.campaigns.contains_key(id) implies t.campaign_sound(
        id,
    ) by {
        assert(s.campaigns.contains_key(id));
        assert(s.campaign_sound(id));
        lemma_total_insert(s.applications, owed_on(id), key, a);
        lemma_total_insert(s.applications, selected_on(id), key, a);
    }
    assert forall|other: (CampaignId, Address)| #[trigger]
        t.applications.contains_key(other) implies t.application_sound(other) by {
        assert(s.applications.contains_key(other));
        assert(s.application_sound(other));
        if other != key && s.applications[other].frozen {
            lemma_still_announced(s.log, t.log, other.0, other.1);
        }
    }
    lemma_total_insert(s.applications, owed_on(key.0), key, a);
    assert(t.applications.dom() =~= s.applications.dom());
    lemma_same_applicants(s, t);
}

proof fn lemma_campaign_written(s: EscrowState, t: EscrowState, id: CampaignId, c: Campaign)
    requires
        s.sound(),
        s.campaigns.contains_key(id),
        t == (EscrowState { campaigns: s.campaigns.insert(id, c), log: t.log, ..s }),
        continues(s.log, t.log),
        c.sound(),
        c.id == id,
        c.status == CampaignStatus::Draft ==> s.campaigns[id].status == CampaignStatus::Draft,
        c.committed_payouts == s.campaigns[id].committed_payouts,
        c.approved_count == s.campaigns[id].approved_count,
    ensures
        t.sound(),
{
    assert forall|other: CampaignId| #[trigger]
        t.campaigns.contains_key(other) implies t.campaign_sound(other) by {
        assert(s.campaigns.contains_key(other));
        assert(s.campaign_sound(other));
    }
    assert forall|key: (CampaignId, Address)| #[trigger]
        t.applications.contains_key(key) implies t.application_sound(key) by {
        assert(s.applications.contains_key(key));
        assert(s.application_sound(key));
        if s.applications[key].frozen {
            lemma_still_announced(s.log, t.log, key.0, key.1);
        }
    }
    lemma_same_applicants(s, t);
}

/// What a call looks up is sound, and stands under its own key.
pub proof fn lemma_own_key(s: EscrowState, call: Call)
    requires
        s.sound(),
    ensures
        call.campaign() matches Some(id) ==> s.campaigns.contains_key(id) ==> s.campaign_sound(id),
        call.application() matches Some(key) ==> s.applications.contains_key(key)
            ==> s.application_sound(key),
{
}

/// A call touches no application but the one it is about.
pub proof fn law_other_applications_untouched(
    s: EscrowState,
    call: Call,
    key: (CampaignId, Address),
)
    requires
        s.sound(),
        call.application() != Some(key),
    ensures
        s.after(call).applications.contains_key(key) == s.applications.contains_key(key),
        s.after(call).applications[key] == s.applications[key],
{
    if s.refusal(call) is None {
        lemma_own_key(s, call);
        if call.recruits() {
            reveal(EscrowState::recruited);
        } else if call.reviews() {
            reveal(EscrowState::reviewed);
        } else if call.settles() {
            reveal(EscrowState::settled);
        } else {
            law_settings_and_records_are_apart(s, call);
        }
    }
}

/// A call touches no campaign but the one that it opens or looks up.
pub proof fn law_other_campaigns_untouched(s: EscrowState, call: Call, id: CampaignId)
    requires
        s.sound(),
        call.campaign() != Some(id),
        call is CreateCampaign ==> s.next_id() != id,
    ensures
        s.after(call).campaigns.contains_key(id) == s.campaigns.contains_key(id),
        s.after(call).campaigns[id] == s.campaigns[id],
{
    if s.refusal(call) is None {
        lemma_own_key(s, call);
        if call.recruits() {
            reveal(EscrowState::recruited);
        } else if call.reviews() {
            reveal(EscrowState::reviewed);
        } else if call.refunds() {
            reveal(EscrowState::refunded);
        } else if call.settles() {
            reveal(EscrowState::settled);
        } else {
            law_settings_and_records_are_apart(s, call);
        }
    }
}

/// A payout that is owed is covered by the commitment on its campaign, which
/// counts the creator as selected.
pub proof fn lemma_owed_is_committed(s: EscrowState, key: (CampaignId, Address))
    requires
        s.sound(),
        s.applications.contains_key(key),
    ensures
        0 <= s.applications[key].owed() <= s.campaigns[key.0].committed_payouts,
        s.applications[key].selected() ==> s.campaigns[key.0].approved_count > 0,
{
    assert(s.application_sound(key));
    assert(s.campaign_sound(key.0));
    assert forall|other: (CampaignId, Address)| #[trigger]
        s.applications.contains_key(other) implies owed_on(key.0)(other, s.applications[other]) >= 0
        && selected_on(key.0)(other, s.applications[other]) >= 0 by {
        assert(s.application_sound(other));
    }
    lemma_total_at_least(s.applications, owed_on(key.0));
    lemma_total_at_least(s.applications, selected_on(key.0));
    assert(owed_on(key.0)(key, s.applications[key]) <= total(s.applications, owed_on(key.0)));
    assert(selected_on(key.0)(key, s.applications[key]) <= total(
        s.applications,
        selected_on(key.0),
    ));
}

proof fn lemma_settling_keeps_sound(
    s: EscrowState,
    t: EscrowState,
    key: (CampaignId, Address),
    a: Application,
)
    requires
        s.sound(),
        s.applications.contains_key(key),
        s.applications[key].owed() > 0,
        same_but(s, t, key, s.campaigns[key.0].settled(s.applications[key].owed()), a),
        a == (Application {
            status: ApplicationStatus::Paid,
            frozen: false,
            dispute_opened_at: None,
            ..s.applications[key]
        }),
    ensures
        t.sound(),
{
    let c = s.campaigns[key.0];
    assert(s.application_sound(key));
    assert(s.campaign_sound(key.0));
    lemma_owed_is_committed(s, key);
    lemma_payout_written(s, t, key, c.settled(s.applications[key].owed()), a);
}

proof fn lemma_claim_keeps_sound(s: EscrowState, call: Call)
    requires
        s.sound(),
        call is ClaimPayment,
        s.refusal(call) is None,
    ensures
        s.accepted(call).sound(),
{
    reveal(EscrowState::settled);
    let key = call.application()->0;
    let a = s.applications[key];
    assert(s.application_sound(key));
    assert(s.campaign_sound(key.0));
    law_log_grows(s, call);
    let paid = Application { status: ApplicationStatus::Paid, ..a };
    assert(paid == Application { frozen: false, dispute_opened_at: None, ..paid });
    lemma_settling_keeps_sound(s, s.accepted(call), key, paid);
}

proof fn lemma_resolve_keeps_sound(s: EscrowState, call: Call)
    requires
        s.sound(),
        call is ResolveDispute,
        s.refusal(call) is None,
    ensures
        s.accepted(call).sound(),
{
    reveal(EscrowState::settled);
    let key = (call->ResolveDispute_campaign_id, call->ResolveDispute_creator);
    let a = s.applications[key];
    assert(s.application_sound(key));
    assert(s.campaign_sound(key.0));
    law_log_grows(s, call);
    lemma_settling_keeps_sound(
        s,
        s.accepted(call),
        key,
        Application {
            status: ApplicationStatus::Paid,
            frozen: false,
            dispute_opened_at: None,
            ..a
        },
    );
}

proof fn lemma_select_keeps_sound(s: EscrowState, call: Call)
    requires
        s.sound(),
        call is ApproveCreator,
        s.refusal(call) is None,
    ensures
        s.accepted(call).sound(),
{
    reveal(EscrowState::recruited);
    let key = (call->ApproveCreator_campaign_id, call->ApproveCreator_creator);
    let payout_amount = call->ApproveCreator_payout_amount;
    let c = s.campaigns[key.0];
    let a = s.applications[key];
    assert(s.application_sound(key));
    assert(s.campaign_sound(key.0));
    law_log_grows(s, call);
    lemma_payout_written(
        s,
        s.accepted(call),
        key,
        Campaign {
            approved_count: (c.approved_count + 1) as u32,
            committed_payouts: (c.committed_payouts + payout_amount) as i128,
            status: CampaignStatus::Active,
            ..c
        },
        Application { payout_amount, status: ApplicationStatus::Approved, ..a },
    );
}

proof fn lemma_application_call_keeps_sound(s: EscrowState, call: Call)
    requires
        s.sound(),
        call is SubmitProof || call is ApproveSubmission || call is RejectSubmission
            || call is FreezeForDispute,
        s.refusal(call) is None,
    ensures
        s.accepted(call).sound(),
{
    reveal(EscrowState::reviewed);
    let t = s.accepted(call);
    let key = call.application()->0;
    let c = s.campaigns[key.0];
    assert(s.application_sound(key));
    assert(s.campaign_sound(key.0));
    law_log_grows(s, call);
    assert(s.campaigns.insert(key.0, c) =~= s.campaigns);
    if call is FreezeForDispute {
        assert(t.log.last() == Effect::Publish(
            Event::DisputeFrozen(DisputeFrozen { campaign_id: key.0, creator: key.1 }),
        ));
    }
    lemma_payout_written(s, t, key, c, t.applications[key]);
}

proof fn lemma_campaign_call_keeps_sound(s: EscrowState, call: Call)
    requires
        s.sound(),
        call is FundCampaign || call is CancelCampaign || call is ExpireCampaign
            || call is EmergencyRecoverCampaign || call is ReclaimSurplus
            || call is UpdateCampaignMetadata,
        s.refusal(call) is None,
    ensures
        s.accepted(call).sound(),
{
    reveal(EscrowState::recruited);
    reveal(EscrowState::refunded);
    let t = s.accepted(call);
    let id = call.campaign()->0;
    assert(s.campaign_sound(id));
    law_log_grows(s, call);
    lemma_campaign_written(s, t, id, t.campaigns[id]);
}

proof fn lemma_create_keeps_sound(s: EscrowState, call: Call)
    requires
        s.sound(),
        call is CreateCampaign,
        s.refusal(call) is None,
        s.countable(call),
    ensures
        s.accepted(call).sound(),
{
    reveal(EscrowState::recruited);
    let t = s.accepted(call);
    let id = s.next_id();
    law_log_grows(s, call);
    if s.campaigns.contains_key(id) {
        assert(s.campaign_sound(id));
    }
    assert forall|key: (CampaignId, Address)| #[trigger]
        t.applications.contains_key(key) implies t.application_sound(key) && key.0 != id by {
        assert(s.applications.contains_key(key));
        assert(s.application_sound(key));
        if s.applications[key].frozen {
            lemma_still_announced(s.log, t.log, key.0, key.1);
        }
    }
    lemma_nothing_on(s.applications, id);
    assert forall|other: CampaignId| #[trigger]
        t.campaigns.contains_key(other) implies t.campaign_sound(other) by {
        if other != id {
            assert(s.campaigns.contains_key(other));
            assert(s.campaign_sound(other));
        }
    }
    lemma_same_applicants(s, t);
}

proof fn lemma_nothing_on(m: Map<(CampaignId, Address), Application>, id: CampaignId)
    requires
        m.dom().finite(),
        forall|key: (CampaignId, Address)| #[trigger] m.contains_key(key) ==> key.0 != id,
    ensures
        total(m, owed_on(id)) == 0,
        total(m, selected_on(id)) == 0,
    decreases m.dom().len(),
{
    if m.dom().len() > 0 {
        let key = m.dom().choose();
        assert(m.contains_key(key));
        assert(m.remove(key).dom() =~= m.dom().remove(key));
        lemma_nothing_on(m.remove(key), id);
    }
}

proof fn lemma_apply_keeps_sound(s: EscrowState, call: Call)
    requires
        s.sound(),
        call is ApplyToCampaign,
        s.refusal(call) is None,
        s.countable(call),
    ensures
        s.accepted(call).sound(),
{
    reveal(EscrowState::recruited);
    let t = s.accepted(call);
    let id = call->ApplyToCampaign_campaign_id;
    let creator = call->ApplyToCampaign_creator;
    let key = (id, creator);
    let a = t.applications[key];
    let count = s.applicant_count(id);
    law_log_grows(s, call);
    assert(s.campaign_sound(id));
    assert forall|other: CampaignId| #[trigger]
        t.campaigns.contains_key(other) implies t.campaign_sound(other) by {
        assert(s.campaigns.contains_key(other));
        assert(s.campaign_sound(other));
        lemma_total_insert(s.applications, owed_on(other), key, a);
        lemma_total_insert(s.applications, selected_on(other), key, a);
    }
    assert forall|other: (CampaignId, Address)| #[trigger]
        t.applications.contains_key(other) implies t.application_sound(other) by {
        if other != key {
            assert(s.applications.contains_key(other));
            assert(s.application_sound(other));
            if s.applications[other].frozen {
                lemma_still_announced(s.log, t.log, other.0, other.1);
            }
        }
    }
    assert forall|c: CampaignId, i: u32| i < t.applicant_count(c) implies {
        &&& #[trigger] t.applicants.contains_key((c, i))
        &&& t.applications.contains_key((c, t.applicants[(c, i)]))
    } by {
        if (c, i) != (id, count) {
            assert(i < s.applicant_count(c));
            assert(s.applicants.contains_key((c, i)));
        }
    }
    assert forall|c: CampaignId, i: u32, j: u32|
        i < j < t.applicant_count(c) implies #[trigger] t.applicants[(c, i)]
        != #[trigger] t.applicants[(c, j)] by {
        assert(i < s.applicant_count(c));
        assert(s.applicants.contains_key((c, i)));
        if (c, j) == (id, count) {
            assert(t.applicants[(c, i)] == s.applicants[(c, i)]);
        } else {
            assert(s.applicants[(c, i)] != s.applicants[(c, j)]);
        }
    }
    assert forall|other: (CampaignId, Address)| #[trigger]
        t.applications.contains_key(other) implies exists|i: u32|
        i < t.applicant_count(other.0) && #[trigger] t.applicants[(other.0, i)] == other.1 by {
        if other == key {
            assert(t.applicants[(id, count)] == creator);
        } else {
            assert(s.applications.contains_key(other));
            let i = choose|i: u32|
                i < s.applicant_count(other.0) && #[trigger] s.applicants[(other.0, i)] == other.1;
            assert(t.applicants[(other.0, i)] == other.1);
        }
    }
}

proof fn lemma_administrative_call_keeps_sound(s: EscrowState, call: Call)
    requires
        s.sound(),
        call.administrative(),
        s.refusal(call) is None,
    ensures
        s.accepted(call).sound(),
{
    reveal(EscrowState::administered);
    law_log_grows(s, call);
    law_settings_and_records_are_apart(s, call);
    lemma_settings_kept(s, s.accepted(call));
}

/// Every call, accepted or refused, leaves the books in order.
pub proof fn law_calls_keep_sound(s: EscrowState, call: Call)
    requires
        s.sound(),
        s.countable(call),
    ensures
        s.after(call).sound(),
{
    if s.refusal(call) is Some {
        law_log_grows(s, call);
        lemma_settings_kept(s, s.after(call));
    } else if call.administrative() {
        lemma_administrative_call_keeps_sound(s, call);
    } else {
        match call {
            Call::CreateCampaign { .. } => lemma_create_keeps_sound(s, call),
            Call::ApplyToCampaign { .. } => lemma_apply_keeps_sound(s, call),
            Call::ApproveCreator { .. } => lemma_select_keeps_sound(s, call),
            Call::ClaimPayment { .. } => lemma_claim_keeps_sound(s, call),
            Call::ResolveDispute { .. } => lemma_resolve_keeps_sound(s, call),
            Call::SubmitProof { .. } => lemma_application_call_keeps_sound(s, call),
            Call::ApproveSubmission { .. } => lemma_application_call_keeps_sound(s, call),
            Call::RejectSubmission { .. } => lemma_application_call_keeps_sound(s, call),
            Call::FreezeForDispute { .. } => lemma_application_call_keeps_sound(s, call),
            _ => lemma_campaign_call_keeps_sound(s, call),
        }
    }
}

/// Any series of calls leaves the books in order.
pub proof fn law_runs_keep_sound(start: EscrowState, steps: Seq<Step>)
    requires
        start.sound(),
        possible(start, steps),
    ensures
        run(start, steps).sound(),
    decreases steps.len(),
{
    if steps.len() > 0 {
        let step = steps.last();
        law_runs_keep_sound(start, steps.drop_last());
        let earlier = run(start, steps.drop_last());
        law_time_keeps_sound(earlier, step.now, step.tokens);
        law_calls_keep_sound(earlier.at(step.now, step.tokens), step.call);
    }
}

/// Whatever has been called since a contract was deployed, its books are in
/// order.
pub proof fn law_books_are_always_sound(contract: Address, now: u64, steps: Seq<Step>)
    requires
        possible(EscrowState::deployed(contract, now), steps),
    ensures
        run(EscrowState::deployed(contract, now), steps).sound(),
{
    law_deployed_is_sound(contract, now);
    law_runs_keep_sound(EscrowState::deployed(contract, now), steps);
}

} // verus!
