//! Laws on contested payouts.
use vstd::prelude::*;

use crate::campaign_escrow::calls::{possible, run, Call, Step};
use crate::campaign_escrow::contract::MIN_EVIDENCE_WINDOW;
use crate::campaign_escrow::env::EscrowState;
use crate::campaign_escrow::error::Error;
use crate::campaign_escrow::laws::books::{
    announced, law_calls_keep_sound, law_other_applications_untouched, law_time_keeps_sound,
    law_runs_keep_sound, lemma_own_key,
};
use crate::campaign_escrow::laws::frame::law_settings_and_records_are_apart;
use crate::shared::{Address, ApplicationStatus, CampaignId};

verus! {

/// While a payout is frozen, its settlement is the only call that touches the
/// application: the proof under review stays as it is, and so does the time
/// at which the dispute was opened.
pub proof fn law_frozen_is_untouched(s: EscrowState, call: Call, key: (CampaignId, Address))
    requires
        s.sound(),
        s.applications.contains_key(key),
        s.applications[key].frozen,
        !(call is ResolveDispute && call.application() == Some(key)),
    ensures
        call.application() == Some(key) ==> s.refusal(call) is Some,
        s.after(call).applications.contains_key(key),
        s.after(call).applications[key] == s.applications[key],
{
    if call.application() == Some(key) {
        assert(s.application_sound(key));
    } else {
        law_other_applications_untouched(s, call, key);
    }
}

/// A frozen payout cannot be claimed, nor frozen again.
pub proof fn law_frozen_is_refused(s: EscrowState, call: Call, key: (CampaignId, Address))
    requires
        s.sound(),
        s.applications.contains_key(key),
        s.applications[key].frozen,
        !s.is_paused(),
        call.application() == Some(key),
    ensures
        call is ClaimPayment ==> s.refusal(call) == Some(Error::PayoutFrozen),
        call is FreezeForDispute ==> s.refusal(call) is Some,
{
    assert(s.application_sound(key));
}

/// A payout is frozen only by the dispute contract or the admin, and the
/// freeze is announced.
pub proof fn law_only_arbitration_freezes(s: EscrowState, call: Call, key: (CampaignId, Address))
    requires
        s.sound(),
        s.after(call).applications.contains_key(key),
        s.after(call).applications[key].frozen,
        !(s.applications.contains_key(key) && s.applications[key].frozen),
    ensures
        call is FreezeForDispute,
        call.application() == Some(key),
        s.dispute_contract == Some(call.actor()) || s.admin == Some(call.actor()),
        s.after(call).applications[key].dispute_opened_at == Some(s.now),
        announced(s.after(call).log, key.0, key.1),
{
    if call.application() == Some(key) {
        lemma_own_key(s, call);
        if call.recruits() {
            reveal(EscrowState::recruited);
        } else if call.reviews() {
            reveal(EscrowState::reviewed);
        } else if call.settles() {
            reveal(EscrowState::settled);
        }
        let t = s.after(call);
        if s.refusal(call) is None {
            assert(t.log[t.log.len() - 1] == t.log.last());
        }
    } else {
        law_other_applications_untouched(s, call, key);
    }
}

/// A freeze holds up nobody else: what other creators may claim, they may
/// still claim.
pub proof fn law_freeze_is_local(s: EscrowState, call: Call, creator: Address, id: CampaignId)
    requires
        s.sound(),
        call is FreezeForDispute,
        call.application() != Some((id, creator)),
    ensures
        s.after(call).campaigns == s.campaigns,
        s.after(call).claim_refusal(creator, id) == s.claim_refusal(creator, id),
{
    reveal(EscrowState::reviewed);
    law_other_applications_untouched(s, call, (id, creator));
}

/// A settlement needs an open dispute that was announced and has been open
/// for the whole evidence window; it ends the dispute.
pub proof fn law_settlement_waits(s: EscrowState, call: Call)
    requires
        s.sound(),
        call is ResolveDispute,
        s.refusal(call) is None,
    ensures
        ({
            let key = call.application()->0;
            let a = s.applications[key];
            let b = s.after(call).applications[key];
            &&& s.admin == Some(call.actor())
            &&& a.frozen
            &&& announced(s.log, key.0, key.1)
            &&& a.dispute_opened_at->0 + MIN_EVIDENCE_WINDOW <= s.now
            &&& b.status == ApplicationStatus::Paid
            &&& !b.frozen
            &&& b.dispute_opened_at is None
        }),
{
    reveal(EscrowState::settled);
    lemma_own_key(s, call);
}

/// From the moment a payout is frozen until the evidence window has passed,
/// nothing that anyone calls changes the application: no settlement comes
/// before both parties have had their time.
pub proof fn law_evidence_window(
    s: EscrowState,
    freeze: Call,
    steps: Seq<Step>,
    key: (CampaignId, Address),
)
    requires
        s.sound(),
        freeze is FreezeForDispute,
        freeze.application() == Some(key),
        s.refusal(freeze) is None,
        possible(s.after(freeze), steps),
        run(s.after(freeze), steps).now < s.now + MIN_EVIDENCE_WINDOW,
    ensures
        run(s.after(freeze), steps).applications.contains_key(key),
        run(s.after(freeze), steps).applications[key] == s.after(freeze).applications[key],
        run(s.after(freeze), steps).applications[key].frozen,
    decreases steps.len(),
{
    reveal(EscrowState::reviewed);
    let start = s.after(freeze);
    law_calls_keep_sound(s, freeze);
    lemma_own_key(s, freeze);
    if steps.len() > 0 {
        let step = steps.last();
        let earlier = run(start, steps.drop_last());
        let moment = earlier.at(step.now, step.tokens);
        law_settings_and_records_are_apart(moment, step.call);
        law_evidence_window(s, freeze, steps.drop_last(), key);
        law_runs_keep_sound(start, steps.drop_last());
        law_time_keeps_sound(earlier, step.now, step.tokens);
        if step.call is ResolveDispute && step.call.application() == Some(key) {
            assert(moment.refusal(step.call) is Some);
        } else {
            law_frozen_is_untouched(moment, step.call, key);
        }
    }
}

} // verus!
