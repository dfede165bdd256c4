//! Laws on payouts: what creators are promised, they get, once.
use vstd::prelude::*;

use crate::campaign_escrow::amounts::{fits, lemma_share_bounds, share};
use crate::campaign_escrow::calls::Call;
use crate::campaign_escrow::env::{Effect, EscrowState};
use crate::campaign_escrow::error::Error;
use crate::campaign_escrow::laws::books::{
    law_other_applications_untouched, lemma_owed_is_committed,
};
use crate::campaign_escrow::laws::log::law_funds_move_only_so;
use crate::campaign_escrow::rules::dispute::creator_gross;
use crate::campaign_escrow::types::DisputeResolution;
use crate::shared::{
    Address, ApplicationStatus, CampaignId, CampaignStatus, BASIS_POINTS_DENOMINATOR,
};

verus! {

/// Returning unallocated budget takes nothing that was promised: the
/// commitment stands, the escrow still covers it, and no application and no
/// other campaign is touched.
pub proof fn law_refunds_keep_promises(s: EscrowState, call: Call)
    requires
        s.sound(),
        call.refunds(),
        s.refusal(call) is None,
    ensures
        ({
            let id = call.campaign()->0;
            let t = s.after(call);
            &&& t.applications == s.applications
            &&& t.campaigns == s.campaigns.insert(id, t.campaigns[id])
            &&& t.campaigns[id].committed_payouts == s.campaigns[id].committed_payouts
            &&& t.campaigns[id].escrow_balance == s.campaigns[id].committed_payouts
        }),
{
    reveal(EscrowState::refunded);
    assert(s.campaign_sound(call.campaign()->0));
}

/// A creator whose submitted proof was accepted, or left unanswered past the
/// content deadline, can claim, whatever became of the campaign: unless the
/// contract is paused, the payout is frozen, or the payout is so large that
/// the fee on it cannot be computed.
pub proof fn law_promised_payout_is_claimable(s: EscrowState, creator: Address, id: CampaignId)
    requires
        s.sound(),
        s.applications.contains_key((id, creator)),
        s.applications[(id, creator)].status == ApplicationStatus::ProofSubmitted,
        s.applications[(id, creator)].proof_approved || s.now > s.campaigns[id].completion_deadline,
        !s.is_paused(),
        !s.applications[(id, creator)].frozen,
        fits(s.applications[(id, creator)].payout_amount * s.campaigns[id].fee_bps),
    ensures
        s.refusal(Call::ClaimPayment { creator, campaign_id: id }) is None,
{
    let key = (id, creator);
    assert(s.application_sound(key));
    assert(s.campaign_sound(id));
    lemma_owed_is_committed(s, key);
    lemma_share_bounds(
        s.applications[key].payout_amount as int,
        s.campaigns[id].fee_bps as int,
    );
}

/// A payout that could be claimed before unallocated budget was returned can
/// be claimed after.
pub proof fn law_refunds_keep_claims(s: EscrowState, call: Call, creator: Address, id: CampaignId)
    requires
        s.sound(),
        call.refunds(),
        s.refusal(call) is None,
        s.refusal(Call::ClaimPayment { creator, campaign_id: id }) is None,
    ensures
        s.after(call).refusal(Call::ClaimPayment { creator, campaign_id: id }) is None,
{
    reveal(EscrowState::refunded);
    let key = (id, creator);
    assert(s.application_sound(key));
    assert(s.campaign_sound(id));
    assert(s.campaign_sound(call.campaign()->0));
    lemma_owed_is_committed(s, key);
}

/// A claim takes the agreed payout out of the escrow, no more and no less:
/// the fee fixed for the campaign to the treasury, rounded down, and all the
/// rest to the creator.
pub proof fn law_claim_pays_the_payout(s: EscrowState, creator: Address, id: CampaignId)
    requires
        s.sound(),
        s.refusal(Call::ClaimPayment { creator, campaign_id: id }) is None,
    ensures
        ({
            let t = s.after(Call::ClaimPayment { creator, campaign_id: id });
            let c = s.campaigns[id];
            let payout = s.applications[(id, creator)].payout_amount as int;
            let fee = payout * c.fee_bps / (BASIS_POINTS_DENOMINATOR as int);
            &&& fee == share(payout, c.fee_bps as int)
            &&& 0 <= fee <= payout
            &&& t.campaigns[id].escrow_balance == c.escrow_balance - payout
            &&& t.campaigns[id].committed_payouts == c.committed_payouts - payout
            &&& t.log.contains(
                Effect::Transfer {
                    token: c.asset.token,
                    from: s.contract,
                    to: creator,
                    amount: (payout - fee) as i128,
                },
            )
            &&& fee > 0 ==> t.log.contains(
                Effect::Transfer {
                    token: c.asset.token,
                    from: s.contract,
                    to: s.treasury->0,
                    amount: fee as i128,
                },
            )
        }),
{
    reveal(EscrowState::settled);
    let key = (id, creator);
    let c = s.campaigns[id];
    let payout = s.applications[key].payout_amount as int;
    assert(s.application_sound(key));
    assert(s.campaign_sound(id));
    lemma_owed_is_committed(s, key);
    lemma_share_bounds(payout, c.fee_bps as int);
    assert(payout * c.fee_bps >= 0) by (nonlinear_arith)
        requires
            payout >= 0,
            c.fee_bps >= 0,
    ;
    let fee = share(payout, c.fee_bps as int);
    let t = s.after(Call::ClaimPayment { creator, campaign_id: id });
    if fee > 0 {
        assert(t.log[s.log.len() as int + 1] == Effect::Transfer {
            token: c.asset.token,
            from: s.contract,
            to: s.treasury->0,
            amount: fee as i128,
        });
        assert(t.log[s.log.len() as int + 2] == Effect::Transfer {
            token: c.asset.token,
            from: s.contract,
            to: creator,
            amount: (payout - fee) as i128,
        });
    } else {
        assert(t.log[s.log.len() as int + 1] == Effect::Transfer {
            token: c.asset.token,
            from: s.contract,
            to: creator,
            amount: (payout - fee) as i128,
        });
    }
}

/// Whatever the settlement of a contested payout, the creator's net, the fee
/// and the business's part are each no less than nothing and add up to the
/// payout. A full refund costs no fee; paying the creator in full takes the
/// fee that a claim would.
pub proof fn law_settlement_adds_up(payout: int, resolution: DisputeResolution, fee_bps: int)
    requires
        0 <= payout,
        0 <= fee_bps <= BASIS_POINTS_DENOMINATOR,
        resolution matches DisputeResolution::Split(bps) ==> 0 <= bps <= BASIS_POINTS_DENOMINATOR,
    ensures
        ({
            let gross = creator_gross(payout, resolution);
            let fee = share(gross, fee_bps);
            let net = gross - fee;
            let business = payout - gross;
            &&& 0 <= fee
            &&& 0 <= net
            &&& 0 <= business
            &&& net + fee + business == payout
            &&& resolution is RefundBusiness ==> fee == 0 && net == 0 && business == payout
            &&& resolution is PayCreator ==> fee == share(payout, fee_bps) && business == 0
        }),
{
    if let DisputeResolution::Split(bps) = resolution {
        lemma_share_bounds(payout, bps as int);
    }
    lemma_share_bounds(creator_gross(payout, resolution), fee_bps);
}

/// A settlement takes the contested payout out of the escrow, no more and no
/// less.
pub proof fn law_settlement_takes_the_payout(s: EscrowState, call: Call)
    requires
        s.sound(),
        call is ResolveDispute,
        s.refusal(call) is None,
    ensures
        ({
            let id = call->ResolveDispute_campaign_id;
            let key = (id, call->ResolveDispute_creator);
            let payout = s.applications[key].payout_amount;
            let t = s.after(call);
            &&& t.campaigns[id].escrow_balance == s.campaigns[id].escrow_balance - payout
            &&& t.campaigns[id].committed_payouts == s.campaigns[id].committed_payouts - payout
            &&& t.applications[key].status == ApplicationStatus::Paid
        }),
{
    reveal(EscrowState::settled);
    let key = (call->ResolveDispute_campaign_id, call->ResolveDispute_creator);
    assert(s.application_sound(key));
    assert(s.campaign_sound(key.0));
    lemma_owed_is_committed(s, key);
}

/// A payout that was made is final: no call touches the application again.
pub proof fn law_paid_is_final(s: EscrowState, call: Call, key: (CampaignId, Address))
    requires
        s.sound(),
        s.applications.contains_key(key),
        s.applications[key].status == ApplicationStatus::Paid,
    ensures
        s.after(call).applications.contains_key(key),
        s.after(call).applications[key] == s.applications[key],
{
    if call.application() == Some(key) {
        law_paid_once(s, call, key);
    } else {
        law_other_applications_untouched(s, call, key);
    }
}

/// Every call about a payout that was made is refused: it is not claimed
/// twice, nor frozen or settled by dispute.
pub proof fn law_paid_once(s: EscrowState, call: Call, key: (CampaignId, Address))
    requires
        s.sound(),
        s.applications.contains_key(key),
        s.applications[key].status == ApplicationStatus::Paid,
        call.application() == Some(key),
    ensures
        s.refusal(call) is Some,
        call is ClaimPayment && !s.is_paused() ==> s.refusal(call) == Some(
            Error::SubmissionNotPayable,
        ),
{
    assert(s.application_sound(key));
}

/// A campaign is paid out in the asset that it was funded with, and only the
/// contract's own holding is ever paid out: the one transfer that is not out
/// of the contract is the business's deposit.
pub proof fn law_funds_stay_in_the_asset(s: EscrowState, call: Call, i: int)
    requires
        s.log.len() <= i < s.after(call).log.len(),
        s.after(call).log[i] is Transfer,
    ensures
        call.campaign() is Some,
        ({
            let c = s.campaigns[call.campaign()->0];
            let t = s.after(call).log[i];
            &&& t->Transfer_token == c.asset.token
            &&& call is FundCampaign ==> {
                &&& t->Transfer_from == c.business
                &&& t->Transfer_to == s.contract
                &&& t->Transfer_amount == c.total_budget
            }
            &&& !(call is FundCampaign) ==> t->Transfer_from == s.contract
        }),
{
    law_funds_move_only_so(s, call, i);
    if call.recruits() {
        reveal(EscrowState::recruited);
    } else if call.refunds() {
        reveal(EscrowState::refunded);
    } else {
        reveal(EscrowState::settled);
    }
}

/// On a completed campaign every selected creator has been paid.
pub proof fn law_completed_means_paid(s: EscrowState, key: (CampaignId, Address))
    requires
        s.sound(),
        s.applications.contains_key(key),
        s.applications[key].selected(),
        s.campaigns[key.0].status == CampaignStatus::Completed,
    ensures
        s.applications[key].status == ApplicationStatus::Paid,
{
    assert(s.application_sound(key));
    assert(s.campaign_sound(key.0));
    lemma_owed_is_committed(s, key);
}

/// Past the content deadline nothing but its settlement, or a freeze, takes a
/// submitted proof away: the business cannot defeat the approval that its
/// silence means.
pub proof fn law_unanswered_proof_stands(s: EscrowState, call: Call, key: (CampaignId, Address))
    requires
        s.sound(),
        s.applications.contains_key(key),
        s.applications[key].status == ApplicationStatus::ProofSubmitted,
        s.now > s.campaigns[key.0].completion_deadline,
        !call.settles(),
    ensures
        s.after(call).applications.contains_key(key),
        s.after(call).applications[key].status == ApplicationStatus::ProofSubmitted,
        s.after(call).applications[key].proof_uri == s.applications[key].proof_uri,
        s.after(call).applications[key].frozen && !s.applications[key].frozen
            ==> call is FreezeForDispute,
{
    assert(s.application_sound(key));
    if call.application() == Some(key) {
        reveal(EscrowState::recruited);
        reveal(EscrowState::reviewed);
    } else {
        law_other_applications_untouched(s, call, key);
    }
}

} // verus!
