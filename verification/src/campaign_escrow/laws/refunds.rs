//! Laws on winding campaigns up and returning budget that nobody was promised:
//! when each call is accepted, for what else it is refused, and what it does.
use vstd::prelude::*;

use crate::campaign_escrow::calls::Call;
use crate::campaign_escrow::env::{Effect, EscrowState};
use crate::campaign_escrow::error::Error;
use crate::campaign_escrow::events::{
    CampaignCancelled, EmergencyRecovery, Event, SurplusReclaimed,
};
use crate::campaign_escrow::laws::books::lemma_own_key;
use crate::campaign_escrow::laws::log::saving;
use crate::campaign_escrow::storage::DataKey;
use crate::campaign_escrow::types::Campaign;
use crate::shared::{Address, CampaignId, CampaignStatus};

verus! {

/// A campaign is cancelled exactly when the contract runs, the business that
/// asks owns it, and it is neither cancelled nor completed: at any time, and
/// whoever was selected.
pub proof fn law_cancelling_is_decided(s: EscrowState, business: Address, id: CampaignId)
    ensures
        ({
            let r = s.refusal(Call::CancelCampaign { business, campaign_id: id });
            let c = s.campaigns[id];
            let running = s.paused != Some(true);
            let known = running && s.campaigns.contains_key(id);
            let owned = known && c.business == business;
            let open = owned && c.status != CampaignStatus::Cancelled && c.status
                != CampaignStatus::Completed;
            let accepted = open && i128::MIN <= c.escrow_balance - c.committed_payouts
                <= i128::MAX;
            &&& r is None <==> accepted
            &&& r == Some(Error::ContractPaused) <==> !running
            &&& r == Some(Error::CampaignNotFound) <==> running && !known
            &&& r == Some(Error::NotCampaignOwner) <==> known && !owned
            &&& r == Some(Error::InvalidStatus) <==> owned && !open
            &&& r == Some(Error::InvalidAmount) <==> open && !accepted
            &&& s.sound() && open ==> accepted
        }),
{
    if s.sound() {
        lemma_own_key(s, Call::CancelCampaign { business, campaign_id: id });
    }
}

/// A campaign is expired exactly when the contract runs, the business that
/// asks owns it, its content deadline has passed, and it is neither cancelled
/// nor completed.
pub proof fn law_expiring_is_decided(s: EscrowState, business: Address, id: CampaignId)
    ensures
        ({
            let r = s.refusal(Call::ExpireCampaign { business, campaign_id: id });
            let c = s.campaigns[id];
            let running = s.paused != Some(true);
            let known = running && s.campaigns.contains_key(id);
            let owned = known && c.business == business;
            let over = owned && s.now > c.completion_deadline;
            let open = over && c.status != CampaignStatus::Cancelled && c.status
                != CampaignStatus::Completed;
            let accepted = open && i128::MIN <= c.escrow_balance - c.committed_payouts
                <= i128::MAX;
            &&& r is None <==> accepted
            &&& r == Some(Error::ContractPaused) <==> !running
            &&& r == Some(Error::CampaignNotFound) <==> running && !known
            &&& r == Some(Error::NotCampaignOwner) <==> known && !owned
            &&& r == Some(Error::DeadlineNotReached) <==> owned && !over
            &&& r == Some(Error::InvalidStatus) <==> over && !open
            &&& r == Some(Error::InvalidAmount) <==> open && !accepted
            &&& s.sound() && open ==> accepted
        }),
{
    if s.sound() {
        lemma_own_key(s, Call::ExpireCampaign { business, campaign_id: id });
    }
}

/// A campaign is recovered exactly when the contract runs, the admin asks, it
/// is neither cancelled nor completed, and more than a hundred and eighty days
/// have passed since its content deadline.
pub proof fn law_recovering_is_decided(s: EscrowState, admin: Address, id: CampaignId)
    ensures
        ({
            let r = s.refusal(Call::EmergencyRecoverCampaign { admin, campaign_id: id });
            let c = s.campaigns[id];
            let unpromised = c.escrow_balance - c.committed_payouts;
            let running = s.paused != Some(true);
            let set_up = running && s.admin is Some;
            let entitled = set_up && s.admin == Some(admin);
            let known = entitled && s.campaigns.contains_key(id);
            let open = known && c.status != CampaignStatus::Cancelled && c.status
                != CampaignStatus::Completed;
            let ends = open && c.completion_deadline + 15_552_000 <= u64::MAX;
            let abandoned = ends && s.now > c.completion_deadline + 15_552_000;
            let balanced = abandoned && i128::MIN <= unpromised <= i128::MAX;
            let accepted = balanced && (s.treasury is Some || unpromised <= 0);
            &&& r is None <==> accepted
            &&& r == Some(Error::ContractPaused) <==> !running
            &&& r == Some(Error::NotInitialized) <==> running && !set_up || balanced && !accepted
            &&& r == Some(Error::Unauthorized) <==> set_up && !entitled
            &&& r == Some(Error::CampaignNotFound) <==> entitled && !known
            &&& r == Some(Error::InvalidStatus) <==> known && !open
            &&& r == Some(Error::InvalidAmount) <==> open && !ends || abandoned && !balanced
            &&& r == Some(Error::DeadlineNotReached) <==> ends && !abandoned
            &&& s.sound() && abandoned ==> accepted
        }),
{
    if s.sound() {
        lemma_own_key(s, Call::EmergencyRecoverCampaign { admin, campaign_id: id });
    }
}

/// The surplus is returned exactly when the contract runs, the business that
/// asks owns the campaign, and it was not cancelled: at any time, and while
/// creators are still owed.
pub proof fn law_reclaiming_is_decided(s: EscrowState, business: Address, id: CampaignId)
    ensures
        ({
            let r = s.refusal(Call::ReclaimSurplus { business, campaign_id: id });
            let c = s.campaigns[id];
            let running = s.paused != Some(true);
            let known = running && s.campaigns.contains_key(id);
            let owned = known && c.business == business;
            let standing = owned && c.status != CampaignStatus::Cancelled;
            let accepted = standing && i128::MIN <= c.escrow_balance - c.committed_payouts
                <= i128::MAX;
            &&& r is None <==> accepted
            &&& r == Some(Error::ContractPaused) <==> !running
            &&& r == Some(Error::CampaignNotFound) <==> running && !known
            &&& r == Some(Error::NotCampaignOwner) <==> known && !owned
            &&& r == Some(Error::InvalidStatus) <==> owned && !standing
            &&& r == Some(Error::InvalidAmount) <==> standing && !accepted
            &&& s.sound() && standing ==> accepted
        }),
{
    if s.sound() {
        lemma_own_key(s, Call::ReclaimSurplus { business, campaign_id: id });
    }
}

/// Cancelling sends the business all that is escrowed and not committed, in one
/// payment and to the last unit, or nothing where all is committed. What is
/// committed stays, and so does every application.
pub proof fn law_cancelling_returns_the_rest(s: EscrowState, business: Address, id: CampaignId)
    requires
        s.sound(),
        s.refusal(Call::CancelCampaign { business, campaign_id: id }) is None,
    ensures
        ({
            let t = s.after(Call::CancelCampaign { business, campaign_id: id });
            let c = s.campaigns[id];
            let d = t.campaigns[id];
            let unpromised = c.escrow_balance - c.committed_payouts;
            let sent = if unpromised > 0 {
                seq![
                    Effect::Transfer {
                        token: c.asset.token,
                        from: s.contract,
                        to: business,
                        amount: unpromised as i128,
                    },
                ]
            } else {
                seq![]
            };
            let told = Event::CampaignCancelled(
                CampaignCancelled { campaign_id: id, refunded_amount: unpromised as i128 },
            );
            &&& 0 <= unpromised <= c.escrow_balance
            &&& d.escrow_balance == c.escrow_balance - unpromised
            &&& d.committed_payouts == c.committed_payouts
            &&& d.status == CampaignStatus::Cancelled
            &&& d == (Campaign { escrow_balance: d.escrow_balance, status: d.status, ..c })
            &&& t.campaigns == s.campaigns.insert(id, d)
            &&& t.log == s.log + seq![Effect::RequireAuth(business)] + sent + saving(
                DataKey::Campaign(id),
            ) + seq![Effect::Publish(told)]
            &&& t == (EscrowState { campaigns: t.campaigns, log: t.log, ..s })
        }),
{
    reveal(EscrowState::refunded);
    lemma_own_key(s, Call::CancelCampaign { business, campaign_id: id });
    let c = s.campaigns[id];
    let unpromised = c.escrow_balance - c.committed_payouts;
    let sent = if unpromised > 0 {
        seq![
            Effect::Transfer {
                token: c.asset.token,
                from: s.contract,
                to: business,
                amount: unpromised as i128,
            },
        ]
    } else {
        seq![]
    };
    let told = Event::CampaignCancelled(
        CampaignCancelled { campaign_id: id, refunded_amount: unpromised as i128 },
    );
    let t = s.wound_up(business, id);
    assert(t.log =~= s.log + seq![Effect::RequireAuth(business)] + sent + saving(
        DataKey::Campaign(id),
    ) + seq![Effect::Publish(told)]);
}

/// Expiring sends the business all that is escrowed and not committed, in one
/// payment and to the last unit, or nothing where all is committed. What is
/// committed stays, and so does every application.
pub proof fn law_expiring_returns_the_rest(s: EscrowState, business: Address, id: CampaignId)
    requires
        s.sound(),
        s.refusal(Call::ExpireCampaign { business, campaign_id: id }) is None,
    ensures
        ({
            let t = s.after(Call::ExpireCampaign { business, campaign_id: id });
            let c = s.campaigns[id];
            let d = t.campaigns[id];
            let unpromised = c.escrow_balance - c.committed_payouts;
            let sent = if unpromised > 0 {
                seq![
                    Effect::Transfer {
                        token: c.asset.token,
                        from: s.contract,
                        to: business,
                        amount: unpromised as i128,
                    },
                ]
            } else {
                seq![]
            };
            let told = Event::CampaignCancelled(
                CampaignCancelled { campaign_id: id, refunded_amount: unpromised as i128 },
            );
            &&& 0 <= unpromised <= c.escrow_balance
            &&& d.escrow_balance == c.escrow_balance - unpromised
            &&& d.committed_payouts == c.committed_payouts
            &&& d.status == CampaignStatus::Cancelled
            &&& d == (Campaign { escrow_balance: d.escrow_balance, status: d.status, ..c })
            &&& t.campaigns == s.campaigns.insert(id, d)
            &&& t.log == s.log + seq![Effect::RequireAuth(business)] + sent + saving(
                DataKey::Campaign(id),
            ) + seq![Effect::Publish(told)]
            &&& t == (EscrowState { campaigns: t.campaigns, log: t.log, ..s })
        }),
{
    reveal(EscrowState::refunded);
    lemma_own_key(s, Call::ExpireCampaign { business, campaign_id: id });
    let c = s.campaigns[id];
    let unpromised = c.escrow_balance - c.committed_payouts;
    let sent = if unpromised > 0 {
        seq![
            Effect::Transfer {
                token: c.asset.token,
                from: s.contract,
                to: business,
                amount: unpromised as i128,
            },
        ]
    } else {
        seq![]
    };
    let told = Event::CampaignCancelled(
        CampaignCancelled { campaign_id: id, refunded_amount: unpromised as i128 },
    );
    let t = s.wound_up(business, id);
    assert(t.log =~= s.log + seq![Effect::RequireAuth(business)] + sent + saving(
        DataKey::Campaign(id),
    ) + seq![Effect::Publish(told)]);
}

/// Recovering sends the treasury, and not the business, all that is escrowed
/// and not committed, in one payment and to the last unit, or nothing where
/// all is committed. What is committed stays, and so does every application.
pub proof fn law_recovering_sweeps_the_rest(s: EscrowState, admin: Address, id: CampaignId)
    requires
        s.sound(),
        s.refusal(Call::EmergencyRecoverCampaign { admin, campaign_id: id }) is None,
    ensures
        ({
            let t = s.after(Call::EmergencyRecoverCampaign { admin, campaign_id: id });
            let c = s.campaigns[id];
            let d = t.campaigns[id];
            let unpromised = c.escrow_balance - c.committed_payouts;
            let sent = if unpromised > 0 {
                seq![
                    Effect::Transfer {
                        token: c.asset.token,
                        from: s.contract,
                        to: s.treasury->0,
                        amount: unpromised as i128,
                    },
                ]
            } else {
                seq![]
            };
            let told = Event::EmergencyRecovery(
                EmergencyRecovery { campaign_id: id, amount: unpromised as i128 },
            );
            &&& 0 <= unpromised <= c.escrow_balance
            &&& s.treasury is Some
            &&& d.escrow_balance == c.escrow_balance - unpromised
            &&& d.committed_payouts == c.committed_payouts
            &&& d.status == CampaignStatus::Cancelled
            &&& d == (Campaign { escrow_balance: d.escrow_balance, status: d.status, ..c })
            &&& t.campaigns == s.campaigns.insert(id, d)
            &&& t.log == s.log + seq![Effect::RequireAuth(admin)] + sent + saving(
                DataKey::Campaign(id),
            ) + seq![Effect::Publish(told)]
            &&& t == (EscrowState { campaigns: t.campaigns, log: t.log, ..s })
        }),
{
    reveal(EscrowState::refunded);
    lemma_own_key(s, Call::EmergencyRecoverCampaign { admin, campaign_id: id });
    let c = s.campaigns[id];
    let unpromised = c.escrow_balance - c.committed_payouts;
    let sent = if unpromised > 0 {
        seq![
            Effect::Transfer {
                token: c.asset.token,
                from: s.contract,
                to: s.treasury->0,
                amount: unpromised as i128,
            },
        ]
    } else {
        seq![]
    };
    let told = Event::EmergencyRecovery(
        EmergencyRecovery { campaign_id: id, amount: unpromised as i128 },
    );
    let t = s.recovered(admin, id);
    assert(t.log =~= s.log + seq![Effect::RequireAuth(admin)] + sent + saving(
        DataKey::Campaign(id),
    ) + seq![Effect::Publish(told)]);
}

/// Reclaiming sends the business all that is escrowed and not committed, in one
/// payment and to the last unit, or nothing where all is committed. The
/// campaign goes on as it was while anything is committed, and is complete
/// otherwise.
pub proof fn law_reclaiming_returns_the_rest(s: EscrowState, business: Address, id: CampaignId)
    requires
        s.sound(),
        s.refusal(Call::ReclaimSurplus { business, campaign_id: id }) is None,
    ensures
        ({
            let t = s.after(Call::ReclaimSurplus { business, campaign_id: id });
            let c = s.campaigns[id];
            let d = t.campaigns[id];
            let unpromised = c.escrow_balance - c.committed_payouts;
            let sent = if unpromised > 0 {
                seq![
                    Effect::Transfer {
                        token: c.asset.token,
                        from: s.contract,
                        to: business,
                        amount: unpromised as i128,
                    },
                ]
            } else {
                seq![]
            };
            let told = Event::SurplusReclaimed(
                SurplusReclaimed { campaign_id: id, amount: unpromised as i128 },
            );
            &&& 0 <= unpromised <= c.escrow_balance
            &&& d.escrow_balance == c.escrow_balance - unpromised
            &&& d.committed_payouts == c.committed_payouts
            &&& d.status == (if c.committed_payouts > 0 {
                c.status
            } else {
                CampaignStatus::Completed
            })
            &&& d == (Campaign { escrow_balance: d.escrow_balance, status: d.status, ..c })
            &&& t.campaigns == s.campaigns.insert(id, d)
            &&& t.log == s.log + seq![Effect::RequireAuth(business)] + sent + saving(
                DataKey::Campaign(id),
            ) + seq![Effect::Publish(told)]
            &&& t == (EscrowState { campaigns: t.campaigns, log: t.log, ..s })
        }),
{
    reveal(EscrowState::refunded);
    lemma_own_key(s, Call::ReclaimSurplus { business, campaign_id: id });
    let c = s.campaigns[id];
    let unpromised = c.escrow_balance - c.committed_payouts;
    let sent = if unpromised > 0 {
        seq![
            Effect::Transfer {
                token: c.asset.token,
                from: s.contract,
                to: business,
                amount: unpromised as i128,
            },
        ]
    } else {
        seq![]
    };
    let told = Event::SurplusReclaimed(
        SurplusReclaimed { campaign_id: id, amount: unpromised as i128 },
    );
    let t = s.reclaimed(business, id);
    assert(t.log =~= s.log + seq![Effect::RequireAuth(business)] + sent + saving(
        DataKey::Campaign(id),
    ) + seq![Effect::Publish(told)]);
}

/// Past the content deadline expiring and cancelling are the same: each is open
/// where the other is, and they leave the same behind.
pub proof fn law_expiring_is_late_cancelling(s: EscrowState, business: Address, id: CampaignId)
    requires
        s.now > s.campaigns[id].completion_deadline,
    ensures
        ({
            let cancel = Call::CancelCampaign { business, campaign_id: id };
            let expire = Call::ExpireCampaign { business, campaign_id: id };
            &&& s.refusal(expire) == s.refusal(cancel)
            &&& s.after(expire) == s.after(cancel)
        }),
{
    reveal(EscrowState::refunded);
}

/// After unallocated budget was returned there is none left: returning it again
/// is refused, or sends nothing.
pub proof fn law_nothing_is_returned_twice(s: EscrowState, call: Call, again: Call, i: int)
    requires
        s.sound(),
        call.refunds(),
        s.refusal(call) is None,
        again.refunds(),
        again.campaign() == call.campaign(),
        s.after(call).log.len() <= i < s.after(call).after(again).log.len(),
    ensures
        !(s.after(call).after(again).log[i] is Transfer),
{
    reveal(EscrowState::refunded);
    lemma_own_key(s, call);
}

} // verus!
