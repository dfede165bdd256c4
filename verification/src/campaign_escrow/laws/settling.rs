//! Laws on the two ways in which a payout is settled, by claim and by the
//! admin's word: when each is accepted, for what else it is refused, and who
//! gets how much.
use vstd::prelude::*;

use crate::campaign_escrow::amounts::lemma_share_bounds;
use crate::campaign_escrow::calls::Call;
use crate::campaign_escrow::env::{Effect, EscrowState};
use crate::campaign_escrow::error::Error;
use crate::campaign_escrow::events::{DisputeResolved, Event, PaymentReleased};
use crate::campaign_escrow::laws::books::{
    law_time_keeps_sound, lemma_owed_is_committed, lemma_own_key,
};
use crate::campaign_escrow::laws::log::saving;
use crate::campaign_escrow::storage::DataKey;
use crate::campaign_escrow::types::{Application, Campaign, DisputeResolution};
use crate::shared::{Address, ApplicationStatus, CampaignId, CampaignStatus, DisputeOutcome};

verus! {

/// A payout is released exactly when the contract runs, the creator's proof is
/// under review and not frozen, the business has approved it or the content
/// deadline has passed, and the fee on it can be computed. Where the books are
/// in order, nothing else stands in the way.
pub proof fn law_claiming_is_decided(s: EscrowState, creator: Address, id: CampaignId)
    ensures
        ({
            let r = s.refusal(Call::ClaimPayment { creator, campaign_id: id });
            let c = s.campaigns[id];
            let a = s.applications[(id, creator)];
            let payout = a.payout_amount as int;
            let product = payout * c.fee_bps;
            let fee = if product >= 0 {
                product / 10_000
            } else {
                -(-product / 10_000)
            };
            let running = s.paused != Some(true);
            let known = running && s.campaigns.contains_key(id);
            let applied = known && s.applications.contains_key((id, creator));
            let free = applied && !a.frozen;
            let payable = free && a.status == ApplicationStatus::ProofSubmitted && (a.proof_approved
                || s.now > c.completion_deadline);
            let charged = payable && i128::MIN <= product <= i128::MAX && i128::MIN <= payout - fee
                <= i128::MAX;
            let banked = charged && (fee <= 0 || s.treasury is Some);
            let accepted = banked && i128::MIN <= c.escrow_balance - payout <= i128::MAX
                && i128::MIN <= c.committed_payouts - payout <= i128::MAX;
            &&& r is None <==> accepted
            &&& r == Some(Error::ContractPaused) <==> !running
            &&& r == Some(Error::CampaignNotFound) <==> running && !known
            &&& r == Some(Error::ApplicationNotFound) <==> known && !applied
            &&& r == Some(Error::PayoutFrozen) <==> applied && !free
            &&& r == Some(Error::SubmissionNotPayable) <==> free && !payable
            &&& r == Some(Error::InvalidAmount) <==> payable && !charged || banked && !accepted
            &&& r == Some(Error::NotInitialized) <==> charged && !banked
            &&& s.sound() && payable && product <= i128::MAX ==> accepted
        }),
{
    if s.sound() && s.applications.contains_key((id, creator)) {
        lemma_own_key(s, Call::ClaimPayment { creator, campaign_id: id });
        assert(s.campaigns.contains_key(id));
        let payout = s.applications[(id, creator)].payout_amount as int;
        lemma_share_bounds(payout, s.campaigns[id].fee_bps as int);
        lemma_owed_is_committed(s, (id, creator));
        lemma_no_negative_product(payout, s.campaigns[id].fee_bps as int);
    }
}

proof fn lemma_no_negative_product(a: int, b: int)
    requires
        0 <= a,
        0 <= b,
    ensures
        0 <= a * b,
{
    assert(0 <= a * b) by (nonlinear_arith)
        requires
            0 <= a,
            0 <= b,
    ;
}

/// Up to and including the content deadline a proof that the business has not
/// approved cannot be claimed on; from the moment after, its silence is
/// approval. Nothing that came before makes a difference.
pub proof fn law_silence_is_approval_only_past_the_deadline(
    s: EscrowState,
    creator: Address,
    id: CampaignId,
    now: u64,
    tokens: Seq<Address>,
)
    requires
        s.sound(),
        s.now <= now,
        s.paused != Some(true),
        s.applications.contains_key((id, creator)),
        s.applications[(id, creator)].status == ApplicationStatus::ProofSubmitted,
        !s.applications[(id, creator)].proof_approved,
        !s.applications[(id, creator)].frozen,
        s.applications[(id, creator)].payout_amount * s.campaigns[id].fee_bps <= i128::MAX,
    ensures
        ({
            let r = s.at(now, tokens).refusal(Call::ClaimPayment { creator, campaign_id: id });
            &&& now <= s.campaigns[id].completion_deadline ==> r == Some(
                Error::SubmissionNotPayable,
            )
            &&& now > s.campaigns[id].completion_deadline ==> r is None
        }),
{
    law_claiming_is_decided(s.at(now, tokens), creator, id);
    law_time_keeps_sound(s, now, tokens);
    assert(s.application_sound((id, creator)));
}

/// A claim pays out exactly the agreed payout, in the campaign's asset: the
/// fee, rounded down, to the treasury, and all the rest to the creator. The
/// escrow and the commitment fall by the payout, and a campaign with nothing
/// left in escrow is complete.
pub proof fn law_claiming_pays_fee_and_net(s: EscrowState, creator: Address, id: CampaignId)
    requires
        s.sound(),
        s.refusal(Call::ClaimPayment { creator, campaign_id: id }) is None,
    ensures
        ({
            let t = s.after(Call::ClaimPayment { creator, campaign_id: id });
            let c = s.campaigns[id];
            let d = t.campaigns[id];
            let a = s.applications[(id, creator)];
            let b = t.applications[(id, creator)];
            let payout = a.payout_amount as int;
            let fee = payout * c.fee_bps / 10_000;
            let to_treasury = if fee > 0 {
                seq![
                    Effect::Transfer {
                        token: c.asset.token,
                        from: s.contract,
                        to: s.treasury->0,
                        amount: fee as i128,
                    },
                ]
            } else {
                seq![]
            };
            let to_creator = Effect::Transfer {
                token: c.asset.token,
                from: s.contract,
                to: creator,
                amount: (payout - fee) as i128,
            };
            let told = Event::PaymentReleased(
                PaymentReleased { campaign_id: id, creator, amount: (payout - fee) as i128 },
            );
            &&& 0 <= fee <= payout
            &&& payout > 0
            &&& s.treasury is Some
            &&& b.status == ApplicationStatus::Paid
            &&& b == (Application { status: b.status, ..a })
            &&& t.applications == s.applications.insert((id, creator), b)
            &&& d.escrow_balance == c.escrow_balance - payout
            &&& d.committed_payouts == c.committed_payouts - payout
            &&& d.status == (if c.escrow_balance == payout {
                CampaignStatus::Completed
            } else {
                c.status
            })
            &&& d == (Campaign {
                escrow_balance: d.escrow_balance,
                committed_payouts: d.committed_payouts,
                status: d.status,
                ..c
            })
            &&& t.campaigns == s.campaigns.insert(id, d)
            &&& t.log == s.log + seq![Effect::RequireAuth(creator)] + to_treasury + seq![
                to_creator,
            ] + saving(DataKey::Application(id, creator)) + saving(DataKey::Campaign(id)) + seq![
                Effect::Publish(told),
            ]
            &&& t == (EscrowState {
                campaigns: t.campaigns,
                applications: t.applications,
                log: t.log,
                ..s
            })
        }),
{
    reveal(EscrowState::settled);
    lemma_own_key(s, Call::ClaimPayment { creator, campaign_id: id });
    lemma_owed_is_committed(s, (id, creator));
    let c = s.campaigns[id];
    let a = s.applications[(id, creator)];
    let payout = a.payout_amount as int;
    let fee = payout * c.fee_bps / 10_000;
    let to_treasury = if fee > 0 {
        seq![
            Effect::Transfer {
                token: c.asset.token,
                from: s.contract,
                to: s.treasury->0,
                amount: fee as i128,
            },
        ]
    } else {
        seq![]
    };
    let to_creator = Effect::Transfer {
        token: c.asset.token,
        from: s.contract,
        to: creator,
        amount: (payout - fee) as i128,
    };
    let told = Event::PaymentReleased(
        PaymentReleased { campaign_id: id, creator, amount: (payout - fee) as i128 },
    );
    lemma_share_bounds(payout, c.fee_bps as int);
    lemma_no_negative_product(payout, c.fee_bps as int);
    let t = s.claimed(creator, id);
    assert(t.log =~= s.log + seq![Effect::RequireAuth(creator)] + to_treasury + seq![
        to_creator,
    ] + saving(DataKey::Application(id, creator)) + saving(DataKey::Campaign(id)) + seq![
        Effect::Publish(told),
    ]);
}

/// A contested payout is settled exactly when the contract runs, the admin
/// asks, the campaign is neither cancelled nor completed, the creator is owed a
/// payout over which a dispute has been open for at least seventy-two hours,
/// and the shares can be computed, of which a split names between nothing and
/// the whole. Where the books are in order, nothing else stands in the way.
pub proof fn law_settling_is_decided(
    s: EscrowState,
    admin: Address,
    id: CampaignId,
    creator: Address,
    resolution: DisputeResolution,
)
    ensures
        ({
            let r = s.refusal(
                Call::ResolveDispute { admin, campaign_id: id, creator, resolution },
            );
            let c = s.campaigns[id];
            let a = s.applications[(id, creator)];
            let payout = a.payout_amount as int;
            let running = s.paused != Some(true);
            let set_up = running && s.admin is Some;
            let entitled = set_up && s.admin == Some(admin);
            let known = entitled && s.campaigns.contains_key(id);
            let open = known && c.status != CampaignStatus::Cancelled && c.status
                != CampaignStatus::Completed;
            let applied = open && s.applications.contains_key((id, creator));
            let owed = applied && a.status != ApplicationStatus::Paid && payout > 0;
            let contested = owed && a.dispute_opened_at is Some;
            let ends = contested && a.dispute_opened_at->0 + 259_200 <= u64::MAX;
            let heard = ends && a.dispute_opened_at->0 + 259_200 <= s.now;
            let in_scale = heard && match resolution {
                DisputeResolution::Split(bps) => 0 <= bps <= 10_000 && payout * bps <= i128::MAX,
                _ => true,
            };
            let gross = match resolution {
                DisputeResolution::PayCreator => payout,
                DisputeResolution::RefundBusiness => 0,
                DisputeResolution::Split(bps) => payout * bps / 10_000,
            };
            let product = gross * c.fee_bps;
            let fee = if product >= 0 {
                product / 10_000
            } else {
                -(-product / 10_000)
            };
            let charged = in_scale && i128::MIN <= product <= i128::MAX && i128::MIN <= gross - fee
                <= i128::MAX;
            let banked = charged && (fee <= 0 || s.treasury is Some);
            let accepted = banked && i128::MIN <= c.escrow_balance - payout <= i128::MAX
                && i128::MIN <= c.committed_payouts - payout <= i128::MAX;
            &&& r is None <==> accepted
            &&& r == Some(Error::ContractPaused) <==> !running
            &&& r == Some(Error::NotInitialized) <==> running && !set_up || charged && !banked
            &&& r == Some(Error::Unauthorized) <==> set_up && !entitled
            &&& r == Some(Error::CampaignNotFound) <==> entitled && !known
            &&& r == Some(Error::InvalidStatus) <==> known && !open
            &&& r == Some(Error::ApplicationNotFound) <==> open && !applied
            &&& r == Some(Error::SubmissionNotPayable) <==> applied && !owed
            &&& r == Some(Error::NoDisputeOpen) <==> owed && !contested
            &&& r == Some(Error::EvidenceWindowOpen) <==> ends && !heard
            &&& r == Some(Error::InvalidAmount) <==> contested && !ends || heard && !charged
                || banked && !accepted
            &&& s.sound() && in_scale && product <= i128::MAX ==> accepted
        }),
{
    let payout = s.applications[(id, creator)].payout_amount as int;
    let fee_bps = s.campaigns[id].fee_bps as int;
    let gross = match resolution {
        DisputeResolution::PayCreator => payout,
        DisputeResolution::RefundBusiness => 0,
        DisputeResolution::Split(bps) => payout * bps / 10_000,
    };
    let scaled = match resolution {
        DisputeResolution::Split(bps) => 0 <= bps <= 10_000,
        _ => true,
    };
    if payout > 0 && scaled {
        if let DisputeResolution::Split(bps) = resolution {
            lemma_no_negative_product(payout, bps as int);
            lemma_share_bounds(payout, bps as int);
        }
        assert(0 <= gross <= payout);
        if s.sound() && s.applications.contains_key((id, creator)) {
            lemma_own_key(s, Call::ResolveDispute { admin, campaign_id: id, creator, resolution });
            assert(s.campaigns.contains_key(id));
            lemma_owed_is_committed(s, (id, creator));
            lemma_share_bounds(gross, fee_bps);
            lemma_no_negative_product(gross, fee_bps);
        }
    }
}

/// A settlement pays out exactly the contested payout, in the campaign's asset.
/// The creator's part is all of it, nothing, or the named ten-thousandths of
/// it, rounded down; the fee on that part, rounded down, goes to the treasury,
/// what is left of it to the creator, and everything else to the business. The
/// dispute is over, and the arbitration contract is told how it ended.
pub proof fn law_settling_pays_each_their_part(
    s: EscrowState,
    admin: Address,
    id: CampaignId,
    creator: Address,
    resolution: DisputeResolution,
)
    requires
        s.sound(),
        s.refusal(Call::ResolveDispute { admin, campaign_id: id, creator, resolution }) is None,
    ensures
        ({
            let t = s.after(Call::ResolveDispute { admin, campaign_id: id, creator, resolution });
            let c = s.campaigns[id];
            let d = t.campaigns[id];
            let a = s.applications[(id, creator)];
            let b = t.applications[(id, creator)];
            let payout = a.payout_amount as int;
            let gross = match resolution {
                DisputeResolution::PayCreator => payout,
                DisputeResolution::RefundBusiness => 0,
                DisputeResolution::Split(bps) => payout * bps / 10_000,
            };
            let fee = gross * c.fee_bps / 10_000;
            let net = gross - fee;
            let rest = payout - gross;
            let outcome = match resolution {
                DisputeResolution::PayCreator => DisputeOutcome::PayCreator,
                DisputeResolution::RefundBusiness => DisputeOutcome::RefundBusiness,
                DisputeResolution::Split(bps) => DisputeOutcome::Split(bps),
            };
            let to_treasury = if fee > 0 {
                seq![
                    Effect::Transfer {
                        token: c.asset.token,
                        from: s.contract,
                        to: s.treasury->0,
                        amount: fee as i128,
                    },
                ]
            } else {
                seq![]
            };
            let to_creator = if net > 0 {
                seq![
                    Effect::Transfer {
                        token: c.asset.token,
                        from: s.contract,
                        to: creator,
                        amount: net as i128,
                    },
                ]
            } else {
                seq![]
            };
            let to_business = if rest > 0 {
                seq![
                    Effect::Transfer {
                        token: c.asset.token,
                        from: s.contract,
                        to: c.business,
                        amount: rest as i128,
                    },
                ]
            } else {
                seq![]
            };
            let reported = Effect::CloseDispute {
                dispute_contract: s.dispute_contract->0,
                caller: s.contract,
                campaign_id: id,
                creator,
                outcome,
            };
            let told = Event::DisputeResolved(
                DisputeResolved {
                    campaign_id: id,
                    creator,
                    dispute_outcome: outcome,
                    creator_amount: net as i128,
                    business_amount: rest as i128,
                },
            );
            &&& 0 <= fee
            &&& 0 <= net
            &&& 0 <= rest
            &&& payout > 0
            &&& s.treasury is Some
            &&& s.dispute_contract is Some
            &&& b.status == ApplicationStatus::Paid
            &&& !b.frozen
            &&& b.dispute_opened_at is None
            &&& b == (Application {
                status: b.status,
                frozen: b.frozen,
                dispute_opened_at: b.dispute_opened_at,
                ..a
            })
            &&& t.applications == s.applications.insert((id, creator), b)
            &&& d.escrow_balance == c.escrow_balance - payout
            &&& d.committed_payouts == c.committed_payouts - payout
            &&& d.status == (if c.escrow_balance == payout {
                CampaignStatus::Completed
            } else {
                c.status
            })
            &&& d == (Campaign {
                escrow_balance: d.escrow_balance,
                committed_payouts: d.committed_payouts,
                status: d.status,
                ..c
            })
            &&& t.campaigns == s.campaigns.insert(id, d)
            &&& t.log == s.log + seq![Effect::RequireAuth(admin)] + to_treasury + to_creator
                + to_business + saving(DataKey::Application(id, creator)) + saving(
                DataKey::Campaign(id),
            ) + seq![reported, Effect::Publish(told)]
            &&& t == (EscrowState {
                campaigns: t.campaigns,
                applications: t.applications,
                log: t.log,
                ..s
            })
        }),
{
    reveal(EscrowState::settled);
    lemma_own_key(s, Call::ResolveDispute { admin, campaign_id: id, creator, resolution });
    lemma_owed_is_committed(s, (id, creator));
    let c = s.campaigns[id];
    let a = s.applications[(id, creator)];
    let payout = a.payout_amount as int;
    let gross = match resolution {
        DisputeResolution::PayCreator => payout,
        DisputeResolution::RefundBusiness => 0,
        DisputeResolution::Split(bps) => payout * bps / 10_000,
    };
    let fee = gross * c.fee_bps / 10_000;
    let net = gross - fee;
    let rest = payout - gross;
    let outcome = match resolution {
        DisputeResolution::PayCreator => DisputeOutcome::PayCreator,
        DisputeResolution::RefundBusiness => DisputeOutcome::RefundBusiness,
        DisputeResolution::Split(bps) => DisputeOutcome::Split(bps),
    };
    let to_treasury = if fee > 0 {
        seq![
            Effect::Transfer {
                token: c.asset.token,
                from: s.contract,
                to: s.treasury->0,
                amount: fee as i128,
            },
        ]
    } else {
        seq![]
    };
    let to_creator = if net > 0 {
        seq![
            Effect::Transfer {
                token: c.asset.token,
                from: s.contract,
                to: creator,
                amount: net as i128,
            },
        ]
    } else {
        seq![]
    };
    let to_business = if rest > 0 {
        seq![
            Effect::Transfer {
                token: c.asset.token,
                from: s.contract,
                to: c.business,
                amount: rest as i128,
            },
        ]
    } else {
        seq![]
    };
    let reported = Effect::CloseDispute {
        dispute_contract: s.dispute_contract->0,
        caller: s.contract,
        campaign_id: id,
        creator,
        outcome,
    };
    let told = Event::DisputeResolved(
        DisputeResolved {
            campaign_id: id,
            creator,
            dispute_outcome: outcome,
            creator_amount: net as i128,
            business_amount: rest as i128,
        },
    );
    if let DisputeResolution::Split(bps) = resolution {
        lemma_no_negative_product(payout, bps as int);
        lemma_share_bounds(payout, bps as int);
    }
    lemma_share_bounds(gross, c.fee_bps as int);
    lemma_no_negative_product(gross, c.fee_bps as int);
    let t = s.resolved(admin, id, creator, resolution);
    assert(t.log =~= s.log + seq![Effect::RequireAuth(admin)] + to_treasury + to_creator
        + to_business + saving(DataKey::Application(id, creator)) + saving(
        DataKey::Campaign(id),
    ) + seq![reported, Effect::Publish(told)]);
}

/// A split spans the scale between the two other ways to settle. Where it gives
/// the creator everything, the same is paid and recorded as where the creator
/// is paid; where it gives them nothing, as where the business is refunded.
/// Only the name of the outcome, in the report and the event, differs.
pub proof fn law_split_spans_the_scale(
    s: EscrowState,
    admin: Address,
    id: CampaignId,
    creator: Address,
    whole: bool,
)
    requires
        s.sound(),
        s.refusal(
            Call::ResolveDispute {
                admin,
                campaign_id: id,
                creator,
                resolution: DisputeResolution::Split(
                    if whole {
                        10_000
                    } else {
                        0
                    },
                ),
            },
        ) is None,
    ensures
        ({
            let split = Call::ResolveDispute {
                admin,
                campaign_id: id,
                creator,
                resolution: DisputeResolution::Split(
                    if whole {
                        10_000
                    } else {
                        0
                    },
                ),
            };
            let plain = Call::ResolveDispute {
                admin,
                campaign_id: id,
                creator,
                resolution: if whole {
                    DisputeResolution::PayCreator
                } else {
                    DisputeResolution::RefundBusiness
                },
            };
            let t = s.after(split);
            let u = s.after(plain);
            let paid = t.log.len() - 2;
            &&& s.refusal(plain) is None
            &&& t.log.len() == u.log.len()
            &&& t.log.take(paid) == u.log.take(paid)
            &&& t == (EscrowState { log: t.log, ..u })
        }),
{
    let bps: i128 = if whole {
        10_000
    } else {
        0
    };
    let plain = if whole {
        DisputeResolution::PayCreator
    } else {
        DisputeResolution::RefundBusiness
    };
    let payout = s.applications[(id, creator)].payout_amount as int;
    assert(payout * 10_000 / 10_000 == payout);
    law_settling_is_decided(s, admin, id, creator, DisputeResolution::Split(bps));
    law_settling_is_decided(s, admin, id, creator, plain);
    law_settling_pays_each_their_part(s, admin, id, creator, DisputeResolution::Split(bps));
    law_settling_pays_each_their_part(s, admin, id, creator, plain);
    let t = s.after(
        Call::ResolveDispute {
            admin,
            campaign_id: id,
            creator,
            resolution: DisputeResolution::Split(bps),
        },
    );
    let u = s.after(
        Call::ResolveDispute { admin, campaign_id: id, creator, resolution: plain },
    );
    assert(t.log.take(t.log.len() - 2) =~= u.log.take(u.log.len() - 2));
}

} // verus!
