//! The contract holds what its books say it holds.
use vstd::prelude::*;

use crate::campaign_escrow::amounts::lemma_share_bounds;
use crate::campaign_escrow::calls::{possible, run, Call, Step};
use crate::campaign_escrow::env::{Effect, EscrowState};
use crate::campaign_escrow::laws::books::{
    law_deployed_is_sound, law_runs_keep_sound, law_time_keeps_sound, lemma_owed_is_committed,
};
use crate::campaign_escrow::laws::frame::law_settings_and_records_are_apart;
use crate::campaign_escrow::laws::payouts::law_settlement_adds_up;
use crate::campaign_escrow::totals::{lemma_total_insert, total};
use crate::campaign_escrow::types::Campaign;
use crate::shared::{Address, CampaignId};

verus! {

/// By how much a request raises the contract's holding of a token.
pub open spec fn flow(effect: Effect, contract: Address, token: Address) -> int {
    match effect {
        Effect::Transfer { token: moved, from, to, amount } => if moved == token {
            (if to == contract {
                amount as int
            } else {
                0
            }) - (if from == contract {
                amount as int
            } else {
                0
            })
        } else {
            0
        },
        _ => 0,
    }
}

/// What the contract holds of a token once the log has been performed.
pub open spec fn held(log: Seq<Effect>, contract: Address, token: Address) -> int
    decreases log.len(),
{
    if log.len() == 0 {
        0
    } else {
        held(log.drop_last(), contract, token) + flow(log.last(), contract, token)
    }
}

/// What a campaign adds to the contract's liability in a token.
pub open spec fn escrowed_in(token: Address) -> spec_fn(CampaignId, Campaign) -> int {
    |id: CampaignId, c: Campaign|
        if c.asset.token == token {
            c.escrow_balance as int
        } else {
            0
        }
}

impl EscrowState {
    /// Whether the contract holds, of every token, at least what is recorded
    /// as escrowed for its campaigns.
    pub open spec fn solvent(self) -> bool {
        forall|token: Address| #[trigger]
            held(self.log, self.contract, token) >= total(self.campaigns, escrowed_in(token))
    }
}

pub broadcast proof fn lemma_held_push(
    log: Seq<Effect>,
    effect: Effect,
    contract: Address,
    token: Address,
)
    ensures
        #[trigger] held(log.push(effect), contract, token) == held(log, contract, token) + flow(
            effect,
            contract,
            token,
        ),
{
    assert(log.push(effect).drop_last() =~= log);
}

/// Every call keeps the contract solvent. (Where a campaign's business is the
/// contract itself, funding it would move nothing.)
pub proof fn law_calls_keep_solvent(s: EscrowState, call: Call)
    requires
        s.sound(),
        s.solvent(),
        call is FundCampaign ==> call.actor() != s.contract,
    ensures
        s.after(call).solvent(),
{
    broadcast use lemma_held_push;

    let t = s.after(call);
    if s.refusal(call) is None {
        match call {
            Call::CreateCampaign { .. } => {
                reveal(EscrowState::recruited);
                let id = s.next_id();
                if s.campaigns.contains_key(id) {
                    assert(s.campaign_sound(id));
                }
                assert forall|token: Address| #[trigger]
                    held(t.log, t.contract, token) >= total(t.campaigns, escrowed_in(token)) by {
                    lemma_total_insert(s.campaigns, escrowed_in(token), id, t.campaigns[id]);
                    assert(held(s.log, s.contract, token) >= total(
                        s.campaigns,
                        escrowed_in(token),
                    ));
                }
            },
            Call::ClaimPayment { creator, campaign_id } => {
                reveal(EscrowState::settled);
                let key = (campaign_id, creator);
                let a = s.applications[key];
                let c = s.campaigns[campaign_id];
                assert(s.campaign_sound(campaign_id));
                assert(s.application_sound(key));
                lemma_owed_is_committed(s, key);
                lemma_share_bounds(a.payout_amount as int, c.fee_bps as int);
                assert forall|token: Address| #[trigger]
                    held(t.log, t.contract, token) >= total(t.campaigns, escrowed_in(token)) by {
                    lemma_total_insert(
                        s.campaigns,
                        escrowed_in(token),
                        campaign_id,
                        t.campaigns[campaign_id],
                    );
                    assert(held(s.log, s.contract, token) >= total(
                        s.campaigns,
                        escrowed_in(token),
                    ));
                }
            },
            _ => {
                if call.administrative() {
                    lemma_administrative_calls_keep_solvent(s, call);
                } else {
                    lemma_other_calls_keep_solvent(s, call);
                }
            },
        }
    } else {
        assert forall|token: Address| #[trigger]
            held(t.log, t.contract, token) >= total(t.campaigns, escrowed_in(token)) by {
            assert(held(s.log, s.contract, token) >= total(s.campaigns, escrowed_in(token)));
        }
    }
}

proof fn lemma_other_calls_keep_solvent(s: EscrowState, call: Call)
    requires
        s.sound(),
        s.solvent(),
        call is FundCampaign ==> call.actor() != s.contract,
        s.refusal(call) is None,
        !call.administrative(),
        !(call is CreateCampaign),
        !(call is ClaimPayment),
    ensures
        s.after(call).solvent(),
{
    broadcast use lemma_held_push;

    let t = s.after(call);
    let id = call.campaign()->0;
    assert(s.campaign_sound(id));
    if call.recruits() {
        reveal(EscrowState::recruited);
    } else if call.reviews() {
        reveal(EscrowState::reviewed);
    } else if call.refunds() {
        reveal(EscrowState::refunded);
    } else if call.settles() {
        reveal(EscrowState::settled);
    }
    if let Call::ResolveDispute { campaign_id, creator, resolution, .. } = call {
        let key = (campaign_id, creator);
        assert(s.application_sound(key));
        lemma_owed_is_committed(s, key);
        law_settlement_adds_up(
            s.applications[key].payout_amount as int,
            resolution,
            s.campaigns[campaign_id].fee_bps as int,
        );
    }
    assert forall|token: Address| #[trigger]
        held(t.log, t.contract, token) >= total(t.campaigns, escrowed_in(token)) by {
        assert(held(s.log, s.contract, token) >= total(s.campaigns, escrowed_in(token)));
        lemma_total_insert(s.campaigns, escrowed_in(token), id, t.campaigns[id]);
        assert(s.campaigns.insert(id, s.campaigns[id]) =~= s.campaigns);
    }
}

proof fn lemma_administrative_calls_keep_solvent(s: EscrowState, call: Call)
    requires
        s.solvent(),
        call.administrative(),
        s.refusal(call) is None,
    ensures
        s.after(call).solvent(),
{
    broadcast use lemma_held_push;

    reveal(EscrowState::administered);
    law_settings_and_records_are_apart(s, call);
    let t = s.after(call);
    assert forall|token: Address| #[trigger]
        held(t.log, t.contract, token) >= total(t.campaigns, escrowed_in(token)) by {
        assert(held(s.log, s.contract, token) >= total(s.campaigns, escrowed_in(token)));
    }
}

/// Any series of calls, in which the contract does not fund a campaign of its
/// own, keeps the contract solvent.
pub proof fn law_runs_keep_solvent(start: EscrowState, steps: Seq<Step>)
    requires
        start.sound(),
        start.solvent(),
        possible(start, steps),
        forall|i: int|
            0 <= i < steps.len() && (#[trigger] steps[i]).call is FundCampaign
                ==> steps[i].call.actor() != start.contract,
    ensures
        run(start, steps).contract == start.contract,
        run(start, steps).solvent(),
    decreases steps.len(),
{
    if steps.len() > 0 {
        let earlier_steps = steps.drop_last();
        let earlier = run(start, earlier_steps);
        let step = steps.last();
        assert forall|i: int|
            0 <= i < earlier_steps.len() && (
            #[trigger] earlier_steps[i]).call is FundCampaign implies earlier_steps[i].call.actor()
            != start.contract by {
            assert(steps[i].call is FundCampaign);
        }
        law_runs_keep_solvent(start, earlier_steps);
        law_runs_keep_sound(start, earlier_steps);
        law_time_keeps_sound(earlier, step.now, step.tokens);
        let moment = earlier.at(step.now, step.tokens);
        assert forall|token: Address| #[trigger]
            held(moment.log, moment.contract, token) >= total(
                moment.campaigns,
                escrowed_in(token),
            ) by {
            assert(held(earlier.log, earlier.contract, token) >= total(
                earlier.campaigns,
                escrowed_in(token),
            ));
        }
        assert(steps[steps.len() - 1] == step);
        law_calls_keep_solvent(moment, step.call);
        law_settings_and_records_are_apart(moment, step.call);
    }
}

/// Whatever has been called since a contract was deployed, but for funding a
/// campaign of its own, it holds what its campaigns are recorded to have in
/// escrow.
pub proof fn law_contract_is_always_solvent(contract: Address, now: u64, steps: Seq<Step>)
    requires
        possible(EscrowState::deployed(contract, now), steps),
        forall|i: int|
            0 <= i < steps.len() && (#[trigger] steps[i]).call is FundCampaign
                ==> steps[i].call.actor() != contract,
    ensures
        run(EscrowState::deployed(contract, now), steps).solvent(),
{
    let start = EscrowState::deployed(contract, now);
    assert forall|token: Address| #[trigger]
        held(start.log, start.contract, token) >= total(start.campaigns, escrowed_in(token)) by {
    }
    law_deployed_is_sound(contract, now);
    law_runs_keep_solvent(start, steps);
}

/// Every unit that enters or leaves the contract is entered in its books, and
/// the other way round: a call changes what the contract holds of a token by
/// just what it changes the recorded escrow by. Nothing is held that is
/// recorded for no campaign, where nothing was before. (A payment of the
/// contract to itself would move nothing, so its own address is left out.)
pub proof fn law_nothing_is_stranded(s: EscrowState, call: Call, token: Address)
    requires
        s.sound(),
        s.countable(call),
        s.treasury != Some(s.contract),
        call.campaign() matches Some(id) ==> s.campaigns[id].business != s.contract,
        call.application() matches Some(key) ==> key.1 != s.contract,
    ensures
        ({
            let t = s.after(call);
            held(t.log, s.contract, token) - held(s.log, s.contract, token) == total(
                t.campaigns,
                escrowed_in(token),
            ) - total(s.campaigns, escrowed_in(token))
        }),
{
    broadcast use lemma_held_push;

    if s.refusal(call) is Some {
        assert(s.after(call).campaigns == s.campaigns);
    } else if call.administrative() {
        reveal(EscrowState::administered);
        law_settings_and_records_are_apart(s, call);
    } else if call is CreateCampaign {
        reveal(EscrowState::recruited);
        let id = s.next_id();
        if s.campaigns.contains_key(id) {
            assert(s.campaign_sound(id));
        }
        lemma_total_insert(s.campaigns, escrowed_in(token), id, s.after(call).campaigns[id]);
    } else if call.settles() {
        lemma_settling_strands_nothing(s, call, token);
    } else {
        let id = call.campaign()->0;
        assert(s.campaign_sound(id));
        if call.recruits() {
            reveal(EscrowState::recruited);
        } else if call.reviews() {
            reveal(EscrowState::reviewed);
        } else {
            reveal(EscrowState::refunded);
        }
        lemma_total_insert(s.campaigns, escrowed_in(token), id, s.after(call).campaigns[id]);
        assert(s.campaigns.insert(id, s.campaigns[id]) =~= s.campaigns);
    }
}

proof fn lemma_settling_strands_nothing(s: EscrowState, call: Call, token: Address)
    requires
        s.sound(),
        s.refusal(call) is None,
        call.settles(),
        s.treasury != Some(s.contract),
        s.campaigns[call.campaign()->0].business != s.contract,
        call.application() matches Some(key) ==> key.1 != s.contract,
    ensures
        ({
            let t = s.after(call);
            held(t.log, s.contract, token) - held(s.log, s.contract, token) == total(
                t.campaigns,
                escrowed_in(token),
            ) - total(s.campaigns, escrowed_in(token))
        }),
{
    broadcast use lemma_held_push;

    reveal(EscrowState::settled);
    let key = call.application()->0;
    let payout = s.applications[key].payout_amount as int;
    let fee_bps = s.campaigns[key.0].fee_bps as int;
    assert(s.campaign_sound(key.0));
    assert(s.application_sound(key));
    lemma_owed_is_committed(s, key);
    if let Call::ResolveDispute { resolution, .. } = call {
        law_settlement_adds_up(payout, resolution, fee_bps);
    } else {
        lemma_share_bounds(payout, fee_bps);
    }
    lemma_total_insert(s.campaigns, escrowed_in(token), key.0, s.after(call).campaigns[key.0]);
}

} // verus!
