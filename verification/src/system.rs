//! The escrow and the arbitration contract at work together.
use vstd::prelude::*;

use crate::campaign_escrow::calls::Call as EscrowCall;
use crate::campaign_escrow::env::{Effect, EscrowState};
use crate::campaign_escrow::error::Error;
use crate::campaign_escrow::laws::books;
use crate::campaign_escrow::laws::disputes::law_frozen_is_untouched;
use crate::campaign_escrow::laws::frame::law_settings_and_records_are_apart;
use crate::campaign_escrow::laws::governance::law_settings_change_by_admin;
use crate::campaign_escrow::types::Campaign;
use crate::dispute_resolution::calls::Call as DisputeCall;
use crate::dispute_resolution::env::DisputeState;
use crate::dispute_resolution::laws;
use crate::shared::{Address, CampaignId, DisputeStatus, BASIS_POINTS_DENOMINATOR};

verus! {

/// The two contracts.
pub struct System {
    pub escrow: EscrowState,
    pub disputes: DisputeState,
}

/// A call of either contract from outside.
pub enum SystemCall {
    Escrow(EscrowCall),
    Disputes(DisputeCall),
}

/// The freeze that a dispute makes the escrow perform.
pub open spec fn freeze_of(call: DisputeCall, caller: Address) -> EscrowCall {
    EscrowCall::FreezeForDispute {
        caller,
        campaign_id: call->RaiseDispute_campaign_id,
        creator: call->RaiseDispute_creator,
    }
}

/// The report that a settlement makes to the arbitration contract.
pub open spec fn closing_of(call: EscrowCall, caller: Address) -> DisputeCall {
    DisputeCall::CloseDispute {
        caller,
        campaign_id: call->ResolveDispute_campaign_id,
        creator: call->ResolveDispute_creator,
        outcome: call->ResolveDispute_resolution.spec_outcome(),
    }
}

impl System {
    /// Both contracts at another moment. The escrow answers who owns which of
    /// its campaigns.
    pub open spec fn at(self, now: u64, tokens: Seq<Address>) -> System {
        System {
            escrow: self.escrow.at(now, tokens),
            disputes: self.disputes.at(
                now,
                self.escrow.campaigns.map_values(
                    |c: Campaign| c.business,
                ),
            ),
        }
    }

    /// Both contracts after a call, with the calls that it makes of the other
    /// contract. Where the escrow refuses the freeze that a dispute needs,
    /// nothing happens at all; a settlement stands, whatever the arbitration
    /// contract answers.
    pub open spec fn after(self, call: SystemCall) -> System {
        match call {
            SystemCall::Escrow(call) => System {
                escrow: self.escrow.after(call),
                disputes: if call is ResolveDispute && self.escrow.refusal(call) is None
                    && self.escrow.dispute_contract == Some(self.disputes.contract) {
                    self.disputes.after(closing_of(call, self.escrow.contract))
                } else {
                    self.disputes
                },
            },
            SystemCall::Disputes(call) => if call is RaiseDispute && self.disputes.refusal(
                call,
            ) is None {
                let freeze = freeze_of(call, self.disputes.contract);
                if self.escrow.refusal(freeze) is None {
                    System {
                        escrow: self.escrow.after(freeze),
                        disputes: self.disputes.after(call),
                    }
                } else {
                    self
                }
            } else {
                System { disputes: self.disputes.after(call), ..self }
            },
        }
    }

    /// Whether each contract is in order, each knows the other, and every
    /// payout under an open dispute is frozen.
    pub open spec fn sound(self) -> bool {
        &&& self.escrow.sound()
        &&& self.disputes.sound()
        &&& self.escrow.now == self.disputes.now
        &&& self.escrow.dispute_contract == Some(self.disputes.contract)
        &&& self.disputes.escrow_contract == Some(self.escrow.contract)
        &&& forall|key: (CampaignId, Address)| #[trigger]
            self.disputes.open_disputes.contains_key(key) ==> self.frozen(key)
    }

    /// Whether a payout is frozen.
    pub open spec fn frozen(self, key: (CampaignId, Address)) -> bool {
        self.escrow.applications.contains_key(key) && self.escrow.applications[key].frozen
    }

    /// Whether the counters that the call would advance have room.
    pub open spec fn countable(self, call: SystemCall) -> bool {
        match call {
            SystemCall::Escrow(call) => self.escrow.countable(call),
            SystemCall::Disputes(call) => self.disputes.countable(call),
        }
    }
}

/// Time does not disturb the two contracts.
pub proof fn law_time_keeps_sound(s: System, now: u64, tokens: Seq<Address>)
    requires
        s.sound(),
        s.escrow.now <= now,
    ensures
        s.at(now, tokens).sound(),
{
    let t = s.at(now, tokens);
    books::law_time_keeps_sound(s.escrow, now, tokens);
    laws::law_time_keeps_sound(s.disputes, now, t.disputes.campaign_businesses);
    assert forall|key: (CampaignId, Address)| #[trigger]
        t.disputes.open_disputes.contains_key(key) implies t.frozen(key) by {
        assert(s.frozen(key));
    }
}

/// Calls from outside keep the two contracts in order together: as long as a
/// dispute is open, the payout it is about stays frozen. (Calls that the
/// arbitration contract takes from the escrow alone come about through the
/// escrow.)
pub proof fn law_calls_keep_sound(s: System, call: SystemCall)
    requires
        s.sound(),
        s.countable(call),
        call matches SystemCall::Disputes(c) ==> c.actor() != s.escrow.contract,
    ensures
        s.after(call).sound(),
{
    let t = s.after(call);
    match call {
        SystemCall::Escrow(call) => {
            books::law_calls_keep_sound(s.escrow, call);
            lemma_links_kept(s.escrow, call);
            if call is ResolveDispute && s.escrow.refusal(call) is None {
                let closing = closing_of(call, s.escrow.contract);
                laws::law_calls_keep_sound(s.disputes, closing);
                laws::law_closing_resolves(s.disputes, closing);
            }
            assert forall|key: (CampaignId, Address)| #[trigger]
                t.disputes.open_disputes.contains_key(key) implies t.frozen(key) by {
                assert(s.disputes.open_disputes.contains_key(key));
                assert(s.frozen(key));
                if call is ResolveDispute && call.application() == Some(key) {
                    assert(s.escrow.refusal(call) is Some);
                } else {
                    law_frozen_is_untouched(s.escrow, call, key);
                }
            }
        },
        SystemCall::Disputes(call) => {
            laws::law_calls_keep_sound(s.disputes, call);
            let freeze = freeze_of(call, s.disputes.contract);
            if call is RaiseDispute && s.disputes.refusal(call) is None {
                if s.escrow.refusal(freeze) is None {
                    reveal(EscrowState::reviewed);
                    books::law_calls_keep_sound(s.escrow, freeze);
                    books::lemma_own_key(s.escrow, freeze);
                    lemma_links_kept(s.escrow, freeze);
                    assert forall|key: (CampaignId, Address)| #[trigger]
                        t.disputes.open_disputes.contains_key(key) implies t.frozen(key) by {
                        if freeze.application() != Some(key) {
                            assert(s.disputes.open_disputes.contains_key(key));
                            assert(s.frozen(key));
                            law_frozen_is_untouched(s.escrow, freeze, key);
                        }
                    }
                }
            } else {
                assert forall|key: (CampaignId, Address)| #[trigger]
                    t.disputes.open_disputes.contains_key(key) implies t.frozen(key) by {
                    assert(s.disputes.open_disputes.contains_key(key));
                    assert(s.frozen(key));
                }
            }
        },
    }
}

/// A call from outside, with the moment at which it is made.
pub struct SystemStep {
    pub now: u64,
    pub tokens: Seq<Address>,
    pub call: SystemCall,
}

/// Both contracts after a series of calls from outside.
pub open spec fn run(start: System, steps: Seq<SystemStep>) -> System
    decreases steps.len(),
{
    if steps.len() == 0 {
        start
    } else {
        let step = steps.last();
        run(start, steps.drop_last()).at(step.now, step.tokens).after(step.call)
    }
}

/// Whether time never runs backwards in a series of calls, no counter
/// overflows, and nobody outside speaks in the escrow's name.
pub open spec fn possible(start: System, steps: Seq<SystemStep>) -> bool
    decreases steps.len(),
{
    steps.len() > 0 ==> {
        let earlier = run(start, steps.drop_last());
        let step = steps.last();
        &&& possible(start, steps.drop_last())
        &&& earlier.escrow.now <= step.now
        &&& earlier.at(step.now, step.tokens).countable(step.call)
        &&& step.call matches SystemCall::Disputes(c) ==> c.actor() != earlier.escrow.contract
    }
}

/// Once the two contracts know each other and are in order, they stay so,
/// whatever is called.
pub proof fn law_runs_keep_sound(start: System, steps: Seq<SystemStep>)
    requires
        start.sound(),
        possible(start, steps),
    ensures
        run(start, steps).sound(),
    decreases steps.len(),
{
    if steps.len() > 0 {
        let step = steps.last();
        let earlier = run(start, steps.drop_last());
        law_runs_keep_sound(start, steps.drop_last());
        law_time_keeps_sound(earlier, step.now, step.tokens);
        law_calls_keep_sound(earlier.at(step.now, step.tokens), step.call);
    }
}

/// Two fresh contracts that are set up with each other's address are in order.
pub proof fn law_setup_is_sound(
    escrow: Address,
    disputes: Address,
    admin: Address,
    fee_bps: i128,
    now: u64,
)
    requires
        0 <= fee_bps <= BASIS_POINTS_DENOMINATOR,
    ensures
        (System {
            escrow: EscrowState::deployed(escrow, now).after(
                EscrowCall::Initialize { admin, dispute_contract: disputes, fee_bps },
            ),
            disputes: DisputeState::deployed(disputes, now).after(
                DisputeCall::Initialize { admin, escrow_contract: escrow },
            ),
        }).sound(),
{
    reveal(EscrowState::administered);
    books::law_deployed_is_sound(escrow, now);
    books::law_calls_keep_sound(
        EscrowState::deployed(escrow, now),
        EscrowCall::Initialize { admin, dispute_contract: disputes, fee_bps },
    );
}

/// The escrow's knowledge of itself and of the arbitration contract outlasts
/// every call.
proof fn lemma_links_kept(s: EscrowState, call: EscrowCall)
    requires
        s.sound(),
        s.initialized(),
    ensures
        s.after(call).contract == s.contract,
        s.after(call).now == s.now,
        s.after(call).dispute_contract == s.dispute_contract,
{
    law_settings_and_records_are_apart(s, call);
    law_settings_change_by_admin(s, call);
}

/// A payout under an open dispute cannot be claimed.
pub proof fn law_disputed_is_not_claimable(s: System, key: (CampaignId, Address))
    requires
        s.sound(),
        s.disputes.open_disputes.contains_key(key),
        !s.escrow.is_paused(),
    ensures
        s.escrow.claim_refusal(key.1, key.0) == Some(Error::PayoutFrozen),
{
    assert(s.frozen(key));
    assert(s.escrow.application_sound(key));
}

/// When a dispute is raised, either the payout is frozen from then on, or
/// nothing has happened.
pub proof fn law_raising_freezes_or_nothing(s: System, call: DisputeCall)
    requires
        s.sound(),
        s.disputes.countable(call),
        call is RaiseDispute,
        s.disputes.refusal(call) is None,
    ensures
        s.after(SystemCall::Disputes(call)).frozen(
            (call->RaiseDispute_campaign_id, call->RaiseDispute_creator),
        ) || s.after(SystemCall::Disputes(call)) == s,
{
    reveal(EscrowState::reviewed);
    books::lemma_own_key(s.escrow, freeze_of(call, s.disputes.contract));
}

/// Nobody can raise a dispute over a payout that is not owed: over a campaign
/// that the creator never worked on, or after the payout was made.
pub proof fn law_no_dispute_without_a_payout(s: System, call: DisputeCall)
    requires
        s.sound(),
        call is RaiseDispute,
        ({
            let key = (call->RaiseDispute_campaign_id, call->RaiseDispute_creator);
            !s.escrow.applications.contains_key(key) || s.escrow.applications[key].owed() == 0
        }),
    ensures
        s.after(SystemCall::Disputes(call)).disputes.disputes == s.disputes.disputes,
        s.after(SystemCall::Disputes(call)).escrow == s.escrow,
{
    books::lemma_own_key(s.escrow, freeze_of(call, s.disputes.contract));
}

/// When the admin settles a contested payout, the dispute over it, if one is
/// open, ends with the same outcome; no settled payout stays disputed.
pub proof fn law_settling_ends_the_dispute(s: System, call: EscrowCall)
    requires
        s.sound(),
        call is ResolveDispute,
        s.escrow.refusal(call) is None,
    ensures
        ({
            let key = call.application()->0;
            let id = s.disputes.open_disputes[key];
            let outcome = call->ResolveDispute_resolution.spec_outcome();
            let t = s.after(SystemCall::Escrow(call));
            &&& !t.disputes.open_disputes.contains_key(key)
            &&& s.disputes.open_disputes.contains_key(key) ==> t.disputes.disputes[id].status
                == DisputeStatus::Resolved && t.disputes.disputes[id].outcome == outcome
            &&& t.escrow.log.contains(
                Effect::CloseDispute {
                    dispute_contract: s.disputes.contract,
                    caller: s.escrow.contract,
                    campaign_id: key.0,
                    creator: key.1,
                    outcome,
                },
            )
        }),
{
    reveal(EscrowState::settled);
    let t = s.after(SystemCall::Escrow(call));
    let key = call.application()->0;
    laws::law_closing_resolves(s.disputes, closing_of(call, s.escrow.contract));
    let at = t.escrow.log.len() - 2;
    assert(t.escrow.log[at] == Effect::CloseDispute {
        dispute_contract: s.disputes.contract,
        caller: s.escrow.contract,
        campaign_id: key.0,
        creator: key.1,
        outcome: call->ResolveDispute_resolution.spec_outcome(),
    });
}

} // verus!
