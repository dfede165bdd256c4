//! What holds of the arbitration contract across its calls.
use vstd::prelude::*;

use crate::dispute_resolution::calls::Call;
use crate::dispute_resolution::contract::INITIAL_VERSION;
use crate::dispute_resolution::env::{DisputeState, Effect};
use crate::dispute_resolution::error::Error;
use crate::dispute_resolution::events::{
    ArbiterAssigned, ContractUpgraded, DisputeRaised, DisputeResolved, Event,
};
use crate::dispute_resolution::storage::DataKey;
use crate::dispute_resolution::types::Dispute;
use crate::shared::{Address, CampaignId, DisputeId, DisputeOutcome, DisputeStatus};

verus! {

impl Dispute {
    /// Whether the parts of a dispute agree with each other at time `now`.
    pub open spec fn sound(self, now: u64) -> bool {
        let resolved = self.status == DisputeStatus::Resolved;
        &&& self.reason_uri@.len() > 0
        &&& self.raised_at <= now
        &&& resolved == (self.outcome != DisputeOutcome::Pending)
        &&& resolved == (self.resolved_at is Some)
        &&& resolved ==> self.raised_at <= self.resolved_at->0 <= now
        &&& self.status == DisputeStatus::Raised ==> self.arbiter is None
        &&& self.status == DisputeStatus::UnderReview ==> self.arbiter is Some
    }
}

impl DisputeState {
    /// Whether the contract's records are in order: settings complete or
    /// absent, and exactly one unresolved dispute over each payout that is
    /// marked as disputed.
    pub open spec fn sound(self) -> bool {
        &&& self.escrow_contract is Some == self.initialized()
        &&& self.version is Some == self.initialized()
        &&& forall|id: DisputeId| #[trigger]
            self.disputes.contains_key(id) ==> self.dispute_sound(id)
        &&& forall|key: (CampaignId, Address)| #[trigger]
            self.open_disputes.contains_key(key) ==> self.mark_sound(key)
    }

    pub open spec fn dispute_sound(self, id: DisputeId) -> bool {
        let d = self.disputes[id];
        let key = (d.campaign_id, d.creator);
        &&& d.sound(self.now)
        &&& id < self.next_id()
        &&& d.status != DisputeStatus::Resolved ==> self.open_disputes.contains_key(key)
            && self.open_disputes[key] == id
    }

    pub open spec fn mark_sound(self, key: (CampaignId, Address)) -> bool {
        let id = self.open_disputes[key];
        &&& self.disputes.contains_key(id)
        &&& self.disputes[id].campaign_id == key.0
        &&& self.disputes[id].creator == key.1
        &&& self.disputes[id].status != DisputeStatus::Resolved
    }
}

/// A contract starts out with its records in order.
pub proof fn law_deployed_is_sound(contract: Address, now: u64)
    ensures
        DisputeState::deployed(contract, now).sound(),
{
}

/// Time does not disturb the records.
pub proof fn law_time_keeps_sound(s: DisputeState, now: u64, businesses: Map<CampaignId, Address>)
    requires
        s.sound(),
        s.now <= now,
    ensures
        s.at(now, businesses).sound(),
{
    let t = s.at(now, businesses);
    assert forall|id: DisputeId| #[trigger] t.disputes.contains_key(id) implies t.dispute_sound(
        id,
    ) by {
        assert(s.dispute_sound(id));
    }
    assert forall|key: (CampaignId, Address)| #[trigger]
        t.open_disputes.contains_key(key) implies t.mark_sound(key) by {
        assert(s.mark_sound(key));
    }
}

/// Every call, accepted or refused, leaves the records in order.
pub proof fn law_calls_keep_sound(s: DisputeState, call: Call)
    requires
        s.sound(),
        s.countable(call),
    ensures
        s.after(call).sound(),
{
    let t = s.after(call);
    assert forall|id: DisputeId| #[trigger] t.disputes.contains_key(id) implies t.dispute_sound(
        id,
    ) by {
        if s.disputes.contains_key(id) {
            assert(s.dispute_sound(id));
        }
        if let Call::CloseDispute { campaign_id, creator, .. } = call {
            if s.open_disputes.contains_key((campaign_id, creator)) {
                assert(s.mark_sound((campaign_id, creator)));
            }
        }
    }
    assert forall|key: (CampaignId, Address)| #[trigger]
        t.open_disputes.contains_key(key) implies t.mark_sound(key) by {
        if s.open_disputes.contains_key(key) {
            assert(s.mark_sound(key));
            assert(s.dispute_sound(s.open_disputes[key]));
        }
        if let Call::CloseDispute { campaign_id, creator, .. } = call {
            if s.open_disputes.contains_key((campaign_id, creator)) {
                assert(s.mark_sound((campaign_id, creator)));
            }
        }
    }
}

/// At most one dispute over a payout is unresolved.
pub proof fn law_one_open_dispute(s: DisputeState, i: DisputeId, j: DisputeId)
    requires
        s.sound(),
        s.disputes.contains_key(i),
        s.disputes.contains_key(j),
        s.disputes[i].status != DisputeStatus::Resolved,
        s.disputes[j].status != DisputeStatus::Resolved,
        s.disputes[i].campaign_id == s.disputes[j].campaign_id,
        s.disputes[i].creator == s.disputes[j].creator,
    ensures
        i == j,
{
    assert(s.dispute_sound(i));
    assert(s.dispute_sound(j));
}

/// While a dispute over a payout is open, another is refused for that reason.
pub proof fn law_second_dispute_is_refused(s: DisputeState, call: Call)
    requires
        call matches Call::RaiseDispute { campaign_id, creator, reason_uri, .. }
            && s.open_disputes.contains_key((campaign_id, creator)) && reason_uri@.len() > 0,
    ensures
        s.refusal(call) == Some(Error::DisputeAlreadyRaised),
        s.after(call).disputes == s.disputes,
        s.after(call).open_disputes == s.open_disputes,
{
}

/// A new dispute gets a number that no dispute has had. It is raised by the
/// creator or by the business that the escrow attests, and it is marked as the
/// open one over the payout.
pub proof fn law_new_dispute_is_fresh(s: DisputeState, call: Call)
    requires
        s.sound(),
        s.countable(call),
        call is RaiseDispute,
        s.refusal(call) is None,
    ensures
        ({
            let id = s.next_id();
            let campaign_id = call->RaiseDispute_campaign_id;
            let creator = call->RaiseDispute_creator;
            let t = s.after(call);
            &&& !s.disputes.contains_key(id)
            &&& t.disputes == s.disputes.insert(id, t.disputes[id])
            &&& t.disputes[id].raised_by == call.actor()
            &&& call.actor() == creator || call.actor() == s.campaign_businesses[campaign_id]
            &&& t.disputes[id].status == DisputeStatus::Raised
            &&& t.open_disputes == s.open_disputes.insert((campaign_id, creator), id)
            &&& t.next_id() == id + 1
        }),
{
    if s.disputes.contains_key(s.next_id()) {
        assert(s.dispute_sound(s.next_id()));
    }
}

/// Before anything is recorded of a new dispute, the escrow is told to freeze
/// the payout, in this contract's own name.
pub proof fn law_raising_freezes_first(s: DisputeState, call: Call)
    requires
        call is RaiseDispute,
        s.refusal(call) is None,
    ensures
        ({
            let t = s.after(call);
            let at = s.log.len() as int + 2;
            &&& at < t.log.len()
            &&& t.log[at] == Effect::FreezeForDispute {
                escrow_contract: s.escrow_contract->0,
                caller: s.contract,
                campaign_id: call->RaiseDispute_campaign_id,
                creator: call->RaiseDispute_creator,
            }
            &&& forall|i: int| s.log.len() <= i < at ==> !(#[trigger] t.log[i] is Write)
        }),
{
}

/// What a dispute is about never changes, and a dispute is never lost. An
/// arbiter is assigned once, by the admin, while the dispute has none. Only
/// the escrow contract resolves a dispute, and a resolved dispute is final.
pub proof fn law_disputes_are_kept(s: DisputeState, call: Call, id: DisputeId)
    requires
        s.sound(),
        s.disputes.contains_key(id),
    ensures
        ({
            let d = s.disputes[id];
            let e = s.after(call).disputes[id];
            &&& s.after(call).disputes.contains_key(id)
            &&& e.campaign_id == d.campaign_id
            &&& e.creator == d.creator
            &&& e.raised_by == d.raised_by
            &&& e.reason_uri == d.reason_uri
            &&& e.raised_at == d.raised_at
            &&& e.arbiter != d.arbiter ==> call is AssignArbiter && s.admin == Some(call.actor())
                && d.status == DisputeStatus::Raised && e.status == DisputeStatus::UnderReview
            &&& e.outcome != d.outcome ==> call is CloseDispute && s.escrow_contract == Some(
                call.actor(),
            ) && e.status == DisputeStatus::Resolved && e.resolved_at == Some(s.now)
            &&& d.status == DisputeStatus::Resolved ==> e == d
        }),
{
    assert(s.dispute_sound(id));
    if let Call::CloseDispute { campaign_id, creator, .. } = call {
        if s.open_disputes.contains_key((campaign_id, creator)) {
            assert(s.mark_sound((campaign_id, creator)));
        }
    }
    if s.disputes.contains_key(s.next_id()) {
        assert(s.dispute_sound(s.next_id()));
    }
}

/// Closing resolves the open dispute over the payout with the reported
/// outcome, and another dispute may then be raised over it.
pub proof fn law_closing_resolves(s: DisputeState, call: Call)
    requires
        s.sound(),
        call is CloseDispute,
        s.escrow_contract == Some(call.actor()),
        call->CloseDispute_outcome != DisputeOutcome::Pending,
    ensures
        ({
            let key = (call->CloseDispute_campaign_id, call->CloseDispute_creator);
            let id = s.open_disputes[key];
            let t = s.after(call);
            &&& s.refusal(call) is None
            &&& !t.open_disputes.contains_key(key)
            &&& s.open_disputes.contains_key(key) ==> t.disputes[id].status
                == DisputeStatus::Resolved && t.disputes[id].outcome == call->CloseDispute_outcome
        }),
{
    let key = (call->CloseDispute_campaign_id, call->CloseDispute_creator);
    if s.open_disputes.contains_key(key) {
        assert(s.mark_sound(key));
    }
}

/// Closing twice is the same as closing once.
pub proof fn law_closing_is_idempotent(s: DisputeState, call: Call)
    requires
        s.sound(),
        call is CloseDispute,
        s.refusal(call) is None,
    ensures
        ({
            let t = s.after(call);
            let u = t.after(call);
            &&& t.refusal(call) is None
            &&& u == (DisputeState { log: u.log, ..t })
        }),
{
}

/// A refused call changes no entry.
pub proof fn law_refused_changes_nothing(s: DisputeState, call: Call)
    requires
        s.refusal(call) is Some,
    ensures
        s.after(call) == (DisputeState { log: s.after(call).log, ..s }),
{
}

/// Every call keeps the instance entries alive before anything else.
pub proof fn law_calls_keep_instance_alive(s: DisputeState, call: Call)
    ensures
        s.after(call).log.len() > s.log.len(),
        s.after(call).log[s.log.len() as int] is ExtendInstanceTtl,
{
}

/// The contract is set up once, and its settings never change after.
pub proof fn law_settings_are_fixed(s: DisputeState, call: Call)
    requires
        s.initialized(),
    ensures
        call is Initialize ==> s.refusal(call) == Some(Error::AlreadyInitialized),
        s.after(call).admin == s.admin,
        s.after(call).escrow_contract == s.escrow_contract,
        s.after(call).version == s.version,
{
}

/// The requests by which a persistent entry is written and kept alive: for
/// thirty days of five-second ledgers, once about a day of them is used up.
pub open spec fn saving(key: DataKey) -> Seq<Effect> {
    seq![
        Effect::Write(key),
        Effect::ExtendTtl { key, threshold: 500_000, extend_to: 518_400 },
    ]
}

/// The request by which the instance entries are kept alive.
pub open spec fn renewing() -> Effect {
    Effect::ExtendInstanceTtl { threshold: 500_000, extend_to: 518_400 }
}

/// A contract starts out with no setting and no dispute.
pub proof fn law_deployed_is_empty(contract: Address, now: u64)
    ensures
        ({
            let s = DisputeState::deployed(contract, now);
            &&& s.contract == contract
            &&& s.now == now
            &&& s.admin is None
            &&& s.escrow_contract is None
            &&& s.version is None
            &&& s.next_dispute_id is None
            &&& s.disputes.dom().is_empty()
            &&& s.open_disputes.dom().is_empty()
            &&& s.campaign_businesses.dom().is_empty()
            &&& s.log.len() == 0
        }),
{
}

/// The contract is set up exactly when it is not yet.
pub proof fn law_setup_is_decided(s: DisputeState, admin: Address, escrow_contract: Address)
    ensures
        ({
            let r = s.refusal(Call::Initialize { admin, escrow_contract });
            &&& r is None <==> s.admin is None
            &&& r == Some(Error::AlreadyInitialized) <==> s.admin is Some
        }),
{
}

/// Setting the contract up records what was given: the admin, the escrow whose
/// payouts are disputed here, and the version.
pub proof fn law_setup_records_the_settings(
    s: DisputeState,
    admin: Address,
    escrow_contract: Address,
)
    requires
        s.refusal(Call::Initialize { admin, escrow_contract }) is None,
    ensures
        ({
            let t = s.after(Call::Initialize { admin, escrow_contract });
            &&& t.admin == Some(admin)
            &&& t.escrow_contract == Some(escrow_contract)
            &&& t.version == Some(seq!['0', '.', '1', '.', '0'])
            &&& t.log == s.log + seq![
                renewing(),
                Effect::RequireAuth(admin),
                Effect::Write(DataKey::Admin),
                Effect::Write(DataKey::EscrowContract),
                Effect::Write(DataKey::Version),
            ]
            &&& t == (DisputeState {
                admin: t.admin,
                escrow_contract: t.escrow_contract,
                version: t.version,
                log: t.log,
                ..s
            })
        }),
{
    reveal_strlit("0.1.0");
    assert(INITIAL_VERSION@ =~= seq!['0', '.', '1', '.', '0']);
    let t = s.set_up(admin, escrow_contract, INITIAL_VERSION@);
    assert(t.log =~= s.log + seq![
        renewing(),
        Effect::RequireAuth(admin),
        Effect::Write(DataKey::Admin),
        Effect::Write(DataKey::EscrowContract),
        Effect::Write(DataKey::Version),
    ]);
}

/// A dispute is raised exactly when a reason is given, none is open over the
/// payout, the contract is set up, and it is the creator or the business that
/// the escrow attests who raises it. The time does not matter, nor an earlier
/// dispute that has ended.
pub proof fn law_raising_is_decided(
    s: DisputeState,
    raised_by: Address,
    campaign_id: CampaignId,
    creator: Address,
    reason_uri: String,
)
    ensures
        ({
            let r = s.refusal(Call::RaiseDispute { raised_by, campaign_id, creator, reason_uri });
            let reasoned = reason_uri@.len() > 0;
            let first = reasoned && !s.open_disputes.contains_key((campaign_id, creator));
            let set_up = first && s.escrow_contract is Some;
            let accepted = set_up && (raised_by == creator || raised_by
                == s.campaign_businesses[campaign_id]);
            &&& r is None <==> accepted
            &&& r == Some(Error::InvalidReason) <==> !reasoned
            &&& r == Some(Error::DisputeAlreadyRaised) <==> reasoned && !first
            &&& r == Some(Error::NotInitialized) <==> first && !set_up
            &&& r == Some(Error::Unauthorized) <==> set_up && !accepted
        }),
{
}

/// Where the decision turns on who owns the campaign, the owner may raise the
/// dispute and nobody else; where it does not, the escrow's answer makes no
/// difference.
pub proof fn law_business_decides_where_it_is_asked_for(
    s: DisputeState,
    raised_by: Address,
    campaign_id: CampaignId,
    creator: Address,
    reason_uri: String,
    businesses: Map<CampaignId, Address>,
)
    ensures
        ({
            let call = Call::RaiseDispute { raised_by, campaign_id, creator, reason_uri };
            let r = s.at(s.now, businesses).refusal(call);
            if s.turns_on_business(raised_by, campaign_id, creator, reason_uri@) {
                r == (if businesses[campaign_id] == raised_by {
                    None
                } else {
                    Some(Error::Unauthorized)
                })
            } else {
                r == s.refusal(call)
            }
        }),
{
}

/// Raising a dispute has the payout frozen, and then adds one record under the
/// next number: who raised it, over which payout, why and when, undecided and
/// without an arbiter. It is marked as the open one.
pub proof fn law_raising_adds_a_dispute(
    s: DisputeState,
    raised_by: Address,
    campaign_id: CampaignId,
    creator: Address,
    reason_uri: String,
)
    requires
        s.sound(),
        s.next_dispute_id != Some(u64::MAX),
        s.refusal(Call::RaiseDispute { raised_by, campaign_id, creator, reason_uri }) is None,
    ensures
        ({
            let t = s.after(Call::RaiseDispute { raised_by, campaign_id, creator, reason_uri });
            let id: DisputeId = match s.next_dispute_id {
                Some(next) => next,
                None => 0,
            };
            let d = t.disputes[id];
            &&& !s.disputes.contains_key(id)
            &&& t.disputes == s.disputes.insert(id, d)
            &&& d.campaign_id == campaign_id
            &&& d.creator == creator
            &&& d.raised_by == raised_by
            &&& d.reason_uri == reason_uri
            &&& d.arbiter is None
            &&& d.status == DisputeStatus::Raised
            &&& d.outcome == DisputeOutcome::Pending
            &&& d.raised_at == s.now
            &&& d.resolved_at is None
            &&& t.open_disputes == s.open_disputes.insert((campaign_id, creator), id)
            &&& t.next_dispute_id is Some
            &&& t.next_dispute_id->0 == id + 1
            &&& s.escrow_contract is Some
            &&& t.log == s.log + seq![
                renewing(),
                Effect::RequireAuth(raised_by),
                Effect::FreezeForDispute {
                    escrow_contract: s.escrow_contract->0,
                    caller: s.contract,
                    campaign_id,
                    creator,
                },
                Effect::Write(DataKey::NextDisputeId),
            ] + saving(DataKey::Dispute(id)) + saving(
                DataKey::OpenDispute(campaign_id, creator),
            ) + seq![
                Effect::Publish(
                    Event::DisputeRaised(DisputeRaised { dispute_id: id, raised_by }),
                ),
            ]
            &&& t == (DisputeState {
                disputes: t.disputes,
                open_disputes: t.open_disputes,
                next_dispute_id: t.next_dispute_id,
                log: t.log,
                ..s
            })
        }),
{
    let id = s.next_id();
    if s.disputes.contains_key(id) {
        assert(s.dispute_sound(id));
    }
    let t = s.raised(raised_by, campaign_id, creator, reason_uri);
    assert(t.log =~= s.log + seq![
        renewing(),
        Effect::RequireAuth(raised_by),
        Effect::FreezeForDispute {
            escrow_contract: s.escrow_contract->0,
            caller: s.contract,
            campaign_id,
            creator,
        },
        Effect::Write(DataKey::NextDisputeId),
    ] + saving(DataKey::Dispute(id)) + saving(DataKey::OpenDispute(campaign_id, creator)) + seq![
        Effect::Publish(Event::DisputeRaised(DisputeRaised { dispute_id: id, raised_by })),
    ]);
}

/// The admin, and nobody else, assigns an arbiter, to a dispute that has none
/// and is not resolved.
pub proof fn law_assigning_is_decided(
    s: DisputeState,
    admin: Address,
    dispute_id: DisputeId,
    arbiter: Address,
)
    ensures
        ({
            let r = s.refusal(Call::AssignArbiter { admin, dispute_id, arbiter });
            let entitled = s.admin == Some(admin);
            let known = entitled && s.disputes.contains_key(dispute_id);
            let accepted = known && s.disputes[dispute_id].status == DisputeStatus::Raised;
            &&& r is None <==> accepted
            &&& r == Some(Error::NotInitialized) <==> s.admin is None
            &&& r == Some(Error::Unauthorized) <==> s.admin is Some && !entitled
            &&& r == Some(Error::DisputeNotFound) <==> entitled && !known
            &&& r == Some(Error::InvalidStatus) <==> known && !accepted
        }),
{
}

/// Assigning an arbiter names them on the dispute, which is then under review,
/// and changes nothing else.
pub proof fn law_assigning_names_the_arbiter(
    s: DisputeState,
    admin: Address,
    dispute_id: DisputeId,
    arbiter: Address,
)
    requires
        s.refusal(Call::AssignArbiter { admin, dispute_id, arbiter }) is None,
    ensures
        ({
            let t = s.after(Call::AssignArbiter { admin, dispute_id, arbiter });
            let d = s.disputes[dispute_id];
            let e = t.disputes[dispute_id];
            &&& e.arbiter == Some(arbiter)
            &&& e.status == DisputeStatus::UnderReview
            &&& e == (Dispute { arbiter: e.arbiter, status: e.status, ..d })
            &&& t.disputes == s.disputes.insert(dispute_id, e)
            &&& t.log == s.log + seq![renewing(), Effect::RequireAuth(admin)] + saving(
                DataKey::Dispute(dispute_id),
            ) + seq![
                Effect::Publish(
                    Event::ArbiterAssigned(ArbiterAssigned { dispute_id, arbiter }),
                ),
            ]
            &&& t == (DisputeState { disputes: t.disputes, log: t.log, ..s })
        }),
{
    let t = s.assigned(admin, dispute_id, arbiter);
    assert(t.log =~= s.log + seq![renewing(), Effect::RequireAuth(admin)] + saving(
        DataKey::Dispute(dispute_id),
    ) + seq![
        Effect::Publish(Event::ArbiterAssigned(ArbiterAssigned { dispute_id, arbiter })),
    ]);
}

/// A report is taken exactly when the contract is set up, it comes from the
/// escrow, and it names an outcome; whether a dispute is open does not matter
/// where the records are in order.
pub proof fn law_closing_is_decided(
    s: DisputeState,
    caller: Address,
    campaign_id: CampaignId,
    creator: Address,
    outcome: DisputeOutcome,
)
    ensures
        ({
            let r = s.refusal(Call::CloseDispute { caller, campaign_id, creator, outcome });
            let key = (campaign_id, creator);
            let entitled = s.escrow_contract == Some(caller);
            let decided = entitled && outcome != DisputeOutcome::Pending;
            let accepted = decided && (!s.open_disputes.contains_key(key)
                || s.disputes.contains_key(s.open_disputes[key]));
            &&& r is None <==> accepted
            &&& r == Some(Error::NotInitialized) <==> s.escrow_contract is None
            &&& r == Some(Error::Unauthorized) <==> s.escrow_contract is Some && !entitled
            &&& r == Some(Error::InvalidStatus) <==> entitled && !decided
            &&& r == Some(Error::DisputeNotFound) <==> decided && !accepted
            &&& s.sound() && decided ==> accepted
        }),
{
    if s.sound() && s.open_disputes.contains_key((campaign_id, creator)) {
        assert(s.mark_sound((campaign_id, creator)));
    }
}

/// A report resolves the dispute that is open over the payout, with the outcome
/// that is reported and at the time of the report, and frees the payout for
/// another. Without an open dispute it does nothing. No other dispute is
/// touched.
pub proof fn law_closing_records_the_outcome(
    s: DisputeState,
    caller: Address,
    campaign_id: CampaignId,
    creator: Address,
    outcome: DisputeOutcome,
)
    requires
        s.refusal(Call::CloseDispute { caller, campaign_id, creator, outcome }) is None,
    ensures
        ({
            let t = s.after(Call::CloseDispute { caller, campaign_id, creator, outcome });
            let key = (campaign_id, creator);
            let id = s.open_disputes[key];
            let d = s.disputes[id];
            let e = t.disputes[id];
            let asked = seq![renewing(), Effect::RequireAuth(caller)];
            if s.open_disputes.contains_key(key) {
                &&& e.status == DisputeStatus::Resolved
                &&& e.outcome == outcome
                &&& e.resolved_at == Some(s.now)
                &&& e == (Dispute {
                    status: e.status,
                    outcome: e.outcome,
                    resolved_at: e.resolved_at,
                    ..d
                })
                &&& t.disputes == s.disputes.insert(id, e)
                &&& t.open_disputes == s.open_disputes.remove(key)
                &&& t.log == s.log + asked + saving(DataKey::Dispute(id)) + seq![
                    Effect::Delete(DataKey::OpenDispute(campaign_id, creator)),
                    Effect::Publish(Event::DisputeResolved(DisputeResolved { dispute_id: id })),
                ]
                &&& t == (DisputeState {
                    disputes: t.disputes,
                    open_disputes: t.open_disputes,
                    log: t.log,
                    ..s
                })
            } else {
                &&& t.log == s.log + asked
                &&& t == (DisputeState { log: t.log, ..s })
            }
        }),
{
    let t = s.closed(caller, campaign_id, creator, outcome);
    let key = (campaign_id, creator);
    let id = s.open_disputes[key];
    let asked = seq![renewing(), Effect::RequireAuth(caller)];
    if s.open_disputes.contains_key(key) {
        assert(t.log =~= s.log + asked + saving(DataKey::Dispute(id)) + seq![
            Effect::Delete(DataKey::OpenDispute(campaign_id, creator)),
            Effect::Publish(Event::DisputeResolved(DisputeResolved { dispute_id: id })),
        ]);
    } else {
        assert(t.log =~= s.log + asked);
    }
}

/// The admin, and nobody else, replaces the code.
pub proof fn law_upgrading_is_decided(s: DisputeState, admin: Address, new_wasm_hash: [u8; 32])
    ensures
        ({
            let r = s.refusal(Call::Upgrade { admin, new_wasm_hash });
            let entitled = s.admin == Some(admin);
            &&& r is None <==> entitled
            &&& r == Some(Error::NotInitialized) <==> s.admin is None
            &&& r == Some(Error::Unauthorized) <==> s.admin is Some && !entitled
        }),
{
}

/// Replacing the code asks the host for just that. Every entry stays, the
/// recorded version among them.
pub proof fn law_upgrading_replaces_the_code(
    s: DisputeState,
    admin: Address,
    new_wasm_hash: [u8; 32],
)
    requires
        s.refusal(Call::Upgrade { admin, new_wasm_hash }) is None,
    ensures
        ({
            let t = s.after(Call::Upgrade { admin, new_wasm_hash });
            &&& t.log == s.log + seq![
                renewing(),
                Effect::RequireAuth(admin),
                Effect::UpdateWasm(new_wasm_hash),
                Effect::Publish(Event::ContractUpgraded(ContractUpgraded { new_wasm_hash })),
            ]
            &&& t == (DisputeState { log: t.log, ..s })
        }),
{
    let t = s.upgraded(admin, new_wasm_hash);
    assert(t.log =~= s.log + seq![
        renewing(),
        Effect::RequireAuth(admin),
        Effect::UpdateWasm(new_wasm_hash),
        Effect::Publish(Event::ContractUpgraded(ContractUpgraded { new_wasm_hash })),
    ]);
}

/// A refused call leaves every entry as it was. It has kept the instance
/// entries alive and, unless it was a second setup, asked for its actor's
/// authorisation.
pub proof fn law_refusal_has_asked_at_most(s: DisputeState, call: Call)
    requires
        s.refusal(call) is Some,
    ensures
        ({
            let t = s.after(call);
            &&& t.log == (if call is Initialize {
                s.log + seq![renewing()]
            } else {
                s.log + seq![renewing(), Effect::RequireAuth(call.actor())]
            })
            &&& t == (DisputeState { log: t.log, ..s })
        }),
{
    assert(s.instance_kept().log =~= s.log + seq![renewing()]);
    assert(s.instance_kept().asked(call.actor()).log =~= s.log + seq![
        renewing(),
        Effect::RequireAuth(call.actor()),
    ]);
}

/// A payout can be disputed again once the dispute over it has ended: whoever
/// may raise one then may again.
pub proof fn law_closed_may_be_disputed_again(
    s: DisputeState,
    close: Call,
    creator: Address,
    reason_uri: String,
)
    requires
        s.sound(),
        close is CloseDispute,
        s.refusal(close) is None,
        close->CloseDispute_creator == creator,
        reason_uri@.len() > 0,
    ensures
        s.after(close).refusal(
            Call::RaiseDispute {
                raised_by: creator,
                campaign_id: close->CloseDispute_campaign_id,
                creator,
                reason_uri,
            },
        ) is None,
{
    law_closing_is_decided(
        s,
        close.actor(),
        close->CloseDispute_campaign_id,
        creator,
        close->CloseDispute_outcome,
    );
    law_closing_records_the_outcome(
        s,
        close.actor(),
        close->CloseDispute_campaign_id,
        creator,
        close->CloseDispute_outcome,
    );
}

} // verus!
