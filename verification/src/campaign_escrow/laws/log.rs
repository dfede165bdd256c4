//! Laws on what calls ask of the host.
use vstd::prelude::*;

use crate::campaign_escrow::calls::Call;
use crate::campaign_escrow::env::{Effect, EscrowState};
use crate::campaign_escrow::storage::DataKey;

verus! {

/// The requests by which a persistent entry is written and kept alive: for
/// thirty days of five-second ledgers, once about a day of them is used up.
pub open spec fn saving(key: DataKey) -> Seq<Effect> {
    seq![
        Effect::Write(key),
        Effect::ExtendTtl { key, threshold: 500_000, extend_to: 518_400 },
    ]
}

impl Call {
    /// Whether the call is one of the ways in which funds move.
    pub open spec fn moves_funds(self) -> bool {
        self.refunds() || self.settles() || self is FundCampaign
    }

    /// Whether an accepted call is announced by an event.
    pub open spec fn announces(self) -> bool {
        !(self is Initialize) && !(self is ApproveSubmission)
    }
}

/// Whether one log continues another.
pub open spec fn continues(earlier: Seq<Effect>, later: Seq<Effect>) -> bool {
    &&& earlier.len() <= later.len()
    &&& forall|i: int| 0 <= i < earlier.len() ==> #[trigger] later[i] == earlier[i]
}

/// Whether what a log adds to another is what an accepted call requests.
pub open spec fn requests(earlier: Seq<Effect>, later: Seq<Effect>, call: Call) -> bool {
    &&& continues(earlier, later)
    &&& earlier.len() < later.len()
    &&& later[earlier.len() as int] == Effect::RequireAuth(call.actor())
    &&& call.announces() ==> later.last() is Publish
    &&& !call.moves_funds() ==> forall|i: int|
        earlier.len() <= i < later.len() ==> !(#[trigger] later[i] is Transfer)
}

proof fn lemma_requests(s: EscrowState, call: Call)
    ensures
        requests(s.log, s.accepted(call).log, call),
{
    if call.administrative() {
        reveal(EscrowState::administered);
    } else if call.recruits() {
        reveal(EscrowState::recruited);
    } else if call.reviews() {
        reveal(EscrowState::reviewed);
    } else if call.refunds() {
        reveal(EscrowState::refunded);
    } else {
        reveal(EscrowState::settled);
    }
}

/// No request is ever taken back: a call only adds to the log.
pub proof fn law_log_grows(s: EscrowState, call: Call)
    ensures
        continues(s.log, s.after(call).log),
{
    lemma_requests(s, call);
}

/// An accepted call has first of all asked for its actor's authorisation.
pub proof fn law_accepted_is_authorised(s: EscrowState, call: Call)
    requires
        s.refusal(call) is None,
    ensures
        s.log.len() < s.after(call).log.len(),
        s.after(call).log[s.log.len() as int] == Effect::RequireAuth(call.actor()),
{
    lemma_requests(s, call);
}

/// Every accepted call is announced by an event, the last of its requests,
/// but for the setup and the acceptance of a proof.
pub proof fn law_accepted_is_announced(s: EscrowState, call: Call)
    requires
        s.refusal(call) is None,
        call.announces(),
    ensures
        s.log.len() < s.after(call).log.len(),
        s.after(call).log.last() is Publish,
{
    lemma_requests(s, call);
}

/// Funds move by funding, claiming, refunding and settling, and in no other
/// way: any other call requests no transfer.
pub proof fn law_funds_move_only_so(s: EscrowState, call: Call, i: int)
    requires
        s.log.len() <= i < s.after(call).log.len(),
        s.after(call).log[i] is Transfer,
    ensures
        s.refusal(call) is None,
        call.moves_funds(),
{
    lemma_requests(s, call);
}

/// A refused call changes no entry. All it leaves is, at most, the request
/// for its actor's authorisation.
pub proof fn law_refused_changes_nothing(s: EscrowState, call: Call)
    requires
        s.refusal(call) is Some,
    ensures
        s.after(call) == s || s.after(call) == s.asked(call.actor()),
{
}

} // verus!
