//! Which parts of the contract a call can reach.
use vstd::prelude::*;

use crate::campaign_escrow::calls::Call;
use crate::campaign_escrow::env::EscrowState;

verus! {

impl EscrowState {
    /// Whether another state has the same campaigns and applications.
    pub open spec fn same_records(self, other: EscrowState) -> bool {
        &&& self.campaigns == other.campaigns
        &&& self.applications == other.applications
        &&& self.applicants == other.applicants
        &&& self.applicant_counts == other.applicant_counts
        &&& self.next_campaign_id == other.next_campaign_id
    }

    /// Whether another state has the same settings.
    pub open spec fn same_settings(self, other: EscrowState) -> bool {
        &&& self.admin == other.admin
        &&& self.pending_admin == other.pending_admin
        &&& self.treasury == other.treasury
        &&& self.fee_bps == other.fee_bps
        &&& self.dispute_contract == other.dispute_contract
        &&& self.version == other.version
        &&& self.paused == other.paused
    }

    /// Whether another state is of the same contract at the same moment.
    pub open spec fn same_moment(self, other: EscrowState) -> bool {
        &&& self.contract == other.contract
        &&& self.now == other.now
        &&& self.tokens == other.tokens
    }
}

/// Administrative calls leave every campaign and application alone; the
/// others leave the settings alone. Campaigns are numbered only by opening
/// one, and applicants only by applying.
pub proof fn law_settings_and_records_are_apart(s: EscrowState, call: Call)
    ensures
        s.after(call).same_moment(s),
        call.administrative() ==> s.after(call).same_records(s),
        !call.administrative() ==> s.after(call).same_settings(s),
        call.campaign() is None && !(call is CreateCampaign) ==> s.after(call).campaigns
            == s.campaigns,
        call.application() is None ==> s.after(call).applications == s.applications,
        !(call is CreateCampaign) ==> s.after(call).next_campaign_id == s.next_campaign_id,
        !(call is ApplyToCampaign) ==> s.after(call).applicants == s.applicants && s.after(
            call,
        ).applicant_counts == s.applicant_counts,
{
    if s.refusal(call) is None {
        lemma_accepted_reach(s, call);
    }
}

proof fn lemma_accepted_reach(s: EscrowState, call: Call)
    ensures
        s.accepted(call).same_moment(s),
        call.administrative() ==> s.accepted(call).same_records(s),
        !call.administrative() ==> s.accepted(call).same_settings(s),
        call.campaign() is None && !(call is CreateCampaign) ==> s.accepted(call).campaigns
            == s.campaigns,
        call.application() is None ==> s.accepted(call).applications == s.applications,
        !(call is CreateCampaign) ==> s.accepted(call).next_campaign_id == s.next_campaign_id,
        !(call is ApplyToCampaign) ==> s.accepted(call).applicants == s.applicants && s.accepted(
            call,
        ).applicant_counts == s.applicant_counts,
{
    if call.administrative() {
        reveal(EscrowState::administered);
    } else if call.recruits() {
        reveal(EscrowState::recruited);
    } else if call.reviews() {
        reveal(EscrowState::reviewed);
    } else if call.refunds() {
        reveal(EscrowState::refunded);
    } else {
        reveal(EscrowState::settled);
    }
}

} // verus!
