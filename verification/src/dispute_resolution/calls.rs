//! The entry points that may change the arbitration contract, as one type of
//! call.
use vstd::prelude::*;

use crate::dispute_resolution::contract::INITIAL_VERSION;
use crate::dispute_resolution::env::DisputeState;
use crate::dispute_resolution::error::Error;
use crate::shared::{Address, CampaignId, DisputeId, DisputeOutcome};

verus! {

/// A call of an entry point that may change the contract, with its arguments.
pub enum Call {
    Initialize { admin: Address, escrow_contract: Address },
    RaiseDispute {
        raised_by: Address,
        campaign_id: CampaignId,
        creator: Address,
        reason_uri: String,
    },
    AssignArbiter { admin: Address, dispute_id: DisputeId, arbiter: Address },
    CloseDispute {
        caller: Address,
        campaign_id: CampaignId,
        creator: Address,
        outcome: DisputeOutcome,
    },
    Upgrade { admin: Address, new_wasm_hash: [u8; 32] },
}

impl Call {
    /// Whose authorisation the call asks for.
    pub open spec fn actor(self) -> Address {
        match self {
            Call::Initialize { admin, .. } => admin,
            Call::RaiseDispute { raised_by, .. } => raised_by,
            Call::AssignArbiter { admin, .. } => admin,
            Call::CloseDispute { caller, .. } => caller,
            Call::Upgrade { admin, .. } => admin,
        }
    }
}

impl DisputeState {
    /// Why the call is refused, if it is.
    pub open spec fn refusal(self, call: Call) -> Option<Error> {
        match call {
            Call::Initialize { .. } => if self.initialized() {
                Some(Error::AlreadyInitialized)
            } else {
                None
            },
            Call::RaiseDispute { raised_by, campaign_id, creator, reason_uri } =>
                self.raise_refusal(raised_by, campaign_id, creator, reason_uri@),
            Call::AssignArbiter { admin, dispute_id, .. } => self.assign_refusal(
                admin,
                dispute_id,
            ),
            Call::CloseDispute { caller, campaign_id, creator, outcome } => self.close_refusal(
                caller,
                campaign_id,
                creator,
                outcome,
            ),
            Call::Upgrade { admin, .. } => self.admin_refusal(admin),
        }
    }

    /// What an accepted call leaves behind.
    pub open spec fn accepted(self, call: Call) -> DisputeState {
        match call {
            Call::Initialize { admin, escrow_contract } => self.set_up(
                admin,
                escrow_contract,
                INITIAL_VERSION@,
            ),
            Call::RaiseDispute { raised_by, campaign_id, creator, reason_uri } => self.raised(
                raised_by,
                campaign_id,
                creator,
                reason_uri,
            ),
            Call::AssignArbiter { admin, dispute_id, arbiter } => self.assigned(
                admin,
                dispute_id,
                arbiter,
            ),
            Call::CloseDispute { caller, campaign_id, creator, outcome } => self.closed(
                caller,
                campaign_id,
                creator,
                outcome,
            ),
            Call::Upgrade { admin, new_wasm_hash } => self.upgraded(admin, new_wasm_hash),
        }
    }

    /// The state after the call. A refused call leaves nothing but requests
    /// behind: the instance entries are kept alive and, unless the contract was
    /// set up already, the actor's authorisation is asked for.
    pub open spec fn after(self, call: Call) -> DisputeState {
        if self.refusal(call) is None {
            self.accepted(call)
        } else if call is Initialize {
            self.instance_kept()
        } else {
            self.instance_kept().asked(call.actor())
        }
    }

    /// Whether the counter that the call would advance has room.
    pub open spec fn countable(self, call: Call) -> bool {
        call is RaiseDispute ==> self.next_id() < u64::MAX
    }

    /// The same contract at another moment, with the escrow's answers of that
    /// moment on who owns which campaign.
    pub open spec fn at(self, now: u64, businesses: Map<CampaignId, Address>) -> DisputeState {
        DisputeState { now, campaign_businesses: businesses, ..self }
    }
}

} // verus!
