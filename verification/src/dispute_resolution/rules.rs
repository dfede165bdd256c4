//! What each call of the arbitration contract is refused for, and the state
//! that an accepted call leaves behind.
//!
//! A refusal is an ordered decision: the first ground that holds is the one
//! reported.
use vstd::prelude::*;

use crate::dispute_resolution::env::{DisputeState, Effect};
use crate::dispute_resolution::error::Error;
use crate::dispute_resolution::events::{
    ArbiterAssigned, ContractUpgraded, DisputeRaised, DisputeResolved, Event,
};
use crate::dispute_resolution::types::Dispute;
use crate::shared::{Address, CampaignId, DisputeId, DisputeOutcome, DisputeStatus};

verus! {

impl DisputeState {
    /// Why an admin-only call by `admin` is refused, if it is.
    pub open spec fn admin_refusal(self, admin: Address) -> Option<Error> {
        match self.admin {
            None => Some(Error::NotInitialized),
            Some(stored) => if stored != admin {
                Some(Error::Unauthorized)
            } else {
                None
            },
        }
    }

    /// The state after setting the contract up.
    pub open spec fn set_up(
        self,
        admin: Address,
        escrow_contract: Address,
        version: Seq<char>,
    ) -> DisputeState {
        self.instance_kept().asked(admin).with_admin(admin).with_escrow_contract(
            escrow_contract,
        ).with_version(version)
    }

    /// Whether the decision on a dispute turns on who owns the campaign.
    pub open spec fn turns_on_business(
        self,
        raised_by: Address,
        campaign_id: CampaignId,
        creator: Address,
        reason: Seq<char>,
    ) -> bool {
        &&& reason.len() > 0
        &&& !self.open_disputes.contains_key((campaign_id, creator))
        &&& self.escrow_contract is Some
        &&& raised_by != creator
    }

    /// Why `raised_by` cannot raise the dispute, if they cannot.
    pub open spec fn raise_refusal(
        self,
        raised_by: Address,
        campaign_id: CampaignId,
        creator: Address,
        reason: Seq<char>,
    ) -> Option<Error> {
        if reason.len() == 0 {
            Some(Error::InvalidReason)
        } else if self.open_disputes.contains_key((campaign_id, creator)) {
            Some(Error::DisputeAlreadyRaised)
        } else if self.escrow_contract is None {
            Some(Error::NotInitialized)
        } else if raised_by != creator && raised_by != self.campaign_businesses[campaign_id] {
            Some(Error::Unauthorized)
        } else {
            None
        }
    }

    /// The state after `raised_by` raises the dispute. The payout is frozen
    /// first: if the escrow refuses, no record is left.
    pub open spec fn raised(
        self,
        raised_by: Address,
        campaign_id: CampaignId,
        creator: Address,
        reason_uri: String,
    ) -> DisputeState {
        let dispute_id = self.next_id();
        self.instance_kept().asked(raised_by).logged(
            Effect::FreezeForDispute {
                escrow_contract: self.escrow_contract->0,
                caller: self.contract,
                campaign_id,
                creator,
            },
        ).with_id_taken().with_dispute(
            dispute_id,
            Dispute {
                campaign_id,
                creator,
                raised_by,
                reason_uri,
                arbiter: None,
                status: DisputeStatus::Raised,
                outcome: DisputeOutcome::Pending,
                raised_at: self.now,
                resolved_at: None,
            },
        ).with_open_dispute(campaign_id, creator, dispute_id).published(
            Event::DisputeRaised(DisputeRaised { dispute_id, raised_by }),
        )
    }

    /// Why the admin cannot assign an arbiter, if they cannot.
    pub open spec fn assign_refusal(self, admin: Address, dispute_id: DisputeId) -> Option<Error> {
        if self.admin_refusal(admin) is Some {
            self.admin_refusal(admin)
        } else if !self.disputes.contains_key(dispute_id) {
            Some(Error::DisputeNotFound)
        } else if self.disputes[dispute_id].status != DisputeStatus::Raised {
            Some(Error::InvalidStatus)
        } else {
            None
        }
    }

    /// The state after the admin assigns an arbiter.
    pub open spec fn assigned(
        self,
        admin: Address,
        dispute_id: DisputeId,
        arbiter: Address,
    ) -> DisputeState {
        self.instance_kept().asked(admin).with_dispute(
            dispute_id,
            Dispute {
                arbiter: Some(arbiter),
                status: DisputeStatus::UnderReview,
                ..self.disputes[dispute_id]
            },
        ).published(Event::ArbiterAssigned(ArbiterAssigned { dispute_id, arbiter }))
    }

    /// Why `caller` cannot close the dispute over a payout, if they cannot.
    pub open spec fn close_refusal(
        self,
        caller: Address,
        campaign_id: CampaignId,
        creator: Address,
        outcome: DisputeOutcome,
    ) -> Option<Error> {
        let key = (campaign_id, creator);
        if self.escrow_contract is None {
            Some(Error::NotInitialized)
        } else if self.escrow_contract != Some(caller) {
            Some(Error::Unauthorized)
        } else if outcome == DisputeOutcome::Pending {
            Some(Error::InvalidStatus)
        } else if self.open_disputes.contains_key(key) && !self.disputes.contains_key(
            self.open_disputes[key],
        ) {
            Some(Error::DisputeNotFound)
        } else {
            None
        }
    }

    /// The state after the escrow reports how a payout was settled: the
    /// dispute over it, if one is open, is resolved.
    pub open spec fn closed(
        self,
        caller: Address,
        campaign_id: CampaignId,
        creator: Address,
        outcome: DisputeOutcome,
    ) -> DisputeState {
        let key = (campaign_id, creator);
        let asked = self.instance_kept().asked(caller);
        if self.open_disputes.contains_key(key) {
            let dispute_id = self.open_disputes[key];
            asked.with_dispute(
                dispute_id,
                Dispute {
                    status: DisputeStatus::Resolved,
                    outcome,
                    resolved_at: Some(self.now),
                    ..self.disputes[dispute_id]
                },
            ).without_open_dispute(campaign_id, creator).published(
                Event::DisputeResolved(DisputeResolved { dispute_id }),
            )
        } else {
            asked
        }
    }

    /// The state after the admin replaces the contract's code.
    pub open spec fn upgraded(self, admin: Address, new_wasm_hash: [u8; 32]) -> DisputeState {
        self.instance_kept().asked(admin).logged(Effect::UpdateWasm(new_wasm_hash)).published(
            Event::ContractUpgraded(ContractUpgraded { new_wasm_hash }),
        )
    }
}

} // verus!
