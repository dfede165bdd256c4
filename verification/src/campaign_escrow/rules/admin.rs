//! Setting the contract up, and changing its settings.
use vstd::prelude::*;

use crate::campaign_escrow::contract::MAX_UPDATED_FEE_BPS;
use crate::campaign_escrow::env::{Effect, EscrowState};
use crate::campaign_escrow::error::Error;
use crate::campaign_escrow::events::{
    AdminProposed, AdminTransferred, ContractPaused, ContractUnpaused, ContractUpgraded, Event,
    FeeUpdated, TreasuryUpdated,
};
use crate::shared::{Address, BASIS_POINTS_DENOMINATOR};

verus! {

impl EscrowState {
    /// The state after a call that asks for `who`'s authorisation once it has
    /// found the contract running.
    pub open spec fn asked_if_running(self, who: Address) -> EscrowState {
        if self.is_paused() {
            self
        } else {
            self.asked(who)
        }
    }

    /// Why an admin-only call by `admin` is refused, if it is.
    pub open spec fn admin_refusal(self, admin: Address) -> Option<Error> {
        match self.admin {
            None => Some(Error::NotInitialized),
            Some(stored) => if stored != admin {
                Some(Error::Unauthorized)
            } else {
                None
            },
        }
    }

    /// Why the contract cannot be set up this way, if it cannot.
    pub open spec fn initialize_refusal(self, fee_bps: i128) -> Option<Error> {
        if self.initialized() {
            Some(Error::AlreadyInitialized)
        } else if !(0 <= fee_bps <= BASIS_POINTS_DENOMINATOR) {
            Some(Error::FeeTooHigh)
        } else {
            None
        }
    }

    /// The state after setting the contract up. Fees go to the admin until
    /// another treasury is named.
    pub open spec fn set_up(
        self,
        admin: Address,
        dispute_contract: Address,
        fee_bps: i128,
        version: Seq<char>,
    ) -> EscrowState {
        self.asked(admin).with_admin(admin).with_treasury(admin).with_dispute_contract(
            dispute_contract,
        ).with_fee_bps(fee_bps).with_version(version)
    }

    /// The state after the admin suspends state-changing calls.
    pub open spec fn suspended(self, admin: Address) -> EscrowState {
        self.asked(admin).with_paused(true).published(
            Event::ContractPaused(ContractPaused { admin }),
        )
    }

    /// The state after the admin lets state-changing calls through again.
    pub open spec fn resumed(self, admin: Address) -> EscrowState {
        self.asked(admin).with_paused(false).published(
            Event::ContractUnpaused(ContractUnpaused { admin }),
        )
    }

    /// The state after the admin proposes a successor.
    pub open spec fn proposed(self, current_admin: Address, new_admin: Address) -> EscrowState {
        self.asked(current_admin).with_pending_admin(new_admin).instance_kept().published(
            Event::AdminProposed(AdminProposed { current_admin, new_admin }),
        )
    }

    /// Why `new_admin` cannot take over, if they cannot.
    pub open spec fn accept_refusal(self, new_admin: Address) -> Option<Error> {
        if self.pending_admin != Some(new_admin) {
            Some(Error::Unauthorized)
        } else if self.admin is None {
            Some(Error::NotInitialized)
        } else {
            None
        }
    }

    /// The state after the proposed successor takes over.
    pub open spec fn handed_over(self, new_admin: Address) -> EscrowState {
        self.asked(new_admin).with_admin(
            new_admin,
        ).without_pending_admin().instance_kept().published(
            Event::AdminTransferred(AdminTransferred { previous_admin: self.admin->0, new_admin }),
        )
    }

    /// Why the fee cannot be changed to `new_fee_bps`, if it cannot.
    pub open spec fn fee_refusal(self, admin: Address, new_fee_bps: i128) -> Option<Error> {
        if self.admin_refusal(admin) is Some {
            self.admin_refusal(admin)
        } else if !(0 <= new_fee_bps <= MAX_UPDATED_FEE_BPS) {
            Some(Error::FeeTooHigh)
        } else {
            None
        }
    }

    /// The state after the admin changes the fee.
    pub open spec fn fee_changed(self, admin: Address, new_fee_bps: i128) -> EscrowState {
        self.asked(admin).with_fee_bps(new_fee_bps).published(
            Event::FeeUpdated(FeeUpdated { admin, new_fee_bps }),
        )
    }

    /// The state after the admin names another treasury.
    pub open spec fn treasury_changed(self, admin: Address, new_treasury: Address) -> EscrowState {
        self.asked(admin).with_treasury(new_treasury).published(
            Event::TreasuryUpdated(TreasuryUpdated { admin, new_treasury }),
        )
    }

    /// The state after the admin replaces the contract's code.
    pub open spec fn upgraded(self, admin: Address, new_wasm_hash: [u8; 32]) -> EscrowState {
        self.asked(admin).logged(Effect::UpdateWasm(new_wasm_hash)).published(
            Event::ContractUpgraded(ContractUpgraded { new_wasm_hash }),
        )
    }
}

} // verus!
