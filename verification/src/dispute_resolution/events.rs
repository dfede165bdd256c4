//! Events that the arbitration contract publishes.
use vstd::prelude::*;

use crate::shared::{Address, DisputeId};

verus! {

#[derive(Clone, Copy, Debug, PartialEq, Eq, Structural)]
pub struct DisputeRaised {
    pub dispute_id: DisputeId,
    pub raised_by: Address,
}

#[derive(Clone, Copy, Debug, PartialEq, Eq, Structural)]
pub struct ArbiterAssigned {
    pub dispute_id: DisputeId,
    pub arbiter: Address,
}

#[derive(Clone, Copy, Debug, PartialEq, Eq, Structural)]
pub struct DisputeResolved {
    pub dispute_id: DisputeId,
}

#[derive(Clone, Copy, Debug, PartialEq, Eq)]
pub struct ContractUpgraded {
    pub new_wasm_hash: [u8; 32],
}

/// Any event of the arbitration contract.
#[derive(Clone, Copy, Debug, PartialEq, Eq)]
pub enum Event {
    DisputeRaised(DisputeRaised),
    ArbiterAssigned(ArbiterAssigned),
    DisputeResolved(DisputeResolved),
    ContractUpgraded(ContractUpgraded),
}

} // verus!
