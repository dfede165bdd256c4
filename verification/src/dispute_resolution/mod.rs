//! The arbitration contract: it records disputes over payouts that the escrow
//! contract holds.
pub mod calls;
pub mod contract;
pub mod env;
pub mod error;
pub mod events;
pub mod laws;
pub mod rules;
pub mod storage;
pub mod types;
