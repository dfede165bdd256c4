//! The escrow contract: it holds campaign budgets and releases them to
//! approved creators.
pub mod amounts;
pub mod calls;
pub mod contract;
pub mod env;
pub mod error;
pub mod events;
pub mod laws;
pub mod rules;
pub mod storage;
pub mod totals;
pub mod types;
