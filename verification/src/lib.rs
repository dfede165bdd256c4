//! AdsBazaar's on-chain rules: a campaign escrow that holds and releases
//! creator budgets, and the arbitration of contested payouts.
//!
//! Each contract's entry points run against an `Env`: the ledger entries that
//! the call reads and writes, as plain values, together with a log of every
//! request made to the host (authorisations, writes, transfers, calls of other
//! contracts, events), in order. Performing the log is the caller's part.
pub mod campaign_escrow;
pub mod dispute_resolution;
pub mod entries;
pub mod shared;
pub mod system;
