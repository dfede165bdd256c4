//! What each call of the escrow contract is refused for, and the state that
//! an accepted call leaves behind.
//!
//! A refusal is an ordered decision: the first ground that holds is the one
//! reported.
pub mod admin;
pub mod campaign;
pub mod dispute;
pub mod refund;
pub mod submission;
