//! What holds of the escrow contract across its calls.
pub mod books;
pub mod campaigns;
pub mod delivery;
pub mod disputes;
pub mod frame;
pub mod governance;
pub mod log;
pub mod payouts;
pub mod recruiting;
pub mod refunds;
pub mod review;
pub mod settings;
pub mod settling;
pub mod solvency;
