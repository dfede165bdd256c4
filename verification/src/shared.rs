//! Types that the escrow and the arbitration contract agree on.
use vstd::prelude::*;

verus! {

/// Identifies a campaign within one escrow contract.
pub type CampaignId = u64;

/// Identifies a dispute within one arbitration contract.
pub type DisputeId = u64;

/// One hundred percent, in basis points.
pub const BASIS_POINTS_DENOMINATOR: i128 = 10_000;

/// What an [`Address`] designates on the network.
#[derive(Clone, Copy, Debug, PartialEq, Eq, Structural)]
pub enum AddressKind {
    /// An account; the identifier is its ed25519 public key.
    Account,
    /// A deployed contract; the identifier is its contract hash.
    Contract,
}

/// A network address: its kind and its 256-bit identifier, in two halves.
#[derive(Clone, Copy, Debug, PartialEq, Eq, Structural)]
pub struct Address {
    pub kind: AddressKind,
    pub high: u128,
    pub low: u128,
}

impl Address {
    /// The account with the given public key, most significant half first.
    pub fn account(high: u128, low: u128) -> (r: Address)
        ensures
            r == (Address { kind: AddressKind::Account, high, low }),
    {
        Address { kind: AddressKind::Account, high, low }
    }

    /// The contract with the given hash, most significant half first.
    pub fn contract(high: u128, low: u128) -> (r: Address)
        ensures
            r == (Address { kind: AddressKind::Contract, high, low }),
    {
        Address { kind: AddressKind::Contract, high, low }
    }
}

/// The asset that a campaign is funded and paid out in.
#[derive(Debug, PartialEq, Eq)]
pub struct PayoutAsset {
    /// The token contract that moves the asset.
    pub token: Address,
    /// Display-only name such as `USDC`; no rule depends on it.
    pub symbol: String,
}

impl Clone for PayoutAsset {
    fn clone(&self) -> (r: Self)
        ensures
            r == *self,
    {
        PayoutAsset { token: self.token, symbol: self.symbol.clone() }
    }
}

/// Where a campaign stands in its life.
#[derive(Clone, Copy, Debug, PartialEq, Eq, Structural)]
pub enum CampaignStatus {
    /// Created but not yet funded.
    Draft,
    /// Budget deposited, open for applications.
    Funded,
    /// At least one creator approved.
    Active,
    /// Nothing is left in escrow.
    Completed,
    /// The unallocated budget went back before completion.
    Cancelled,
    /// Reserved for a campaign-wide halt; no operation enters it.
    Disputed,
}

/// Where one creator's application stands.
#[derive(Clone, Copy, Debug, PartialEq, Eq, Structural)]
pub enum ApplicationStatus {
    /// Waiting for the business to decide.
    Pending,
    /// Selected, with an agreed payout.
    Approved,
    /// The last submitted proof was turned down; another may follow.
    Rejected,
    /// A proof of work is waiting for review.
    ProofSubmitted,
    /// The payout was settled.
    Paid,
}

/// Where a dispute stands.
#[derive(Clone, Copy, Debug, PartialEq, Eq, Structural)]
pub enum DisputeStatus {
    /// Opened, no arbiter yet.
    Raised,
    /// An arbiter is assigned.
    UnderReview,
    /// Closed with an outcome.
    Resolved,
}

/// How a dispute ended.
#[derive(Clone, Copy, Debug, PartialEq, Eq, Structural)]
pub enum DisputeOutcome {
    /// Not decided yet.
    Pending,
    /// The creator received the whole payout.
    PayCreator,
    /// The business received the whole payout back.
    RefundBusiness,
    /// The creator received this many basis points of the payout.
    Split(i128),
}

} // verus!
