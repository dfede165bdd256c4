//! What one call of the arbitration contract sees of the ledger, and what it
//! asks of the host.
use vstd::prelude::*;

use crate::dispute_resolution::events::Event;
use crate::dispute_resolution::storage::DataKey;
use crate::dispute_resolution::types::Dispute;
use crate::entries::Entries;
use crate::shared::{Address, CampaignId, DisputeId};

verus! {

/// A request to the host. The host performs a call's requests in the order of
/// the log; if one fails, or if the call returns an error, the whole call is
/// undone.
#[derive(Clone, Debug, PartialEq, Eq)]
pub enum Effect {
    /// Fail the call unless this address has authorised it.
    RequireAuth(Address),
    /// Write the entry's current value to the ledger.
    Write(DataKey),
    /// Delete the entry from the ledger.
    Delete(DataKey),
    /// Keep a persistent entry alive for `extend_to` ledgers once fewer than
    /// `threshold` are left.
    ExtendTtl { key: DataKey, threshold: u32, extend_to: u32 },
    /// The same for the contract's instance entries.
    ExtendInstanceTtl { threshold: u32, extend_to: u32 },
    /// Have the escrow contract freeze a creator's payout.
    FreezeForDispute {
        escrow_contract: Address,
        caller: Address,
        campaign_id: CampaignId,
        creator: Address,
    },
    /// Replace the contract's code.
    UpdateWasm([u8; 32]),
    /// Publish an event.
    Publish(Event),
}

/// The contract's instance entries.
#[derive(Clone, Debug, PartialEq, Eq)]
pub struct Instance {
    pub admin: Option<Address>,
    pub escrow_contract: Option<Address>,
    pub version: Option<String>,
    pub next_dispute_id: Option<DisputeId>,
}

/// The ledger as one call of the arbitration contract sees it.
#[derive(Clone, Debug)]
pub struct Env {
    /// The address of this contract.
    pub contract: Address,
    /// The ledger's timestamp, in seconds.
    pub timestamp: u64,
    pub instance: Instance,
    pub disputes: Entries<DisputeId, Dispute>,
    /// The dispute that is open over a payout.
    pub open_disputes: Entries<(CampaignId, Address), DisputeId>,
    /// What the escrow contract answered on who owns a campaign.
    pub campaign_businesses: Entries<CampaignId, Address>,
    /// Requests made to the host so far.
    pub log: Vec<Effect>,
}

/// The mathematical reading of an [`Env`].
#[verifier::ext_equal]
pub struct DisputeState {
    pub contract: Address,
    pub now: u64,
    pub admin: Option<Address>,
    pub escrow_contract: Option<Address>,
    pub version: Option<Seq<char>>,
    pub next_dispute_id: Option<DisputeId>,
    pub disputes: Map<DisputeId, Dispute>,
    pub open_disputes: Map<(CampaignId, Address), DisputeId>,
    pub campaign_businesses: Map<CampaignId, Address>,
    pub log: Seq<Effect>,
}

impl View for Env {
    type V = DisputeState;

    open spec fn view(&self) -> DisputeState {
        DisputeState {
            contract: self.contract,
            now: self.timestamp,
            admin: self.instance.admin,
            escrow_contract: self.instance.escrow_contract,
            version: match self.instance.version {
                Some(version) => Some(version@),
                None => None,
            },
            next_dispute_id: self.instance.next_dispute_id,
            disputes: self.disputes@,
            open_disputes: self.open_disputes@,
            campaign_businesses: self.campaign_businesses@,
            log: self.log@,
        }
    }
}

impl DisputeState {
    /// A freshly deployed contract at time `now`.
    pub open spec fn deployed(contract: Address, now: u64) -> DisputeState {
        DisputeState {
            contract,
            now,
            admin: None,
            escrow_contract: None,
            version: None,
            next_dispute_id: None,
            disputes: Map::empty(),
            open_disputes: Map::empty(),
            campaign_businesses: Map::empty(),
            log: Seq::empty(),
        }
    }

    /// The state after one more request to the host.
    pub open spec fn logged(self, effect: Effect) -> DisputeState {
        DisputeState { log: self.log.push(effect), ..self }
    }

    /// The state after asking for `who`'s authorisation.
    pub open spec fn asked(self, who: Address) -> DisputeState {
        self.logged(Effect::RequireAuth(who))
    }

    /// The state after publishing `event`.
    pub open spec fn published(self, event: Event) -> DisputeState {
        self.logged(Effect::Publish(event))
    }
}

impl Env {
    /// A freshly deployed contract at time `timestamp`.
    pub fn new(contract: Address, timestamp: u64) -> (r: Env)
        ensures
            r@ == DisputeState::deployed(contract, timestamp),
    {
        Env {
            contract,
            timestamp,
            instance: Instance {
                admin: None,
                escrow_contract: None,
                version: None,
                next_dispute_id: None,
            },
            disputes: Entries::new(),
            open_disputes: Entries::new(),
            campaign_businesses: Entries::new(),
            log: Vec::new(),
        }
    }

    /// Records a request to the host.
    pub fn request(&mut self, effect: Effect)
        ensures
            final(self)@ == old(self)@.logged(effect),
    {
        self.log.push(effect);
    }

    /// Asks for `who`'s authorisation.
    pub fn require_auth(&mut self, who: Address)
        ensures
            final(self)@ == old(self)@.asked(who),
    {
        self.request(Effect::RequireAuth(who));
    }

    /// Publishes `event`.
    pub fn publish(&mut self, event: Event)
        ensures
            final(self)@ == old(self)@.published(event),
    {
        self.request(Effect::Publish(event));
    }
}

} // verus!
