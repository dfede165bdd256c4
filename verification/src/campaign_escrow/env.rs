//! What one call of the escrow contract sees of the ledger, and what it asks
//! of the host.
use vstd::prelude::*;

use crate::campaign_escrow::events::Event;
use crate::campaign_escrow::storage::DataKey;
use crate::campaign_escrow::types::{Application, Campaign};
use crate::entries::Entries;
use crate::shared::{Address, CampaignId, DisputeOutcome};

verus! {

/// A request to the host. The host performs a call's requests in the order of
/// the log; if one fails, or if the call returns an error, the whole call is
/// undone.
#[derive(Clone, Debug, PartialEq, Eq)]
pub enum Effect {
    /// Fail the call unless this address has authorised it.
    RequireAuth(Address),
    /// Write the entry's current value to the ledger.
    Write(DataKey),
    /// Delete the entry from the ledger.
    Delete(DataKey),
    /// Keep a persistent entry alive for `extend_to` ledgers once fewer than
    /// `threshold` are left.
    ExtendTtl { key: DataKey, threshold: u32, extend_to: u32 },
    /// The same for the contract's instance entries.
    ExtendInstanceTtl { threshold: u32, extend_to: u32 },
    /// Move `amount` of `token` between two holders.
    Transfer { token: Address, from: Address, to: Address, amount: i128 },
    /// Replace the contract's code.
    UpdateWasm([u8; 32]),
    /// Tell the dispute contract how a contested payout was settled. A failure
    /// of that call is ignored, so that it cannot block the settlement.
    CloseDispute {
        dispute_contract: Address,
        caller: Address,
        campaign_id: CampaignId,
        creator: Address,
        outcome: DisputeOutcome,
    },
    /// Publish an event.
    Publish(Event),
}

/// The contract's instance entries.
#[derive(Clone, Debug, PartialEq, Eq)]
pub struct Instance {
    pub admin: Option<Address>,
    pub pending_admin: Option<Address>,
    pub treasury: Option<Address>,
    pub fee_bps: Option<i128>,
    pub dispute_contract: Option<Address>,
    pub version: Option<String>,
    pub next_campaign_id: Option<CampaignId>,
    pub paused: Option<bool>,
}

/// The ledger as one call of the escrow contract sees it.
#[derive(Clone, Debug)]
pub struct Env {
    /// The address of this contract.
    pub contract: Address,
    /// The ledger's timestamp, in seconds.
    pub timestamp: u64,
    /// Addresses known to answer as token contracts.
    pub tokens: Vec<Address>,
    pub instance: Instance,
    pub campaigns: Entries<CampaignId, Campaign>,
    pub applications: Entries<(CampaignId, Address), Application>,
    pub applicant_counts: Entries<CampaignId, u32>,
    pub applicants: Entries<(CampaignId, u32), Address>,
    /// Requests made to the host so far.
    pub log: Vec<Effect>,
}

/// The mathematical reading of an [`Env`].
#[verifier::ext_equal]
pub struct EscrowState {
    pub contract: Address,
    pub now: u64,
    pub tokens: Seq<Address>,
    pub admin: Option<Address>,
    pub pending_admin: Option<Address>,
    pub treasury: Option<Address>,
    pub fee_bps: Option<i128>,
    pub dispute_contract: Option<Address>,
    pub version: Option<Seq<char>>,
    pub next_campaign_id: Option<CampaignId>,
    pub paused: Option<bool>,
    pub campaigns: Map<CampaignId, Campaign>,
    pub applications: Map<(CampaignId, Address), Application>,
    pub applicant_counts: Map<CampaignId, u32>,
    pub applicants: Map<(CampaignId, u32), Address>,
    pub log: Seq<Effect>,
}

impl View for Env {
    type V = EscrowState;

    open spec fn view(&self) -> EscrowState {
        EscrowState {
            contract: self.contract,
            now: self.timestamp,
            tokens: self.tokens@,
            admin: self.instance.admin,
            pending_admin: self.instance.pending_admin,
            treasury: self.instance.treasury,
            fee_bps: self.instance.fee_bps,
            dispute_contract: self.instance.dispute_contract,
            version: match self.instance.version {
                Some(version) => Some(version@),
                None => None,
            },
            next_campaign_id: self.instance.next_campaign_id,
            paused: self.instance.paused,
            campaigns: self.campaigns@,
            applications: self.applications@,
            applicant_counts: self.applicant_counts@,
            applicants: self.applicants@,
            log: self.log@,
        }
    }
}

impl EscrowState {
    /// A freshly deployed contract at time `now`.
    pub open spec fn deployed(contract: Address, now: u64) -> EscrowState {
        EscrowState {
            contract,
            now,
            tokens: Seq::empty(),
            admin: None,
            pending_admin: None,
            treasury: None,
            fee_bps: None,
            dispute_contract: None,
            version: None,
            next_campaign_id: None,
            paused: None,
            campaigns: Map::empty(),
            applications: Map::empty(),
            applicant_counts: Map::empty(),
            applicants: Map::empty(),
            log: Seq::empty(),
        }
    }

    /// The state after one more request to the host.
    pub open spec fn logged(self, effect: Effect) -> EscrowState {
        EscrowState { log: self.log.push(effect), ..self }
    }

    /// The state after asking for `who`'s authorisation.
    pub open spec fn asked(self, who: Address) -> EscrowState {
        self.logged(Effect::RequireAuth(who))
    }

    /// The state after publishing `event`.
    pub open spec fn published(self, event: Event) -> EscrowState {
        self.logged(Effect::Publish(event))
    }

    /// The state after paying `amount` of `token` out of the contract.
    pub open spec fn paid_out(self, token: Address, to: Address, amount: int) -> EscrowState {
        self.logged(
            Effect::Transfer { token, from: self.contract, to, amount: amount as i128 },
        )
    }

    /// [`Self::paid_out`] where there is anything to pay.
    pub open spec fn paid_out_if_any(
        self,
        token: Address,
        to: Address,
        amount: int,
    ) -> EscrowState {
        if amount > 0 {
            self.paid_out(token, to, amount)
        } else {
            self
        }
    }
}

impl Env {
    /// A freshly deployed contract at time `timestamp`.
    pub fn new(contract: Address, timestamp: u64) -> (r: Env)
        ensures
            r@ == EscrowState::deployed(contract, timestamp),
    {
        Env {
            contract,
            timestamp,
            tokens: Vec::new(),
            instance: Instance {
                admin: None,
                pending_admin: None,
                treasury: None,
                fee_bps: None,
                dispute_contract: None,
                version: None,
                next_campaign_id: None,
                paused: None,
            },
            campaigns: Entries::new(),
            applications: Entries::new(),
            applicant_counts: Entries::new(),
            applicants: Entries::new(),
            log: Vec::new(),
        }
    }

    /// Whether `token` is known to answer as a token contract.
    pub fn is_token(&self, token: Address) -> (r: bool)
        ensures
            r == self@.tokens.contains(token),
    {
        let mut i: usize = 0;
        while i < self.tokens.len()
            invariant
                i <= self.tokens@.len(),
                forall|j: int| 0 <= j < i ==> self.tokens@[j] != token,
            decreases self.tokens@.len() - i,
        {
            if self.tokens[i] == token {
                assert(self.tokens@[i as int] == token);
                return true;
            }
            i = i + 1;
        }
        false
    }

    /// Records a request to the host.
    pub fn request(&mut self, effect: Effect)
        ensures
            final(self)@ == old(self)@.logged(effect),
    {
        self.log.push(effect);
    }

    /// Asks for `who`'s authorisation.
    pub fn require_auth(&mut self, who: Address)
        ensures
            final(self)@ == old(self)@.asked(who),
    {
        self.request(Effect::RequireAuth(who));
    }

    /// Publishes `event`.
    pub fn publish(&mut self, event: Event)
        ensures
            final(self)@ == old(self)@.published(event),
    {
        self.request(Effect::Publish(event));
    }

    /// Pays `amount` of `token` out of the contract.
    pub fn pay_out(&mut self, token: Address, to: Address, amount: i128)
        ensures
            final(self)@ == old(self)@.paid_out(token, to, amount as int),
    {
        let from = self.contract;
        self.request(Effect::Transfer { token, from, to, amount });
    }
}

} // verus!
