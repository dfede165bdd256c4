//! Reading and writing the arbitration contract's ledger entries.
use vstd::prelude::*;

use crate::dispute_resolution::env::{DisputeState, Effect, Env};
use crate::dispute_resolution::error::Error;
use crate::dispute_resolution::types::Dispute;
use crate::shared::{Address, CampaignId, DisputeId};

verus! {

/// Every write keeps its entry alive for about thirty days of five-second
/// ledgers.
pub const PERSISTENT_BUMP_LEDGERS: u32 = 518_400;

pub const PERSISTENT_LIFETIME_THRESHOLD: u32 = 500_000;

/// The same for the instance entries, whose lifetime is tracked on its own.
pub const INSTANCE_BUMP_LEDGERS: u32 = 518_400;

pub const INSTANCE_LIFETIME_THRESHOLD: u32 = 500_000;

/// Names a ledger entry of the arbitration contract.
#[derive(Clone, Copy, Debug, PartialEq, Eq, Structural)]
pub enum DataKey {
    Admin,
    EscrowContract,
    Version,
    NextDisputeId,
    Dispute(DisputeId),
    /// The dispute that is open over a payout. Keeps a second one from being
    /// opened over it.
    OpenDispute(CampaignId, Address),
}

impl DisputeState {
    /// Whether the contract has been set up.
    pub open spec fn initialized(self) -> bool {
        self.admin is Some
    }

    /// The number that the next dispute gets.
    pub open spec fn next_id(self) -> DisputeId {
        match self.next_dispute_id {
            Some(id) => id,
            None => 0,
        }
    }

    /// The state after keeping the instance entries alive.
    pub open spec fn instance_kept(self) -> DisputeState {
        self.logged(
            Effect::ExtendInstanceTtl {
                threshold: INSTANCE_LIFETIME_THRESHOLD,
                extend_to: INSTANCE_BUMP_LEDGERS,
            },
        )
    }

    /// The state after writing a persistent entry and keeping it alive.
    pub open spec fn written(self, key: DataKey) -> DisputeState {
        self.logged(Effect::Write(key)).logged(
            Effect::ExtendTtl {
                key,
                threshold: PERSISTENT_LIFETIME_THRESHOLD,
                extend_to: PERSISTENT_BUMP_LEDGERS,
            },
        )
    }

    pub open spec fn with_admin(self, admin: Address) -> DisputeState {
        DisputeState { admin: Some(admin), ..self }.logged(Effect::Write(DataKey::Admin))
    }

    pub open spec fn with_escrow_contract(self, escrow_contract: Address) -> DisputeState {
        DisputeState { escrow_contract: Some(escrow_contract), ..self }.logged(
            Effect::Write(DataKey::EscrowContract),
        )
    }

    pub open spec fn with_version(self, version: Seq<char>) -> DisputeState {
        DisputeState { version: Some(version), ..self }.logged(Effect::Write(DataKey::Version))
    }

    /// The state after handing out a dispute number.
    pub open spec fn with_id_taken(self) -> DisputeState {
        DisputeState { next_dispute_id: Some((self.next_id() + 1) as u64), ..self }.logged(
            Effect::Write(DataKey::NextDisputeId),
        )
    }

    /// The state after writing a dispute.
    pub open spec fn with_dispute(self, id: DisputeId, dispute: Dispute) -> DisputeState {
        DisputeState { disputes: self.disputes.insert(id, dispute), ..self }.written(
            DataKey::Dispute(id),
        )
    }

    /// The state after marking a dispute as the open one over a payout.
    pub open spec fn with_open_dispute(
        self,
        campaign_id: CampaignId,
        creator: Address,
        id: DisputeId,
    ) -> DisputeState {
        DisputeState {
            open_disputes: self.open_disputes.insert((campaign_id, creator), id),
            ..self
        }.written(DataKey::OpenDispute(campaign_id, creator))
    }

    /// The state after dropping the mark.
    pub open spec fn without_open_dispute(
        self,
        campaign_id: CampaignId,
        creator: Address,
    ) -> DisputeState {
        DisputeState {
            open_disputes: self.open_disputes.remove((campaign_id, creator)),
            ..self
        }.logged(Effect::Delete(DataKey::OpenDispute(campaign_id, creator)))
    }
}

/// Whether the contract has been set up.
pub fn is_initialized(env: &Env) -> (r: bool)
    ensures
        r == env@.initialized(),
{
    env.instance.admin.is_some()
}

/// Keeps the instance entries alive. Every entry point calls this, reads too:
/// little else writes them after setup, and they would expire.
pub fn extend_instance_ttl(env: &mut Env)
    ensures
        final(env)@ == old(env)@.instance_kept(),
{
    env.request(
        Effect::ExtendInstanceTtl {
            threshold: INSTANCE_LIFETIME_THRESHOLD,
            extend_to: INSTANCE_BUMP_LEDGERS,
        },
    );
}

fn write(env: &mut Env, key: DataKey)
    ensures
        final(env)@ == old(env)@.written(key),
{
    env.request(Effect::Write(key));
    env.request(
        Effect::ExtendTtl {
            key,
            threshold: PERSISTENT_LIFETIME_THRESHOLD,
            extend_to: PERSISTENT_BUMP_LEDGERS,
        },
    );
}

pub fn set_admin(env: &mut Env, admin: Address)
    ensures
        final(env)@ == old(env)@.with_admin(admin),
{
    env.instance.admin = Some(admin);
    env.request(Effect::Write(DataKey::Admin));
}

pub fn get_admin(env: &Env) -> (r: Result<Address, Error>)
    ensures
        r == (match env@.admin {
            Some(admin) => Ok::<Address, Error>(admin),
            None => Err(Error::NotInitialized),
        }),
{
    env.instance.admin.ok_or(Error::NotInitialized)
}

pub fn set_escrow_contract(env: &mut Env, escrow_contract: Address)
    ensures
        final(env)@ == old(env)@.with_escrow_contract(escrow_contract),
{
    env.instance.escrow_contract = Some(escrow_contract);
    env.request(Effect::Write(DataKey::EscrowContract));
}

pub fn get_escrow_contract(env: &Env) -> (r: Result<Address, Error>)
    ensures
        r == (match env@.escrow_contract {
            Some(escrow_contract) => Ok::<Address, Error>(escrow_contract),
            None => Err(Error::NotInitialized),
        }),
{
    env.instance.escrow_contract.ok_or(Error::NotInitialized)
}

pub fn set_version(env: &mut Env, version: String)
    ensures
        final(env)@ == old(env)@.with_version(version@),
{
    env.instance.version = Some(version);
    env.request(Effect::Write(DataKey::Version));
}

pub fn get_version(env: &Env) -> (r: Result<String, Error>)
    ensures
        match env@.version {
            Some(version) => r is Ok && r->Ok_0@ == version,
            None => r == Err::<String, Error>(Error::NotInitialized),
        },
{
    match &env.instance.version {
        Some(version) => Ok(version.clone()),
        None => Err(Error::NotInitialized),
    }
}

/// Hands out the next dispute number.
pub fn next_dispute_id(env: &mut Env) -> (r: DisputeId)
    requires
        old(env)@.next_id() < u64::MAX,
    ensures
        r == old(env)@.next_id(),
        final(env)@ == old(env)@.with_id_taken(),
{
    let id: DisputeId = match env.instance.next_dispute_id {
        Some(id) => id,
        None => 0,
    };
    env.instance.next_dispute_id = Some(id + 1);
    env.request(Effect::Write(DataKey::NextDisputeId));
    id
}

pub fn get_dispute(env: &Env, id: DisputeId) -> (r: Result<Dispute, Error>)
    ensures
        r == (if env@.disputes.contains_key(id) {
            Ok::<Dispute, Error>(env@.disputes[id])
        } else {
            Err(Error::DisputeNotFound)
        }),
{
    match env.disputes.get(&id) {
        Some(dispute) => Ok(dispute.clone()),
        None => Err(Error::DisputeNotFound),
    }
}

pub fn set_dispute(env: &mut Env, id: DisputeId, dispute: Dispute)
    ensures
        final(env)@ == old(env)@.with_dispute(id, dispute),
{
    env.disputes.set(id, dispute);
    write(env, DataKey::Dispute(id));
}

/// The dispute that is open over a payout, if one is.
pub fn get_open_dispute(env: &Env, campaign_id: CampaignId, creator: Address) -> (r: Option<
    DisputeId,
>)
    ensures
        r == (if env@.open_disputes.contains_key((campaign_id, creator)) {
            Some(env@.open_disputes[(campaign_id, creator)])
        } else {
            None
        }),
{
    match env.open_disputes.get(&(campaign_id, creator)) {
        Some(id) => Some(*id),
        None => None,
    }
}

pub fn set_open_dispute(env: &mut Env, campaign_id: CampaignId, creator: Address, id: DisputeId)
    ensures
        final(env)@ == old(env)@.with_open_dispute(campaign_id, creator, id),
{
    env.open_disputes.set((campaign_id, creator), id);
    write(env, DataKey::OpenDispute(campaign_id, creator));
}

/// Drops the mark of an open dispute, so that another can be raised later.
pub fn clear_open_dispute(env: &mut Env, campaign_id: CampaignId, creator: Address)
    ensures
        final(env)@ == old(env)@.without_open_dispute(campaign_id, creator),
{
    env.open_disputes.remove(&(campaign_id, creator));
    env.request(Effect::Delete(DataKey::OpenDispute(campaign_id, creator)));
}

} // verus!
