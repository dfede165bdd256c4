//! The entry points of the arbitration contract.
use vstd::prelude::*;

use crate::dispute_resolution::calls::Call;
use crate::dispute_resolution::env::{Effect, Env};
use crate::dispute_resolution::error::{refused_with, Error};
use crate::dispute_resolution::events::{
    ArbiterAssigned, ContractUpgraded, DisputeRaised, DisputeResolved, Event,
};
use crate::dispute_resolution::storage;
use crate::dispute_resolution::types::Dispute;
use crate::shared::{Address, CampaignId, DisputeId, DisputeOutcome, DisputeStatus};

verus! {

/// The version recorded when the contract is set up. Replacing the code does
/// not change it.
pub const INITIAL_VERSION: &'static str = "0.1.0";

/// Refuses anyone but the stored admin.
fn require_admin(env: &mut Env, admin: Address) -> (r: Result<(), Error>)
    ensures
        final(env)@ == old(env)@.asked(admin),
        match old(env)@.admin_refusal(admin) {
            Some(e) => r == Err::<(), Error>(e),
            None => r == Ok::<(), Error>(()),
        },
{
    env.require_auth(admin);
    let stored_admin = storage::get_admin(env)?;
    if stored_admin != admin {
        return Err(Error::Unauthorized);
    }
    Ok(())
}

/// The arbitration contract.
pub struct DisputeResolutionContract;

impl DisputeResolutionContract {
    /// Sets the contract up, once. `escrow_contract` is the escrow whose
    /// payouts are disputed here.
    pub fn initialize(env: &mut Env, admin: Address, escrow_contract: Address) -> (r: Result<
        (),
        Error,
    >)
        ensures
            if old(env)@.initialized() {
                &&& r == Err::<(), Error>(Error::AlreadyInitialized)
                &&& final(env)@ == old(env)@.instance_kept()
            } else {
                &&& r == Ok::<(), Error>(())
                &&& final(env)@ == old(env)@.set_up(admin, escrow_contract, INITIAL_VERSION@)
            },
            final(env)@ == old(env)@.after(Call::Initialize { admin, escrow_contract }),
            refused_with(r) == old(env)@.refusal(Call::Initialize { admin, escrow_contract }),
    {
        storage::extend_instance_ttl(env);
        if storage::is_initialized(env) {
            return Err(Error::AlreadyInitialized);
        }
        env.require_auth(admin);

        storage::set_admin(env, admin);
        storage::set_escrow_contract(env, escrow_contract);
        storage::set_version(env, INITIAL_VERSION.to_string());
        Ok(())
    }

    /// Whether raising this dispute turns on who owns the campaign: then the
    /// escrow's answer has to be at hand before [`Self::raise_dispute`].
    pub fn turns_on_business(
        env: &Env,
        raised_by: Address,
        campaign_id: CampaignId,
        creator: Address,
        reason_uri: &String,
    ) -> (r: bool)
        ensures
            r == env@.turns_on_business(raised_by, campaign_id, creator, reason_uri@),
    {
        !reason_uri.as_str().is_empty() && storage::get_open_dispute(
            env,
            campaign_id,
            creator,
        ).is_none() && env.instance.escrow_contract.is_some() && raised_by != creator
    }

    /// Raises a dispute over a creator's payout, which freezes the payout in
    /// escrow.
    ///
    /// Either side of the payout may: the creator, or the campaign's business,
    /// which the escrow attests. There is no time limit but the payout itself:
    /// the escrow refuses to freeze one that was already made. One dispute at
    /// a time can be open over a payout.
    pub fn raise_dispute(
        env: &mut Env,
        raised_by: Address,
        campaign_id: CampaignId,
        creator: Address,
        reason_uri: String,
    ) -> (r: Result<DisputeId, Error>)
        requires
            old(env)@.turns_on_business(raised_by, campaign_id, creator, reason_uri@) ==> old(
                env,
            )@.campaign_businesses.contains_key(campaign_id),
            old(env)@.raise_refusal(raised_by, campaign_id, creator, reason_uri@) is None ==> old(
                env,
            )@.next_id() < u64::MAX,
        ensures
            match old(env)@.raise_refusal(raised_by, campaign_id, creator, reason_uri@) {
                Some(e) => {
                    &&& r == Err::<DisputeId, Error>(e)
                    &&& final(env)@ == old(env)@.instance_kept().asked(raised_by)
                },
                None => {
                    &&& r == Ok::<DisputeId, Error>(old(env)@.next_id())
                    &&& final(env)@ == old(env)@.raised(raised_by, campaign_id, creator, reason_uri)
                },
            },
            final(env)@ == old(env)@.after(
                Call::RaiseDispute { raised_by, campaign_id, creator, reason_uri },
            ),
            refused_with(r) == old(env)@.refusal(
                Call::RaiseDispute { raised_by, campaign_id, creator, reason_uri },
            ),
    {
        storage::extend_instance_ttl(env);
        env.require_auth(raised_by);
        if reason_uri.as_str().is_empty() {
            return Err(Error::InvalidReason);
        }
        if storage::get_open_dispute(env, campaign_id, creator).is_some() {
            return Err(Error::DisputeAlreadyRaised);
        }
        let escrow_contract = storage::get_escrow_contract(env)?;
        if raised_by != creator {
            match env.campaign_businesses.get(&campaign_id) {
                Some(business) => {
                    if raised_by != *business {
                        return Err(Error::Unauthorized);
                    }
                },
                None => {
                    return Err(Error::Unauthorized);
                },
            }
        }
        let caller = env.contract;
        env.request(Effect::FreezeForDispute { escrow_contract, caller, campaign_id, creator });

        let dispute_id: DisputeId = storage::next_dispute_id(env);
        let dispute = Dispute {
            campaign_id,
            creator,
            raised_by,
            reason_uri,
            arbiter: None,
            status: DisputeStatus::Raised,
            outcome: DisputeOutcome::Pending,
            raised_at: env.timestamp,
            resolved_at: None,
        };
        storage::set_dispute(env, dispute_id, dispute);
        storage::set_open_dispute(env, campaign_id, creator, dispute_id);
        env.publish(Event::DisputeRaised(DisputeRaised { dispute_id, raised_by }));
        Ok(dispute_id)
    }

    /// Assigns an arbiter to a dispute that has none yet.
    pub fn assign_arbiter(
        env: &mut Env,
        admin: Address,
        dispute_id: DisputeId,
        arbiter: Address,
    ) -> (r: Result<(), Error>)
        ensures
            match old(env)@.assign_refusal(admin, dispute_id) {
                Some(e) => {
                    &&& r == Err::<(), Error>(e)
                    &&& final(env)@ == old(env)@.instance_kept().asked(admin)
                },
                None => {
                    &&& r == Ok::<(), Error>(())
                    &&& final(env)@ == old(env)@.assigned(admin, dispute_id, arbiter)
                },
            },
            final(env)@ == old(env)@.after(Call::AssignArbiter { admin, dispute_id, arbiter }),
            refused_with(r) == old(env)@.refusal(
                Call::AssignArbiter { admin, dispute_id, arbiter },
            ),
    {
        storage::extend_instance_ttl(env);
        require_admin(env, admin)?;
        let mut dispute = storage::get_dispute(env, dispute_id)?;
        if dispute.status != DisputeStatus::Raised {
            return Err(Error::InvalidStatus);
        }
        dispute.arbiter = Some(arbiter);
        dispute.status = DisputeStatus::UnderReview;
        storage::set_dispute(env, dispute_id, dispute);
        env.publish(Event::ArbiterAssigned(ArbiterAssigned { dispute_id, arbiter }));
        Ok(())
    }

    /// Closes the dispute over a payout that the escrow has just settled. For
    /// the escrow contract alone.
    ///
    /// Without an open dispute over the payout this does nothing: the freeze
    /// may have come from the admin directly, or the dispute is closed already.
    pub fn close_dispute(
        env: &mut Env,
        caller: Address,
        campaign_id: CampaignId,
        creator: Address,
        outcome: DisputeOutcome,
    ) -> (r: Result<(), Error>)
        ensures
            match old(env)@.close_refusal(caller, campaign_id, creator, outcome) {
                Some(e) => {
                    &&& r == Err::<(), Error>(e)
                    &&& final(env)@ == old(env)@.instance_kept().asked(caller)
                },
                None => {
                    &&& r == Ok::<(), Error>(())
                    &&& final(env)@ == old(env)@.closed(caller, campaign_id, creator, outcome)
                },
            },
            final(env)@ == old(env)@.after(
                Call::CloseDispute { caller, campaign_id, creator, outcome },
            ),
            refused_with(r) == old(env)@.refusal(
                Call::CloseDispute { caller, campaign_id, creator, outcome },
            ),
    {
        storage::extend_instance_ttl(env);
        env.require_auth(caller);
        if caller != storage::get_escrow_contract(env)? {
            return Err(Error::Unauthorized);
        }
        if outcome == DisputeOutcome::Pending {
            return Err(Error::InvalidStatus);
        }
        let dispute_id: DisputeId = match storage::get_open_dispute(env, campaign_id, creator) {
            Some(dispute_id) => dispute_id,
            None => {
                return Ok(());
            },
        };
        let mut dispute = storage::get_dispute(env, dispute_id)?;
        dispute.status = DisputeStatus::Resolved;
        dispute.outcome = outcome;
        dispute.resolved_at = Some(env.timestamp);
        storage::set_dispute(env, dispute_id, dispute);
        storage::clear_open_dispute(env, campaign_id, creator);
        env.publish(Event::DisputeResolved(DisputeResolved { dispute_id }));
        Ok(())
    }

    /// A dispute's current state.
    pub fn get_dispute(env: &mut Env, dispute_id: DisputeId) -> (r: Result<Dispute, Error>)
        ensures
            r == (if old(env)@.disputes.contains_key(dispute_id) {
                Ok::<Dispute, Error>(old(env)@.disputes[dispute_id])
            } else {
                Err(Error::DisputeNotFound)
            }),
            final(env)@ == old(env)@.instance_kept(),
    {
        storage::extend_instance_ttl(env);
        storage::get_dispute(env, dispute_id)
    }

    /// The version recorded when the contract was set up.
    pub fn version(env: &mut Env) -> (r: Result<String, Error>)
        ensures
            match old(env)@.version {
                Some(version) => r is Ok && r->Ok_0@ == version,
                None => r == Err::<String, Error>(Error::NotInitialized),
            },
            final(env)@ == old(env)@.instance_kept(),
    {
        storage::extend_instance_ttl(env);
        storage::get_version(env)
    }

    /// Replaces the contract's code, keeping its address and its entries. The
    /// recorded version stays as it is.
    pub fn upgrade(env: &mut Env, admin: Address, new_wasm_hash: [u8; 32]) -> (r: Result<(), Error>)
        ensures
            match old(env)@.admin_refusal(admin) {
                Some(e) => {
                    &&& r == Err::<(), Error>(e)
                    &&& final(env)@ == old(env)@.instance_kept().asked(admin)
                },
                None => {
                    &&& r == Ok::<(), Error>(())
                    &&& final(env)@ == old(env)@.upgraded(admin, new_wasm_hash)
                },
            },
            final(env)@ == old(env)@.after(Call::Upgrade { admin, new_wasm_hash }),
            refused_with(r) == old(env)@.refusal(Call::Upgrade { admin, new_wasm_hash }),
    {
        storage::extend_instance_ttl(env);
        require_admin(env, admin)?;
        env.request(Effect::UpdateWasm(new_wasm_hash));
        env.publish(Event::ContractUpgraded(ContractUpgraded { new_wasm_hash }));
        Ok(())
    }
}

} // verus!
