//! Reading and writing the escrow contract's ledger entries.
use vstd::prelude::*;

use crate::campaign_escrow::env::{Effect, Env, EscrowState};
use crate::campaign_escrow::error::Error;
use crate::campaign_escrow::types::{Application, Campaign};
use crate::shared::{Address, CampaignId};

verus! {

/// Every write keeps its entry alive for about thirty days of five-second
/// ledgers.
pub const PERSISTENT_BUMP_LEDGERS: u32 = 518_400;

pub const PERSISTENT_LIFETIME_THRESHOLD: u32 = 500_000;

/// The same for the instance entries, whose lifetime is tracked on its own.
pub const INSTANCE_BUMP_LEDGERS: u32 = 518_400;

pub const INSTANCE_LIFETIME_THRESHOLD: u32 = 500_000;

/// Names a ledger entry of the escrow contract.
#[derive(Clone, Copy, Debug, PartialEq, Eq, Structural)]
pub enum DataKey {
    Admin,
    PendingAdmin,
    Treasury,
    FeeBps,
    DisputeContract,
    Version,
    NextCampaignId,
    Campaign(CampaignId),
    Application(CampaignId, Address),
    Paused,
    /// How many creators have applied to a campaign.
    ApplicantCount(CampaignId),
    /// The applicant at a zero-based place in the order of application. One
    /// entry of fixed size per applicant, so that applying costs the same
    /// however many applied before.
    CampaignApplicant(CampaignId, u32),
}

impl EscrowState {
    /// Whether the contract has been set up.
    pub open spec fn initialized(self) -> bool {
        self.admin is Some
    }

    /// Whether state-changing calls are suspended; they are not until someone
    /// suspends them.
    pub open spec fn is_paused(self) -> bool {
        self.paused == Some(true)
    }

    /// The number that the next campaign gets.
    pub open spec fn next_id(self) -> CampaignId {
        match self.next_campaign_id {
            Some(id) => id,
            None => 0,
        }
    }

    /// How many creators have applied to a campaign.
    pub open spec fn applicant_count(self, campaign_id: CampaignId) -> u32 {
        if self.applicant_counts.contains_key(campaign_id) {
            self.applicant_counts[campaign_id]
        } else {
            0
        }
    }

    /// The state after keeping the instance entries alive.
    pub open spec fn instance_kept(self) -> EscrowState {
        self.logged(
            Effect::ExtendInstanceTtl {
                threshold: INSTANCE_LIFETIME_THRESHOLD,
                extend_to: INSTANCE_BUMP_LEDGERS,
            },
        )
    }

    /// The state after keeping a persistent entry alive.
    pub open spec fn kept(self, key: DataKey) -> EscrowState {
        self.logged(
            Effect::ExtendTtl {
                key,
                threshold: PERSISTENT_LIFETIME_THRESHOLD,
                extend_to: PERSISTENT_BUMP_LEDGERS,
            },
        )
    }

    /// The state after writing a persistent entry and keeping it alive.
    pub open spec fn written(self, key: DataKey) -> EscrowState {
        self.logged(Effect::Write(key)).kept(key)
    }

    pub open spec fn with_admin(self, admin: Address) -> EscrowState {
        EscrowState { admin: Some(admin), ..self }.logged(Effect::Write(DataKey::Admin))
    }

    pub open spec fn with_pending_admin(self, pending: Address) -> EscrowState {
        EscrowState { pending_admin: Some(pending), ..self }.logged(
            Effect::Write(DataKey::PendingAdmin),
        )
    }

    pub open spec fn without_pending_admin(self) -> EscrowState {
        EscrowState { pending_admin: None, ..self }.logged(Effect::Delete(DataKey::PendingAdmin))
    }

    pub open spec fn with_treasury(self, treasury: Address) -> EscrowState {
        EscrowState { treasury: Some(treasury), ..self }.logged(Effect::Write(DataKey::Treasury))
    }

    pub open spec fn with_fee_bps(self, fee_bps: i128) -> EscrowState {
        EscrowState { fee_bps: Some(fee_bps), ..self }.logged(Effect::Write(DataKey::FeeBps))
    }

    pub open spec fn with_dispute_contract(self, dispute_contract: Address) -> EscrowState {
        EscrowState { dispute_contract: Some(dispute_contract), ..self }.logged(
            Effect::Write(DataKey::DisputeContract),
        )
    }

    pub open spec fn with_version(self, version: Seq<char>) -> EscrowState {
        EscrowState { version: Some(version), ..self }.logged(Effect::Write(DataKey::Version))
    }

    pub open spec fn with_paused(self, paused: bool) -> EscrowState {
        EscrowState { paused: Some(paused), ..self }.logged(Effect::Write(DataKey::Paused))
    }

    /// The state after handing out a campaign number.
    pub open spec fn with_id_taken(self) -> EscrowState {
        EscrowState { next_campaign_id: Some((self.next_id() + 1) as u64), ..self }.logged(
            Effect::Write(DataKey::NextCampaignId),
        )
    }

    /// The state after writing a campaign.
    pub open spec fn with_campaign(self, campaign: Campaign) -> EscrowState {
        EscrowState { campaigns: self.campaigns.insert(campaign.id, campaign), ..self }.written(
            DataKey::Campaign(campaign.id),
        )
    }

    /// The state after writing an application.
    pub open spec fn with_application(self, application: Application) -> EscrowState {
        EscrowState {
            applications: self.applications.insert(
                (application.campaign_id, application.creator),
                application,
            ),
            ..self
        }.written(DataKey::Application(application.campaign_id, application.creator))
    }

    /// The state after appending `creator` to a campaign's applicants.
    pub open spec fn with_applicant(
        self,
        campaign_id: CampaignId,
        creator: Address,
    ) -> EscrowState {
        let count = self.applicant_count(campaign_id);
        EscrowState {
            applicant_counts: self.applicant_counts.insert(campaign_id, (count + 1) as u32),
            applicants: self.applicants.insert((campaign_id, count), creator),
            ..self
        }.written(DataKey::CampaignApplicant(campaign_id, count)).written(
            DataKey::ApplicantCount(campaign_id),
        )
    }
}

/// Whether the contract has been set up.
pub fn is_initialized(env: &Env) -> (r: bool)
    ensures
        r == env@.initialized(),
{
    env.instance.admin.is_some()
}

/// Keeps the instance entries alive, so that the settings do not expire for
/// want of writes: on reading the protocol's configuration, and on proposing
/// and accepting an admin.
pub fn extend_instance_ttl(env: &mut Env)
    ensures
        final(env)@ == old(env)@.instance_kept(),
{
    env.request(
        Effect::ExtendInstanceTtl {
            threshold: INSTANCE_LIFETIME_THRESHOLD,
            extend_to: INSTANCE_BUMP_LEDGERS,
        },
    );
}

fn extend_ttl(env: &mut Env, key: DataKey)
    ensures
        final(env)@ == old(env)@.kept(key),
{
    env.request(
        Effect::ExtendTtl {
            key,
            threshold: PERSISTENT_LIFETIME_THRESHOLD,
            extend_to: PERSISTENT_BUMP_LEDGERS,
        },
    );
}

pub fn set_admin(env: &mut Env, admin: Address)
    ensures
        final(env)@ == old(env)@.with_admin(admin),
{
    env.instance.admin = Some(admin);
    env.request(Effect::Write(DataKey::Admin));
}

pub fn get_admin(env: &Env) -> (r: Result<Address, Error>)
    ensures
        r == (match env@.admin {
            Some(admin) => Ok::<Address, Error>(admin),
            None => Err(Error::NotInitialized),
        }),
{
    env.instance.admin.ok_or(Error::NotInitialized)
}

pub fn set_pending_admin(env: &mut Env, pending_admin: Address)
    ensures
        final(env)@ == old(env)@.with_pending_admin(pending_admin),
{
    env.instance.pending_admin = Some(pending_admin);
    env.request(Effect::Write(DataKey::PendingAdmin));
}

pub fn get_pending_admin(env: &Env) -> (r: Option<Address>)
    ensures
        r == env@.pending_admin,
{
    env.instance.pending_admin
}

pub fn clear_pending_admin(env: &mut Env)
    ensures
        final(env)@ == old(env)@.without_pending_admin(),
{
    env.instance.pending_admin = None;
    env.request(Effect::Delete(DataKey::PendingAdmin));
}

pub fn set_treasury(env: &mut Env, treasury: Address)
    ensures
        final(env)@ == old(env)@.with_treasury(treasury),
{
    env.instance.treasury = Some(treasury);
    env.request(Effect::Write(DataKey::Treasury));
}

pub fn get_treasury(env: &Env) -> (r: Result<Address, Error>)
    ensures
        r == (match env@.treasury {
            Some(treasury) => Ok::<Address, Error>(treasury),
            None => Err(Error::NotInitialized),
        }),
{
    env.instance.treasury.ok_or(Error::NotInitialized)
}

pub fn set_fee_bps(env: &mut Env, fee_bps: i128)
    ensures
        final(env)@ == old(env)@.with_fee_bps(fee_bps),
{
    env.instance.fee_bps = Some(fee_bps);
    env.request(Effect::Write(DataKey::FeeBps));
}

pub fn get_fee_bps(env: &Env) -> (r: Result<i128, Error>)
    ensures
        r == (match env@.fee_bps {
            Some(fee_bps) => Ok::<i128, Error>(fee_bps),
            None => Err(Error::NotInitialized),
        }),
{
    env.instance.fee_bps.ok_or(Error::NotInitialized)
}

pub fn set_dispute_contract(env: &mut Env, dispute_contract: Address)
    ensures
        final(env)@ == old(env)@.with_dispute_contract(dispute_contract),
{
    env.instance.dispute_contract = Some(dispute_contract);
    env.request(Effect::Write(DataKey::DisputeContract));
}

pub fn get_dispute_contract(env: &Env) -> (r: Result<Address, Error>)
    ensures
        r == (match env@.dispute_contract {
            Some(dispute_contract) => Ok::<Address, Error>(dispute_contract),
            None => Err(Error::NotInitialized),
        }),
{
    env.instance.dispute_contract.ok_or(Error::NotInitialized)
}

pub fn set_version(env: &mut Env, version: String)
    ensures
        final(env)@ == old(env)@.with_version(version@),
{
    env.instance.version = Some(version);
    env.request(Effect::Write(DataKey::Version));
}

pub fn get_version(env: &Env) -> (r: Result<String, Error>)
    ensures
        match env@.version {
            Some(version) => r is Ok && r->Ok_0@ == version,
            None => r == Err::<String, Error>(Error::NotInitialized),
        },
{
    match &env.instance.version {
        Some(version) => Ok(version.clone()),
        None => Err(Error::NotInitialized),
    }
}

/// Hands out the next campaign number.
pub fn next_campaign_id(env: &mut Env) -> (r: CampaignId)
    requires
        old(env)@.next_id() < u64::MAX,
    ensures
        r == old(env)@.next_id(),
        final(env)@ == old(env)@.with_id_taken(),
{
    let id: CampaignId = match env.instance.next_campaign_id {
        Some(id) => id,
        None => 0,
    };
    env.instance.next_campaign_id = Some(id + 1);
    env.request(Effect::Write(DataKey::NextCampaignId));
    id
}

pub fn get_campaign(env: &Env, id: CampaignId) -> (r: Result<Campaign, Error>)
    ensures
        r == (if env@.campaigns.contains_key(id) {
            Ok::<Campaign, Error>(env@.campaigns[id])
        } else {
            Err(Error::CampaignNotFound)
        }),
{
    match env.campaigns.get(&id) {
        Some(campaign) => Ok(campaign.clone()),
        None => Err(Error::CampaignNotFound),
    }
}

pub fn set_campaign(env: &mut Env, campaign: Campaign)
    ensures
        final(env)@ == old(env)@.with_campaign(campaign),
{
    let key = DataKey::Campaign(campaign.id);
    env.campaigns.set(campaign.id, campaign);
    env.request(Effect::Write(key));
    extend_ttl(env, key);
}

pub fn get_application(env: &Env, campaign_id: CampaignId, creator: Address) -> (r: Result<
    Application,
    Error,
>)
    ensures
        r == (if env@.applications.contains_key((campaign_id, creator)) {
            Ok::<Application, Error>(env@.applications[(campaign_id, creator)])
        } else {
            Err(Error::ApplicationNotFound)
        }),
{
    match env.applications.get(&(campaign_id, creator)) {
        Some(application) => Ok(application.clone()),
        None => Err(Error::ApplicationNotFound),
    }
}

pub fn set_application(env: &mut Env, application: Application)
    ensures
        final(env)@ == old(env)@.with_application(application),
{
    let key = DataKey::Application(application.campaign_id, application.creator);
    env.applications.set((application.campaign_id, application.creator), application);
    env.request(Effect::Write(key));
    extend_ttl(env, key);
}

/// Whether state-changing calls are suspended.
pub fn get_paused(env: &Env) -> (r: bool)
    ensures
        r == env@.is_paused(),
{
    match env.instance.paused {
        Some(paused) => paused,
        None => false,
    }
}

pub fn set_paused(env: &mut Env, paused: bool)
    ensures
        final(env)@ == old(env)@.with_paused(paused),
{
    env.instance.paused = Some(paused);
    env.request(Effect::Write(DataKey::Paused));
}

/// Records `creator` as the next applicant on a campaign: both writes are of
/// fixed size, whatever the number of earlier applicants.
pub fn add_campaign_applicant(env: &mut Env, campaign_id: CampaignId, creator: Address)
    requires
        old(env)@.applicant_count(campaign_id) < u32::MAX,
    ensures
        final(env)@ == old(env)@.with_applicant(campaign_id, creator),
{
    let count: u32 = get_applicant_count(env, campaign_id);
    let applicant_key = DataKey::CampaignApplicant(campaign_id, count);
    env.applicants.set((campaign_id, count), creator);
    env.request(Effect::Write(applicant_key));
    extend_ttl(env, applicant_key);
    let count_key = DataKey::ApplicantCount(campaign_id);
    env.applicant_counts.set(campaign_id, count + 1);
    env.request(Effect::Write(count_key));
    extend_ttl(env, count_key);
}

/// How many creators have applied to a campaign; zero for an unknown one.
pub fn get_applicant_count(env: &Env, campaign_id: CampaignId) -> (r: u32)
    ensures
        r == env@.applicant_count(campaign_id),
{
    match env.applicant_counts.get(&campaign_id) {
        Some(count) => *count,
        None => 0,
    }
}

/// The applicant at `index`. The entry is written once, so reading it is what
/// keeps it alive.
pub fn get_campaign_applicant(env: &mut Env, campaign_id: CampaignId, index: u32) -> (r: Option<
    Address,
>)
    ensures
        if old(env)@.applicants.contains_key((campaign_id, index)) {
            &&& r == Some(old(env)@.applicants[(campaign_id, index)])
            &&& final(env)@ == old(env)@.kept(DataKey::CampaignApplicant(campaign_id, index))
        } else {
            &&& r is None
            &&& final(env)@ == old(env)@
        },
{
    let applicant: Option<Address> = match env.applicants.get(&(campaign_id, index)) {
        Some(applicant) => Some(*applicant),
        None => None,
    };
    if applicant.is_some() {
        extend_ttl(env, DataKey::CampaignApplicant(campaign_id, index));
    }
    applicant
}

/// Whether any creator has applied to a campaign.
pub fn has_campaign_applicants(env: &Env, campaign_id: CampaignId) -> (r: bool)
    ensures
        r == (env@.applicant_count(campaign_id) > 0),
{
    get_applicant_count(env, campaign_id) > 0
}

} // verus!
