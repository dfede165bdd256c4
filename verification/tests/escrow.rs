//! The escrow contract over whole campaigns: the lifecycle, fees, refunds,
//! disputes, and every refusal.
use std::cell::RefCell;

use ads_bazaar::campaign_escrow::contract::{
    CampaignEscrowContract, EMERGENCY_RECOVERY_GRACE_PERIOD, MIN_EVIDENCE_WINDOW,
};
use ads_bazaar::campaign_escrow::env::{Effect, Env};
use ads_bazaar::campaign_escrow::error::Error;
use ads_bazaar::campaign_escrow::storage::{self, DataKey};
use ads_bazaar::campaign_escrow::types::{
    Application, Campaign, DisputeResolution, ProtocolConfig,
};
use ads_bazaar::shared::{
    Address, ApplicationStatus, CampaignStatus, PayoutAsset, BASIS_POINTS_DENOMINATOR,
};

/// Timestamp at which every ledger starts.
const BASE_TIME: u64 = 1_000_000;
/// What a business can fund campaigns with.
const BUSINESS_FUNDS: i128 = 1_000_000_000;

/// A ledger with one escrow contract and any number of tokens. Every
/// authorisation is granted.
struct Ledger {
    state: RefCell<State>,
}

struct State {
    escrow: Env,
    balances: Vec<(Address, Address, i128)>,
    generated: u128,
    last_log: Vec<Effect>,
}

impl State {
    fn balance(&self, token: Address, holder: Address) -> i128 {
        for (t, h, amount) in &self.balances {
            if *t == token && *h == holder {
                return *amount;
            }
        }
        0
    }

    fn credit(&mut self, token: Address, holder: Address, amount: i128) {
        for entry in self.balances.iter_mut() {
            if entry.0 == token && entry.1 == holder {
                entry.2 += amount;
                return;
            }
        }
        self.balances.push((token, holder, amount));
    }

    fn perform(&mut self) {
        for effect in self.last_log.clone() {
            if let Effect::Transfer { token, from, to, amount } = effect {
                assert!(self.escrow.is_token(token), "no such token");
                assert!(amount >= 0, "negative transfer");
                assert!(self.balance(token, from) >= amount, "insufficient balance");
                self.credit(token, from, -amount);
                self.credit(token, to, amount);
            }
        }
    }
}

impl Ledger {
    fn timestamp(&self) -> u64 {
        self.state.borrow().escrow.timestamp
    }

    fn generate(&self) -> Address {
        let mut state = self.state.borrow_mut();
        state.generated += 1;
        Address::account(0, state.generated)
    }

    fn balance(&self, token: Address, holder: Address) -> i128 {
        self.state.borrow().balance(token, holder)
    }

    fn read<T>(&self, f: impl FnOnce(&Env) -> T) -> T {
        f(&self.state.borrow().escrow)
    }

    /// Calls the contract: an error undoes the call, otherwise its requests
    /// are performed.
    fn call<T>(&self, f: impl FnOnce(&mut Env) -> Result<T, Error>) -> Result<T, Error> {
        let mut state = self.state.borrow_mut();
        let before = state.escrow.clone();
        let result = f(&mut state.escrow);
        if result.is_err() {
            state.escrow = before;
        } else {
            state.last_log = std::mem::take(&mut state.escrow.log);
            state.perform();
        }
        result
    }

    /// How many bytes of values the last accepted call wrote to persistent
    /// entries.
    fn bytes_written(&self) -> usize {
        let state = self.state.borrow();
        state
            .last_log
            .iter()
            .map(|effect| match effect {
                Effect::Write(key) => entry_size(&state.escrow, key),
                _ => 0,
            })
            .sum()
    }
}

/// An address: its kind and 32 bytes.
const ADDRESS_SIZE: usize = 33;

/// The size of a persistent entry's value; nothing for the instance's entries.
fn entry_size(env: &Env, key: &DataKey) -> usize {
    match key {
        DataKey::Campaign(id) => {
            let c = env.campaigns.get(id).unwrap();
            // Four amounts, three 64-bit and two 32-bit numbers, the status.
            let fixed = 4 * 16 + 3 * 8 + 2 * 4 + 1;
            2 * ADDRESS_SIZE + c.asset.symbol.len() + c.metadata_uri.len() + fixed
        }
        DataKey::Application(id, creator) => {
            let a = env.applications.get(&(*id, *creator)).unwrap();
            let proof = a.proof_uri.as_ref().map_or(0, |uri| uri.len());
            let opened = a.dispute_opened_at.map_or(0, |_| 8);
            // The campaign's number, the payout, two flags and the status.
            let fixed = 8 + 16 + 2 + 1;
            ADDRESS_SIZE + a.pitch_uri.len() + proof + opened + fixed
        }
        DataKey::ApplicantCount(id) => {
            std::mem::size_of_val(env.applicant_counts.get(id).unwrap())
        }
        DataKey::CampaignApplicant(id, index) => {
            assert!(env.applicants.get(&(*id, *index)).is_some());
            ADDRESS_SIZE
        }
        _ => 0,
    }
}

/// The contract's entry points, as a caller sees them.
struct Client<'a> {
    ledger: &'a Ledger,
}

impl<'a> Client<'a> {
    fn new(ledger: &'a Ledger) -> Client<'a> {
        Client { ledger }
    }

    fn try_initialize(
        &self,
        admin: &Address,
        dispute_contract: &Address,
        fee_bps: &i128,
    ) -> Result<(), Error> {
        self.ledger.call(|e| {
            CampaignEscrowContract::initialize(e, *admin, *dispute_contract, *fee_bps)
        })
    }

    fn initialize(&self, admin: &Address, dispute_contract: &Address, fee_bps: &i128) {
        self.try_initialize(admin, dispute_contract, fee_bps).unwrap()
    }

    fn try_pause(&self, admin: &Address) -> Result<(), Error> {
        self.ledger.call(|e| CampaignEscrowContract::pause(e, *admin))
    }

    fn pause(&self, admin: &Address) {
        self.try_pause(admin).unwrap()
    }

    fn try_unpause(&self, admin: &Address) -> Result<(), Error> {
        self.ledger.call(|e| CampaignEscrowContract::unpause(e, *admin))
    }

    fn unpause(&self, admin: &Address) {
        self.try_unpause(admin).unwrap()
    }

    fn is_paused(&self) -> bool {
        self.ledger.read(|e| CampaignEscrowContract::is_paused(e))
    }

    fn try_propose_admin(&self, current: &Address, new: &Address) -> Result<(), Error> {
        self.ledger.call(|e| CampaignEscrowContract::propose_admin(e, *current, *new))
    }

    fn propose_admin(&self, current: &Address, new: &Address) {
        self.try_propose_admin(current, new).unwrap()
    }

    fn try_accept_admin(&self, new: &Address) -> Result<(), Error> {
        self.ledger.call(|e| CampaignEscrowContract::accept_admin(e, *new))
    }

    fn accept_admin(&self, new: &Address) {
        self.try_accept_admin(new).unwrap()
    }

    fn try_update_fee_bps(&self, admin: &Address, fee_bps: &i128) -> Result<(), Error> {
        self.ledger.call(|e| CampaignEscrowContract::update_fee_bps(e, *admin, *fee_bps))
    }

    fn update_fee_bps(&self, admin: &Address, fee_bps: &i128) {
        self.try_update_fee_bps(admin, fee_bps).unwrap()
    }

    fn update_treasury(&self, admin: &Address, treasury: &Address) {
        self.ledger
            .call(|e| CampaignEscrowContract::update_treasury(e, *admin, *treasury))
            .unwrap()
    }

    fn try_create_campaign(
        &self,
        business: &Address,
        asset: &PayoutAsset,
        total_budget: &i128,
        max_creators: &u32,
        application_deadline: &u64,
        completion_deadline: &u64,
        metadata_uri: &str,
    ) -> Result<u64, Error> {
        self.ledger.call(|e| {
            CampaignEscrowContract::create_campaign(
                e,
                *business,
                asset.clone(),
                *total_budget,
                *max_creators,
                *application_deadline,
                *completion_deadline,
                metadata_uri.to_string(),
            )
        })
    }

    fn create_campaign(
        &self,
        business: &Address,
        asset: &PayoutAsset,
        total_budget: &i128,
        max_creators: &u32,
        application_deadline: &u64,
        completion_deadline: &u64,
        metadata_uri: &str,
    ) -> u64 {
        self.try_create_campaign(
            business,
            asset,
            total_budget,
            max_creators,
            application_deadline,
            completion_deadline,
            metadata_uri,
        )
        .unwrap()
    }

    fn try_fund_campaign(&self, business: &Address, id: &u64) -> Result<(), Error> {
        self.ledger.call(|e| CampaignEscrowContract::fund_campaign(e, *business, *id))
    }

    fn fund_campaign(&self, business: &Address, id: &u64) {
        self.try_fund_campaign(business, id).unwrap()
    }

    fn try_apply_to_campaign(&self, creator: &Address, id: &u64, pitch: &str) -> Result<(), Error> {
        self.ledger.call(|e| {
            CampaignEscrowContract::apply_to_campaign(e, *creator, *id, pitch.to_string())
        })
    }

    fn apply_to_campaign(&self, creator: &Address, id: &u64, pitch: &str) {
        self.try_apply_to_campaign(creator, id, pitch).unwrap()
    }

    fn try_approve_creator(
        &self,
        business: &Address,
        id: &u64,
        creator: &Address,
        payout: &i128,
    ) -> Result<(), Error> {
        self.ledger.call(|e| {
            CampaignEscrowContract::approve_creator(e, *business, *id, *creator, *payout)
        })
    }

    fn approve_creator(&self, business: &Address, id: &u64, creator: &Address, payout: &i128) {
        self.try_approve_creator(business, id, creator, payout).unwrap()
    }

    fn try_submit_proof(&self, creator: &Address, id: &u64, proof: &str) -> Result<(), Error> {
        self.ledger.call(|e| {
            CampaignEscrowContract::submit_proof(e, *creator, *id, proof.to_string())
        })
    }

    fn submit_proof(&self, creator: &Address, id: &u64, proof: &str) {
        self.try_submit_proof(creator, id, proof).unwrap()
    }

    fn try_approve_submission(
        &self,
        business: &Address,
        id: &u64,
        creator: &Address,
    ) -> Result<(), Error> {
        self.ledger.call(|e| {
            CampaignEscrowContract::approve_submission(e, *business, *id, *creator)
        })
    }

    fn approve_submission(&self, business: &Address, id: &u64, creator: &Address) {
        self.try_approve_submission(business, id, creator).unwrap()
    }

    fn try_reject_submission(
        &self,
        business: &Address,
        id: &u64,
        creator: &Address,
    ) -> Result<(), Error> {
        self.ledger.call(|e| {
            CampaignEscrowContract::reject_submission(e, *business, *id, *creator)
        })
    }

    fn reject_submission(&self, business: &Address, id: &u64, creator: &Address) {
        self.try_reject_submission(business, id, creator).unwrap()
    }

    fn try_claim_payment(&self, creator: &Address, id: &u64) -> Result<(), Error> {
        self.ledger.call(|e| CampaignEscrowContract::claim_payment(e, *creator, *id))
    }

    fn claim_payment(&self, creator: &Address, id: &u64) {
        self.try_claim_payment(creator, id).unwrap()
    }

    fn try_cancel_campaign(&self, business: &Address, id: &u64) -> Result<(), Error> {
        self.ledger.call(|e| CampaignEscrowContract::cancel_campaign(e, *business, *id))
    }

    fn cancel_campaign(&self, business: &Address, id: &u64) {
        self.try_cancel_campaign(business, id).unwrap()
    }

    fn try_expire_campaign(&self, business: &Address, id: &u64) -> Result<(), Error> {
        self.ledger.call(|e| CampaignEscrowContract::expire_campaign(e, *business, *id))
    }

    fn expire_campaign(&self, business: &Address, id: &u64) {
        self.try_expire_campaign(business, id).unwrap()
    }

    fn try_emergency_recover_campaign(&self, admin: &Address, id: &u64) -> Result<(), Error> {
        self.ledger.call(|e| {
            CampaignEscrowContract::emergency_recover_campaign(e, *admin, *id)
        })
    }

    fn emergency_recover_campaign(&self, admin: &Address, id: &u64) {
        self.try_emergency_recover_campaign(admin, id).unwrap()
    }

    fn try_reclaim_surplus(&self, business: &Address, id: &u64) -> Result<(), Error> {
        self.ledger.call(|e| CampaignEscrowContract::reclaim_surplus(e, *business, *id))
    }

    fn reclaim_surplus(&self, business: &Address, id: &u64) {
        self.try_reclaim_surplus(business, id).unwrap()
    }

    fn try_freeze_for_dispute(
        &self,
        caller: &Address,
        id: &u64,
        creator: &Address,
    ) -> Result<(), Error> {
        self.ledger.call(|e| {
            CampaignEscrowContract::freeze_for_dispute(e, *caller, *id, *creator)
        })
    }

    fn freeze_for_dispute(&self, caller: &Address, id: &u64, creator: &Address) {
        self.try_freeze_for_dispute(caller, id, creator).unwrap()
    }

    fn try_resolve_dispute(
        &self,
        admin: &Address,
        id: &u64,
        creator: &Address,
        resolution: &DisputeResolution,
    ) -> Result<(), Error> {
        self.ledger.call(|e| {
            CampaignEscrowContract::resolve_dispute(e, *admin, *id, *creator, *resolution)
        })
    }

    fn resolve_dispute(
        &self,
        admin: &Address,
        id: &u64,
        creator: &Address,
        resolution: &DisputeResolution,
    ) {
        self.try_resolve_dispute(admin, id, creator, resolution).unwrap()
    }

    fn try_update_campaign_metadata(
        &self,
        id: &u64,
        business: &Address,
        new_metadata: &str,
    ) -> Result<(), Error> {
        self.ledger.call(|e| {
            CampaignEscrowContract::update_campaign_metadata(
                e,
                *id,
                *business,
                new_metadata.to_string(),
            )
        })
    }

    fn update_campaign_metadata(&self, id: &u64, business: &Address, new_metadata: &str) {
        self.try_update_campaign_metadata(id, business, new_metadata).unwrap()
    }

    fn try_get_campaign(&self, id: &u64) -> Result<Campaign, Error> {
        self.ledger.read(|e| CampaignEscrowContract::get_campaign(e, *id))
    }

    fn get_campaign(&self, id: &u64) -> Campaign {
        self.try_get_campaign(id).unwrap()
    }

    fn get_application(&self, id: &u64, creator: &Address) -> Application {
        self.ledger
            .read(|e| CampaignEscrowContract::get_application(e, *id, *creator))
            .unwrap()
    }

    fn try_get_protocol_config(&self) -> Result<ProtocolConfig, Error> {
        self.ledger.call(|e| CampaignEscrowContract::get_protocol_config(e))
    }

    fn get_protocol_config(&self) -> ProtocolConfig {
        self.try_get_protocol_config().unwrap()
    }

    fn try_version(&self) -> Result<String, Error> {
        self.ledger.read(|e| CampaignEscrowContract::version(e))
    }

    fn version(&self) -> String {
        self.try_version().unwrap()
    }

    fn try_upgrade(&self, admin: &Address, new_wasm_hash: &[u8; 32]) -> Result<(), Error> {
        self.ledger.call(|e| CampaignEscrowContract::upgrade(e, *admin, *new_wasm_hash))
    }
}

struct TokenClient<'a> {
    ledger: &'a Ledger,
    token: Address,
}

impl<'a> TokenClient<'a> {
    fn new(ledger: &'a Ledger, token: &Address) -> TokenClient<'a> {
        TokenClient { ledger, token: *token }
    }

    fn balance(&self, holder: &Address) -> i128 {
        self.ledger.balance(self.token, *holder)
    }
}

/// A ledger with a freshly deployed escrow contract, and its address.
fn setup_env() -> (Ledger, Address) {
    let contract_id = Address::contract(1, 1);
    let state = State {
        escrow: Env::new(contract_id, BASE_TIME),
        balances: Vec::new(),
        generated: 0,
        last_log: Vec::new(),
    };
    (Ledger { state: RefCell::new(state) }, contract_id)
}

/// Deploys a token and mints `amount` to `mint_to`.
fn setup_token(env: &Ledger, mint_to: &Address, amount: i128) -> Address {
    let issuer = env.generate();
    let token = Address::contract(2, issuer.low);
    let mut state = env.state.borrow_mut();
    state.escrow.tokens.push(token);
    state.credit(token, *mint_to, amount);
    token
}

fn advance_time(env: &Ledger, seconds: u64) {
    env.state.borrow_mut().escrow.timestamp += seconds;
}

fn usdc(token: &Address) -> PayoutAsset {
    PayoutAsset { token: *token, symbol: "USDC".to_string() }
}

/// Sets the contract up and funds a business: the client, the admin, the
/// dispute contract, the business and the token.
fn bootstrap(env: &Ledger, fee_bps: i128) -> (Client<'_>, Address, Address, Address, Address) {
    let client = Client::new(env);
    let admin = env.generate();
    let dispute = env.generate();
    let business = env.generate();
    client.initialize(&admin, &dispute, &fee_bps);
    let token = setup_token(env, &business, BUSINESS_FUNDS);
    (client, admin, dispute, business, token)
}

/// Opens and funds a campaign.
fn create_funded_campaign(
    env: &Ledger,
    client: &Client<'_>,
    business: &Address,
    token: &Address,
    total_budget: i128,
    max_creators: u32,
) -> u64 {
    let now = env.timestamp();
    let asset = usdc(token);
    let id = client.create_campaign(
        business,
        &asset,
        &total_budget,
        &max_creators,
        &(now + 86_400),
        &(now + 604_800),
        "ipfs://brief",
    );
    client.fund_campaign(business, &id);
    id
}

#[test]
fn initialize_sets_admin_and_fee() {
    let (env, _) = setup_env();
    let client = Client::new(&env);
    let admin = env.generate();
    let dispute = env.generate();
    client.initialize(&admin, &dispute, &250);
}

#[test]
fn initialize_twice_fails() {
    let (env, _) = setup_env();
    let client = Client::new(&env);
    let admin = env.generate();
    let dispute = env.generate();
    client.initialize(&admin, &dispute, &250);
    let result = client.try_initialize(&admin, &dispute, &250);
    assert_eq!(result, Err(Error::AlreadyInitialized));
}

#[test]
fn initialize_rejects_out_of_range_fee() {
    let (env, _) = setup_env();
    let client = Client::new(&env);
    let admin = env.generate();
    let dispute = env.generate();
    let result = client.try_initialize(
        &admin,
        &dispute,
        &(BASIS_POINTS_DENOMINATOR + 1),
    );
    assert_eq!(result, Err(Error::FeeTooHigh));
}

#[test]
fn get_campaign_not_found_before_creation() {
    let (env, _) = setup_env();
    let client = Client::new(&env);
    let admin = env.generate();
    let dispute = env.generate();
    client.initialize(&admin, &dispute, &250);
    let result = client.try_get_campaign(&0);
    assert_eq!(result, Err(Error::CampaignNotFound));
}

/// Drive a campaign to the point where `creator` has an approved,
/// payable submission: applied → selected → proof submitted → approved.
fn run_to_payable(
    env: &Ledger,
    client: &Client<'_>,
    business: &Address,
    creator: &Address,
    id: &u64,
    payout: i128,
) {
    client.apply_to_campaign(creator, id, "pitch");
    client.approve_creator(business, id, creator, &payout);
    client.submit_proof(creator, id, "proof");
    client.approve_submission(business, id, creator);
}

#[test]
fn full_lifecycle() {
    let (env, _) = setup_env();
    let (client, admin, _dispute, business, token) = bootstrap(&env, 50);
    let token_client = TokenClient::new(&env, &token);

    let creator = env.generate();
    let gross: i128 = 1_000_000;
    let id = create_funded_campaign(&env, &client, &business, &token, 10_000_000, 5);

    run_to_payable(&env, &client, &business, &creator, &id, gross);

    let creator_before = token_client.balance(&creator);
    let treasury_before = token_client.balance(&admin);

    client.claim_payment(&creator, &id);

    let fee = gross * 50 / BASIS_POINTS_DENOMINATOR;
    let net = gross - fee;
    assert_eq!(token_client.balance(&creator), creator_before + net);
    assert_eq!(token_client.balance(&admin), treasury_before + fee);
}

#[test]
fn approve_two_distinct_creators() {
    let (env, _) = setup_env();
    let (client, _admin, _dispute, business, token) = bootstrap(&env, 50);
    let id = create_funded_campaign(&env, &client, &business, &token, 10_000_000, 5);

    let creator_a = env.generate();
    let creator_b = env.generate();

    client.apply_to_campaign(
        &creator_a,
        &id,
        "pitch-a",
    );
    client.apply_to_campaign(
        &creator_b,
        &id,
        "pitch-b",
    );

    client.approve_creator(&business, &id, &creator_a, &1_000_000);
    client.approve_creator(&business, &id, &creator_b, &1_000_000);

    let campaign = client.get_campaign(&id);
    assert_eq!(campaign.approved_count, 2);
}

#[test]
fn create_campaign_rejects_non_contract_token() {
    let (env, _) = setup_env();
    let client = Client::new(&env);
    let admin = env.generate();
    let dispute = env.generate();
    let business = env.generate();
    client.initialize(&admin, &dispute, &50);

    // A random account address, not a deployed token contract.
    let bogus_token = env.generate();
    let asset = usdc(&bogus_token);

    let now = env.timestamp();
    let result = client.try_create_campaign(
        &business,
        &asset,
        &1_000,
        &1,
        &(now + 86_400),
        &(now + 604_800),
        "ipfs://brief",
    );

    assert_eq!(
        result,
        Err(Error::InvalidAsset),
        "expected Error::InvalidAsset for a non-contract token address, got: {:?}",
        result
    );
}

#[test]
fn fee_calculation_50bps() {
    let (env, _) = setup_env();
    let (client, admin, _dispute, business, token) = bootstrap(&env, 50);
    let token_client = TokenClient::new(&env, &token);

    let creator = env.generate();
    let gross: i128 = 2_000_000;
    let id = create_funded_campaign(&env, &client, &business, &token, 10_000_000, 5);

    run_to_payable(&env, &client, &business, &creator, &id, gross);
    client.claim_payment(&creator, &id);

    let fee = gross * 50 / BASIS_POINTS_DENOMINATOR;
    let net = gross - fee;
    // creator_net == gross * 0.995
    assert_eq!(net, gross * 995 / 1_000);
    // treasury == gross * 0.005
    assert_eq!(fee, gross * 5 / 1_000);
    assert_eq!(token_client.balance(&creator), net);
    assert_eq!(token_client.balance(&admin), fee);
}

#[test]
fn auto_approve_past_deadline() {
    let (env, _) = setup_env();
    let (client, _admin, _dispute, business, token) = bootstrap(&env, 50);
    let token_client = TokenClient::new(&env, &token);

    let creator = env.generate();
    let gross: i128 = 1_000_000;
    let id = create_funded_campaign(&env, &client, &business, &token, 10_000_000, 5);

    client.apply_to_campaign(&creator, &id, "pitch");
    client.approve_creator(&business, &id, &creator, &gross);
    // submit before the deadline (still pending business approval)...
    client.submit_proof(&creator, &id, "proof");
    // ...then move past the content deadline so it auto-approves.
    advance_time(&env, 604_800 + 10);

    let creator_before = token_client.balance(&creator);
    // Claim without an explicit approve_submission call.
    client.claim_payment(&creator, &id);
    let fee = gross * 50 / BASIS_POINTS_DENOMINATOR;
    assert_eq!(token_client.balance(&creator), creator_before + gross - fee);
}

#[test]
fn cancel_open_campaign() {
    let (env, contract_id) = setup_env();
    let (client, _admin, _dispute, business, token) = bootstrap(&env, 50);
    let token_client = TokenClient::new(&env, &token);

    let business_before = token_client.balance(&business);
    let id = create_funded_campaign(&env, &client, &business, &token, 10_000_000, 5);

    client.cancel_campaign(&business, &id);
    // Business balance is fully restored (no commitments outstanding).
    assert_eq!(token_client.balance(&business), business_before);
    assert_eq!(token_client.balance(&contract_id), 0);
}

#[test]
fn reclaim_surplus_after_payouts() {
    let (env, contract_id) = setup_env();
    let (client, _admin, _dispute, business, token) = bootstrap(&env, 0);
    let token_client = TokenClient::new(&env, &token);

    let payout: i128 = 1_000_000;
    // max 5, budget covers 5 payouts of `payout`.
    let id = create_funded_campaign(&env, &client, &business, &token, payout * 5, 5);

    let c1 = env.generate();
    let c2 = env.generate();
    for c in [&c1, &c2] {
        client.apply_to_campaign(c, &id, "pitch");
        client.approve_creator(&business, &id, c, &payout);
        client.submit_proof(c, &id, "proof");
        client.approve_submission(&business, &id, c);
        client.claim_payment(c, &id);
    }

    let business_before = token_client.balance(&business);
    client.reclaim_surplus(&business, &id);
    // Surplus == (5 - 2) * payout == 3 * payout_per_creator.
    assert_eq!(
        token_client.balance(&business),
        business_before + payout * 3
    );
    assert_eq!(token_client.balance(&contract_id), 0);
}

#[test]
fn reject_and_resubmit() {
    let (env, _) = setup_env();
    let (client, _admin, _dispute, business, token) = bootstrap(&env, 0);
    let token_client = TokenClient::new(&env, &token);

    let creator = env.generate();
    let gross: i128 = 1_000_000;
    let id = create_funded_campaign(&env, &client, &business, &token, 10_000_000, 5);

    client.apply_to_campaign(&creator, &id, "pitch");
    client.approve_creator(&business, &id, &creator, &gross);
    client.submit_proof(
        &creator,
        &id,
        "proof-v1",
    );
    // Business rejects the proof.
    client.reject_submission(&business, &id, &creator);

    // Verify it was marked as Rejected
    let app = client.get_application(&id, &creator);
    assert_eq!(app.status, ApplicationStatus::Rejected);
    // Creator resubmits.
    client.submit_proof(
        &creator,
        &id,
        "proof-v2",
    );
    client.approve_submission(&business, &id, &creator);

    let creator_before = token_client.balance(&creator);
    client.claim_payment(&creator, &id);
    assert_eq!(token_client.balance(&creator), creator_before + gross);
}

#[test]
fn expire_no_submissions() {
    let (env, contract_id) = setup_env();
    let (client, _admin, _dispute, business, token) = bootstrap(&env, 50);
    let token_client = TokenClient::new(&env, &token);

    let budget: i128 = 10_000_000;
    let id = create_funded_campaign(&env, &client, &business, &token, budget, 5);

    let c1 = env.generate();
    let c2 = env.generate();
    // Two creators are selected (committing 1_000_000 each) but never
    // submit proof — their payouts stay reserved against escrow.
    for c in [&c1, &c2] {
        client.apply_to_campaign(c, &id, "pitch");
        client.approve_creator(&business, &id, c, &1_000_000);
    }

    // Advance past the content deadline.
    advance_time(&env, 604_800 + 10);

    let business_before = token_client.balance(&business);
    client.expire_campaign(&business, &id);
    // Only the unallocated balance (budget - committed) is refunded.
    let committed = 1_000_000 * 2;
    assert_eq!(
        token_client.balance(&business),
        business_before + budget - committed
    );
    // Reserved funds remain in the contract for the selected creators.
    assert_eq!(token_client.balance(&contract_id), committed);
}

// Committed payouts survive cancel, expire and reclaim, and remain claimable
// by the creator.

#[test]
fn cancel_preserves_committed_payout() {
    let (env, contract_id) = setup_env();
    let (client, _admin, _dispute, business, token) = bootstrap(&env, 0);
    let token_client = TokenClient::new(&env, &token);

    let payout: i128 = 1_000_000;
    let budget: i128 = payout * 5;
    let id = create_funded_campaign(&env, &client, &business, &token, budget, 5);

    let creator = env.generate();
    run_to_payable(&env, &client, &business, &creator, &id, payout);

    // Business cancels before the creator claims.
    let business_before = token_client.balance(&business);
    client.cancel_campaign(&business, &id);
    // Business recovers only the unallocated (budget - payout) portion.
    assert_eq!(
        token_client.balance(&business),
        business_before + budget - payout
    );
    // The committed payout is still held by the contract.
    assert_eq!(token_client.balance(&contract_id), payout);

    // The approved creator can still claim their payout after cancellation.
    let creator_before = token_client.balance(&creator);
    client.claim_payment(&creator, &id);
    assert_eq!(token_client.balance(&creator), creator_before + payout);
    assert_eq!(token_client.balance(&contract_id), 0);
}

#[test]
fn expire_preserves_committed_payout() {
    let (env, contract_id) = setup_env();
    let (client, _admin, _dispute, business, token) = bootstrap(&env, 0);
    let token_client = TokenClient::new(&env, &token);

    let payout: i128 = 1_000_000;
    let budget: i128 = payout * 5;
    let id = create_funded_campaign(&env, &client, &business, &token, budget, 5);

    let creator = env.generate();
    run_to_payable(&env, &client, &business, &creator, &id, payout);

    // Advance past the content deadline, then expire.
    advance_time(&env, 604_800 + 10);
    let business_before = token_client.balance(&business);
    client.expire_campaign(&business, &id);
    assert_eq!(
        token_client.balance(&business),
        business_before + budget - payout
    );
    assert_eq!(token_client.balance(&contract_id), payout);

    // Creator still gets paid after expiry.
    let creator_before = token_client.balance(&creator);
    client.claim_payment(&creator, &id);
    assert_eq!(token_client.balance(&creator), creator_before + payout);
    assert_eq!(token_client.balance(&contract_id), 0);
}

#[test]
fn reclaim_preserves_committed_payout() {
    let (env, contract_id) = setup_env();
    let (client, _admin, _dispute, business, token) = bootstrap(&env, 0);
    let token_client = TokenClient::new(&env, &token);

    let payout: i128 = 1_000_000;
    let budget: i128 = payout * 5;
    let id = create_funded_campaign(&env, &client, &business, &token, budget, 5);

    let creator = env.generate();
    run_to_payable(&env, &client, &business, &creator, &id, payout);

    // Business reclaims surplus before the creator claims.
    let business_before = token_client.balance(&business);
    client.reclaim_surplus(&business, &id);
    assert_eq!(
        token_client.balance(&business),
        business_before + budget - payout
    );
    assert_eq!(token_client.balance(&contract_id), payout);

    // Creator still gets paid after the reclaim.
    let creator_before = token_client.balance(&creator);
    client.claim_payment(&creator, &id);
    assert_eq!(token_client.balance(&creator), creator_before + payout);
    assert_eq!(token_client.balance(&contract_id), 0);
}

#[test]
fn reclaim_surplus_with_committed_payouts_leaves_campaign_active() {
    let (env, _) = setup_env();
    let (client, admin, _dispute, business, token) = bootstrap(&env, 0);
    let token_client = TokenClient::new(&env, &token);

    let payout: i128 = 1_000_000;
    let budget: i128 = payout * 5;
    let id = create_funded_campaign(&env, &client, &business, &token, budget, 5);

    let creator = env.generate();
    // Apply and get selected, but not paid
    client.apply_to_campaign(&creator, &id, "pitch");
    client.approve_creator(&business, &id, &creator, &payout);

    // Business reclaims surplus
    client.reclaim_surplus(&business, &id);

    // Status should be Active (not Completed) because committed payouts remain
    let campaign = client.get_campaign(&id);
    assert_eq!(campaign.status, CampaignStatus::Active);

    // Dispute functions should still work.
    client.freeze_for_dispute(&admin, &id, &creator);

    let app = client.get_application(&id, &creator);
    assert!(app.frozen);

    // resolve_dispute requires the evidence window to have elapsed
    // since the freeze (see MIN_EVIDENCE_WINDOW).
    advance_time(&env, MIN_EVIDENCE_WINDOW);

    client.resolve_dispute(&admin, &id, &creator, &DisputeResolution::PayCreator);

    // Payout should have reached creator
    assert_eq!(token_client.balance(&creator), payout);
}

#[test]
fn emergency_recover_sweeps_unallocated_to_treasury() {
    let (env, contract_id) = setup_env();
    let (client, admin, _dispute, business, token) = bootstrap(&env, 50);
    let token_client = TokenClient::new(&env, &token);

    let budget: i128 = 10_000_000;
    let id = create_funded_campaign(&env, &client, &business, &token, budget, 5);

    // Long past both the content deadline and the emergency-recovery
    // grace period — the business is treated as unreachable.
    advance_time(&env, 604_800 + EMERGENCY_RECOVERY_GRACE_PERIOD + 10);

    // Treasury defaults to `admin` at `initialize`.
    let treasury_before = token_client.balance(&admin);
    let business_before = token_client.balance(&business);
    client.emergency_recover_campaign(&admin, &id);

    // Nothing was ever committed, so the whole budget is recovered —
    // and it goes to treasury, not back to the unreachable business.
    assert_eq!(token_client.balance(&admin), treasury_before + budget);
    assert_eq!(token_client.balance(&business), business_before);
    assert_eq!(token_client.balance(&contract_id), 0);

    let campaign = client.get_campaign(&id);
    assert_eq!(
        campaign.status,
        CampaignStatus::Cancelled
    );
}

#[test]
fn emergency_recover_preserves_committed_payout() {
    let (env, contract_id) = setup_env();
    let (client, admin, _dispute, business, token) = bootstrap(&env, 0);
    let token_client = TokenClient::new(&env, &token);

    let payout: i128 = 1_000_000;
    let budget: i128 = payout * 5;
    let id = create_funded_campaign(&env, &client, &business, &token, budget, 5);

    let creator = env.generate();
    run_to_payable(&env, &client, &business, &creator, &id, payout);

    advance_time(&env, 604_800 + EMERGENCY_RECOVERY_GRACE_PERIOD + 10);

    let treasury_before = token_client.balance(&admin);
    client.emergency_recover_campaign(&admin, &id);
    // Only the unallocated (budget - payout) portion goes to treasury.
    assert_eq!(
        token_client.balance(&admin),
        treasury_before + budget - payout
    );
    assert_eq!(token_client.balance(&contract_id), payout);

    // The approved creator can still claim their payout afterward —
    // exactly as with cancel_campaign/expire_campaign/reclaim_surplus.
    let creator_before = token_client.balance(&creator);
    client.claim_payment(&creator, &id);
    assert_eq!(token_client.balance(&creator), creator_before + payout);
    assert_eq!(token_client.balance(&contract_id), 0);
}

#[test]
fn emergency_recover_rejects_already_cancelled_campaign() {
    let (env, _) = setup_env();
    let (client, admin, _dispute, business, token) = bootstrap(&env, 50);
    let id = create_funded_campaign(&env, &client, &business, &token, 10_000_000, 5);
    client.cancel_campaign(&business, &id);

    advance_time(&env, 604_800 + EMERGENCY_RECOVERY_GRACE_PERIOD + 10);
    let result = client.try_emergency_recover_campaign(&admin, &id);
    assert_eq!(result, Err(Error::InvalidStatus));
}

#[test]
fn get_protocol_config_returns_current_fee_bps() {
    let (env, _) = setup_env();
    let client = Client::new(&env);
    let admin = env.generate();
    let dispute_contract = env.generate();
    client.initialize(&admin, &dispute_contract, &150);

    let config = client.get_protocol_config();
    assert_eq!(config.fee_bps, 150);
    assert_eq!(config.admin, admin);
    // The treasury defaults to the admin.
    assert_eq!(config.treasury, admin);
}

#[test]
fn get_protocol_config_fails_before_initialization() {
    let (env, _) = setup_env();
    let client = Client::new(&env);

    let result = client.try_get_protocol_config();
    assert_eq!(result, Err(Error::NotInitialized));
}

#[test]
fn propose_admin_rejects_non_admin() {
    let (env, _) = setup_env();
    let client = Client::new(&env);
    let admin = env.generate();
    let dispute_contract = env.generate();
    let not_admin = env.generate();
    let new_admin = env.generate();
    client.initialize(&admin, &dispute_contract, &250);

    let result = client.try_propose_admin(&not_admin, &new_admin);

    assert_eq!(result, Err(Error::Unauthorized));
}

#[test]
fn propose_admin_stores_pending_candidate() {
    let (env, _) = setup_env();
    let client = Client::new(&env);
    let admin = env.generate();
    let dispute_contract = env.generate();
    let new_admin = env.generate();
    client.initialize(&admin, &dispute_contract, &250);

    client.propose_admin(&admin, &new_admin);

    let pending_admin = env.read(|e| storage::get_pending_admin(e));
    assert_eq!(pending_admin, Some(new_admin));
}

#[test]
fn full_two_step_transfer_replaces_admin() {
    let (env, _) = setup_env();
    let client = Client::new(&env);
    let admin = env.generate();
    let dispute_contract = env.generate();
    let new_admin = env.generate();
    client.initialize(&admin, &dispute_contract, &250);

    client.propose_admin(&admin, &new_admin);
    client.accept_admin(&new_admin);

    let pending_admin = env.read(|e| storage::get_pending_admin(e));
    assert_eq!(pending_admin, None);
    let stored_admin = env.read(|e| storage::get_admin(e));
    assert_eq!(stored_admin, Ok(new_admin.clone()));

    let old_admin_result = client.try_update_fee_bps(&admin, &100);
    assert_eq!(old_admin_result, Err(Error::Unauthorized));

    client.update_fee_bps(&new_admin, &100);
    assert_eq!(client.get_protocol_config().fee_bps, 100);
}

#[test]
fn accept_admin_rejects_wrong_address() {
    let (env, _) = setup_env();
    let client = Client::new(&env);
    let admin = env.generate();
    let dispute_contract = env.generate();
    let new_admin = env.generate();
    let wrong_admin = env.generate();
    client.initialize(&admin, &dispute_contract, &250);

    client.propose_admin(&admin, &new_admin);
    let result = client.try_accept_admin(&wrong_admin);

    assert_eq!(result, Err(Error::Unauthorized));
}

#[test]
fn accept_admin_before_propose_is_unauthorized() {
    let (env, _) = setup_env();
    let client = Client::new(&env);
    let admin = env.generate();
    let dispute_contract = env.generate();
    let new_admin = env.generate();
    client.initialize(&admin, &dispute_contract, &250);

    let result = client.try_accept_admin(&new_admin);

    assert_eq!(result, Err(Error::Unauthorized));
}

#[test]
fn non_owner_cancel() {
    let (env, _) = setup_env();
    let (client, _admin, _dispute, business, token) = bootstrap(&env, 50);
    let id = create_funded_campaign(&env, &client, &business, &token, 10_000_000, 5);

    let stranger = env.generate();
    let result = client.try_cancel_campaign(&stranger, &id);
    assert_eq!(result, Err(Error::NotCampaignOwner));
}

#[test]
fn non_owner_select_creator() {
    let (env, _) = setup_env();
    let (client, _admin, _dispute, business, token) = bootstrap(&env, 50);
    let id = create_funded_campaign(&env, &client, &business, &token, 10_000_000, 5);

    let creator = env.generate();
    let stranger = env.generate();
    let result = client.try_approve_creator(&stranger, &id, &creator, &1_000_000);
    assert_eq!(result, Err(Error::NotCampaignOwner));
}

#[test]
fn non_owner_approve_submission() {
    let (env, _) = setup_env();
    let (client, _admin, _dispute, business, token) = bootstrap(&env, 50);
    let id = create_funded_campaign(&env, &client, &business, &token, 10_000_000, 5);

    let creator = env.generate();
    client.apply_to_campaign(&creator, &id, "pitch");
    client.approve_creator(&business, &id, &creator, &1_000_000);
    client.submit_proof(&creator, &id, "proof");

    let stranger = env.generate();
    let result = client.try_approve_submission(&stranger, &id, &creator);
    assert_eq!(result, Err(Error::NotCampaignOwner));
}

#[test]
fn creator_claim_before_approval() {
    let (env, _) = setup_env();
    let (client, _admin, _dispute, business, token) = bootstrap(&env, 50);
    let id = create_funded_campaign(&env, &client, &business, &token, 10_000_000, 5);

    let creator = env.generate();
    client.apply_to_campaign(&creator, &id, "pitch");
    client.approve_creator(&business, &id, &creator, &1_000_000);
    client.submit_proof(&creator, &id, "proof");

    // Proof is submitted but not yet approved by the business.
    let result = client.try_claim_payment(&creator, &id);
    assert_eq!(result, Err(Error::SubmissionNotPayable));
}

#[test]
fn double_apply_same_creator() {
    let (env, _) = setup_env();
    let (client, _admin, _dispute, business, token) = bootstrap(&env, 50);
    let id = create_funded_campaign(&env, &client, &business, &token, 10_000_000, 5);

    let creator = env.generate();
    client.apply_to_campaign(&creator, &id, "pitch");
    let result = client.try_apply_to_campaign(&creator, &id, "pitch2");
    assert_eq!(result, Err(Error::AlreadyApplied));
}

#[test]
fn double_select_same_creator() {
    let (env, _) = setup_env();
    let (client, _admin, _dispute, business, token) = bootstrap(&env, 50);
    let id = create_funded_campaign(&env, &client, &business, &token, 10_000_000, 5);

    let creator = env.generate();
    client.apply_to_campaign(&creator, &id, "pitch");
    client.approve_creator(&business, &id, &creator, &1_000_000);
    let result = client.try_approve_creator(&business, &id, &creator, &1_000_000);
    assert_eq!(result, Err(Error::AlreadySelected));
}

#[test]
fn non_admin_cannot_emergency_recover() {
    let (env, _) = setup_env();
    let (client, _admin, _dispute, business, token) = bootstrap(&env, 50);
    let id = create_funded_campaign(&env, &client, &business, &token, 10_000_000, 5);

    advance_time(&env, 604_800 + EMERGENCY_RECOVERY_GRACE_PERIOD + 10);

    let stranger = env.generate();
    let result = client.try_emergency_recover_campaign(&stranger, &id);
    assert_eq!(result, Err(Error::Unauthorized));
}

#[test]
fn apply_after_application_deadline() {
    let (env, _) = setup_env();
    let (client, _admin, _dispute, business, token) = bootstrap(&env, 50);

    let now = env.timestamp();
    let asset = usdc(&token);
    let id = client.create_campaign(
        &business,
        &asset,
        &10_000_000,
        &5,
        &(now + 86_400),
        &(now + 604_800),
        "ipfs://brief",
    );
    client.fund_campaign(&business, &id);

    // Move past the application deadline.
    advance_time(&env, 86_400 + 10);

    let creator = env.generate();
    let result = client.try_apply_to_campaign(&creator, &id, "pitch");
    assert_eq!(result, Err(Error::ApplicationDeadlinePassed));
}

#[test]
fn submit_after_content_deadline() {
    let (env, _) = setup_env();
    let (client, _admin, _dispute, business, token) = bootstrap(&env, 50);
    let id = create_funded_campaign(&env, &client, &business, &token, 10_000_000, 5);

    let creator = env.generate();
    client.apply_to_campaign(&creator, &id, "pitch");
    client.approve_creator(&business, &id, &creator, &1_000_000);

    // Move past the content deadline.
    advance_time(&env, 604_800 + 10);

    let result = client.try_submit_proof(&creator, &id, "proof");
    assert_eq!(result, Err(Error::ContentDeadlinePassed));
}

#[test]
fn reject_after_content_deadline_cannot_defeat_auto_approval() {
    let (env, _) = setup_env();
    let (client, _admin, _dispute, business, token) = bootstrap(&env, 50);
    let id = create_funded_campaign(&env, &client, &business, &token, 10_000_000, 5);

    let creator = env.generate();
    client.apply_to_campaign(&creator, &id, "pitch");
    client.approve_creator(&business, &id, &creator, &1_000_000);
    client.submit_proof(&creator, &id, "proof");

    // Move past the content deadline: the submission is now auto-approved.
    advance_time(&env, 604_800 + 10);

    let result = client.try_reject_submission(&business, &id, &creator);
    assert_eq!(result, Err(Error::ContentDeadlinePassed));

    // Auto-approval still lets the creator claim.
    let result = client.try_claim_payment(&creator, &id);
    assert!(result.is_ok());
}

#[test]
fn create_with_past_deadline() {
    let (env, _) = setup_env();
    let (client, _admin, _dispute, business, token) = bootstrap(&env, 50);

    let now = env.timestamp();
    let asset = usdc(&token);
    let result = client.try_create_campaign(
        &business,
        &asset,
        &10_000_000,
        &5,
        &(now - 100),
        &(now + 604_800),
        "ipfs://brief",
    );
    assert_eq!(result, Err(Error::DeadlineInPast));
}

#[test]
fn create_with_equal_deadlines() {
    let (env, _) = setup_env();
    let (client, _admin, _dispute, business, token) = bootstrap(&env, 50);

    let now = env.timestamp();
    let deadline = now + 300;
    let asset = usdc(&token);
    let result = client.try_create_campaign(
        &business,
        &asset,
        &10_000_000,
        &5,
        &deadline,
        &deadline,
        "ipfs://brief",
    );
    assert_eq!(result, Err(Error::InvalidDeadlineOrder));
}

#[test]
fn expire_before_deadline() {
    let (env, _) = setup_env();
    let (client, _admin, _dispute, business, token) = bootstrap(&env, 50);
    let id = create_funded_campaign(&env, &client, &business, &token, 10_000_000, 5);

    // Still before the content deadline.
    let result = client.try_expire_campaign(&business, &id);
    assert_eq!(result, Err(Error::DeadlineNotReached));
}

#[test]
fn emergency_recover_before_grace_period_fails() {
    let (env, _) = setup_env();
    let (client, admin, _dispute, business, token) = bootstrap(&env, 50);
    let id = create_funded_campaign(&env, &client, &business, &token, 10_000_000, 5);

    // Not reachable at all before the content deadline.
    let result = client.try_emergency_recover_campaign(&admin, &id);
    assert_eq!(result, Err(Error::DeadlineNotReached));

    // Past the content deadline — enough for `expire_campaign` — but
    // nowhere near the much longer emergency-recovery grace period.
    advance_time(&env, 604_800 + 10);
    let result = client.try_emergency_recover_campaign(&admin, &id);
    assert_eq!(result, Err(Error::DeadlineNotReached));
}

#[test]
fn invalid_creator_count() {
    let (env, _) = setup_env();
    let (client, _admin, _dispute, _business, _token) = bootstrap(&env, 50);

    let business = env.generate();
    let token = setup_token(&env, &business, 1_000_000);
    let asset = usdc(&token);

    let now = env.timestamp();
    let result = client.try_create_campaign(
        &business,
        &asset,
        &1_000_000,
        &0,
        &(now + 86_400),
        &(now + 604_800),
        "ipfs://brief",
    );
    assert_eq!(result, Err(Error::InvalidCreatorCount));
}

#[test]
fn selection_limit_reached() {
    let (env, _) = setup_env();
    let (client, _admin, _dispute, business, token) = bootstrap(&env, 0);
    let id = create_funded_campaign(&env, &client, &business, &token, 2_000_000, 1);

    let c1 = env.generate();
    let c2 = env.generate();
    client.apply_to_campaign(&c1, &id, "pitch1");
    client.approve_creator(&business, &id, &c1, &1_000_000);

    client.apply_to_campaign(&c2, &id, "pitch2");
    let result = client.try_approve_creator(&business, &id, &c2, &1);
    assert_eq!(result, Err(Error::MaxCreatorsReached));
}

#[test]
fn budget_below_obligations() {
    let (env, _) = setup_env();
    let (client, _admin, _dispute, business, token) = bootstrap(&env, 0);
    let id = create_funded_campaign(&env, &client, &business, &token, 5_000_000, 5);

    let c1 = env.generate();
    client.apply_to_campaign(&c1, &id, "pitch1");
    client.approve_creator(&business, &id, &c1, &4_000_000);

    let c2 = env.generate();
    client.apply_to_campaign(&c2, &id, "pitch2");
    let result = client.try_approve_creator(&business, &id, &c2, &2_000_000);
    assert_eq!(result, Err(Error::InsufficientEscrowBalance));
}

#[test]
fn fee_too_high() {
    let (env, _) = setup_env();
    let client = Client::new(&env);
    let admin = env.generate();
    let dispute = env.generate();
    let result = client.try_initialize(
        &admin,
        &dispute,
        &(BASIS_POINTS_DENOMINATOR + 1),
    );
    assert_eq!(result, Err(Error::FeeTooHigh));
}

#[test]
fn invalid_deadline_order() {
    let (env, _) = setup_env();
    let (client, _admin, _dispute, business, token) = bootstrap(&env, 50);

    let now = env.timestamp();
    let deadline = now + 300;
    let asset = usdc(&token);
    let result = client.try_create_campaign(
        &business,
        &asset,
        &10_000_000,
        &5,
        &deadline,
        &deadline,
        "ipfs://brief",
    );
    assert_eq!(result, Err(Error::InvalidDeadlineOrder));
}

#[test]
fn deadline_in_past() {
    let (env, _) = setup_env();
    let (client, _admin, _dispute, business, token) = bootstrap(&env, 50);

    let now = env.timestamp();
    let asset = usdc(&token);
    let result = client.try_create_campaign(
        &business,
        &asset,
        &10_000_000,
        &5,
        &(now - 100),
        &(now + 604_800),
        "ipfs://brief",
    );
    assert_eq!(result, Err(Error::DeadlineInPast));
}

#[test]
fn application_deadline_passed() {
    let (env, _) = setup_env();
    let (client, _admin, _dispute, business, token) = bootstrap(&env, 50);

    let now = env.timestamp();
    let asset = usdc(&token);
    let id = client.create_campaign(
        &business,
        &asset,
        &10_000_000,
        &5,
        &(now + 86_400),
        &(now + 604_800),
        "ipfs://brief",
    );
    client.fund_campaign(&business, &id);

    advance_time(&env, 86_400 + 10);

    let creator = env.generate();
    let result = client.try_apply_to_campaign(&creator, &id, "pitch");
    assert_eq!(result, Err(Error::ApplicationDeadlinePassed));
}

#[test]
fn content_deadline_passed() {
    let (env, _) = setup_env();
    let (client, _admin, _dispute, business, token) = bootstrap(&env, 50);
    let id = create_funded_campaign(&env, &client, &business, &token, 10_000_000, 5);

    let creator = env.generate();
    client.apply_to_campaign(&creator, &id, "pitch");
    client.approve_creator(&business, &id, &creator, &1_000_000);

    advance_time(&env, 604_800 + 10);

    let result = client.try_submit_proof(&creator, &id, "proof");
    assert_eq!(result, Err(Error::ContentDeadlinePassed));
}

#[test]
fn version_returns_initial_version_after_initialize() {
    let (env, _) = setup_env();
    let (client, _admin, _dispute, _business, _token) = bootstrap(&env, 250);
    assert_eq!(client.version(), "0.1.0");
}

#[test]
fn version_fails_before_initialization() {
    let (env, _) = setup_env();
    let client = Client::new(&env);
    let result = client.try_version();
    assert_eq!(result, Err(Error::NotInitialized));
}

#[test]
fn upgrade_rejects_non_admin() {
    let (env, _) = setup_env();
    let (client, _admin, _dispute, _business, _token) = bootstrap(&env, 250);

    let not_admin = env.generate();
    let new_wasm_hash = [7u8; 32];
    let result = client.try_upgrade(&not_admin, &new_wasm_hash);
    assert_eq!(result, Err(Error::Unauthorized));
}

#[test]
fn pause_unpause_toggles_is_paused() {
    let (env, _) = setup_env();
    let (client, admin, _dispute, _business, _token) = bootstrap(&env, 250);

    assert!(!client.is_paused());
    client.pause(&admin);
    assert!(client.is_paused());
    client.unpause(&admin);
    assert!(!client.is_paused());
}

#[test]
fn non_admin_cannot_pause() {
    let (env, _) = setup_env();
    let (client, _admin, _dispute, _business, _token) = bootstrap(&env, 250);

    let not_admin = env.generate();
    let result = client.try_pause(&not_admin);
    assert_eq!(result, Err(Error::Unauthorized));
}

#[test]
fn non_admin_cannot_unpause() {
    let (env, _) = setup_env();
    let (client, admin, _dispute, _business, _token) = bootstrap(&env, 250);
    client.pause(&admin);

    let not_admin = env.generate();
    let result = client.try_unpause(&not_admin);
    assert_eq!(result, Err(Error::Unauthorized));
}

#[test]
fn pause_blocks_apply_to_campaign() {
    let (env, _) = setup_env();
    let (client, admin, _dispute, business, token) = bootstrap(&env, 250);
    let id = create_funded_campaign(&env, &client, &business, &token, 10_000_000, 5);
    client.pause(&admin);

    let creator = env.generate();
    let result = client.try_apply_to_campaign(&creator, &id, "pitch");
    assert_eq!(result, Err(Error::ContractPaused));
}

#[test]
fn unpause_allows_apply_to_campaign() {
    let (env, _) = setup_env();
    let (client, admin, _dispute, business, token) = bootstrap(&env, 250);
    let id = create_funded_campaign(&env, &client, &business, &token, 10_000_000, 5);
    client.pause(&admin);
    client.unpause(&admin);

    let creator = env.generate();
    client.apply_to_campaign(&creator, &id, "pitch");
    let application = client.get_application(&id, &creator);
    assert_eq!(
        application.status,
        ApplicationStatus::Pending
    );
}

#[test]
fn view_functions_readable_while_paused() {
    let (env, _) = setup_env();
    let (client, admin, _dispute, business, token) = bootstrap(&env, 250);
    let id = create_funded_campaign(&env, &client, &business, &token, 10_000_000, 5);
    client.pause(&admin);

    let config = client.get_protocol_config();
    assert_eq!(config.admin, admin);

    let campaign = client.get_campaign(&id);
    assert_eq!(campaign.id, id);

    assert!(client.is_paused());
}

#[test]
fn update_fee_and_treasury() {
    let (env, _) = setup_env();
    let (client, admin, _dispute, business, token) = bootstrap(&env, 50);
    let token_client = TokenClient::new(&env, &token);

    let creator = env.generate();
    let gross: i128 = 1_000_000;
    let id = create_funded_campaign(&env, &client, &business, &token, 10_000_000, 5);

    // Update fee from 50 to 200 bps
    client.update_fee_bps(&admin, &200);

    // Update treasury
    let new_treasury = env.generate();
    client.update_treasury(&admin, &new_treasury);

    // Verify config updated — this reflects the live/global value used
    // by future campaigns, not this already-created one.
    let config = client.get_protocol_config();
    assert_eq!(config.fee_bps, 200);
    assert_eq!(config.treasury, new_treasury);
    assert_eq!(client.get_campaign(&id).fee_bps, 50);

    // Run through to claim
    client.apply_to_campaign(&creator, &id, "pitch");
    client.approve_creator(&business, &id, &creator, &gross);
    client.submit_proof(&creator, &id, "proof");
    client.approve_submission(&business, &id, &creator);

    let creator_before = token_client.balance(&creator);
    let treasury_before = token_client.balance(&new_treasury);

    client.claim_payment(&creator, &id);

    let creator_after = token_client.balance(&creator);
    let treasury_after = token_client.balance(&new_treasury);

    // The payout uses the 50 bps snapshotted at creation, not the 200
    // bps the fee was later updated to — but the fee still lands at the
    // *new* treasury address, since treasury isn't snapshotted per campaign.
    let expected_fee = (gross * 50) / 10_000;
    let expected_net = gross - expected_fee;

    assert_eq!(treasury_after - treasury_before, expected_fee);
    assert_eq!(creator_after - creator_before, expected_net);
}

#[test]
fn new_campaign_uses_updated_fee() {
    let (env, _) = setup_env();
    let (client, admin, _dispute, business, token) = bootstrap(&env, 50);
    let token_client = TokenClient::new(&env, &token);

    client.update_fee_bps(&admin, &200);

    let creator = env.generate();
    let gross: i128 = 1_000_000;
    // Created after the update — should snapshot 200 bps, not 50.
    let id = create_funded_campaign(&env, &client, &business, &token, 10_000_000, 5);
    assert_eq!(client.get_campaign(&id).fee_bps, 200);

    client.apply_to_campaign(&creator, &id, "pitch");
    client.approve_creator(&business, &id, &creator, &gross);
    client.submit_proof(&creator, &id, "proof");
    client.approve_submission(&business, &id, &creator);

    let creator_before = token_client.balance(&creator);
    client.claim_payment(&creator, &id);
    let creator_after = token_client.balance(&creator);

    let expected_fee = (gross * 200) / 10_000;
    assert_eq!(creator_after - creator_before, gross - expected_fee);
}

#[test]
fn update_fee_unauthorized() {
    let (env, _) = setup_env();
    let (client, _admin, _dispute, _business, _token) = bootstrap(&env, 50);
    let unauthorized = env.generate();

    let result = client.try_update_fee_bps(&unauthorized, &200);
    assert_eq!(result, Err(Error::Unauthorized));
}

#[test]
fn update_fee_too_high() {
    let (env, _) = setup_env();
    let (client, admin, _dispute, _business, _token) = bootstrap(&env, 50);

    let result = client.try_update_fee_bps(&admin, &1_001);
    assert_eq!(result, Err(Error::FeeTooHigh));
}

#[test]
fn update_metadata_success() {
    let (env, _) = setup_env();
    let (client, _admin, _dispute, business, token) = bootstrap(&env, 50);

    let now = env.timestamp();
    let asset = usdc(&token);
    let id = client.create_campaign(
        &business,
        &asset,
        &10_000_000,
        &5,
        &(now + 86_400),
        &(now + 604_800),
        "ipfs://original-brief",
    );

    client.update_campaign_metadata(
        &id,
        &business,
        "ipfs://updated-brief",
    );

    let campaign = client.get_campaign(&id);
    assert_eq!(
        campaign.metadata_uri,
        "ipfs://updated-brief"
    );
}

#[test]
fn update_metadata_after_funding() {
    let (env, _) = setup_env();
    let (client, _admin, _dispute, business, token) = bootstrap(&env, 50);

    // Create and fund — still zero applicants, so metadata update
    // should succeed when status is Funded.
    let id = create_funded_campaign(&env, &client, &business, &token, 10_000_000, 5);

    client.update_campaign_metadata(
        &id,
        &business,
        "ipfs://updated-brief",
    );

    let campaign = client.get_campaign(&id);
    assert_eq!(
        campaign.metadata_uri,
        "ipfs://updated-brief"
    );
}

#[test]
fn not_campaign_owner_cannot_update_metadata() {
    let (env, _) = setup_env();
    let (client, _admin, _dispute, business, token) = bootstrap(&env, 50);

    let now = env.timestamp();
    let asset = usdc(&token);
    let id = client.create_campaign(
        &business,
        &asset,
        &10_000_000,
        &5,
        &(now + 86_400),
        &(now + 604_800),
        "ipfs://original-brief",
    );

    let stranger = env.generate();
    let result = client.try_update_campaign_metadata(
        &id,
        &stranger,
        "ipfs://hijacked-brief",
    );
    assert_eq!(result, Err(Error::NotCampaignOwner));
}

#[test]
fn applications_exist_blocks_metadata_update() {
    let (env, _) = setup_env();
    let (client, _admin, _dispute, business, token) = bootstrap(&env, 50);

    let id = create_funded_campaign(&env, &client, &business, &token, 10_000_000, 5);

    let creator = env.generate();
    client.apply_to_campaign(&creator, &id, "pitch");

    let result = client.try_update_campaign_metadata(
        &id,
        &business,
        "ipfs://updated-brief",
    );
    assert_eq!(result, Err(Error::ApplicationsExist));
}

#[test]
fn empty_metadata_rejected() {
    let (env, _) = setup_env();
    let (client, _admin, _dispute, business, token) = bootstrap(&env, 50);

    let now = env.timestamp();
    let asset = usdc(&token);
    let id = client.create_campaign(
        &business,
        &asset,
        &10_000_000,
        &5,
        &(now + 86_400),
        &(now + 604_800),
        "ipfs://original-brief",
    );

    let result =
        client.try_update_campaign_metadata(&id, &business, "");
    assert_eq!(result, Err(Error::InvalidMetadata));
}

#[test]
fn cancelled_campaign_rejects_metadata_update() {
    let (env, _) = setup_env();
    let (client, _admin, _dispute, business, token) = bootstrap(&env, 50);

    let id = create_funded_campaign(&env, &client, &business, &token, 10_000_000, 5);
    client.cancel_campaign(&business, &id);

    let result = client.try_update_campaign_metadata(
        &id,
        &business,
        "ipfs://updated-brief",
    );
    assert_eq!(result, Err(Error::InvalidStatus));
}

#[test]
fn metadata_not_changed_on_failure() {
    let (env, _) = setup_env();
    let (client, _admin, _dispute, business, token) = bootstrap(&env, 50);

    let id = create_funded_campaign(&env, &client, &business, &token, 10_000_000, 5);

    let creator = env.generate();
    client.apply_to_campaign(&creator, &id, "pitch");

    // Attempt update fails because an applicant exists.
    let _ = client.try_update_campaign_metadata(
        &id,
        &business,
        "ipfs://should-not-persist",
    );

    // Metadata must still be the original.
    let campaign = client.get_campaign(&id);
    assert_eq!(
        campaign.metadata_uri,
        "ipfs://brief"
    );
}

#[test]
fn metadata_update_blocked_when_paused() {
    let (env, _) = setup_env();
    let (client, admin, _dispute, business, token) = bootstrap(&env, 50);

    let now = env.timestamp();
    let asset = usdc(&token);
    let id = client.create_campaign(
        &business,
        &asset,
        &10_000_000,
        &5,
        &(now + 86_400),
        &(now + 604_800),
        "ipfs://original-brief",
    );

    client.pause(&admin);

    let result = client.try_update_campaign_metadata(
        &id,
        &business,
        "ipfs://updated-brief",
    );
    assert_eq!(result, Err(Error::ContractPaused));
}

#[test]
fn completed_campaign_rejects_metadata_update() {
    let (env, _) = setup_env();
    let (client, _admin, _dispute, business, token) = bootstrap(&env, 0);

    let payout: i128 = 1_000_000;
    let id = create_funded_campaign(&env, &client, &business, &token, payout, 1);

    let creator = env.generate();
    client.apply_to_campaign(&creator, &id, "pitch");
    client.approve_creator(&business, &id, &creator, &payout);
    client.submit_proof(&creator, &id, "proof");
    client.approve_submission(&business, &id, &creator);
    client.claim_payment(&creator, &id);

    // Campaign is now Completed — metadata update should be rejected.
    let result = client.try_update_campaign_metadata(
        &id,
        &business,
        "ipfs://updated-brief",
    );
    assert_eq!(result, Err(Error::InvalidStatus));
}

/// Applying to a campaign must stay O(1) in storage-write cost
/// regardless of how many creators already applied — the applicant
/// tracking is a counter, not a growing list. Apply with a large number
/// of prior applicants, then confirm the write cost of a later apply is
/// no larger than an early one, and that the lock-after-first-apply
/// behavior from `applications_exist_blocks_metadata_update` still holds.
#[test]
fn applying_with_many_prior_applicants_does_not_regress_write_cost() {
    let (env, _) = setup_env();
    let (client, _admin, _dispute, business, token) = bootstrap(&env, 50);

    // max_creators is a cap on approved creators, not applicants, so a
    // low cap here doesn't limit how many creators can apply.
    let id = create_funded_campaign(&env, &client, &business, &token, 10_000_000, 1);

    let first_creator = env.generate();
    client.apply_to_campaign(&first_creator, &id, "pitch");
    let first_apply_write_bytes = env.bytes_written();

    // A large number of additional creators apply to the same campaign.
    const N: u32 = 200;
    for _ in 0..N {
        let creator = env.generate();
        client.apply_to_campaign(&creator, &id, "pitch");
    }

    let last_creator = env.generate();
    client.apply_to_campaign(&last_creator, &id, "pitch");
    let last_apply_write_bytes = env.bytes_written();

    // The write cost of applying must not grow with the number of prior
    // applicants — an ever-growing Vec would regress this.
    assert_eq!(first_apply_write_bytes, last_apply_write_bytes);
    // The application with its five-letter pitch, one address and one count.
    assert_eq!(first_apply_write_bytes, (33 + 5 + 27) + 33 + 4);

    // The brief is still locked once any creator has applied, exactly
    // as in `applications_exist_blocks_metadata_update`.
    let result = client.try_update_campaign_metadata(
        &id,
        &business,
        "ipfs://updated-brief",
    );
    assert_eq!(result, Err(Error::ApplicationsExist));
}

/// Open a dispute over `creator`'s payout and let the evidence window run
/// all the way out, leaving `resolve_dispute` callable. Mirrors the real
/// flow: a freeze (from `raise_dispute` or from admin directly) starts
/// the clock, and settlement only unlocks `MIN_EVIDENCE_WINDOW` later.
///
/// Advances by exactly the window, so every test built on this also
/// pins the inclusive boundary — resolution is legal the instant the
/// window closes, not a second after.
fn open_dispute_and_wait_out_window(
    env: &Ledger,
    client: &Client<'_>,
    dispute: &Address,
    campaign_id: u64,
    creator: &Address,
) {
    client.freeze_for_dispute(dispute, &campaign_id, creator);
    advance_time(env, MIN_EVIDENCE_WINDOW);
}

#[test]
fn pay_creator_resolution_pays_creator_minus_fee() {
    let (env, _) = setup_env();
    let (client, admin, dispute, business, token) = bootstrap(&env, 50);
    let token_client = TokenClient::new(&env, &token);

    let payout: i128 = 1_000_000;
    let id = create_funded_campaign(&env, &client, &business, &token, payout, 5);
    let creator = env.generate();
    client.apply_to_campaign(&creator, &id, "pitch");
    client.approve_creator(&business, &id, &creator, &payout);
    open_dispute_and_wait_out_window(&env, &client, &dispute, id, &creator);

    let creator_before = token_client.balance(&creator);
    let business_before = token_client.balance(&business);
    let treasury_before = token_client.balance(&admin);

    client.resolve_dispute(&admin, &id, &creator, &DisputeResolution::PayCreator);

    let fee = payout * 50 / BASIS_POINTS_DENOMINATOR;
    assert_eq!(
        token_client.balance(&creator),
        creator_before + payout - fee
    );
    assert_eq!(token_client.balance(&admin), treasury_before + fee);
    // Business's share (nothing for this creator's slot) leaves their
    // balance unchanged from before resolution.
    assert_eq!(token_client.balance(&business), business_before);

    let application = client.get_application(&id, &creator);
    assert_eq!(
        application.status,
        ApplicationStatus::Paid
    );
}

#[test]
fn refund_business_resolution_returns_full_amount_no_fee() {
    let (env, _) = setup_env();
    let (client, admin, dispute, business, token) = bootstrap(&env, 50);
    let token_client = TokenClient::new(&env, &token);

    let payout: i128 = 1_000_000;
    let id = create_funded_campaign(&env, &client, &business, &token, payout, 5);
    let creator = env.generate();
    client.apply_to_campaign(&creator, &id, "pitch");
    client.approve_creator(&business, &id, &creator, &payout);
    open_dispute_and_wait_out_window(&env, &client, &dispute, id, &creator);

    let business_before = token_client.balance(&business);
    let creator_before = token_client.balance(&creator);
    let treasury_before = token_client.balance(&admin);

    client.resolve_dispute(&admin, &id, &creator, &DisputeResolution::RefundBusiness);

    // Full amount, no fee deducted.
    assert_eq!(token_client.balance(&business), business_before + payout);
    assert_eq!(token_client.balance(&creator), creator_before);
    assert_eq!(token_client.balance(&admin), treasury_before);
}

#[test]
fn split_resolution_divides_correctly() {
    let (env, _) = setup_env();
    let (client, admin, dispute, business, token) = bootstrap(&env, 50);
    let token_client = TokenClient::new(&env, &token);

    let payout: i128 = 1_000_000;
    let id = create_funded_campaign(&env, &client, &business, &token, payout, 5);
    let creator = env.generate();
    client.apply_to_campaign(&creator, &id, "pitch");
    client.approve_creator(&business, &id, &creator, &payout);
    open_dispute_and_wait_out_window(&env, &client, &dispute, id, &creator);

    let business_before = token_client.balance(&business);
    let creator_before = token_client.balance(&creator);

    // 60% to creator, 40% to business.
    client.resolve_dispute(&admin, &id, &creator, &DisputeResolution::Split(6_000));

    let creator_gross = payout * 6_000 / 10_000;
    let fee = creator_gross * 50 / BASIS_POINTS_DENOMINATOR;
    let creator_net = creator_gross - fee;
    let business_amount = payout - creator_gross;

    assert_eq!(token_client.balance(&creator), creator_before + creator_net);
    assert_eq!(
        token_client.balance(&business),
        business_before + business_amount
    );
}

#[test]
fn non_admin_cannot_resolve_dispute() {
    let (env, _) = setup_env();
    let (client, _admin, dispute, business, token) = bootstrap(&env, 50);

    let payout: i128 = 1_000_000;
    let id = create_funded_campaign(&env, &client, &business, &token, payout, 5);
    let creator = env.generate();
    client.apply_to_campaign(&creator, &id, "pitch");
    client.approve_creator(&business, &id, &creator, &payout);
    // Fully resolvable for the admin, so the only thing this test's
    // caller fails on is authorization.
    open_dispute_and_wait_out_window(&env, &client, &dispute, id, &creator);

    let stranger = env.generate();
    let result =
        client.try_resolve_dispute(&stranger, &id, &creator, &DisputeResolution::PayCreator);
    assert_eq!(result, Err(Error::Unauthorized));
}

#[test]
fn resolve_dispute_rejects_already_paid() {
    let (env, _) = setup_env();
    let (client, admin, _dispute, business, token) = bootstrap(&env, 50);

    // Two creators, so the campaign stays Active (escrow_balance > 0)
    // after the first one claims — isolating the already-Paid
    // application check from the separate Completed-campaign check.
    let payout: i128 = 1_000_000;
    let id = create_funded_campaign(&env, &client, &business, &token, payout * 2, 5);
    let creator = env.generate();
    let other_creator = env.generate();
    client.apply_to_campaign(&creator, &id, "pitch");
    client.approve_creator(&business, &id, &creator, &payout);
    client.apply_to_campaign(
        &other_creator,
        &id,
        "pitch",
    );
    client.approve_creator(&business, &id, &other_creator, &payout);
    client.submit_proof(&creator, &id, "proof");
    client.approve_submission(&business, &id, &creator);
    client.claim_payment(&creator, &id);

    let result =
        client.try_resolve_dispute(&admin, &id, &creator, &DisputeResolution::PayCreator);
    assert_eq!(result, Err(Error::SubmissionNotPayable));
}

#[test]
fn resolve_dispute_works_on_rejected_application() {
    let (env, _) = setup_env();
    let (client, admin, dispute, business, token) = bootstrap(&env, 50);
    let token_client = TokenClient::new(&env, &token);

    let payout: i128 = 1_000_000;
    let id = create_funded_campaign(&env, &client, &business, &token, payout, 5);
    let creator = env.generate();
    client.apply_to_campaign(&creator, &id, "pitch");
    client.approve_creator(&business, &id, &creator, &payout);
    client.submit_proof(&creator, &id, "proof");
    // Business rejects — a natural point of disagreement to escalate.
    client.reject_submission(&business, &id, &creator);
    open_dispute_and_wait_out_window(&env, &client, &dispute, id, &creator);

    let creator_before = token_client.balance(&creator);
    client.resolve_dispute(&admin, &id, &creator, &DisputeResolution::PayCreator);

    let fee = payout * 50 / BASIS_POINTS_DENOMINATOR;
    assert_eq!(
        token_client.balance(&creator),
        creator_before + payout - fee
    );
}

// ── Evidence window ───────────────────────────────────────────────────

/// Take a creator to an approved, proof-submitted application and open a
/// dispute over their payout, leaving the evidence window still running.
fn creator_with_open_dispute(
    env: &Ledger,
    client: &Client<'_>,
    dispute: &Address,
    business: &Address,
    campaign_id: u64,
    payout: i128,
) -> Address {
    let creator = env.generate();
    client.apply_to_campaign(
        &creator,
        &campaign_id,
        "pitch",
    );
    client.approve_creator(business, &campaign_id, &creator, &payout);
    client.submit_proof(
        &creator,
        &campaign_id,
        "proof",
    );
    client.freeze_for_dispute(dispute, &campaign_id, &creator);
    creator
}

/// The core of this guard: the admin cannot reallocate a contested payout
/// in the same breath as the dispute being opened.
#[test]
fn resolve_dispute_rejected_immediately_after_dispute_opened() {
    let (env, contract_id) = setup_env();
    let (client, admin, dispute, business, token) = bootstrap(&env, 50);
    let token_client = TokenClient::new(&env, &token);

    let payout: i128 = 1_000_000;
    let id = create_funded_campaign(&env, &client, &business, &token, payout, 5);
    let creator = creator_with_open_dispute(&env, &client, &dispute, &business, id, payout);

    let creator_before = token_client.balance(&creator);
    let escrow_before = token_client.balance(&contract_id);

    let result =
        client.try_resolve_dispute(&admin, &id, &creator, &DisputeResolution::PayCreator);
    assert_eq!(result, Err(Error::EvidenceWindowOpen));

    // Rejected means rejected: no funds moved and nothing settled.
    assert_eq!(token_client.balance(&creator), creator_before);
    assert_eq!(token_client.balance(&contract_id), escrow_before);
    let application = client.get_application(&id, &creator);
    assert!(application.frozen);
    assert_ne!(
        application.status,
        ApplicationStatus::Paid
    );
    assert_eq!(payout, application.payout_amount);
}

/// One second short of the window is still inside it. Pins the boundary
/// from below, so an off-by-one in the comparison can't pass unnoticed.
#[test]
fn resolve_dispute_rejected_one_second_before_window_closes() {
    let (env, _) = setup_env();
    let (client, admin, dispute, business, token) = bootstrap(&env, 50);

    let payout: i128 = 1_000_000;
    let id = create_funded_campaign(&env, &client, &business, &token, payout, 5);
    let creator = creator_with_open_dispute(&env, &client, &dispute, &business, id, payout);

    advance_time(&env, MIN_EVIDENCE_WINDOW - 1);
    let result =
        client.try_resolve_dispute(&admin, &id, &creator, &DisputeResolution::PayCreator);
    assert_eq!(result, Err(Error::EvidenceWindowOpen));
}

/// The window is a delay, not a veto: once it closes, the payout is settled
/// in full.
#[test]
fn resolve_dispute_succeeds_once_evidence_window_elapses() {
    let (env, _) = setup_env();
    let (client, admin, dispute, business, token) = bootstrap(&env, 50);
    let token_client = TokenClient::new(&env, &token);

    let payout: i128 = 1_000_000;
    let id = create_funded_campaign(&env, &client, &business, &token, payout, 5);
    let creator = creator_with_open_dispute(&env, &client, &dispute, &business, id, payout);

    let creator_before = token_client.balance(&creator);
    // Exactly the window, no more: resolution unlocks the instant it closes.
    advance_time(&env, MIN_EVIDENCE_WINDOW);
    client.resolve_dispute(&admin, &id, &creator, &DisputeResolution::PayCreator);

    let fee = payout * 50 / BASIS_POINTS_DENOMINATOR;
    assert_eq!(
        token_client.balance(&creator),
        creator_before + payout - fee
    );

    let application = client.get_application(&id, &creator);
    assert_eq!(
        application.status,
        ApplicationStatus::Paid
    );
    // Settling clears the dispute state, so the window is not re-armed
    // against a payout that no longer has anything left to contest.
    assert!(!application.frozen);
    assert_eq!(application.dispute_opened_at, None);
}

/// Without a `freeze_for_dispute` there is no dispute and no window to
/// measure from, so the admin has nothing to settle — this is the half of
/// the gap the timestamp alone wouldn't close.
#[test]
fn resolve_dispute_rejects_application_with_no_dispute_open() {
    let (env, _) = setup_env();
    let (client, admin, _dispute, business, token) = bootstrap(&env, 50);

    let payout: i128 = 1_000_000;
    let id = create_funded_campaign(&env, &client, &business, &token, payout, 5);
    let creator = env.generate();
    client.apply_to_campaign(&creator, &id, "pitch");
    client.approve_creator(&business, &id, &creator, &payout);

    assert_eq!(
        client.get_application(&id, &creator).dispute_opened_at,
        None
    );
    let result =
        client.try_resolve_dispute(&admin, &id, &creator, &DisputeResolution::PayCreator);
    assert_eq!(result, Err(Error::NoDisputeOpen));

    // Still not resolvable however long the admin waits — waiting is not
    // a substitute for a dispute actually having been raised.
    advance_time(&env, MIN_EVIDENCE_WINDOW * 10);
    let result =
        client.try_resolve_dispute(&admin, &id, &creator, &DisputeResolution::PayCreator);
    assert_eq!(result, Err(Error::NoDisputeOpen));
}

/// Take a creator all the way to a business-approved, immediately
/// claimable submission on a freshly funded campaign.
fn payable_application(
    env: &Ledger,
    client: &Client<'_>,
    business: &Address,
    campaign_id: u64,
    payout: i128,
) -> Address {
    let creator = env.generate();
    client.apply_to_campaign(&creator, &campaign_id, "pitch");
    client.approve_creator(business, &campaign_id, &creator, &payout);
    client.submit_proof(&creator, &campaign_id, "proof");
    client.approve_submission(business, &campaign_id, &creator);
    creator
}

#[test]
fn freeze_marks_application_and_blocks_claim() {
    let (env, _) = setup_env();
    let (client, _admin, dispute, business, token) = bootstrap(&env, 50);
    let id = create_funded_campaign(&env, &client, &business, &token, 10_000_000, 5);
    let creator = payable_application(&env, &client, &business, id, 1_000_000);

    let before = client.get_application(&id, &creator);
    assert!(!before.frozen);
    assert_eq!(before.dispute_opened_at, None);

    advance_time(&env, 1_234);
    client.freeze_for_dispute(&dispute, &id, &creator);

    let after = client.get_application(&id, &creator);
    assert!(after.frozen);
    // The freeze stamps the moment the dispute opened — that stamp is
    // what `resolve_dispute` measures `MIN_EVIDENCE_WINDOW` from.
    assert_eq!(after.dispute_opened_at, Some(BASE_TIME + 1_234));

    let result = client.try_claim_payment(&creator, &id);
    assert_eq!(result, Err(Error::PayoutFrozen));
}

/// A second freeze is already rejected, so an admin cannot use one to
/// push `dispute_opened_at` forward and restart the evidence window on a
/// dispute the other party is midway through answering.
#[test]
fn re_freeze_cannot_restart_the_evidence_window() {
    let (env, _) = setup_env();
    let (client, _admin, dispute, business, token) = bootstrap(&env, 50);
    let id = create_funded_campaign(&env, &client, &business, &token, 10_000_000, 5);
    let creator = payable_application(&env, &client, &business, id, 1_000_000);

    client.freeze_for_dispute(&dispute, &id, &creator);
    let opened_at = client.get_application(&id, &creator).dispute_opened_at;
    assert_eq!(opened_at, Some(BASE_TIME));

    advance_time(&env, MIN_EVIDENCE_WINDOW / 2);
    assert_eq!(
        client.try_freeze_for_dispute(&dispute, &id, &creator),
        Err(Error::PayoutFrozen)
    );
    assert_eq!(
        client.get_application(&id, &creator).dispute_opened_at,
        opened_at
    );
}

#[test]
fn freeze_blocks_claim_after_auto_approval_deadline() {
    let (env, _) = setup_env();
    let (client, _admin, dispute, business, token) = bootstrap(&env, 50);
    let id = create_funded_campaign(&env, &client, &business, &token, 10_000_000, 5);

    let creator = env.generate();
    client.apply_to_campaign(&creator, &id, "pitch");
    client.approve_creator(&business, &id, &creator, &1_000_000);
    client.submit_proof(&creator, &id, "proof");
    client.freeze_for_dispute(&dispute, &id, &creator);

    // Past the content deadline the creator would otherwise be
    // auto-approved — this is the case a business raises a dispute for.
    advance_time(&env, 604_801);
    let result = client.try_claim_payment(&creator, &id);
    assert_eq!(result, Err(Error::PayoutFrozen));
}

#[test]
fn freeze_preserves_proof_against_business_edits() {
    let (env, _) = setup_env();
    let (client, _admin, dispute, business, token) = bootstrap(&env, 50);
    let id = create_funded_campaign(&env, &client, &business, &token, 10_000_000, 5);

    let creator = env.generate();
    client.apply_to_campaign(&creator, &id, "pitch");
    client.approve_creator(&business, &id, &creator, &1_000_000);
    client.submit_proof(&creator, &id, "proof");
    client.freeze_for_dispute(&dispute, &id, &creator);

    assert_eq!(
        client.try_reject_submission(&business, &id, &creator),
        Err(Error::PayoutFrozen)
    );
    assert_eq!(
        client.try_approve_submission(&business, &id, &creator),
        Err(Error::PayoutFrozen)
    );
    assert_eq!(
        client.try_submit_proof(&creator, &id, "proof2"),
        Err(Error::PayoutFrozen)
    );
    assert_eq!(
        client.get_application(&id, &creator).proof_uri,
        Some("proof".to_string())
    );
}

#[test]
fn freeze_leaves_other_creators_claimable() {
    let (env, _) = setup_env();
    let (client, _admin, dispute, business, token) = bootstrap(&env, 50);
    let id = create_funded_campaign(&env, &client, &business, &token, 10_000_000, 5);
    let disputed = payable_application(&env, &client, &business, id, 1_000_000);
    let uncontested = payable_application(&env, &client, &business, id, 1_000_000);

    client.freeze_for_dispute(&dispute, &id, &disputed);

    client.claim_payment(&uncontested, &id);
    assert_eq!(
        client.get_application(&id, &uncontested).status,
        ApplicationStatus::Paid
    );
}

#[test]
fn freeze_rejects_already_paid_application() {
    let (env, _) = setup_env();
    let (client, _admin, dispute, business, token) = bootstrap(&env, 50);
    let id = create_funded_campaign(&env, &client, &business, &token, 10_000_000, 5);
    let creator = payable_application(&env, &client, &business, id, 1_000_000);
    client.claim_payment(&creator, &id);

    let result = client.try_freeze_for_dispute(&dispute, &id, &creator);
    assert_eq!(result, Err(Error::SubmissionNotPayable));
}

#[test]
fn freeze_rejects_creator_with_no_application() {
    let (env, _) = setup_env();
    let (client, _admin, dispute, business, token) = bootstrap(&env, 50);
    let id = create_funded_campaign(&env, &client, &business, &token, 10_000_000, 5);

    let stranger = env.generate();
    let result = client.try_freeze_for_dispute(&dispute, &id, &stranger);
    assert_eq!(result, Err(Error::ApplicationNotFound));
}

#[test]
fn freeze_rejects_unapproved_applicant() {
    let (env, _) = setup_env();
    let (client, _admin, dispute, business, token) = bootstrap(&env, 50);
    let id = create_funded_campaign(&env, &client, &business, &token, 10_000_000, 5);

    // Applied but never approved, so no payout is committed to freeze.
    let creator = env.generate();
    client.apply_to_campaign(&creator, &id, "pitch");

    let result = client.try_freeze_for_dispute(&dispute, &id, &creator);
    assert_eq!(result, Err(Error::SubmissionNotPayable));
}

#[test]
fn freeze_twice_fails() {
    let (env, _) = setup_env();
    let (client, _admin, dispute, business, token) = bootstrap(&env, 50);
    let id = create_funded_campaign(&env, &client, &business, &token, 10_000_000, 5);
    let creator = payable_application(&env, &client, &business, id, 1_000_000);

    client.freeze_for_dispute(&dispute, &id, &creator);
    let result = client.try_freeze_for_dispute(&dispute, &id, &creator);
    assert_eq!(result, Err(Error::PayoutFrozen));
}

#[test]
fn freeze_rejects_cancelled_campaign() {
    let (env, _) = setup_env();
    let (client, _admin, dispute, business, token) = bootstrap(&env, 50);
    let id = create_funded_campaign(&env, &client, &business, &token, 10_000_000, 5);
    let creator = payable_application(&env, &client, &business, id, 1_000_000);
    client.cancel_campaign(&business, &id);

    let result = client.try_freeze_for_dispute(&dispute, &id, &creator);
    assert_eq!(result, Err(Error::InvalidStatus));
}

#[test]
fn freeze_rejects_uninvolved_stranger() {
    let (env, _) = setup_env();
    let (client, _admin, _dispute, business, token) = bootstrap(&env, 50);
    let id = create_funded_campaign(&env, &client, &business, &token, 10_000_000, 5);
    let creator = payable_application(&env, &client, &business, id, 1_000_000);

    // Not the configured dispute contract and not the admin.
    let stranger = env.generate();
    let result = client.try_freeze_for_dispute(&stranger, &id, &creator);
    assert_eq!(result, Err(Error::Unauthorized));
    assert!(!client.get_application(&id, &creator).frozen);
}

#[test]
fn admin_can_freeze_directly() {
    let (env, _) = setup_env();
    let (client, admin, _dispute, business, token) = bootstrap(&env, 50);
    let id = create_funded_campaign(&env, &client, &business, &token, 10_000_000, 5);
    let creator = payable_application(&env, &client, &business, id, 1_000_000);

    // Admin can freeze directly, without routing through the
    // dispute-resolution contract's `raise_dispute`.
    client.freeze_for_dispute(&admin, &id, &creator);
    assert!(client.get_application(&id, &creator).frozen);

    let result = client.try_claim_payment(&creator, &id);
    assert_eq!(result, Err(Error::PayoutFrozen));
}

#[test]
fn admin_resolve_dispute_settles_and_clears_freeze() {
    let (env, _) = setup_env();
    let (client, admin, dispute, business, token) = bootstrap(&env, 50);
    let id = create_funded_campaign(&env, &client, &business, &token, 10_000_000, 5);
    let creator = payable_application(&env, &client, &business, id, 1_000_000);
    client.freeze_for_dispute(&dispute, &id, &creator);
    advance_time(&env, MIN_EVIDENCE_WINDOW);

    client.resolve_dispute(&admin, &id, &creator, &DisputeResolution::PayCreator);

    let application = client.get_application(&id, &creator);
    assert!(!application.frozen);
    assert_eq!(
        application.status,
        ApplicationStatus::Paid
    );

    // Settling clears the freeze, but the application is now Paid, so a
    // subsequent claim attempt still fails — just via the ordinary
    // already-Paid guard, not `PayoutFrozen`.
    let result = client.try_claim_payment(&creator, &id);
    assert_eq!(result, Err(Error::SubmissionNotPayable));
}
