//! The escrow and the arbitration contract on one ledger: what one asks of the
//! other is performed, and undone together with the call that asked for it.
use std::cell::RefCell;

use ads_bazaar::campaign_escrow::contract::{CampaignEscrowContract, MIN_EVIDENCE_WINDOW};
use ads_bazaar::campaign_escrow::env::{Effect as EscrowEffect, Env as EscrowEnv};
use ads_bazaar::campaign_escrow::error::Error as EscrowError;
use ads_bazaar::campaign_escrow::types::{Application, DisputeResolution, ProtocolConfig};
use ads_bazaar::dispute_resolution::contract::DisputeResolutionContract;
use ads_bazaar::dispute_resolution::env::{Effect as DisputeEffect, Env as DisputeEnv};
use ads_bazaar::dispute_resolution::error::Error as DisputeError;
use ads_bazaar::dispute_resolution::types::Dispute;
use ads_bazaar::shared::{
    Address, ApplicationStatus, DisputeOutcome, DisputeStatus, PayoutAsset,
};

const BASE_TIME: u64 = 1_000_000;
const APPLICATION_WINDOW: u64 = 86_400;
const COMPLETION_WINDOW: u64 = 604_800;
const TOTAL_BUDGET: i128 = 10_000_000;
const PAYOUT: i128 = 2_000_000;
const FEE_BPS: i128 = 500; // 5 %

/// Why a call of the arbitration contract came to nothing: its own error, or
/// a refusal of the other contract, which undoes everything.
#[derive(Debug, PartialEq, Eq)]
enum Failure {
    Contract(DisputeError),
    Trap,
}

#[derive(Clone)]
struct State {
    escrow: EscrowEnv,
    disputes: DisputeEnv,
    balances: Vec<(Address, i128)>,
    generated: u128,
}

impl State {
    fn balance(&self, holder: Address) -> i128 {
        for (h, amount) in &self.balances {
            if *h == holder {
                return *amount;
            }
        }
        0
    }

    fn credit(&mut self, holder: Address, amount: i128) {
        for entry in self.balances.iter_mut() {
            if entry.0 == holder {
                entry.1 += amount;
                return;
            }
        }
        self.balances.push((holder, amount));
    }

    /// Performs what the escrow requested.
    fn perform_escrow(&mut self) {
        for effect in std::mem::take(&mut self.escrow.log) {
            match effect {
                EscrowEffect::Transfer { from, to, amount, .. } => {
                    assert!(self.balance(from) >= amount, "insufficient balance");
                    self.credit(from, -amount);
                    self.credit(to, amount);
                }
                EscrowEffect::CloseDispute {
                    dispute_contract,
                    caller,
                    campaign_id,
                    creator,
                    outcome,
                } => {
                    assert_eq!(dispute_contract, self.disputes.contract);
                    let before = self.disputes.clone();
                    let closed = DisputeResolutionContract::close_dispute(
                        &mut self.disputes,
                        caller,
                        campaign_id,
                        creator,
                        outcome,
                    );
                    // A failure does not undo the settlement.
                    if closed.is_err() {
                        self.disputes = before;
                    }
                    self.disputes.log.clear();
                }
                _ => {}
            }
        }
    }

    /// Performs what the arbitration contract requested; false where the
    /// escrow refuses.
    fn perform_disputes(&mut self) -> bool {
        for effect in std::mem::take(&mut self.disputes.log) {
            if let DisputeEffect::FreezeForDispute {
                escrow_contract,
                caller,
                campaign_id,
                creator,
            } = effect
            {
                assert_eq!(escrow_contract, self.escrow.contract);
                let frozen = CampaignEscrowContract::freeze_for_dispute(
                    &mut self.escrow,
                    caller,
                    campaign_id,
                    creator,
                );
                if frozen.is_err() {
                    return false;
                }
                self.perform_escrow();
            }
        }
        true
    }

    fn escrow_call<T>(
        &mut self,
        f: impl FnOnce(&mut EscrowEnv) -> Result<T, EscrowError>,
    ) -> Result<T, EscrowError> {
        let before = self.clone();
        let result = f(&mut self.escrow);
        if result.is_err() {
            *self = before;
        } else {
            self.perform_escrow();
        }
        result
    }

    fn dispute_call<T>(
        &mut self,
        f: impl FnOnce(&mut DisputeEnv) -> Result<T, DisputeError>,
    ) -> Result<T, Failure> {
        let before = self.clone();
        match f(&mut self.disputes) {
            Ok(value) => {
                if self.perform_disputes() {
                    Ok(value)
                } else {
                    *self = before;
                    Err(Failure::Trap)
                }
            }
            Err(e) => {
                *self = before;
                Err(Failure::Contract(e))
            }
        }
    }
}

struct Fixture {
    state: RefCell<State>,
    escrow_id: Address,
    token: Address,
    admin: Address,
    business: Address,
    treasury: Address,
}

struct Escrow<'a> {
    fixture: &'a Fixture,
}

impl<'a> Escrow<'a> {
    fn call<T>(
        &self,
        f: impl FnOnce(&mut EscrowEnv) -> Result<T, EscrowError>,
    ) -> Result<T, EscrowError> {
        self.fixture.state.borrow_mut().escrow_call(f)
    }

    fn version(&self) -> String {
        CampaignEscrowContract::version(&self.fixture.state.borrow().escrow).unwrap()
    }

    fn get_protocol_config(&self) -> ProtocolConfig {
        self.call(|e| CampaignEscrowContract::get_protocol_config(e)).unwrap()
    }

    fn get_application(&self, id: &u64, creator: &Address) -> Application {
        let state = self.fixture.state.borrow();
        CampaignEscrowContract::get_application(&state.escrow, *id, *creator).unwrap()
    }

    fn approve_submission(&self, business: &Address, id: &u64, creator: &Address) {
        self.call(|e| CampaignEscrowContract::approve_submission(e, *business, *id, *creator))
            .unwrap()
    }

    fn try_claim_payment(&self, creator: &Address, id: &u64) -> Result<(), EscrowError> {
        self.call(|e| CampaignEscrowContract::claim_payment(e, *creator, *id))
    }

    fn claim_payment(&self, creator: &Address, id: &u64) {
        self.try_claim_payment(creator, id).unwrap()
    }

    fn try_freeze_for_dispute(
        &self,
        caller: &Address,
        id: &u64,
        creator: &Address,
    ) -> Result<(), EscrowError> {
        self.call(|e| CampaignEscrowContract::freeze_for_dispute(e, *caller, *id, *creator))
    }

    fn freeze_for_dispute(&self, caller: &Address, id: &u64, creator: &Address) {
        self.try_freeze_for_dispute(caller, id, creator).unwrap()
    }

    fn try_resolve_dispute(
        &self,
        admin: &Address,
        id: &u64,
        creator: &Address,
        resolution: &DisputeResolution,
    ) -> Result<(), EscrowError> {
        self.call(|e| {
            CampaignEscrowContract::resolve_dispute(e, *admin, *id, *creator, *resolution)
        })
    }

    fn resolve_dispute(
        &self,
        admin: &Address,
        id: &u64,
        creator: &Address,
        resolution: &DisputeResolution,
    ) {
        self.try_resolve_dispute(admin, id, creator, resolution).unwrap()
    }
}

struct Disputes<'a> {
    fixture: &'a Fixture,
}

impl<'a> Disputes<'a> {
    fn call<T>(
        &self,
        f: impl FnOnce(&mut DisputeEnv) -> Result<T, DisputeError>,
    ) -> Result<T, Failure> {
        self.fixture.state.borrow_mut().dispute_call(f)
    }

    fn version(&self) -> String {
        self.call(|e| DisputeResolutionContract::version(e)).unwrap()
    }

    /// Asks the escrow who owns the campaign, where that matters, and raises
    /// the dispute.
    fn try_raise_dispute(
        &self,
        raised_by: &Address,
        id: &u64,
        creator: &Address,
        reason: &str,
    ) -> Result<u64, Failure> {
        let mut state = self.fixture.state.borrow_mut();
        let reason = reason.to_string();
        if DisputeResolutionContract::turns_on_business(
            &state.disputes,
            *raised_by,
            *id,
            *creator,
            &reason,
        ) {
            match CampaignEscrowContract::get_campaign_business(&state.escrow, *id) {
                Ok(business) => state.disputes.campaign_businesses.set(*id, business),
                Err(_) => return Err(Failure::Trap),
            }
        }
        state.dispute_call(|e| {
            DisputeResolutionContract::raise_dispute(e, *raised_by, *id, *creator, reason)
        })
    }

    fn raise_dispute(&self, raised_by: &Address, id: &u64, creator: &Address, reason: &str) -> u64 {
        self.try_raise_dispute(raised_by, id, creator, reason).unwrap()
    }

    fn try_get_dispute(&self, id: &u64) -> Result<Dispute, Failure> {
        self.call(|e| DisputeResolutionContract::get_dispute(e, *id))
    }

    fn get_dispute(&self, id: &u64) -> Dispute {
        self.try_get_dispute(id).unwrap()
    }
}

struct TokenClient<'a> {
    fixture: &'a Fixture,
}

impl<'a> TokenClient<'a> {
    fn balance(&self, holder: &Address) -> i128 {
        self.fixture.state.borrow().balance(*holder)
    }
}

impl Fixture {
    fn setup() -> Self {
        let escrow_id = Address::contract(1, 1);
        let dispute_id = Address::contract(1, 2);
        let token = Address::contract(2, 1);
        let mut escrow = EscrowEnv::new(escrow_id, BASE_TIME);
        escrow.tokens.push(token);
        let fixture = Fixture {
            state: RefCell::new(State {
                escrow,
                disputes: DisputeEnv::new(dispute_id, BASE_TIME),
                balances: Vec::new(),
                generated: 3,
            }),
            escrow_id,
            token,
            admin: Address::account(0, 1),
            treasury: Address::account(0, 2),
            business: Address::account(0, 3),
        };
        let (admin, treasury) = (fixture.admin, fixture.treasury);
        let escrow = fixture.escrow();
        escrow
            .call(|e| CampaignEscrowContract::initialize(e, admin, dispute_id, FEE_BPS))
            .unwrap();
        escrow
            .call(|e| CampaignEscrowContract::update_treasury(e, admin, treasury))
            .unwrap();
        fixture
            .disputes()
            .call(|e| DisputeResolutionContract::initialize(e, admin, escrow_id))
            .unwrap();
        fixture.state.borrow_mut().credit(fixture.business, 1_000_000_000);
        fixture
    }

    fn generate(&self) -> Address {
        let mut state = self.state.borrow_mut();
        state.generated += 1;
        Address::account(0, state.generated)
    }

    fn escrow(&self) -> Escrow<'_> {
        Escrow { fixture: self }
    }

    fn disputes(&self) -> Disputes<'_> {
        Disputes { fixture: self }
    }

    fn token_client(&self) -> TokenClient<'_> {
        TokenClient { fixture: self }
    }

    fn set_time(&self, timestamp: u64) {
        let mut state = self.state.borrow_mut();
        state.escrow.timestamp = timestamp;
        state.disputes.timestamp = timestamp;
    }

    /// Create a funded campaign and return its id.
    fn create_funded_campaign(&self) -> u64 {
        let now = self.state.borrow().escrow.timestamp;
        let (business, token) = (self.business, self.token);
        let id = self
            .escrow()
            .call(|e| {
                CampaignEscrowContract::create_campaign(
                    e,
                    business,
                    PayoutAsset { token, symbol: "USDC".to_string() },
                    TOTAL_BUDGET,
                    5,
                    now + APPLICATION_WINDOW,
                    now + COMPLETION_WINDOW,
                    "ipfs://brief".to_string(),
                )
            })
            .unwrap();
        self.escrow()
            .call(|e| CampaignEscrowContract::fund_campaign(e, business, id))
            .unwrap();
        id
    }

    /// Apply a creator to `campaign_id`, get them approved, and submit proof.
    fn add_creator_with_proof(&self, campaign_id: u64) -> Address {
        let creator = self.generate();
        let business = self.business;
        let escrow = self.escrow();
        escrow
            .call(|e| {
                CampaignEscrowContract::apply_to_campaign(
                    e,
                    creator,
                    campaign_id,
                    "ipfs://pitch".to_string(),
                )
            })
            .unwrap();
        escrow
            .call(|e| {
                CampaignEscrowContract::approve_creator(e, business, campaign_id, creator, PAYOUT)
            })
            .unwrap();
        escrow
            .call(|e| {
                CampaignEscrowContract::submit_proof(
                    e,
                    creator,
                    campaign_id,
                    "ipfs://proof".to_string(),
                )
            })
            .unwrap();
        creator
    }

    /// Advance past the escrow's evidence window, so a dispute raised now
    /// becomes resolvable by `resolve_dispute`.
    fn wait_out_evidence_window(&self) {
        let now = self.state.borrow().escrow.timestamp;
        self.set_time(now + MIN_EVIDENCE_WINDOW);
    }
}

// Initialization cross-check

#[test]
fn both_contracts_initialize_pointing_at_each_other() {
    let f = Fixture::setup();

    assert_eq!(f.escrow().version(), "0.1.0");
    assert_eq!(f.disputes().version(), "0.1.0");

    let cfg = f.escrow().get_protocol_config();
    assert_eq!(cfg.fee_bps, FEE_BPS);
    assert_eq!(cfg.admin, f.admin);
    assert_eq!(cfg.treasury, f.treasury);
}

// raise_dispute cross-contract call freezes the payout

#[test]
fn creator_raise_dispute_freezes_payout_via_cross_contract_call() {
    let f = Fixture::setup();
    let campaign_id = f.create_funded_campaign();
    let creator = f.add_creator_with_proof(campaign_id);

    assert!(!f.escrow().get_application(&campaign_id, &creator).frozen);

    f.disputes().raise_dispute(
        &creator,
        &campaign_id,
        &creator,
        "ipfs://evidence",
    );

    let app = f.escrow().get_application(&campaign_id, &creator);
    assert!(app.frozen);
    assert_eq!(app.status, ApplicationStatus::ProofSubmitted);
}

// Frozen payout cannot be claimed

#[test]
fn frozen_payout_cannot_be_claimed() {
    let f = Fixture::setup();
    let campaign_id = f.create_funded_campaign();
    let creator = f.add_creator_with_proof(campaign_id);
    f.escrow()
        .approve_submission(&f.business, &campaign_id, &creator);

    f.disputes().raise_dispute(
        &creator,
        &campaign_id,
        &creator,
        "ipfs://evidence",
    );

    assert_eq!(
        f.escrow().try_claim_payment(&creator, &campaign_id),
        Err(EscrowError::PayoutFrozen)
    );
}

// Business raises dispute

#[test]
fn business_raise_dispute_freezes_creator_payout() {
    let f = Fixture::setup();
    let campaign_id = f.create_funded_campaign();
    let creator = f.add_creator_with_proof(campaign_id);

    f.disputes().raise_dispute(
        &f.business,
        &campaign_id,
        &creator,
        "ipfs://not-as-briefed",
    );

    assert!(f.escrow().get_application(&campaign_id, &creator).frozen);
}

// Dispute record fields match raise call

#[test]
fn dispute_record_fields_match_raise_call() {
    let f = Fixture::setup();
    let campaign_id = f.create_funded_campaign();
    let creator = f.add_creator_with_proof(campaign_id);
    let reason = "ipfs://evidence";

    let dispute_id = f
        .disputes()
        .raise_dispute(&creator, &campaign_id, &creator, reason);

    let d = f.disputes().get_dispute(&dispute_id);
    assert_eq!(d.campaign_id, campaign_id);
    assert_eq!(d.creator, creator);
    assert_eq!(d.raised_by, creator);
    assert_eq!(d.reason_uri, reason);
    assert_eq!(d.status, DisputeStatus::Raised);
    assert_eq!(d.outcome, DisputeOutcome::Pending);
    assert_eq!(d.arbiter, None);
    assert_eq!(d.raised_at, BASE_TIME);
    assert_eq!(d.resolved_at, None);
}

// raise → admin resolve PayCreator: balance assertions

#[test]
fn raise_then_admin_resolve_pay_creator_correct_balances() {
    let f = Fixture::setup();
    let campaign_id = f.create_funded_campaign();
    let creator = f.add_creator_with_proof(campaign_id);

    f.disputes().raise_dispute(
        &creator,
        &campaign_id,
        &creator,
        "ipfs://evidence",
    );
    assert!(f.escrow().get_application(&campaign_id, &creator).frozen);
    f.wait_out_evidence_window();

    let tc = f.token_client();
    let creator_before = tc.balance(&creator);
    let treasury_before = tc.balance(&f.treasury);
    let escrow_before = tc.balance(&f.escrow_id);

    f.escrow().resolve_dispute(
        &f.admin,
        &campaign_id,
        &creator,
        &DisputeResolution::PayCreator,
    );

    let fee = PAYOUT * FEE_BPS / 10_000;
    let net = PAYOUT - fee;

    assert_eq!(tc.balance(&creator), creator_before + net);
    assert_eq!(tc.balance(&f.treasury), treasury_before + fee);
    assert_eq!(tc.balance(&f.escrow_id), escrow_before - PAYOUT);

    let app = f.escrow().get_application(&campaign_id, &creator);
    assert_eq!(app.status, ApplicationStatus::Paid);
    assert!(!app.frozen, "frozen flag must be cleared after settlement");
}

// raise → admin resolve RefundBusiness

#[test]
fn raise_then_admin_resolve_refund_business_correct_balances() {
    let f = Fixture::setup();
    let campaign_id = f.create_funded_campaign();
    let creator = f.add_creator_with_proof(campaign_id);

    f.disputes().raise_dispute(
        &f.business,
        &campaign_id,
        &creator,
        "ipfs://work-not-delivered",
    );
    f.wait_out_evidence_window();

    let tc = f.token_client();
    let business_before = tc.balance(&f.business);
    let escrow_before = tc.balance(&f.escrow_id);

    f.escrow().resolve_dispute(
        &f.admin,
        &campaign_id,
        &creator,
        &DisputeResolution::RefundBusiness,
    );

    // Full amount goes back to business; no fee on a full refund
    assert_eq!(tc.balance(&f.business), business_before + PAYOUT);
    assert_eq!(tc.balance(&f.escrow_id), escrow_before - PAYOUT);

    let app = f.escrow().get_application(&campaign_id, &creator);
    assert_eq!(app.status, ApplicationStatus::Paid);
    assert!(!app.frozen);
}

// raise → admin resolve Split

#[test]
fn raise_then_admin_resolve_split_distributes_proportionally() {
    let f = Fixture::setup();
    let campaign_id = f.create_funded_campaign();
    let creator = f.add_creator_with_proof(campaign_id);

    f.disputes().raise_dispute(
        &creator,
        &campaign_id,
        &creator,
        "ipfs://partial-delivery",
    );
    f.wait_out_evidence_window();

    let tc = f.token_client();
    let creator_before = tc.balance(&creator);
    let business_before = tc.balance(&f.business);
    let treasury_before = tc.balance(&f.treasury);

    // 60 % to creator (6_000 bps), 40 % to business
    f.escrow().resolve_dispute(
        &f.admin,
        &campaign_id,
        &creator,
        &DisputeResolution::Split(6_000),
    );

    let creator_gross = PAYOUT * 6_000 / 10_000; // 1_200_000
    let business_share = PAYOUT - creator_gross; // 800_000
    let fee = creator_gross * FEE_BPS / 10_000; // 60_000
    let creator_net = creator_gross - fee; // 1_140_000

    assert_eq!(tc.balance(&creator), creator_before + creator_net);
    assert_eq!(tc.balance(&f.business), business_before + business_share);
    assert_eq!(tc.balance(&f.treasury), treasury_before + fee);
}

// Stranger cannot call freeze_for_dispute directly

#[test]
fn stranger_cannot_call_freeze_for_dispute_directly() {
    let f = Fixture::setup();
    let campaign_id = f.create_funded_campaign();
    let creator = f.add_creator_with_proof(campaign_id);
    let stranger = f.generate();

    let result = f
        .escrow()
        .try_freeze_for_dispute(&stranger, &campaign_id, &creator);

    assert_eq!(result, Err(EscrowError::Unauthorized));
    assert!(!f.escrow().get_application(&campaign_id, &creator).frozen);
}

// Admin emergency bypass

#[test]
fn admin_can_freeze_directly_without_going_through_dispute_contract() {
    let f = Fixture::setup();
    let campaign_id = f.create_funded_campaign();
    let creator = f.add_creator_with_proof(campaign_id);

    f.escrow()
        .freeze_for_dispute(&f.admin, &campaign_id, &creator);

    assert!(f.escrow().get_application(&campaign_id, &creator).frozen);
    assert_eq!(
        f.escrow().try_claim_payment(&creator, &campaign_id),
        Err(EscrowError::PayoutFrozen)
    );
}

// Other creators unaffected while one is disputed

#[test]
fn other_creators_payout_unaffected_while_one_is_disputed() {
    let f = Fixture::setup();
    let campaign_id = f.create_funded_campaign();
    let disputed = f.add_creator_with_proof(campaign_id);
    let clean = f.add_creator_with_proof(campaign_id);
    f.escrow()
        .approve_submission(&f.business, &campaign_id, &clean);

    f.disputes().raise_dispute(
        &disputed,
        &campaign_id,
        &disputed,
        "ipfs://evidence",
    );

    f.escrow().claim_payment(&clean, &campaign_id);
    assert_eq!(
        f.escrow().get_application(&campaign_id, &clean).status,
        ApplicationStatus::Paid
    );
    assert!(f.escrow().get_application(&campaign_id, &disputed).frozen);
}

// Duplicate raise rejected

#[test]
fn second_raise_over_same_payout_is_rejected() {
    let f = Fixture::setup();
    let campaign_id = f.create_funded_campaign();
    let creator = f.add_creator_with_proof(campaign_id);
    let reason = "ipfs://evidence";

    f.disputes()
        .raise_dispute(&creator, &campaign_id, &creator, reason);

    let result = f
        .disputes()
        .try_raise_dispute(&f.business, &campaign_id, &creator, reason);
    assert_eq!(
        result,
        Err(Failure::Contract(DisputeError::DisputeAlreadyRaised))
    );
    assert!(f.disputes().try_get_dispute(&1).is_err());
}

// Raise on already-paid payout rejected

#[test]
fn raise_dispute_on_paid_payout_is_rejected_and_leaves_no_record() {
    let f = Fixture::setup();
    let campaign_id = f.create_funded_campaign();
    let creator = f.add_creator_with_proof(campaign_id);
    f.escrow()
        .approve_submission(&f.business, &campaign_id, &creator);
    f.escrow().claim_payment(&creator, &campaign_id);

    assert_eq!(
        f.escrow().get_application(&campaign_id, &creator).status,
        ApplicationStatus::Paid
    );

    let result = f.disputes().try_raise_dispute(
        &creator,
        &campaign_id,
        &creator,
        "ipfs://too-late",
    );
    assert!(result.is_err());
    assert!(f.disputes().try_get_dispute(&0).is_err());
}

// Raise in auto-approval window blocks claim

#[test]
fn dispute_in_auto_approval_window_blocks_claim() {
    let f = Fixture::setup();
    let campaign_id = f.create_funded_campaign();
    let creator = f.add_creator_with_proof(campaign_id);

    f.set_time(BASE_TIME + COMPLETION_WINDOW + 1);

    f.disputes().raise_dispute(
        &f.business,
        &campaign_id,
        &creator,
        "ipfs://work-incomplete",
    );

    assert_eq!(
        f.escrow().try_claim_payment(&creator, &campaign_id),
        Err(EscrowError::PayoutFrozen)
    );
}

// Two creators on same campaign can have independent disputes

#[test]
fn two_creators_on_same_campaign_can_each_be_disputed_independently() {
    let f = Fixture::setup();
    let campaign_id = f.create_funded_campaign();
    let creator_a = f.add_creator_with_proof(campaign_id);
    let creator_b = f.add_creator_with_proof(campaign_id);
    let reason = "ipfs://evidence";

    let id_a = f
        .disputes()
        .raise_dispute(&creator_a, &campaign_id, &creator_a, reason);
    let id_b = f
        .disputes()
        .raise_dispute(&creator_b, &campaign_id, &creator_b, reason);

    assert_ne!(id_a, id_b);
    assert_eq!(f.disputes().get_dispute(&id_a).creator, creator_a);
    assert_eq!(f.disputes().get_dispute(&id_b).creator, creator_b);
    assert!(f.escrow().get_application(&campaign_id, &creator_a).frozen);
    assert!(f.escrow().get_application(&campaign_id, &creator_b).frozen);
}

// Evidence window blocks an instant admin resolve after raise

/// A dispute raised through the real cross-contract path cannot be settled by
/// the admin in the same breath — the party that did *not* raise it gets
/// `MIN_EVIDENCE_WINDOW` to answer first.
#[test]
fn admin_cannot_resolve_dispute_immediately_after_cross_contract_raise() {
    let f = Fixture::setup();
    let campaign_id = f.create_funded_campaign();
    let creator = f.add_creator_with_proof(campaign_id);

    f.disputes().raise_dispute(
        &creator,
        &campaign_id,
        &creator,
        "ipfs://evidence",
    );

    // The cross-contract freeze started the clock at the raise.
    let app = f.escrow().get_application(&campaign_id, &creator);
    assert_eq!(app.dispute_opened_at, Some(BASE_TIME));

    let tc = f.token_client();
    let creator_before = tc.balance(&creator);
    let business_before = tc.balance(&f.business);
    let escrow_before = tc.balance(&f.escrow_id);

    assert_eq!(
        f.escrow().try_resolve_dispute(
            &f.admin,
            &campaign_id,
            &creator,
            &DisputeResolution::PayCreator,
        ),
        Err(EscrowError::EvidenceWindowOpen)
    );

    // Nothing moved, and the payout is still frozen and contested.
    assert_eq!(tc.balance(&creator), creator_before);
    assert_eq!(tc.balance(&f.business), business_before);
    assert_eq!(tc.balance(&f.escrow_id), escrow_before);
    let app = f.escrow().get_application(&campaign_id, &creator);
    assert!(app.frozen);
    assert_eq!(app.status, ApplicationStatus::ProofSubmitted);

    // Once the window closes the same call goes through — this is a delay,
    // not a permanent block on the admin path.
    f.wait_out_evidence_window();
    f.escrow().resolve_dispute(
        &f.admin,
        &campaign_id,
        &creator,
        &DisputeResolution::PayCreator,
    );
    assert_eq!(
        f.escrow().get_application(&campaign_id, &creator).status,
        ApplicationStatus::Paid
    );
}

// Settlement ends the dispute

#[test]
fn settlement_closes_the_open_dispute_with_its_outcome() {
    let f = Fixture::setup();
    let campaign_id = f.create_funded_campaign();
    let creator = f.add_creator_with_proof(campaign_id);
    let dispute_id =
        f.disputes().raise_dispute(&creator, &campaign_id, &creator, "ipfs://evidence");
    f.wait_out_evidence_window();

    f.escrow().resolve_dispute(
        &f.admin,
        &campaign_id,
        &creator,
        &DisputeResolution::Split(2_500),
    );

    let d = f.disputes().get_dispute(&dispute_id);
    assert_eq!(d.status, DisputeStatus::Resolved);
    assert_eq!(d.outcome, DisputeOutcome::Split(2_500));
    assert_eq!(d.resolved_at, Some(BASE_TIME + MIN_EVIDENCE_WINDOW));
    // The mark is gone; what stops another dispute now is that the payout is
    // settled.
    assert_eq!(
        f.disputes().try_raise_dispute(&creator, &campaign_id, &creator, "ipfs://again"),
        Err(Failure::Trap)
    );
}

#[test]
fn settling_an_admin_freeze_leaves_disputes_alone() {
    let f = Fixture::setup();
    let campaign_id = f.create_funded_campaign();
    let creator = f.add_creator_with_proof(campaign_id);
    let other = f.add_creator_with_proof(campaign_id);
    let other_dispute =
        f.disputes().raise_dispute(&other, &campaign_id, &other, "ipfs://evidence");
    f.escrow().freeze_for_dispute(&f.admin, &campaign_id, &creator);
    f.wait_out_evidence_window();

    f.escrow().resolve_dispute(
        &f.admin,
        &campaign_id,
        &creator,
        &DisputeResolution::RefundBusiness,
    );

    assert_eq!(f.disputes().get_dispute(&other_dispute).status, DisputeStatus::Raised);
    assert!(f.escrow().get_application(&campaign_id, &other).frozen);
}

#[test]
fn stranger_cannot_raise_a_dispute() {
    let f = Fixture::setup();
    let campaign_id = f.create_funded_campaign();
    let creator = f.add_creator_with_proof(campaign_id);
    let stranger = f.generate();

    assert_eq!(
        f.disputes().try_raise_dispute(&stranger, &campaign_id, &creator, "ipfs://spite"),
        Err(Failure::Contract(DisputeError::Unauthorized))
    );
    // Nor by claiming to be a creator on the campaign.
    assert_eq!(
        f.disputes().try_raise_dispute(&stranger, &campaign_id, &stranger, "ipfs://spite"),
        Err(Failure::Trap)
    );
    assert!(f.disputes().try_get_dispute(&0).is_err());
    assert!(!f.escrow().get_application(&campaign_id, &creator).frozen);
}

#[test]
fn business_dispute_over_unknown_campaign_comes_to_nothing() {
    let f = Fixture::setup();
    let creator = f.generate();
    assert_eq!(
        f.disputes().try_raise_dispute(&f.business, &7, &creator, "ipfs://evidence"),
        Err(Failure::Trap)
    );
}
