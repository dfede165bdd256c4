//! Laws on setting the contract up and changing its settings: when each call
//! is accepted, for what else it is refused, and what it does.
use vstd::prelude::*;

use crate::campaign_escrow::calls::Call;
use crate::campaign_escrow::contract::INITIAL_VERSION;
use crate::campaign_escrow::env::{Effect, EscrowState};
use crate::campaign_escrow::error::Error;
use crate::campaign_escrow::events::{
    AdminProposed, AdminTransferred, ContractPaused, ContractUnpaused, ContractUpgraded, Event,
    FeeUpdated, TreasuryUpdated,
};
use crate::campaign_escrow::storage::DataKey;
use crate::shared::Address;

verus! {

/// A contract starts out running, with no setting, no campaign and no
/// application.
pub proof fn law_deployed_is_empty(contract: Address, now: u64)
    ensures
        ({
            let s = EscrowState::deployed(contract, now);
            &&& s.contract == contract
            &&& s.now == now
            &&& s.tokens.len() == 0
            &&& s.admin is None
            &&& s.pending_admin is None
            &&& s.treasury is None
            &&& s.fee_bps is None
            &&& s.dispute_contract is None
            &&& s.version is None
            &&& s.next_campaign_id is None
            &&& s.paused is None
            &&& s.campaigns.dom().is_empty()
            &&& s.applications.dom().is_empty()
            &&& s.applicants.dom().is_empty()
            &&& s.applicant_counts.dom().is_empty()
            &&& s.log.len() == 0
        }),
{
}

/// The contract is set up exactly when it is not yet and the fee lies between
/// nothing and the whole; the pause does not matter.
pub proof fn law_setup_is_decided(
    s: EscrowState,
    admin: Address,
    dispute_contract: Address,
    fee_bps: i128,
)
    ensures
        ({
            let r = s.refusal(Call::Initialize { admin, dispute_contract, fee_bps });
            &&& r is None <==> s.admin is None && 0 <= fee_bps <= 10_000
            &&& r == Some(Error::AlreadyInitialized) <==> s.admin is Some
            &&& r == Some(Error::FeeTooHigh) <==> s.admin is None && !(0 <= fee_bps <= 10_000)
        }),
{
}

/// Setting the contract up records what was given: the admin, who is the
/// treasury too at first, the dispute contract, the fee, and the version.
pub proof fn law_setup_records_the_settings(
    s: EscrowState,
    admin: Address,
    dispute_contract: Address,
    fee_bps: i128,
)
    requires
        s.refusal(Call::Initialize { admin, dispute_contract, fee_bps }) is None,
    ensures
        ({
            let t = s.after(Call::Initialize { admin, dispute_contract, fee_bps });
            &&& t.admin == Some(admin)
            &&& t.treasury == Some(admin)
            &&& t.dispute_contract == Some(dispute_contract)
            &&& t.fee_bps == Some(fee_bps)
            &&& t.version == Some(seq!['0', '.', '1', '.', '0'])
            &&& t.log == s.log + seq![
                Effect::RequireAuth(admin),
                Effect::Write(DataKey::Admin),
                Effect::Write(DataKey::Treasury),
                Effect::Write(DataKey::DisputeContract),
                Effect::Write(DataKey::FeeBps),
                Effect::Write(DataKey::Version),
            ]
            &&& t == (EscrowState {
                admin: t.admin,
                treasury: t.treasury,
                dispute_contract: t.dispute_contract,
                fee_bps: t.fee_bps,
                version: t.version,
                log: t.log,
                ..s
            })
        }),
{
    reveal(EscrowState::administered);
    reveal_strlit("0.1.0");
    assert(INITIAL_VERSION@ =~= seq!['0', '.', '1', '.', '0']);
    let t = s.set_up(admin, dispute_contract, fee_bps, INITIAL_VERSION@);
    assert(t.log =~= s.log + seq![
        Effect::RequireAuth(admin),
        Effect::Write(DataKey::Admin),
        Effect::Write(DataKey::Treasury),
        Effect::Write(DataKey::DisputeContract),
        Effect::Write(DataKey::FeeBps),
        Effect::Write(DataKey::Version),
    ]);
}

/// The admin, and nobody else, pauses the contract, whether it runs or not.
pub proof fn law_pausing_is_decided(s: EscrowState, admin: Address)
    ensures
        ({
            let r = s.refusal(Call::Pause { admin });
            let entitled = s.admin == Some(admin);
            &&& r is None <==> entitled
            &&& r == Some(Error::NotInitialized) <==> s.admin is None
            &&& r == Some(Error::Unauthorized) <==> s.admin is Some && !entitled
        }),
{
}

/// Pausing pauses, and changes nothing else.
pub proof fn law_pausing_pauses(s: EscrowState, admin: Address)
    requires
        s.refusal(Call::Pause { admin }) is None,
    ensures
        ({
            let t = s.after(Call::Pause { admin });
            &&& t.paused == Some(true)
            &&& t.log == s.log + seq![
                Effect::RequireAuth(admin),
                Effect::Write(DataKey::Paused),
                Effect::Publish(Event::ContractPaused(ContractPaused { admin })),
            ]
            &&& t == (EscrowState {
                paused: t.paused,
                log: t.log,
                ..s
            })
        }),
{
    reveal(EscrowState::administered);
    let t = s.suspended(admin);
    assert(t.log =~= s.log + seq![
        Effect::RequireAuth(admin),
        Effect::Write(DataKey::Paused),
        Effect::Publish(Event::ContractPaused(ContractPaused { admin })),
    ]);
}

/// The admin, and nobody else, resumes the contract, whether it runs or not.
pub proof fn law_resuming_is_decided(s: EscrowState, admin: Address)
    ensures
        ({
            let r = s.refusal(Call::Unpause { admin });
            let entitled = s.admin == Some(admin);
            &&& r is None <==> entitled
            &&& r == Some(Error::NotInitialized) <==> s.admin is None
            &&& r == Some(Error::Unauthorized) <==> s.admin is Some && !entitled
        }),
{
}

/// Resuming resumes, and changes nothing else.
pub proof fn law_resuming_resumes(s: EscrowState, admin: Address)
    requires
        s.refusal(Call::Unpause { admin }) is None,
    ensures
        ({
            let t = s.after(Call::Unpause { admin });
            &&& t.paused == Some(false)
            &&& t.log == s.log + seq![
                Effect::RequireAuth(admin),
                Effect::Write(DataKey::Paused),
                Effect::Publish(Event::ContractUnpaused(ContractUnpaused { admin })),
            ]
            &&& t == (EscrowState {
                paused: t.paused,
                log: t.log,
                ..s
            })
        }),
{
    reveal(EscrowState::administered);
    let t = s.resumed(admin);
    assert(t.log =~= s.log + seq![
        Effect::RequireAuth(admin),
        Effect::Write(DataKey::Paused),
        Effect::Publish(Event::ContractUnpaused(ContractUnpaused { admin })),
    ]);
}

/// The admin, and nobody else, proposes a successor: anyone, at any time.
pub proof fn law_proposing_is_decided(s: EscrowState, current_admin: Address, new_admin: Address)
    ensures
        ({
            let r = s.refusal(Call::ProposeAdmin { current_admin, new_admin });
            let entitled = s.admin == Some(current_admin);
            &&& r is None <==> entitled
            &&& r == Some(Error::NotInitialized) <==> s.admin is None
            &&& r == Some(Error::Unauthorized) <==> s.admin is Some && !entitled
        }),
{
}

/// Proposing a successor records them as proposed, in place of any earlier one,
/// and hands nothing over.
pub proof fn law_proposing_records_the_successor(
    s: EscrowState,
    current_admin: Address,
    new_admin: Address,
)
    requires
        s.refusal(Call::ProposeAdmin { current_admin, new_admin }) is None,
    ensures
        ({
            let t = s.after(Call::ProposeAdmin { current_admin, new_admin });
            &&& t.pending_admin == Some(new_admin)
            &&& t.log == s.log + seq![
                Effect::RequireAuth(current_admin),
                Effect::Write(DataKey::PendingAdmin),
                Effect::ExtendInstanceTtl { threshold: 500_000, extend_to: 518_400 },
                Effect::Publish(Event::AdminProposed(AdminProposed { current_admin, new_admin })),
            ]
            &&& t == (EscrowState {
                pending_admin: t.pending_admin,
                log: t.log,
                ..s
            })
        }),
{
    reveal(EscrowState::administered);
    let t = s.proposed(current_admin, new_admin);
    assert(t.log =~= s.log + seq![
        Effect::RequireAuth(current_admin),
        Effect::Write(DataKey::PendingAdmin),
        Effect::ExtendInstanceTtl { threshold: 500_000, extend_to: 518_400 },
        Effect::Publish(Event::AdminProposed(AdminProposed { current_admin, new_admin })),
    ]);
}

/// The proposed successor, and nobody else, takes over.
pub proof fn law_accepting_office_is_decided(s: EscrowState, new_admin: Address)
    ensures
        ({
            let r = s.refusal(Call::AcceptAdmin { new_admin });
            let proposed = s.pending_admin == Some(new_admin);
            &&& r is None <==> proposed && s.admin is Some
            &&& r == Some(Error::Unauthorized) <==> !proposed
            &&& r == Some(Error::NotInitialized) <==> proposed && s.admin is None
        }),
{
}

/// Taking over makes the successor the admin and ends the proposal. The
/// treasury and every other setting stays.
pub proof fn law_accepting_office_hands_over(s: EscrowState, new_admin: Address)
    requires
        s.refusal(Call::AcceptAdmin { new_admin }) is None,
    ensures
        ({
            let t = s.after(Call::AcceptAdmin { new_admin });
            &&& t.admin == Some(new_admin)
            &&& t.pending_admin is None
            &&& t.log == s.log + seq![
                Effect::RequireAuth(new_admin),
                Effect::Write(DataKey::Admin),
                Effect::Delete(DataKey::PendingAdmin),
                Effect::ExtendInstanceTtl { threshold: 500_000, extend_to: 518_400 },
                Effect::Publish(
                    Event::AdminTransferred(
                        AdminTransferred { previous_admin: s.admin->0, new_admin },
                    ),
                ),
            ]
            &&& t == (EscrowState {
                admin: t.admin,
                pending_admin: t.pending_admin,
                log: t.log,
                ..s
            })
        }),
{
    reveal(EscrowState::administered);
    let t = s.handed_over(new_admin);
    assert(t.log =~= s.log + seq![
        Effect::RequireAuth(new_admin),
        Effect::Write(DataKey::Admin),
        Effect::Delete(DataKey::PendingAdmin),
        Effect::ExtendInstanceTtl { threshold: 500_000, extend_to: 518_400 },
        Effect::Publish(
            Event::AdminTransferred(
                AdminTransferred { previous_admin: s.admin->0, new_admin },
            ),
        ),
    ]);
}

/// The admin, and nobody else, changes the fee, to between nothing and ten
/// percent.
pub proof fn law_pricing_is_decided(s: EscrowState, admin: Address, new_fee_bps: i128)
    ensures
        ({
            let r = s.refusal(Call::UpdateFeeBps { admin, new_fee_bps });
            let entitled = s.admin == Some(admin);
            let accepted = entitled && 0 <= new_fee_bps <= 1_000;
            &&& r is None <==> accepted
            &&& r == Some(Error::NotInitialized) <==> s.admin is None
            &&& r == Some(Error::Unauthorized) <==> s.admin is Some && !entitled
            &&& r == Some(Error::FeeTooHigh) <==> entitled && !accepted
        }),
{
}

/// Changing the fee changes it to what was given, for campaigns to come: those
/// that there are keep theirs.
pub proof fn law_pricing_sets_the_fee(s: EscrowState, admin: Address, new_fee_bps: i128)
    requires
        s.refusal(Call::UpdateFeeBps { admin, new_fee_bps }) is None,
    ensures
        ({
            let t = s.after(Call::UpdateFeeBps { admin, new_fee_bps });
            &&& t.fee_bps == Some(new_fee_bps)
            &&& t.log == s.log + seq![
                Effect::RequireAuth(admin),
                Effect::Write(DataKey::FeeBps),
                Effect::Publish(Event::FeeUpdated(FeeUpdated { admin, new_fee_bps })),
            ]
            &&& t == (EscrowState {
                fee_bps: t.fee_bps,
                log: t.log,
                ..s
            })
        }),
{
    reveal(EscrowState::administered);
    let t = s.fee_changed(admin, new_fee_bps);
    assert(t.log =~= s.log + seq![
        Effect::RequireAuth(admin),
        Effect::Write(DataKey::FeeBps),
        Effect::Publish(Event::FeeUpdated(FeeUpdated { admin, new_fee_bps })),
    ]);
}

/// The admin, and nobody else, names the treasury: anyone, at any time.
pub proof fn law_banking_is_decided(s: EscrowState, admin: Address, new_treasury: Address)
    ensures
        ({
            let r = s.refusal(Call::UpdateTreasury { admin, new_treasury });
            let entitled = s.admin == Some(admin);
            &&& r is None <==> entitled
            &&& r == Some(Error::NotInitialized) <==> s.admin is None
            &&& r == Some(Error::Unauthorized) <==> s.admin is Some && !entitled
        }),
{
}

/// Naming a treasury changes where fees go from now on, and nothing else.
pub proof fn law_banking_names_the_treasury(s: EscrowState, admin: Address, new_treasury: Address)
    requires
        s.refusal(Call::UpdateTreasury { admin, new_treasury }) is None,
    ensures
        ({
            let t = s.after(Call::UpdateTreasury { admin, new_treasury });
            &&& t.treasury == Some(new_treasury)
            &&& t.log == s.log + seq![
                Effect::RequireAuth(admin),
                Effect::Write(DataKey::Treasury),
                Effect::Publish(Event::TreasuryUpdated(TreasuryUpdated { admin, new_treasury })),
            ]
            &&& t == (EscrowState {
                treasury: t.treasury,
                log: t.log,
                ..s
            })
        }),
{
    reveal(EscrowState::administered);
    let t = s.treasury_changed(admin, new_treasury);
    assert(t.log =~= s.log + seq![
        Effect::RequireAuth(admin),
        Effect::Write(DataKey::Treasury),
        Effect::Publish(Event::TreasuryUpdated(TreasuryUpdated { admin, new_treasury })),
    ]);
}

/// The admin, and nobody else, replaces the code.
pub proof fn law_upgrading_is_decided(s: EscrowState, admin: Address, new_wasm_hash: [u8; 32])
    ensures
        ({
            let r = s.refusal(Call::Upgrade { admin, new_wasm_hash });
            let entitled = s.admin == Some(admin);
            &&& r is None <==> entitled
            &&& r == Some(Error::NotInitialized) <==> s.admin is None
            &&& r == Some(Error::Unauthorized) <==> s.admin is Some && !entitled
        }),
{
}

/// Replacing the code asks the host for just that. Every entry stays, the
/// recorded version among them.
pub proof fn law_upgrading_replaces_the_code(
    s: EscrowState,
    admin: Address,
    new_wasm_hash: [u8; 32],
)
    requires
        s.refusal(Call::Upgrade { admin, new_wasm_hash }) is None,
    ensures
        ({
            let t = s.after(Call::Upgrade { admin, new_wasm_hash });
            &&& t.log == s.log + seq![
                Effect::RequireAuth(admin),
                Effect::UpdateWasm(new_wasm_hash),
                Effect::Publish(Event::ContractUpgraded(ContractUpgraded { new_wasm_hash })),
            ]
            &&& t == (EscrowState { log: t.log, ..s })
        }),
{
    reveal(EscrowState::administered);
    let t = s.upgraded(admin, new_wasm_hash);
    assert(t.log =~= s.log + seq![
        Effect::RequireAuth(admin),
        Effect::UpdateWasm(new_wasm_hash),
        Effect::Publish(Event::ContractUpgraded(ContractUpgraded { new_wasm_hash })),
    ]);
}

/// A refused call leaves every entry as it was. It has asked for its actor's
/// authorisation, and for nothing else, unless it was refused before it came
/// to that: by the pause, as a second setup or one with a fee out of range, or
/// for the terms of a new campaign.
pub proof fn law_refusal_has_asked_at_most(s: EscrowState, call: Call)
    requires
        s.refusal(call) is Some,
    ensures
        ({
            let t = s.after(call);
            let paused = s.paused == Some(true) && !call.administrative();
            let terms = call is CreateCampaign && s.refusal(call) != Some(Error::InvalidAsset)
                && !(s.refusal(call) == Some(Error::NotInitialized) && s.admin is Some);
            &&& t.log == (if call is Initialize || paused || terms {
                s.log
            } else {
                s.log + seq![Effect::RequireAuth(call.actor())]
            })
            &&& t == (EscrowState { log: t.log, ..s })
        }),
{
    assert(s.log.push(Effect::RequireAuth(call.actor())) =~= s.log + seq![
        Effect::RequireAuth(call.actor()),
    ]);
}

} // verus!
