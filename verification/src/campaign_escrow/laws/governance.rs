//! Laws on who may change the contract's settings, and on the pause.
use vstd::prelude::*;

use crate::campaign_escrow::calls::Call;
use crate::campaign_escrow::contract::MAX_UPDATED_FEE_BPS;
use crate::campaign_escrow::env::EscrowState;
use crate::campaign_escrow::error::Error;
use crate::campaign_escrow::laws::books::lemma_own_key;
use crate::campaign_escrow::laws::frame::law_settings_and_records_are_apart;
use crate::shared::{Address, BASIS_POINTS_DENOMINATOR};

verus! {

/// While the contract is paused, every call but the administrative ones is
/// refused for that reason, whatever else might stand against it, and changes
/// nothing at all.
pub proof fn law_pause_refuses(s: EscrowState, call: Call)
    requires
        s.is_paused(),
        !call.administrative(),
    ensures
        s.refusal(call) == Some(Error::ContractPaused),
        s.after(call) == s,
{
}

/// The pause is switched by the admin alone, and nothing but the pause is
/// switched.
pub proof fn law_only_admin_pauses(s: EscrowState, call: Call)
    requires
        s.after(call).is_paused() != s.is_paused(),
    ensures
        s.admin == Some(call.actor()),
        s.is_paused() ==> call is Unpause,
        !s.is_paused() ==> call is Pause,
        s.after(call) == (EscrowState {
            paused: s.after(call).paused,
            log: s.after(call).log,
            ..s
        }),
{
    reveal(EscrowState::administered);
    law_settings_and_records_are_apart(s, call);
}

/// Resuming after a pause leaves everything as it was before the pause.
pub proof fn law_unpause_undoes_pause(s: EscrowState, admin: Address)
    requires
        s.admin == Some(admin),
    ensures
        ({
            let paused = s.after(Call::Pause { admin });
            let resumed = paused.after(Call::Unpause { admin });
            &&& paused.is_paused()
            &&& !resumed.is_paused()
            &&& resumed == (EscrowState { paused: resumed.paused, log: resumed.log, ..s })
        }),
{
    reveal(EscrowState::administered);
}

/// Until the contract is set up, every other call is refused.
pub proof fn law_nothing_before_setup(s: EscrowState, call: Call)
    requires
        s.sound(),
        !s.initialized(),
        !(call is Initialize),
    ensures
        s.refusal(call) is Some,
{
    lemma_own_key(s, call);
}

/// The contract is set up once.
pub proof fn law_initialized_once(s: EscrowState, call: Call)
    requires
        s.initialized(),
    ensures
        call is Initialize ==> s.refusal(call) == Some(Error::AlreadyInitialized) && s.after(call)
            == s,
        s.after(call).initialized(),
{
    reveal(EscrowState::administered);
    law_settings_and_records_are_apart(s, call);
}

/// The admin changes hands only to an address that the admin proposed and
/// that accepts, by its own authorisation.
pub proof fn law_admin_changes_by_consent(s: EscrowState, call: Call)
    requires
        s.after(call).admin != s.admin,
    ensures
        s.initialized() ==> {
            &&& call is AcceptAdmin
            &&& s.pending_admin == Some(call.actor())
            &&& s.after(call).pending_admin is None
        },
        !s.initialized() ==> call is Initialize,
        s.after(call).admin == Some(call.actor()),
{
    reveal(EscrowState::administered);
    law_settings_and_records_are_apart(s, call);
}

/// A successor is proposed only by the admin.
pub proof fn law_only_admin_proposes(s: EscrowState, call: Call)
    requires
        s.after(call).pending_admin != s.pending_admin,
        s.after(call).pending_admin is Some,
    ensures
        call is ProposeAdmin,
        s.admin == Some(call.actor()),
{
    reveal(EscrowState::administered);
    law_settings_and_records_are_apart(s, call);
}

/// After a handover the successor is the admin, and the former admin is not.
pub proof fn law_handover(s: EscrowState, admin: Address, successor: Address)
    requires
        s.admin == Some(admin),
        admin != successor,
    ensures
        ({
            let t = s.after(
                Call::ProposeAdmin { current_admin: admin, new_admin: successor },
            );
            let u = t.after(Call::AcceptAdmin { new_admin: successor });
            &&& t.admin == Some(admin)
            &&& t.admin_refusal(admin) is None
            &&& u.admin == Some(successor)
            &&& u.admin_refusal(successor) is None
            &&& u.admin_refusal(admin) == Some(Error::Unauthorized)
        }),
{
    reveal(EscrowState::administered);
}

/// Once set up, treasury and fee change only by the admin's call, and the fee
/// only to at most ten percent; the dispute contract and the version never
/// change.
pub proof fn law_settings_change_by_admin(s: EscrowState, call: Call)
    requires
        s.sound(),
        s.initialized(),
    ensures
        s.after(call).treasury != s.treasury ==> call is UpdateTreasury && s.admin == Some(
            call.actor(),
        ),
        s.after(call).fee_bps != s.fee_bps ==> {
            &&& call is UpdateFeeBps
            &&& s.admin == Some(call.actor())
            &&& 0 <= s.after(call).fee_bps->0 <= MAX_UPDATED_FEE_BPS
        },
        s.after(call).dispute_contract == s.dispute_contract,
        s.after(call).version == s.version,
{
    reveal(EscrowState::administered);
    law_settings_and_records_are_apart(s, call);
}

/// Whoever sets the contract up becomes its admin and its treasury, with a
/// fee of at most the whole.
pub proof fn law_initialize_names_the_admin(s: EscrowState, call: Call)
    requires
        call is Initialize,
        s.refusal(call) is None,
    ensures
        s.after(call).admin == Some(call.actor()),
        s.after(call).treasury == Some(call.actor()),
        0 <= s.after(call).fee_bps->0 <= BASIS_POINTS_DENOMINATOR,
{
    reveal(EscrowState::administered);
}

} // verus!
