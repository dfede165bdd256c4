//! Laws on opening a campaign, funding it and filling it with creators: when
//! each call is accepted, for what else it is refused, and what it does.
use vstd::prelude::*;

use crate::campaign_escrow::calls::Call;
use crate::campaign_escrow::env::{Effect, EscrowState};
use crate::campaign_escrow::error::Error;
use crate::campaign_escrow::events::{
    CampaignCreated, CampaignFunded, CampaignMetadataUpdated, CreatorApplied, CreatorApproved,
    Event,
};
use crate::campaign_escrow::laws::books::lemma_own_key;
use crate::campaign_escrow::laws::log::saving;
use crate::campaign_escrow::storage::DataKey;
use crate::campaign_escrow::types::{Application, Campaign};
use crate::shared::{Address, ApplicationStatus, CampaignId, CampaignStatus, PayoutAsset};

verus! {

/// A campaign is opened exactly when the contract runs and is set up, there is
/// a budget and room for a creator, both deadlines lie ahead in their order,
/// and the asset answers as a token. Each refusal names the first of these
/// that fails.
pub proof fn law_opening_is_decided(
    s: EscrowState,
    business: Address,
    asset: PayoutAsset,
    total_budget: i128,
    max_creators: u32,
    application_deadline: u64,
    completion_deadline: u64,
    metadata_uri: String,
)
    ensures
        ({
            let r = s.refusal(
                Call::CreateCampaign {
                    business,
                    asset,
                    total_budget,
                    max_creators,
                    application_deadline,
                    completion_deadline,
                    metadata_uri,
                },
            );
            let running = s.paused != Some(true);
            let set_up = running && s.admin is Some;
            let budgeted = set_up && total_budget > 0;
            let roomy = budgeted && max_creators > 0;
            let ahead = roomy && s.now < application_deadline && s.now < completion_deadline;
            let ordered = ahead && application_deadline < completion_deadline;
            let priced = ordered && s.fee_bps is Some;
            let accepted = priced && s.tokens.contains(asset.token);
            &&& r is None <==> accepted
            &&& r == Some(Error::ContractPaused) <==> !running
            &&& r == Some(Error::NotInitialized) <==> running && !set_up || ordered && !priced
            &&& r == Some(Error::InvalidAmount) <==> set_up && !budgeted
            &&& r == Some(Error::InvalidCreatorCount) <==> budgeted && !roomy
            &&& r == Some(Error::DeadlineInPast) <==> roomy && !ahead
            &&& r == Some(Error::InvalidDeadlineOrder) <==> ahead && !ordered
            &&& r == Some(Error::InvalidAsset) <==> priced && !accepted
        }),
{
}

/// Opening a campaign adds one entry, under the next number: a draft on the
/// terms asked for and at the fee of the moment, with nothing in escrow and
/// nobody selected. No funds move.
pub proof fn law_opening_adds_a_draft(
    s: EscrowState,
    business: Address,
    asset: PayoutAsset,
    total_budget: i128,
    max_creators: u32,
    application_deadline: u64,
    completion_deadline: u64,
    metadata_uri: String,
)
    requires
        ({
            let call = Call::CreateCampaign {
                business,
                asset,
                total_budget,
                max_creators,
                application_deadline,
                completion_deadline,
                metadata_uri,
            };
            s.sound() && s.refusal(call) is None
        }),
        s.next_campaign_id != Some(u64::MAX),
    ensures
        ({
            let t = s.after(
                Call::CreateCampaign {
                    business,
                    asset,
                    total_budget,
                    max_creators,
                    application_deadline,
                    completion_deadline,
                    metadata_uri,
                },
            );
            let id: CampaignId = match s.next_campaign_id {
                Some(next) => next,
                None => 0,
            };
            let c = t.campaigns[id];
            &&& !s.campaigns.contains_key(id)
            &&& t.campaigns == s.campaigns.insert(id, c)
            &&& c.id == id
            &&& c.business == business
            &&& c.asset == asset
            &&& c.total_budget == total_budget
            &&& c.max_creators == max_creators
            &&& c.application_deadline == application_deadline
            &&& c.completion_deadline == completion_deadline
            &&& c.metadata_uri == metadata_uri
            &&& Some(c.fee_bps) == s.fee_bps
            &&& c.escrow_balance == 0
            &&& c.committed_payouts == 0
            &&& c.approved_count == 0
            &&& c.status == CampaignStatus::Draft
            &&& t.next_campaign_id is Some
            &&& t.next_campaign_id->0 == id + 1
            &&& t.log == s.log + seq![
                Effect::RequireAuth(business),
                Effect::Write(DataKey::NextCampaignId),
            ] + saving(DataKey::Campaign(id)) + seq![
                Effect::Publish(
                    Event::CampaignCreated(CampaignCreated { business, campaign_id: id }),
                ),
            ]
            &&& t == (EscrowState {
                campaigns: t.campaigns,
                next_campaign_id: t.next_campaign_id,
                log: t.log,
                ..s
            })
        }),
{
    reveal(EscrowState::recruited);
    let id = s.next_id();
    if s.campaigns.contains_key(id) {
        assert(s.campaign_sound(id));
    }
    let t = s.created(
        business,
        asset,
        total_budget,
        max_creators,
        application_deadline,
        completion_deadline,
        metadata_uri,
    );
    assert(t.log =~= s.log + seq![
        Effect::RequireAuth(business),
        Effect::Write(DataKey::NextCampaignId),
    ] + saving(DataKey::Campaign(id)) + seq![
        Effect::Publish(Event::CampaignCreated(CampaignCreated { business, campaign_id: id })),
    ]);
}

/// A campaign is funded exactly when the contract runs, and it is a draft of
/// the business that funds it.
pub proof fn law_funding_is_decided(s: EscrowState, business: Address, id: CampaignId)
    ensures
        ({
            let r = s.refusal(Call::FundCampaign { business, campaign_id: id });
            let c = s.campaigns[id];
            let running = s.paused != Some(true);
            let known = running && s.campaigns.contains_key(id);
            let draft = known && c.status == CampaignStatus::Draft;
            let accepted = draft && c.business == business;
            &&& r is None <==> accepted
            &&& r == Some(Error::ContractPaused) <==> !running
            &&& r == Some(Error::CampaignNotFound) <==> running && !known
            &&& r == Some(Error::InvalidStatus) <==> known && !draft
            &&& r == Some(Error::NotCampaignOwner) <==> draft && !accepted
        }),
{
}

/// Funding moves the whole budget from the business into the contract, at
/// once, and records it as escrowed: with nothing committed, all of it is
/// there to be promised.
pub proof fn law_funding_escrows_the_budget(s: EscrowState, business: Address, id: CampaignId)
    requires
        s.sound(),
        s.refusal(Call::FundCampaign { business, campaign_id: id }) is None,
    ensures
        ({
            let t = s.after(Call::FundCampaign { business, campaign_id: id });
            let c = s.campaigns[id];
            let d = t.campaigns[id];
            &&& d.escrow_balance == c.total_budget
            &&& d.committed_payouts == 0
            &&& d.status == CampaignStatus::Funded
            &&& d == (Campaign { escrow_balance: d.escrow_balance, status: d.status, ..c })
            &&& t.campaigns == s.campaigns.insert(id, d)
            &&& t.log == s.log + seq![
                Effect::RequireAuth(business),
                Effect::Transfer {
                    token: c.asset.token,
                    from: business,
                    to: s.contract,
                    amount: c.total_budget,
                },
            ] + saving(DataKey::Campaign(id)) + seq![
                Effect::Publish(
                    Event::CampaignFunded(
                        CampaignFunded { campaign_id: id, amount: c.total_budget },
                    ),
                ),
            ]
            &&& t == (EscrowState { campaigns: t.campaigns, log: t.log, ..s })
        }),
{
    reveal(EscrowState::recruited);
    lemma_own_key(s, Call::FundCampaign { business, campaign_id: id });
    let c = s.campaigns[id];
    let t = s.funded(business, id);
    assert(t.log =~= s.log + seq![
        Effect::RequireAuth(business),
        Effect::Transfer {
            token: c.asset.token,
            from: business,
            to: s.contract,
            amount: c.total_budget,
        },
    ] + saving(DataKey::Campaign(id)) + seq![
        Effect::Publish(
            Event::CampaignFunded(CampaignFunded { campaign_id: id, amount: c.total_budget }),
        ),
    ]);
}

/// A creator may apply exactly when the contract runs, the campaign is funded
/// and not wound up, the application deadline has not passed, and they have
/// not applied before. How many have, or who else was selected, does not
/// matter.
pub proof fn law_applying_is_decided(
    s: EscrowState,
    creator: Address,
    id: CampaignId,
    pitch_uri: String,
)
    ensures
        ({
            let r = s.refusal(Call::ApplyToCampaign { creator, campaign_id: id, pitch_uri });
            let c = s.campaigns[id];
            let running = s.paused != Some(true);
            let known = running && s.campaigns.contains_key(id);
            let open = known && (c.status == CampaignStatus::Funded || c.status
                == CampaignStatus::Active);
            let in_time = open && s.now <= c.application_deadline;
            let accepted = in_time && !s.applications.contains_key((id, creator));
            &&& r is None <==> accepted
            &&& r == Some(Error::ContractPaused) <==> !running
            &&& r == Some(Error::CampaignNotFound) <==> running && !known
            &&& r == Some(Error::InvalidStatus) <==> known && !open
            &&& r == Some(Error::ApplicationDeadlinePassed) <==> open && !in_time
            &&& r == Some(Error::AlreadyApplied) <==> in_time && !accepted
        }),
{
}

/// An application is recorded as pending, with the pitch that was made,
/// nothing promised, nothing submitted and nothing contested, and the creator
/// takes the next place among the campaign's applicants. The campaign itself
/// is as before.
pub proof fn law_applying_adds_an_application(
    s: EscrowState,
    creator: Address,
    id: CampaignId,
    pitch_uri: String,
)
    requires
        s.applicant_counts.contains_key(id) ==> s.applicant_counts[id] < u32::MAX,
        s.refusal(Call::ApplyToCampaign { creator, campaign_id: id, pitch_uri }) is None,
    ensures
        ({
            let t = s.after(Call::ApplyToCampaign { creator, campaign_id: id, pitch_uri });
            let a = t.applications[(id, creator)];
            let place: u32 = if s.applicant_counts.contains_key(id) {
                s.applicant_counts[id]
            } else {
                0
            };
            &&& !s.applications.contains_key((id, creator))
            &&& t.applications == s.applications.insert((id, creator), a)
            &&& a.campaign_id == id
            &&& a.creator == creator
            &&& a.pitch_uri == pitch_uri
            &&& a.proof_uri is None
            &&& a.payout_amount == 0
            &&& !a.proof_approved
            &&& !a.frozen
            &&& a.dispute_opened_at is None
            &&& a.status == ApplicationStatus::Pending
            &&& t.applicants == s.applicants.insert((id, place), creator)
            &&& t.applicant_counts == s.applicant_counts.insert(id, (place + 1) as u32)
            &&& t.log == s.log + seq![Effect::RequireAuth(creator)] + saving(
                DataKey::Application(id, creator),
            ) + saving(DataKey::CampaignApplicant(id, place)) + saving(
                DataKey::ApplicantCount(id),
            ) + seq![
                Effect::Publish(
                    Event::CreatorApplied(CreatorApplied { campaign_id: id, creator }),
                ),
            ]
            &&& t == (EscrowState {
                applications: t.applications,
                applicants: t.applicants,
                applicant_counts: t.applicant_counts,
                log: t.log,
                ..s
            })
        }),
{
    reveal(EscrowState::recruited);
    let t = s.applied(creator, id, pitch_uri);
    let place = s.applicant_count(id);
    assert(t.log =~= s.log + seq![Effect::RequireAuth(creator)] + saving(
        DataKey::Application(id, creator),
    ) + saving(DataKey::CampaignApplicant(id, place)) + saving(DataKey::ApplicantCount(id))
        + seq![
        Effect::Publish(Event::CreatorApplied(CreatorApplied { campaign_id: id, creator })),
    ]);
}

/// A creator is selected exactly when the contract runs, the business that
/// asks owns the campaign, the campaign is funded and not wound up, the payout
/// is positive, the application is pending, a place is free, and the escrow
/// covers this promise on top of all earlier ones. No deadline is looked at.
pub proof fn law_selection_is_decided(
    s: EscrowState,
    business: Address,
    id: CampaignId,
    creator: Address,
    payout: i128,
)
    ensures
        ({
            let r = s.refusal(
                Call::ApproveCreator { business, campaign_id: id, creator, payout_amount: payout },
            );
            let c = s.campaigns[id];
            let a = s.applications[(id, creator)];
            let running = s.paused != Some(true);
            let known = running && s.campaigns.contains_key(id);
            let owned = known && c.business == business;
            let open = owned && (c.status == CampaignStatus::Funded || c.status
                == CampaignStatus::Active);
            let positive = open && payout > 0;
            let applied = positive && s.applications.contains_key((id, creator));
            let pending = applied && a.status == ApplicationStatus::Pending;
            let roomy = pending && c.approved_count < c.max_creators;
            let accepted = roomy && c.committed_payouts + payout <= c.escrow_balance;
            let countable = c.committed_payouts + payout <= i128::MAX;
            &&& r is None <==> accepted
            &&& r == Some(Error::ContractPaused) <==> !running
            &&& r == Some(Error::CampaignNotFound) <==> running && !known
            &&& r == Some(Error::NotCampaignOwner) <==> known && !owned
            &&& r == Some(Error::InvalidStatus) <==> owned && !open
            &&& r == Some(Error::InvalidAmount) <==> open && !positive || roomy && !countable
            &&& r == Some(Error::ApplicationNotFound) <==> positive && !applied
            &&& r == Some(Error::AlreadySelected) <==> applied && !pending
            &&& r == Some(Error::MaxCreatorsReached) <==> pending && !roomy
            &&& r == Some(Error::InsufficientEscrowBalance) <==> roomy && countable && !accepted
        }),
{
}

/// Selecting a creator promises them exactly the payout that was named: it is
/// what their application records, and what the commitment of the campaign
/// rises by. One more place is taken, the campaign is active, and the money
/// stays in escrow.
pub proof fn law_selection_promises_the_payout(
    s: EscrowState,
    business: Address,
    id: CampaignId,
    creator: Address,
    payout: i128,
)
    requires
        s.sound(),
        s.refusal(
            Call::ApproveCreator { business, campaign_id: id, creator, payout_amount: payout },
        ) is None,
    ensures
        ({
            let t = s.after(
                Call::ApproveCreator { business, campaign_id: id, creator, payout_amount: payout },
            );
            let c = s.campaigns[id];
            let d = t.campaigns[id];
            let a = s.applications[(id, creator)];
            let b = t.applications[(id, creator)];
            &&& b.payout_amount == payout
            &&& b.status == ApplicationStatus::Approved
            &&& b == (Application { payout_amount: b.payout_amount, status: b.status, ..a })
            &&& t.applications == s.applications.insert((id, creator), b)
            &&& d.committed_payouts == c.committed_payouts + payout
            &&& d.approved_count == c.approved_count + 1
            &&& d.status == CampaignStatus::Active
            &&& d == (Campaign {
                committed_payouts: d.committed_payouts,
                approved_count: d.approved_count,
                status: d.status,
                ..c
            })
            &&& t.campaigns == s.campaigns.insert(id, d)
            &&& t.log == s.log + seq![Effect::RequireAuth(business)] + saving(
                DataKey::Application(id, creator),
            ) + saving(DataKey::Campaign(id)) + seq![
                Effect::Publish(
                    Event::CreatorApproved(
                        CreatorApproved { campaign_id: id, creator, payout_amount: payout },
                    ),
                ),
            ]
            &&& t == (EscrowState {
                campaigns: t.campaigns,
                applications: t.applications,
                log: t.log,
                ..s
            })
        }),
{
    reveal(EscrowState::recruited);
    lemma_own_key(
        s,
        Call::ApproveCreator { business, campaign_id: id, creator, payout_amount: payout },
    );
    let t = s.selected(business, id, creator, payout);
    assert(t.log =~= s.log + seq![Effect::RequireAuth(business)] + saving(
        DataKey::Application(id, creator),
    ) + saving(DataKey::Campaign(id)) + seq![
        Effect::Publish(
            Event::CreatorApproved(
                CreatorApproved { campaign_id: id, creator, payout_amount: payout },
            ),
        ),
    ]);
}

/// The brief is changed exactly when the contract runs, the business that asks
/// owns the campaign, the campaign is not wound up, nobody has applied, and
/// the new brief is not empty.
pub proof fn law_rewriting_is_decided(
    s: EscrowState,
    id: CampaignId,
    business: Address,
    new_metadata: String,
)
    ensures
        ({
            let r = s.refusal(
                Call::UpdateCampaignMetadata { campaign_id: id, business, new_metadata },
            );
            let c = s.campaigns[id];
            let running = s.paused != Some(true);
            let known = running && s.campaigns.contains_key(id);
            let owned = known && c.business == business;
            let open = owned && c.status != CampaignStatus::Cancelled && c.status
                != CampaignStatus::Completed;
            let unlocked = open && !(s.applicant_counts.contains_key(id)
                && s.applicant_counts[id] > 0);
            let accepted = unlocked && new_metadata@.len() > 0;
            &&& r is None <==> accepted
            &&& r == Some(Error::ContractPaused) <==> !running
            &&& r == Some(Error::CampaignNotFound) <==> running && !known
            &&& r == Some(Error::NotCampaignOwner) <==> known && !owned
            &&& r == Some(Error::InvalidStatus) <==> owned && !open
            &&& r == Some(Error::ApplicationsExist) <==> open && !unlocked
            &&& r == Some(Error::InvalidMetadata) <==> unlocked && !accepted
        }),
{
}

/// Changing the brief changes the brief, to what was given, and nothing else.
pub proof fn law_rewriting_changes_the_brief(
    s: EscrowState,
    id: CampaignId,
    business: Address,
    new_metadata: String,
)
    requires
        s.sound(),
        s.refusal(Call::UpdateCampaignMetadata { campaign_id: id, business, new_metadata }) is None,
    ensures
        ({
            let t = s.after(
                Call::UpdateCampaignMetadata { campaign_id: id, business, new_metadata },
            );
            let c = s.campaigns[id];
            let d = t.campaigns[id];
            &&& d.metadata_uri == new_metadata
            &&& d == (Campaign { metadata_uri: d.metadata_uri, ..c })
            &&& t.campaigns == s.campaigns.insert(id, d)
            &&& t.log == s.log + seq![Effect::RequireAuth(business)] + saving(
                DataKey::Campaign(id),
            ) + seq![
                Effect::Publish(
                    Event::CampaignMetadataUpdated(
                        CampaignMetadataUpdated { campaign_id: id, business, new_metadata },
                    ),
                ),
            ]
            &&& t == (EscrowState { campaigns: t.campaigns, log: t.log, ..s })
        }),
{
    reveal(EscrowState::recruited);
    lemma_own_key(s, Call::UpdateCampaignMetadata { campaign_id: id, business, new_metadata });
    let t = s.metadata_changed(id, business, new_metadata);
    assert(t.log =~= s.log + seq![Effect::RequireAuth(business)] + saving(DataKey::Campaign(id))
        + seq![
        Effect::Publish(
            Event::CampaignMetadataUpdated(
                CampaignMetadataUpdated { campaign_id: id, business, new_metadata },
            ),
        ),
    ]);
}

} // verus!
