//! The executable campaign operations. Each one either applies the matching
//! transition from `campaign` or refuses with the matching error, mutating
//! nothing on refusal.

use vstd::prelude::*;

use crate::campaign::AccountId;
use crate::campaign::Campaign;
use crate::campaign::CancelEvent;
use crate::campaign::ErrorCode;
use crate::campaign::GoalReachedEvent;
use crate::campaign::PledgeEvent;
use crate::campaign::PledgeReceipt;
use crate::campaign::WithdrawEvent;
use crate::campaign::campaign_wf;
use crate::campaign::cancel_applied;
use crate::campaign::cancel_error;
use crate::campaign::create_invalid;
use crate::campaign::created;
use crate::campaign::end_applied;
use crate::campaign::end_error;
use crate::campaign::pledge_applied;
use crate::campaign::pledge_open;
use crate::campaign::withdraw_applied;
use crate::campaign::withdraw_error;

verus! {

/// Open a new campaign: validate the parameters and build the initial
/// record, active and empty, with its deadline `duration` past `now`.
pub fn create_campaign(
    creator: AccountId,
    title: String,
    description: String,
    goal: u64,
    duration: i64,
    now: i64,
) -> (result: Result<Campaign, ErrorCode>)
    requires
        duration > 0 ==> now + duration <= i64::MAX,
    ensures
        result is Err <==> create_invalid(title@, description@, goal, duration),
        match result {
            Ok(c) => {
                &&& c == created(creator, title, description, goal, duration, now)
                &&& campaign_wf(c)
            },
            Err(e) => e == ErrorCode::InvalidInput,
        },
{
    if title.as_str().is_empty() {
        return Err(ErrorCode::InvalidInput);
    }
    if description.as_str().is_empty() {
        return Err(ErrorCode::InvalidInput);
    }
    if goal == 0 {
        return Err(ErrorCode::InvalidInput);
    }
    if duration <= 0 {
        return Err(ErrorCode::InvalidInput);
    }
    Ok(Campaign {
        creator,
        title,
        description,
        goal,
        raised: 0,
        backers: 0,
        created_at: now,
        ends_at: now + duration,
        active: true,
        canceled: false,
        funds_withdrawn: false,
    })
}

/// Accept a pledge of `amount` toward the campaign known to the host as
/// `campaign_id`, or refuse it without touching the record. The host performs
/// the matching value transfer atomically with this transition and announces
/// the returned events; it also keeps the two counters within the machine
/// word, which the total value in circulation cannot exceed anyway.
pub fn pledge(
    campaign: &mut Campaign,
    campaign_id: AccountId,
    backer: AccountId,
    amount: u64,
    now: i64,
) -> (result: Result<PledgeReceipt, ErrorCode>)
    requires
        campaign_wf(*old(campaign)),
        pledge_open(*old(campaign), now) ==> old(campaign).raised + amount <= u64::MAX
            && old(campaign).backers + 1 <= u64::MAX,
    ensures
        campaign_wf(*final(campaign)),
        result is Ok <==> pledge_open(*old(campaign), now),
        match result {
            Ok(receipt) => {
                &&& *final(campaign) == pledge_applied(*old(campaign), amount)
                &&& receipt.pledge == (PledgeEvent { campaign: campaign_id, backer, amount })
                &&& receipt.goal_reached == (if old(campaign).raised + amount
                    >= old(campaign).goal {
                    Some(
                        GoalReachedEvent {
                            campaign: campaign_id,
                            goal: old(campaign).goal,
                            raised: (old(campaign).raised + amount) as u64,
                        },
                    )
                } else {
                    None
                })
            },
            Err(e) => {
                &&& e == ErrorCode::CampaignNotActive
                &&& *final(campaign) == *old(campaign)
            },
        },
{
    if !(campaign.active && !campaign.canceled && now < campaign.ends_at) {
        return Err(ErrorCode::CampaignNotActive);
    }

    campaign.raised = campaign.raised + amount;
    campaign.backers = campaign.backers + 1;

    let goal_reached: Option<GoalReachedEvent> = if campaign.raised >= campaign.goal {
        campaign.active = false;
        Some(
            GoalReachedEvent {
                campaign: campaign_id,
                goal: campaign.goal,
                raised: campaign.raised,
            },
        )
    } else {
        None
    };

    Ok(
        PledgeReceipt {
            pledge: PledgeEvent { campaign: campaign_id, backer, amount },
            goal_reached,
        },
    )
}

/// Cancel the campaign: creator only, and only while it is active. Leaves
/// the record permanently inactive and marked canceled.
pub fn cancel_campaign(
    campaign: &mut Campaign,
    caller: AccountId,
    campaign_id: AccountId,
) -> (result: Result<CancelEvent, ErrorCode>)
    requires
        campaign_wf(*old(campaign)),
    ensures
        campaign_wf(*final(campaign)),
        result is Err <==> cancel_error(*old(campaign), caller) is Some,
        match result {
            Ok(ev) => {
                &&& *final(campaign) == cancel_applied(*old(campaign))
                &&& ev == (CancelEvent { campaign: campaign_id })
            },
            Err(e) => {
                &&& cancel_error(*old(campaign), caller) == Some(e)
                &&& *final(campaign) == *old(campaign)
            },
        },
{
    if !(caller == campaign.creator) {
        return Err(ErrorCode::Unauthorized);
    }
    if !campaign.active {
        return Err(ErrorCode::CampaignNotActive);
    }
    campaign.active = false;
    campaign.canceled = true;
    Ok(CancelEvent { campaign: campaign_id })
}

/// End the campaign: creator only, and only while it is active. Deactivates
/// the record but does not mark it canceled, so a creator-stopped campaign
/// stays distinguishable from a canceled one.
pub fn end_campaign(campaign: &mut Campaign, caller: AccountId) -> (result: Result<
    (),
    ErrorCode,
>)
    requires
        campaign_wf(*old(campaign)),
    ensures
        campaign_wf(*final(campaign)),
        result is Err <==> end_error(*old(campaign), caller) is Some,
        match result {
            Ok(_) => *final(campaign) == end_applied(*old(campaign)),
            Err(e) => {
                &&& end_error(*old(campaign), caller) == Some(e)
                &&& *final(campaign) == *old(campaign)
            },
        },
{
    if !(caller == campaign.creator) {
        return Err(ErrorCode::Unauthorized);
    }
    if !campaign.active {
        return Err(ErrorCode::CampaignNotActive);
    }
    campaign.active = false;
    Ok(())
}

/// Withdraw the held balance above the reserve floor to the creator, in any
/// campaign state, at most once. The host reports the account's held balance
/// and the reserve floor it must retain, performs the payout of the returned
/// amount atomically with this transition, and announces the event.
pub fn withdraw_funds(
    campaign: &mut Campaign,
    caller: AccountId,
    campaign_id: AccountId,
    held_balance: u64,
    reserve_floor: u64,
) -> (result: Result<WithdrawEvent, ErrorCode>)
    requires
        campaign_wf(*old(campaign)),
    ensures
        campaign_wf(*final(campaign)),
        result is Err <==> withdraw_error(*old(campaign), caller, held_balance, reserve_floor)
            is Some,
        match result {
            Ok(ev) => {
                &&& *final(campaign) == withdraw_applied(*old(campaign))
                &&& ev == (WithdrawEvent {
                    campaign: campaign_id,
                    creator: old(campaign).creator,
                    amount: (held_balance - reserve_floor) as u64,
                })
                &&& ev.amount > 0
            },
            Err(e) => {
                &&& withdraw_error(*old(campaign), caller, held_balance, reserve_floor) == Some(e)
                &&& *final(campaign) == *old(campaign)
            },
        },
{
    if !(caller == campaign.creator) {
        return Err(ErrorCode::Unauthorized);
    }
    if campaign.funds_withdrawn {
        return Err(ErrorCode::FundsAlreadyWithdrawn);
    }
    if held_balance <= reserve_floor {
        return Err(ErrorCode::InsufficientFunds);
    }
    let amount: u64 = held_balance - reserve_floor;
    campaign.funds_withdrawn = true;
    Ok(WithdrawEvent { campaign: campaign_id, creator: campaign.creator, amount })
}

} // verus!
