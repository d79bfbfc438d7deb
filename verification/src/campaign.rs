//! The campaign record, its invariant, and the mathematical model of its
//! state transitions. The executable operations in `ledger` are proved to
//! implement exactly the transition and gate functions defined here, and the
//! laws in `laws` are proved about them.

use vstd::prelude::*;

verus! {

/// An opaque account identity, as the host's signature verification hands it
/// over: 32 bytes carried as two words, compared only for equality.
#[derive(Clone, Copy, PartialEq, Eq, Structural, Debug)]
pub struct AccountId {
    pub hi: u128,
    pub lo: u128,
}

/// Why an operation was refused. Every error is detected before any mutation,
/// so a refused operation leaves the record exactly as it was.
#[derive(Clone, Copy, PartialEq, Eq, Structural, Debug)]
pub enum ErrorCode {
    /// The campaign is inactive, canceled, or past its deadline.
    CampaignNotActive,
    /// The caller is not the campaign's creator.
    Unauthorized,
    /// A creation parameter is malformed.
    InvalidInput,
    /// Funds were already withdrawn once.
    FundsAlreadyWithdrawn,
    /// The held balance does not exceed the reserve floor.
    InsufficientFunds,
}

/// The sole entity: one crowdfunding campaign.
#[derive(Debug)]
pub struct Campaign {
    /// Identity of the account that created the campaign.
    pub creator: AccountId,
    /// Campaign title; never empty.
    pub title: String,
    /// Campaign description; never empty.
    pub description: String,
    /// Funding goal, in the host's smallest value unit; always positive.
    pub goal: u64,
    /// Cumulative value pledged so far; never reset.
    pub raised: u64,
    /// Number of pledge operations accepted so far.
    pub backers: u64,
    /// Timestamp at creation.
    pub created_at: i64,
    /// Deadline: `created_at` plus the requested duration.
    pub ends_at: i64,
    /// Whether the campaign still accepts pledges (subject to the deadline).
    pub active: bool,
    /// Whether the creator canceled the campaign.
    pub canceled: bool,
    /// Whether the creator has withdrawn the held funds.
    pub funds_withdrawn: bool,
}

/// Record invariant: established at creation and preserved by every
/// transition.
pub open spec fn campaign_wf(c: Campaign) -> bool {
    &&& c.goal > 0
    &&& c.title@.len() > 0
    &&& c.description@.len() > 0
    &&& c.created_at < c.ends_at
    &&& (c.canceled ==> !c.active)
    &&& (c.active ==> c.raised < c.goal)
}

/// Creation parameters are malformed exactly when a text is empty, the goal
/// is zero, or the duration is not positive.
pub open spec fn create_invalid(
    title: Seq<char>,
    description: Seq<char>,
    goal: u64,
    duration: i64,
) -> bool {
    title.len() == 0 || description.len() == 0 || goal == 0 || duration <= 0
}

/// The freshly created record for valid parameters.
pub open spec fn created(
    creator: AccountId,
    title: String,
    description: String,
    goal: u64,
    duration: i64,
    now: i64,
) -> Campaign {
    Campaign {
        creator,
        title,
        description,
        goal,
        raised: 0,
        backers: 0,
        created_at: now,
        ends_at: (now + duration) as i64,
        active: true,
        canceled: false,
        funds_withdrawn: false,
    }
}

/// A pledge is accepted exactly while the campaign is active, not canceled,
/// and the deadline has not been reached.
pub open spec fn pledge_open(c: Campaign, now: i64) -> bool {
    c.active && !c.canceled && now < c.ends_at
}

/// The record after one accepted pledge of `amount`: the total and the pledge
/// counter grow, and reaching the goal deactivates the campaign in the same
/// transition.
pub open spec fn pledge_applied(c: Campaign, amount: u64) -> Campaign {
    Campaign {
        raised: (c.raised + amount) as u64,
        backers: (c.backers + 1) as u64,
        active: c.raised + amount < c.goal,
        ..c
    }
}

/// Why a cancellation by `caller` is refused, if it is.
pub open spec fn cancel_error(c: Campaign, caller: AccountId) -> Option<ErrorCode> {
    if caller != c.creator {
        Some(ErrorCode::Unauthorized)
    } else if !c.active {
        Some(ErrorCode::CampaignNotActive)
    } else {
        None
    }
}

/// The record after a successful cancellation.
pub open spec fn cancel_applied(c: Campaign) -> Campaign {
    Campaign { active: false, canceled: true, ..c }
}

/// Why an end request by `caller` is refused, if it is; ending and
/// canceling share one gate.
pub open spec fn end_error(c: Campaign, caller: AccountId) -> Option<ErrorCode> {
    cancel_error(c, caller)
}

/// The record after a successful end: deactivated but not canceled.
pub open spec fn end_applied(c: Campaign) -> Campaign {
    Campaign { active: false, ..c }
}

/// Why a withdrawal by `caller` is refused, if it is. Withdrawal is open in
/// every campaign state; only authorship, a prior withdrawal, or a held
/// balance that does not exceed the reserve floor refuse it.
pub open spec fn withdraw_error(
    c: Campaign,
    caller: AccountId,
    held_balance: u64,
    reserve_floor: u64,
) -> Option<ErrorCode> {
    if caller != c.creator {
        Some(ErrorCode::Unauthorized)
    } else if c.funds_withdrawn {
        Some(ErrorCode::FundsAlreadyWithdrawn)
    } else if held_balance <= reserve_floor {
        Some(ErrorCode::InsufficientFunds)
    } else {
        None
    }
}

/// The record after a successful withdrawal; counters stay as they are.
pub open spec fn withdraw_applied(c: Campaign) -> Campaign {
    Campaign { funds_withdrawn: true, ..c }
}

/// Notification of one accepted pledge.
#[derive(Clone, Copy, PartialEq, Eq, Structural, Debug)]
pub struct PledgeEvent {
    pub campaign: AccountId,
    pub backer: AccountId,
    pub amount: u64,
}

/// Notification that a pledge carried the total to or past the goal.
#[derive(Clone, Copy, PartialEq, Eq, Structural, Debug)]
pub struct GoalReachedEvent {
    pub campaign: AccountId,
    pub goal: u64,
    pub raised: u64,
}

/// Notification of a cancellation.
#[derive(Clone, Copy, PartialEq, Eq, Structural, Debug)]
pub struct CancelEvent {
    pub campaign: AccountId,
}

/// Notification of a withdrawal, with the amount actually paid out.
#[derive(Clone, Copy, PartialEq, Eq, Structural, Debug)]
pub struct WithdrawEvent {
    pub campaign: AccountId,
    pub creator: AccountId,
    pub amount: u64,
}

/// What an accepted pledge asks the host to announce: always the pledge
/// itself, and the goal notification exactly when this pledge reached it.
#[derive(Clone, Copy, PartialEq, Eq, Debug)]
pub struct PledgeReceipt {
    pub pledge: PledgeEvent,
    pub goal_reached: Option<GoalReachedEvent>,
}

} // verus!
