//! Laws of the campaign ledger, stated over the transition model in
//! `campaign` and proved once for all records, callers and amounts.

use vstd::prelude::*;

use crate::campaign::AccountId;
use crate::campaign::Campaign;
use crate::campaign::ErrorCode;
use crate::campaign::campaign_wf;
use crate::campaign::cancel_applied;
use crate::campaign::cancel_error;
use crate::campaign::end_applied;
use crate::campaign::end_error;
use crate::campaign::pledge_applied;
use crate::campaign::pledge_open;
use crate::campaign::withdraw_applied;
use crate::campaign::withdraw_error;

verus! {

/// The sum of a sequence of pledge amounts.
pub open spec fn sum_of(amounts: Seq<u64>) -> int
    decreases amounts.len(),
{
    if amounts.len() == 0 {
        0
    } else {
        amounts[0] + sum_of(amounts.drop_first())
    }
}

/// The record after the whole run of pledges in `amounts`, applied in order.
pub open spec fn pledges_applied(c: Campaign, amounts: Seq<u64>) -> Campaign
    decreases amounts.len(),
{
    if amounts.len() == 0 {
        c
    } else {
        pledges_applied(pledge_applied(c, amounts[0]), amounts.drop_first())
    }
}

/// Every pledge of the run finds the campaign open at time `now` and keeps
/// both counters within the machine word.
pub open spec fn pledges_open(c: Campaign, amounts: Seq<u64>, now: i64) -> bool
    decreases amounts.len(),
{
    amounts.len() == 0 || (pledge_open(c, now) && c.raised + amounts[0] <= u64::MAX && c.backers
        + 1 <= u64::MAX && pledges_open(pledge_applied(c, amounts[0]), amounts.drop_first(), now))
}

/// Law: after any run of accepted pledges, `raised` has grown by exactly the
/// sum of the pledged amounts, and `backers` by exactly their number.
pub proof fn lemma_pledge_run_totals(c: Campaign, amounts: Seq<u64>, now: i64)
    requires
        pledges_open(c, amounts, now),
    ensures
        pledges_applied(c, amounts).raised == c.raised + sum_of(amounts),
        pledges_applied(c, amounts).backers == c.backers + amounts.len(),
    decreases amounts.len(),
{
    if amounts.len() > 0 {
        lemma_pledge_run_totals(pledge_applied(c, amounts[0]), amounts.drop_first(), now);
    }
}

/// Law: a pledge that carries the total to or past the goal deactivates the
/// campaign in the very transition that records the amount, and one that
/// falls short leaves it active.
pub proof fn lemma_goal_reached_deactivates(c: Campaign, amount: u64, now: i64)
    requires
        campaign_wf(c),
        pledge_open(c, now),
        c.raised + amount <= u64::MAX,
    ensures
        pledge_applied(c, amount).raised == c.raised + amount,
        pledge_applied(c, amount).active <==> c.raised + amount < c.goal,
{
}

/// Law: a cancellation by the creator of an active campaign goes through and
/// leaves the record inactive and canceled; after it, every further
/// cancellation is refused, and for the creator the refusal is
/// `CampaignNotActive`.
pub proof fn lemma_cancel_once(c: Campaign, again: AccountId)
    requires
        campaign_wf(c),
        c.active,
    ensures
        cancel_error(c, c.creator) is None,
        !cancel_applied(c).active,
        cancel_applied(c).canceled,
        cancel_error(cancel_applied(c), again) is Some,
        again == c.creator ==> cancel_error(cancel_applied(c), again) == Some(
            ErrorCode::CampaignNotActive,
        ),
{
}

/// Law: ending an active campaign deactivates it without marking it
/// canceled, so its outcome differs from a cancellation's in the `canceled`
/// flag.
pub proof fn lemma_end_distinct_from_cancel(c: Campaign)
    requires
        campaign_wf(c),
        c.active,
    ensures
        !end_applied(c).active,
        !end_applied(c).canceled,
        end_applied(c).canceled != cancel_applied(c).canceled,
{
}

/// Law: withdrawal by the creator is open in every campaign state — active
/// or not, canceled or not, before or after the deadline — as long as it has
/// not happened yet and the held balance exceeds the reserve floor; after it,
/// every further withdrawal by the creator is refused with
/// `FundsAlreadyWithdrawn`, whatever balance the host then reports.
pub proof fn lemma_withdraw_once(c: Campaign, held: u64, floor: u64, held2: u64, floor2: u64)
    requires
        campaign_wf(c),
        !c.funds_withdrawn,
        held > floor,
    ensures
        withdraw_error(c, c.creator, held, floor) is None,
        withdraw_applied(c).funds_withdrawn,
        withdraw_error(withdraw_applied(c), c.creator, held2, floor2) == Some(
            ErrorCode::FundsAlreadyWithdrawn,
        ),
{
}

/// Law: a caller other than the creator is refused with `Unauthorized` by
/// cancel, end and withdraw alike, whatever the campaign's state or the
/// balances involved.
pub proof fn lemma_stranger_unauthorized(c: Campaign, caller: AccountId, held: u64, floor: u64)
    requires
        caller != c.creator,
    ensures
        cancel_error(c, caller) == Some(ErrorCode::Unauthorized),
        end_error(c, caller) == Some(ErrorCode::Unauthorized),
        withdraw_error(c, caller, held, floor) == Some(ErrorCode::Unauthorized),
{
}

/// Law: the flag transitions are one-way. No transition reactivates a
/// campaign, clears the canceled mark, or clears the withdrawn mark; and
/// `raised` never decreases.
pub proof fn lemma_transitions_one_way(c: Campaign, amount: u64, now: i64)
    requires
        c.raised + amount <= u64::MAX,
    ensures
        pledge_open(c, now) ==> (pledge_applied(c, amount).active ==> c.active),
        !cancel_applied(c).active && !end_applied(c).active,
        withdraw_applied(c).active == c.active,
        pledge_applied(c, amount).canceled == c.canceled,
        cancel_applied(c).canceled,
        end_applied(c).canceled == c.canceled,
        withdraw_applied(c).canceled == c.canceled,
        pledge_applied(c, amount).funds_withdrawn == c.funds_withdrawn,
        cancel_applied(c).funds_withdrawn == c.funds_withdrawn,
        end_applied(c).funds_withdrawn == c.funds_withdrawn,
        withdraw_applied(c).funds_withdrawn,
        pledge_applied(c, amount).raised >= c.raised,
        cancel_applied(c).raised == c.raised && end_applied(c).raised == c.raised
            && withdraw_applied(c).raised == c.raised,
{
}

/// Law: the record invariant is preserved by every transition, taken from
/// the state in which the matching operation accepts it.
pub proof fn lemma_transitions_preserve_wf(
    c: Campaign,
    amount: u64,
    now: i64,
    caller: AccountId,
    held: u64,
    floor: u64,
)
    requires
        campaign_wf(c),
    ensures
        pledge_open(c, now) && c.raised + amount <= u64::MAX && c.backers + 1 <= u64::MAX
            ==> campaign_wf(pledge_applied(c, amount)),
        cancel_error(c, caller) is None ==> campaign_wf(cancel_applied(c)),
        end_error(c, caller) is None ==> campaign_wf(end_applied(c)),
        withdraw_error(c, caller, held, floor) is None ==> campaign_wf(withdraw_applied(c)),
{
}

} // verus!
