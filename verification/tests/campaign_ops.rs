use crowdfunding::campaign::AccountId;
use crowdfunding::campaign::Campaign;
use crowdfunding::campaign::CancelEvent;
use crowdfunding::campaign::ErrorCode;
use crowdfunding::campaign::GoalReachedEvent;
use crowdfunding::campaign::PledgeEvent;
use crowdfunding::ledger::cancel_campaign;
use crowdfunding::ledger::create_campaign;
use crowdfunding::ledger::end_campaign;
use crowdfunding::ledger::pledge;
use crowdfunding::ledger::withdraw_funds;

fn acct(n: u128) -> AccountId {
    AccountId { hi: n, lo: n.wrapping_mul(31) }
}

fn fresh(goal: u64, duration: i64, now: i64) -> Campaign {
    create_campaign(
        acct(1),
        "solar lantern".to_string(),
        "a lantern for off-grid evenings".to_string(),
        goal,
        duration,
        now,
    )
    .unwrap()
}

#[test]
fn create_accepts_valid_input() {
    let c = fresh(1000, 3600, 50);
    assert_eq!(c.creator, acct(1));
    assert_eq!(c.title, "solar lantern");
    assert_eq!(c.description, "a lantern for off-grid evenings");
    assert_eq!(c.goal, 1000);
    assert_eq!(c.raised, 0);
    assert_eq!(c.backers, 0);
    assert_eq!(c.created_at, 50);
    assert_eq!(c.ends_at, 3650);
    assert!(c.active);
    assert!(!c.canceled);
    assert!(!c.funds_withdrawn);
}

#[test]
fn create_rejects_empty_title() {
    let r = create_campaign(acct(1), String::new(), "d".to_string(), 10, 10, 0);
    assert_eq!(r.unwrap_err(), ErrorCode::InvalidInput);
}

#[test]
fn create_rejects_empty_description() {
    let r = create_campaign(acct(1), "t".to_string(), String::new(), 10, 10, 0);
    assert_eq!(r.unwrap_err(), ErrorCode::InvalidInput);
}

#[test]
fn create_rejects_zero_goal() {
    let r = create_campaign(acct(1), "t".to_string(), "d".to_string(), 0, 10, 0);
    assert_eq!(r.unwrap_err(), ErrorCode::InvalidInput);
}

#[test]
fn create_rejects_zero_duration() {
    let r = create_campaign(acct(1), "t".to_string(), "d".to_string(), 10, 0, 0);
    assert_eq!(r.unwrap_err(), ErrorCode::InvalidInput);
}

#[test]
fn create_rejects_negative_duration() {
    let r = create_campaign(acct(1), "t".to_string(), "d".to_string(), 10, -5, 0);
    assert_eq!(r.unwrap_err(), ErrorCode::InvalidInput);
}

#[test]
fn pledges_accumulate_sum_and_count() {
    let mut c = fresh(1000, 3600, 0);
    let id = acct(9);
    for (i, amount) in [5u64, 7, 9].iter().enumerate() {
        let r = pledge(&mut c, id, acct(20 + i as u128), *amount, 10);
        assert!(r.is_ok());
    }
    assert_eq!(c.raised, 21);
    assert_eq!(c.backers, 3);
    assert!(c.active);
}

#[test]
fn pledge_of_zero_counts_a_backer() {
    let mut c = fresh(1000, 3600, 0);
    let r = pledge(&mut c, acct(9), acct(2), 0, 10).unwrap();
    assert_eq!(c.raised, 0);
    assert_eq!(c.backers, 1);
    assert!(c.active);
    assert_eq!(r.goal_reached, None);
}

#[test]
fn goal_crossing_scenario() {
    let mut c = fresh(1000, 3600, 0);
    let id = acct(9);
    let backer = acct(2);

    let first = pledge(&mut c, id, backer, 600, 10).unwrap();
    assert_eq!(c.raised, 600);
    assert!(c.active);
    assert_eq!(first.goal_reached, None);
    assert_eq!(first.pledge, PledgeEvent { campaign: id, backer, amount: 600 });

    let second = pledge(&mut c, id, backer, 500, 20).unwrap();
    assert_eq!(c.raised, 1100);
    assert!(!c.active);
    assert_eq!(
        second.goal_reached,
        Some(GoalReachedEvent { campaign: id, goal: 1000, raised: 1100 })
    );
    assert_eq!(second.pledge, PledgeEvent { campaign: id, backer, amount: 500 });

    let third = pledge(&mut c, id, backer, 1, 30);
    assert_eq!(third.unwrap_err(), ErrorCode::CampaignNotActive);
    assert_eq!(c.raised, 1100);
    assert_eq!(c.backers, 2);
}

#[test]
fn pledge_exactly_at_goal_deactivates() {
    let mut c = fresh(1000, 3600, 0);
    let r = pledge(&mut c, acct(9), acct(2), 1000, 10).unwrap();
    assert_eq!(c.raised, 1000);
    assert!(!c.active);
    assert_eq!(
        r.goal_reached,
        Some(GoalReachedEvent { campaign: acct(9), goal: 1000, raised: 1000 })
    );
}

#[test]
fn pledge_of_largest_amount() {
    let mut c = fresh(u64::MAX, 3600, 0);
    let r = pledge(&mut c, acct(9), acct(2), u64::MAX, 10).unwrap();
    assert_eq!(c.raised, u64::MAX);
    assert!(!c.active);
    assert!(r.goal_reached.is_some());
}

#[test]
fn pledge_fails_at_and_after_deadline() {
    let mut c = fresh(1000, 3600, 0);
    let on_time = pledge(&mut c, acct(9), acct(2), 10, 3599);
    assert!(on_time.is_ok());
    let at_deadline = pledge(&mut c, acct(9), acct(2), 10, 3600);
    assert_eq!(at_deadline.unwrap_err(), ErrorCode::CampaignNotActive);
    let late_and_empty = pledge(&mut c, acct(9), acct(2), 0, 4000);
    assert_eq!(late_and_empty.unwrap_err(), ErrorCode::CampaignNotActive);
    assert_eq!(c.raised, 10);
    assert_eq!(c.backers, 1);
}

#[test]
fn pledge_fails_after_cancel() {
    let mut c = fresh(1000, 3600, 0);
    cancel_campaign(&mut c, acct(1), acct(9)).unwrap();
    let r = pledge(&mut c, acct(9), acct(2), 10, 10);
    assert_eq!(r.unwrap_err(), ErrorCode::CampaignNotActive);
}

#[test]
fn pledge_fails_after_end() {
    let mut c = fresh(1000, 3600, 0);
    end_campaign(&mut c, acct(1)).unwrap();
    let r = pledge(&mut c, acct(9), acct(2), 10, 10);
    assert_eq!(r.unwrap_err(), ErrorCode::CampaignNotActive);
}

#[test]
fn cancel_by_creator_then_repeat_fails() {
    let mut c = fresh(1000, 3600, 0);
    let ev = cancel_campaign(&mut c, acct(1), acct(9)).unwrap();
    assert_eq!(ev, CancelEvent { campaign: acct(9) });
    assert!(!c.active);
    assert!(c.canceled);
    let again = cancel_campaign(&mut c, acct(1), acct(9));
    assert_eq!(again.unwrap_err(), ErrorCode::CampaignNotActive);
}

#[test]
fn cancel_by_stranger_fails_in_any_state() {
    let mut c = fresh(1000, 3600, 0);
    let while_active = cancel_campaign(&mut c, acct(7), acct(9));
    assert_eq!(while_active.unwrap_err(), ErrorCode::Unauthorized);
    end_campaign(&mut c, acct(1)).unwrap();
    let while_inactive = cancel_campaign(&mut c, acct(7), acct(9));
    assert_eq!(while_inactive.unwrap_err(), ErrorCode::Unauthorized);
}

#[test]
fn end_leaves_campaign_not_canceled() {
    let mut c = fresh(1000, 3600, 0);
    end_campaign(&mut c, acct(1)).unwrap();
    assert!(!c.active);
    assert!(!c.canceled);

    let mut d = fresh(1000, 3600, 0);
    cancel_campaign(&mut d, acct(1), acct(9)).unwrap();
    assert!(!d.active);
    assert!(d.canceled);
    assert_ne!(c.canceled, d.canceled);
}

#[test]
fn end_repeat_fails_not_active() {
    let mut c = fresh(1000, 3600, 0);
    end_campaign(&mut c, acct(1)).unwrap();
    let again = end_campaign(&mut c, acct(1));
    assert_eq!(again.unwrap_err(), ErrorCode::CampaignNotActive);
}

#[test]
fn end_by_stranger_fails() {
    let mut c = fresh(1000, 3600, 0);
    let r = end_campaign(&mut c, acct(7));
    assert_eq!(r.unwrap_err(), ErrorCode::Unauthorized);
    assert!(c.active);
}

#[test]
fn withdraw_pays_balance_above_floor_once() {
    let mut c = fresh(1000, 3600, 0);
    assert!(c.active);
    let ev = withdraw_funds(&mut c, acct(1), acct(9), 5000, 890).unwrap();
    assert_eq!(ev.amount, 4110);
    assert_eq!(ev.creator, acct(1));
    assert_eq!(ev.campaign, acct(9));
    assert!(c.funds_withdrawn);
    assert!(c.active);

    let again = withdraw_funds(&mut c, acct(1), acct(9), 5000, 890);
    assert_eq!(again.unwrap_err(), ErrorCode::FundsAlreadyWithdrawn);
}

#[test]
fn withdraw_works_after_cancel() {
    let mut c = fresh(1000, 3600, 0);
    cancel_campaign(&mut c, acct(1), acct(9)).unwrap();
    let ev = withdraw_funds(&mut c, acct(1), acct(9), 1000, 100).unwrap();
    assert_eq!(ev.amount, 900);
    assert!(c.funds_withdrawn);
}

#[test]
fn withdraw_fails_when_balance_at_floor() {
    let mut c = fresh(1000, 3600, 0);
    let r = withdraw_funds(&mut c, acct(1), acct(9), 890, 890);
    assert_eq!(r.unwrap_err(), ErrorCode::InsufficientFunds);
    assert!(!c.funds_withdrawn);
}

#[test]
fn withdraw_fails_when_balance_below_floor() {
    let mut c = fresh(1000, 3600, 0);
    let r = withdraw_funds(&mut c, acct(1), acct(9), 100, 890);
    assert_eq!(r.unwrap_err(), ErrorCode::InsufficientFunds);
}

#[test]
fn withdraw_fails_on_empty_balance() {
    let mut c = fresh(1000, 3600, 0);
    let r = withdraw_funds(&mut c, acct(1), acct(9), 0, 0);
    assert_eq!(r.unwrap_err(), ErrorCode::InsufficientFunds);
}

#[test]
fn withdraw_by_stranger_fails_in_any_state() {
    let mut c = fresh(1000, 3600, 0);
    let r = withdraw_funds(&mut c, acct(7), acct(9), 5000, 890);
    assert_eq!(r.unwrap_err(), ErrorCode::Unauthorized);
    end_campaign(&mut c, acct(1)).unwrap();
    let r2 = withdraw_funds(&mut c, acct(7), acct(9), 5000, 890);
    assert_eq!(r2.unwrap_err(), ErrorCode::Unauthorized);
    assert!(!c.funds_withdrawn);
}
