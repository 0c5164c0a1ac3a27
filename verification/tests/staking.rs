use staking_pool::ErrorCode;
use staking_pool::StakeInfoAccount;
use staking_pool::StoreAccount;
use staking_pool::PoolBumps;
use staking_pool::enter_staking;
use staking_pool::harvest;
use staking_pool::init_stake_account;
use staking_pool::initialize;
use staking_pool::start_unstaking;

const DAY: i64 = 86400;

fn fresh_account(owner: &str) -> StakeInfoAccount {
    StakeInfoAccount {
        owner: String::from(owner),
        bump: 7,
        staked_amount: 0,
        earned_amount: 0,
        last_stake_ts: 0,
    }
}

fn registry(authority: &str) -> StoreAccount {
    initialize(
        "pool",
        PoolBumps { store_account: 3, pool_seeded: 4 },
        String::from(authority),
        String::from("mint"),
        String::from("custody"),
    )
}

#[test]
fn deposit_then_deposit_two_days_later() {
    // Deposit 1000 at t0, deposit 500 two full days later: the second
    // deposit first accrues 1000 * 2 * 5 / 10000 = 1 (truncated) on the
    // pre-transaction principal.
    let caller = String::from("alice");
    let mut account = fresh_account("alice");
    let r1 = enter_staking(&mut account, &caller, 1000, 5000, 0);
    assert_eq!(r1, Ok(1000));
    assert_eq!(account.staked_amount, 1000);
    assert_eq!(account.earned_amount, 0);
    assert_eq!(account.last_stake_ts, 0);
    let r2 = enter_staking(&mut account, &caller, 500, 5000, 2 * DAY);
    assert_eq!(r2, Ok(500));
    assert_eq!(account.staked_amount, 1500);
    assert_eq!(account.earned_amount, 1);
    assert_eq!(account.last_stake_ts, 2 * DAY);
}

#[test]
fn deposit_of_zero_is_rejected() {
    let caller = String::from("alice");
    let mut account = fresh_account("alice");
    assert_eq!(enter_staking(&mut account, &caller, 0, 5000, 0), Err(ErrorCode::ZeroSeeded));
    assert_eq!(account.staked_amount, 0);
    assert_eq!(account.last_stake_ts, 0);
}

#[test]
fn deposit_beyond_caller_balance_is_rejected() {
    let caller = String::from("alice");
    let mut account = fresh_account("alice");
    assert_eq!(enter_staking(&mut account, &caller, 600, 599, 0), Err(ErrorCode::LowSeeded));
    assert_eq!(account.staked_amount, 0);
}

#[test]
fn deposit_with_regressed_clock_is_rejected() {
    let caller = String::from("alice");
    let mut account = fresh_account("alice");
    account.last_stake_ts = 1000;
    assert_eq!(enter_staking(&mut account, &caller, 10, 100, 999), Err(ErrorCode::ClockRegression));
    assert_eq!(account.staked_amount, 0);
    assert_eq!(account.last_stake_ts, 1000);
}

#[test]
fn deposit_overflowing_principal_is_rejected() {
    let caller = String::from("alice");
    let mut account = fresh_account("alice");
    account.staked_amount = u64::MAX - 5;
    assert_eq!(
        enter_staking(&mut account, &caller, 10, u64::MAX, 0),
        Err(ErrorCode::AmountOverflow)
    );
    assert_eq!(account.staked_amount, u64::MAX - 5);
}

#[test]
fn partial_days_earn_nothing() {
    let caller = String::from("alice");
    let mut account = fresh_account("alice");
    assert_eq!(enter_staking(&mut account, &caller, 1000, 5000, 0), Ok(1000));
    // One second short of two full days: only one day's reward.
    assert_eq!(enter_staking(&mut account, &caller, 500, 5000, 2 * DAY - 1), Ok(500));
    assert_eq!(account.staked_amount, 1500);
    assert_eq!(account.earned_amount, 0);
}

#[test]
fn reward_is_simple_interest_on_pretransaction_principal() {
    // 40000 staked for 3 days at 0.05% per day: 40000 * 3 * 5 / 10000 = 60.
    let caller = String::from("alice");
    let mut account = fresh_account("alice");
    assert_eq!(enter_staking(&mut account, &caller, 40000, 40000, 0), Ok(40000));
    assert_eq!(enter_staking(&mut account, &caller, 1, 1, 3 * DAY), Ok(1));
    assert_eq!(account.staked_amount, 40001);
    assert_eq!(account.earned_amount, 60);
}

#[test]
fn harvest_on_empty_account_is_rejected() {
    let caller = String::from("bob");
    let mut account = fresh_account("bob");
    assert_eq!(harvest(&mut account, &caller, 10_000, DAY), Err(ErrorCode::NoStaked));
    assert_eq!(account.staked_amount, 0);
    assert_eq!(account.earned_amount, 0);
}

#[test]
fn harvest_pays_reward_and_keeps_principal() {
    let caller = String::from("bob");
    let mut account = fresh_account("bob");
    assert_eq!(enter_staking(&mut account, &caller, 10_000, 10_000, 0), Ok(10_000));
    // 10000 * 4 * 5 / 10000 = 20 after four days.
    let r = harvest(&mut account, &caller, 1_000_000, 4 * DAY);
    assert_eq!(r, Ok(20));
    assert_eq!(account.staked_amount, 10_000);
    assert_eq!(account.earned_amount, 0);
    assert_eq!(account.last_stake_ts, 4 * DAY);
}

#[test]
fn harvest_without_a_full_unit_of_reward_is_rejected() {
    let caller = String::from("bob");
    let mut account = fresh_account("bob");
    assert_eq!(enter_staking(&mut account, &caller, 10_000, 10_000, 0), Ok(10_000));
    // Same day: no full day elapsed, nothing to harvest.
    assert_eq!(harvest(&mut account, &caller, 1_000_000, 0), Err(ErrorCode::NoEnoughHarvest));
    assert_eq!(account.staked_amount, 10_000);
    assert_eq!(account.earned_amount, 0);
}

#[test]
fn harvest_beyond_custody_is_rejected() {
    let caller = String::from("bob");
    let mut account = fresh_account("bob");
    assert_eq!(enter_staking(&mut account, &caller, 10_000, 10_000, 0), Ok(10_000));
    // Reward after four days is 20, but custody holds only 19.
    assert_eq!(harvest(&mut account, &caller, 19, 4 * DAY), Err(ErrorCode::NoEnoughPool));
    assert_eq!(account.staked_amount, 10_000);
    assert_eq!(account.earned_amount, 0);
    assert_eq!(account.last_stake_ts, 0);
}

#[test]
fn unstaking_more_than_staked_is_rejected() {
    // Rejected regardless of accrued reward.
    let caller = String::from("carol");
    let mut account = fresh_account("carol");
    assert_eq!(enter_staking(&mut account, &caller, 10_000, 10_000, 0), Ok(10_000));
    let r = start_unstaking(&mut account, &caller, 10_001, 1_000_000, 4 * DAY);
    assert_eq!(r, Err(ErrorCode::LowWithdraw));
    assert_eq!(account.staked_amount, 10_000);
    assert_eq!(account.earned_amount, 0);
    assert_eq!(account.last_stake_ts, 0);
}

#[test]
fn unstaking_from_empty_account_is_rejected() {
    let caller = String::from("carol");
    let mut account = fresh_account("carol");
    assert_eq!(start_unstaking(&mut account, &caller, 0, 1_000_000, DAY), Err(ErrorCode::NoStaked));
}

#[test]
fn unstaking_pays_principal_plus_reward() {
    let caller = String::from("carol");
    let mut account = fresh_account("carol");
    assert_eq!(enter_staking(&mut account, &caller, 10_000, 10_000, 0), Ok(10_000));
    // Withdraw 4000 after four days: payout 4000 + 20.
    let r = start_unstaking(&mut account, &caller, 4000, 1_000_000, 4 * DAY);
    assert_eq!(r, Ok(4020));
    assert_eq!(account.staked_amount, 6000);
    assert_eq!(account.earned_amount, 0);
    assert_eq!(account.last_stake_ts, 4 * DAY);
}

#[test]
fn unstaking_beyond_custody_is_rejected_and_account_unchanged() {
    let caller = String::from("carol");
    let mut account = fresh_account("carol");
    assert_eq!(enter_staking(&mut account, &caller, 10_000, 10_000, 0), Ok(10_000));
    // Payout would be 4020 but custody holds 4019.
    let r = start_unstaking(&mut account, &caller, 4000, 4019, 4 * DAY);
    assert_eq!(r, Err(ErrorCode::NoEnoughPool));
    assert_eq!(account.staked_amount, 10_000);
    assert_eq!(account.earned_amount, 0);
    assert_eq!(account.last_stake_ts, 0);
}

#[test]
fn accrual_timestamp_never_regresses_over_successful_operations() {
    let caller = String::from("dave");
    let mut account = fresh_account("dave");
    let mut last: i64 = account.last_stake_ts;
    assert_eq!(enter_staking(&mut account, &caller, 1000, 5000, 10), Ok(1000));
    assert!(account.last_stake_ts >= last);
    last = account.last_stake_ts;
    assert_eq!(enter_staking(&mut account, &caller, 500, 5000, 10 + 2 * DAY), Ok(500));
    assert!(account.last_stake_ts >= last);
    last = account.last_stake_ts;
    let r = start_unstaking(&mut account, &caller, 200, 1_000_000, 10 + 3 * DAY);
    assert!(r.is_ok());
    assert!(account.last_stake_ts >= last);
    last = account.last_stake_ts;
    let r = harvest(&mut account, &caller, 1_000_000, 10 + 5 * DAY);
    assert!(r.is_ok());
    assert!(account.last_stake_ts >= last);
}

#[test]
fn init_stake_account_with_matching_seeds_creates_empty_account() {
    let store = registry("authority-key");
    let r = init_stake_account(
        &store,
        9,
        String::from("authority"),
        String::from("-key"),
        String::from("alice"),
    );
    let account = r.expect("matching seeds must succeed");
    assert_eq!(account.owner, "alice");
    assert_eq!(account.bump, 9);
    assert_eq!(account.staked_amount, 0);
    assert_eq!(account.earned_amount, 0);
    assert_eq!(account.last_stake_ts, 0);
}

#[test]
fn init_stake_account_with_mismatched_seeds_is_rejected() {
    let store = registry("authority-key");
    let r = init_stake_account(
        &store,
        9,
        String::from("authority"),
        String::from("-KEY"),
        String::from("alice"),
    );
    assert_eq!(r, Err(ErrorCode::FailedInit));
}

#[test]
fn clock_regression_on_harvest_is_rejected() {
    let caller = String::from("bob");
    let mut account = fresh_account("bob");
    assert_eq!(enter_staking(&mut account, &caller, 1000, 1000, 1000), Ok(1000));
    assert_eq!(harvest(&mut account, &caller, 1_000_000, 999), Err(ErrorCode::ClockRegression));
    assert_eq!(account.last_stake_ts, 1000);
}
