//! The reward-accrual engine: a pure function turning elapsed time and
//! principal into additional reward.
//!
//! Reward is simple, non-compounding interest: 0.05% of the pre-transaction
//! principal per full elapsed day, with partial days earning nothing and
//! every division truncating. Each arithmetic step is checked; an overflow
//! aborts the instruction instead of wrapping, and a clock reading earlier
//! than the last recorded accrual is rejected outright.

use vstd::prelude::*;

use crate::errors::ErrorCode;

verus! {

/// Seconds in one day.
pub const DAY_IN_SECONDS: i64 = 86400;

/// Numerator of the daily reward rate.
pub const DAILY_REWARD_RATE: u64 = 5;

/// Denominator of the daily reward rate; 5 / 10000 is 0.05% per full day.
pub const RATE_DENOMINATOR: u64 = 10000;

/// Whole days elapsed between the last recorded accrual and the current
/// clock reading; partial days earn nothing.
pub open spec fn spec_elapsed_days(last_ts: int, now: int) -> int {
    (now - last_ts) / (DAY_IN_SECONDS as int)
}

/// The reward before the rate division: principal times elapsed days times
/// the rate numerator.
pub open spec fn spec_reward_numerator(staked: int, days: int) -> int {
    staked * days * (DAILY_REWARD_RATE as int)
}

/// Reward earned on a principal of `staked` over `days` full days,
/// truncated by the rate division.
pub open spec fn spec_reward(staked: int, days: int) -> int {
    spec_reward_numerator(staked, days) / (RATE_DENOMINATOR as int)
}

/// The earned balance once reward has been brought up to date at `now`.
pub open spec fn spec_accrued_earned(staked: int, earned: int, last_ts: int, now: int) -> int {
    earned + spec_reward(staked, spec_elapsed_days(last_ts, now))
}

/// When accrual succeeds: the clock has not regressed, the elapsed time fits
/// a signed 64-bit value, and every checked arithmetic step fits an unsigned
/// 64-bit value.
pub open spec fn spec_accrue_ok(staked: int, earned: int, last_ts: int, now: int) -> bool {
    let days = spec_elapsed_days(last_ts, now);
    &&& last_ts <= now
    &&& now - last_ts <= i64::MAX
    &&& staked * days <= u64::MAX
    &&& spec_reward_numerator(staked, days) <= u64::MAX
    &&& earned + spec_reward(staked, days) <= u64::MAX
}

/// Brings the earned reward up to date: computes the reward owed on
/// `staked_amount` for the full days elapsed since `last_ts`, and returns
/// the new earned balance together with the new accrual timestamp `now`.
///
/// Fails with `ClockRegression` exactly when `now` is earlier than
/// `last_ts`, and with `AmountOverflow` exactly when some checked arithmetic
/// step would exceed its machine type.
pub fn accrue(staked_amount: u64, earned_amount: u64, last_ts: i64, now: i64) -> (r: Result<
    (u64, i64),
    ErrorCode,
>)
    ensures
        r is Ok <==> spec_accrue_ok(
            staked_amount as int,
            earned_amount as int,
            last_ts as int,
            now as int,
        ),
        r is Ok ==> r == Ok::<(u64, i64), ErrorCode>(
            (
                spec_accrued_earned(
                    staked_amount as int,
                    earned_amount as int,
                    last_ts as int,
                    now as int,
                ) as u64,
                now,
            ),
        ),
        now < last_ts <==> r == Err::<(u64, i64), ErrorCode>(ErrorCode::ClockRegression),
        last_ts <= now && !spec_accrue_ok(
            staked_amount as int,
            earned_amount as int,
            last_ts as int,
            now as int,
        ) ==> r == Err::<(u64, i64), ErrorCode>(ErrorCode::AmountOverflow),
{
    if now < last_ts {
        return Err(ErrorCode::ClockRegression);
    }
    let elapsed: i64 = match now.checked_sub(last_ts) {
        Some(d) => d,
        None => {
            return Err(ErrorCode::AmountOverflow);
        },
    };
    let days: u64 = (elapsed as u64) / (DAY_IN_SECONDS as u64);
    let base: u64 = match staked_amount.checked_mul(days) {
        Some(v) => v,
        None => {
            return Err(ErrorCode::AmountOverflow);
        },
    };
    let numerator: u64 = match base.checked_mul(DAILY_REWARD_RATE) {
        Some(v) => v,
        None => {
            return Err(ErrorCode::AmountOverflow);
        },
    };
    let reward: u64 = numerator / RATE_DENOMINATOR;
    let new_earned: u64 = match earned_amount.checked_add(reward) {
        Some(v) => v,
        None => {
            return Err(ErrorCode::AmountOverflow);
        },
    };
    Ok((new_earned, now))
}

/// Before a full day has elapsed, bringing reward up to date changes
/// nothing: in particular, accruing a second time at the very timestamp the
/// previous accrual recorded leaves the earned balance as it was.
pub proof fn lemma_accrue_within_day_is_noop(staked: int, earned: int, last_ts: int, now: int)
    requires
        0 <= staked <= u64::MAX,
        0 <= earned <= u64::MAX,
        last_ts <= now,
        now - last_ts < DAY_IN_SECONDS,
    ensures
        spec_elapsed_days(last_ts, now) == 0,
        spec_accrue_ok(staked, earned, last_ts, now),
        spec_accrued_earned(staked, earned, last_ts, now) == earned,
{
    assert(spec_reward_numerator(staked, 0) == 0);
}

} // verus!
