//! The per-depositor stake account and its state machine.
//!
//! An account is created empty by an explicit init step and mutated only by
//! the three operational transitions: deposit, begin-withdraw and harvest.
//! Every transition first brings the earned reward up to date against the
//! principal as it stood before the transition, then applies its balance
//! change. Each operation is atomic: on any error the account is left
//! exactly as it was and no transfer amount is returned.
//!
//! The host hands every operation one clock reading and the balances it
//! read, and executes the returned transfer amount only on success; the
//! authorization gate of the host has already checked the caller's
//! signature and ownership, which the contracts here record as
//! preconditions.

use vstd::prelude::*;
use vstd::string::StringExecFns;

use crate::accrual::accrue;
use crate::accrual::spec_accrue_ok;
use crate::accrual::spec_accrued_earned;
use crate::errors::ErrorCode;
use crate::registry::StoreAccount;
use crate::registry::can_pay;

verus! {

/// Per-depositor ledger entry: the owner identity, the derivation
/// discriminator of the entry's address, the locked principal, the
/// unharvested reward, and the timestamp of the last accrual.
#[derive(Clone, Debug, PartialEq)]
pub struct StakeInfoAccount {
    pub owner: String,
    pub bump: u8,
    pub staked_amount: u64,
    pub earned_amount: u64,
    pub last_stake_ts: i64,
}

/// Accrual over the account's own fields succeeds at clock reading `now`.
pub open spec fn spec_account_accrue_ok(pre: StakeInfoAccount, now: i64) -> bool {
    spec_accrue_ok(
        pre.staked_amount as int,
        pre.earned_amount as int,
        pre.last_stake_ts as int,
        now as int,
    )
}

/// The earned balance of the account once reward is brought up to date at
/// `now`.
pub open spec fn spec_account_accrued_earned(pre: StakeInfoAccount, now: i64) -> int {
    spec_accrued_earned(
        pre.staked_amount as int,
        pre.earned_amount as int,
        pre.last_stake_ts as int,
        now as int,
    )
}

/// When a deposit succeeds: a positive amount, a caller balance that covers
/// it, a successful accrual, and a principal that still fits its machine
/// type.
pub open spec fn spec_enter_ok(
    pre: StakeInfoAccount,
    amount: u64,
    user_balance: u64,
    now: i64,
) -> bool {
    &&& amount >= 1
    &&& user_balance >= amount
    &&& spec_account_accrue_ok(pre, now)
    &&& pre.staked_amount + amount <= u64::MAX
}

/// The account after a successful deposit: reward accrued on the
/// pre-transaction principal, the amount added to the principal, and the
/// accrual timestamp moved to `now`.
pub open spec fn spec_enter_post(pre: StakeInfoAccount, amount: u64, now: i64) -> StakeInfoAccount {
    StakeInfoAccount {
        owner: pre.owner,
        bump: pre.bump,
        staked_amount: (pre.staked_amount + amount) as u64,
        earned_amount: spec_account_accrued_earned(pre, now) as u64,
        last_stake_ts: now,
    }
}

/// The payout a withdrawal owes: the requested principal plus the whole
/// earned balance after accrual.
pub open spec fn spec_unstake_payout(pre: StakeInfoAccount, amount: u64, now: i64) -> int {
    amount + spec_account_accrued_earned(pre, now)
}

/// When a withdrawal succeeds: a non-empty account, an amount within the
/// staked balance, a successful accrual, a payout that fits its machine
/// type, and a custody balance that covers the payout.
pub open spec fn spec_unstake_ok(
    pre: StakeInfoAccount,
    amount: u64,
    custody_balance: u64,
    now: i64,
) -> bool {
    &&& pre.staked_amount >= 1
    &&& amount <= pre.staked_amount
    &&& spec_account_accrue_ok(pre, now)
    &&& spec_unstake_payout(pre, amount, now) <= u64::MAX
    &&& spec_unstake_payout(pre, amount, now) <= custody_balance
}

/// The account after a successful withdrawal: the amount leaves the
/// principal, the earned balance is paid out in full and reset, and the
/// accrual timestamp moves to `now`.
pub open spec fn spec_unstake_post(
    pre: StakeInfoAccount,
    amount: u64,
    now: i64,
) -> StakeInfoAccount {
    StakeInfoAccount {
        owner: pre.owner,
        bump: pre.bump,
        staked_amount: (pre.staked_amount - amount) as u64,
        earned_amount: 0,
        last_stake_ts: now,
    }
}

/// The payout a harvest owes: the whole earned balance after accrual.
pub open spec fn spec_harvest_payout(pre: StakeInfoAccount, now: i64) -> int {
    spec_account_accrued_earned(pre, now)
}

/// When a harvest succeeds: a non-empty account, a successful accrual, a
/// reward of at least one unit, and a custody balance that covers it.
pub open spec fn spec_harvest_ok(pre: StakeInfoAccount, custody_balance: u64, now: i64) -> bool {
    &&& pre.staked_amount >= 1
    &&& spec_account_accrue_ok(pre, now)
    &&& spec_harvest_payout(pre, now) >= 1
    &&& spec_harvest_payout(pre, now) <= custody_balance
}

/// The account after a successful harvest: the principal stays untouched —
/// future accrual resumes against it — the earned balance is paid out and
/// reset, and the accrual timestamp moves to `now`.
pub open spec fn spec_harvest_post(pre: StakeInfoAccount, now: i64) -> StakeInfoAccount {
    StakeInfoAccount {
        owner: pre.owner,
        bump: pre.bump,
        staked_amount: pre.staked_amount,
        earned_amount: 0,
        last_stake_ts: now,
    }
}

/// Creates the per-depositor entry for a pool. Succeeds exactly when the
/// supplied two-part seed concatenates to the registry's authority identity
/// — the access-control check gating who may create a stake record for the
/// pool — and then starts the owner's ledger empty; otherwise nothing is
/// created.
pub fn init_stake_account(
    store_account: &StoreAccount,
    bump: u8,
    seed0: String,
    seed1: String,
    owner: String,
) -> (r: Result<StakeInfoAccount, ErrorCode>)
    ensures
        r is Ok <==> seed0@ + seed1@ == store_account.store_authority@,
        r matches Ok(a) ==> a.owner == owner && a.bump == bump && a.staked_amount == 0
            && a.earned_amount == 0 && a.last_stake_ts == 0,
        seed0@ + seed1@ != store_account.store_authority@ ==> r == Err::<
            StakeInfoAccount,
            ErrorCode,
        >(ErrorCode::FailedInit),
{
    let combined: String = seed0.concat(seed1.as_str());
    if !(combined == store_account.store_authority) {
        return Err(ErrorCode::FailedInit);
    }
    Ok(
        StakeInfoAccount {
            owner,
            bump,
            staked_amount: 0,
            earned_amount: 0,
            last_stake_ts: 0,
        },
    )
}

/// The deposit transition. Brings reward up to date against the principal
/// as it stood before the deposit, then adds `amount` to the principal. On
/// success returns the amount the host must transfer from the caller's
/// holding into custody; on any error the account is unchanged and nothing
/// is transferred.
pub fn enter_staking(
    stake_account: &mut StakeInfoAccount,
    caller: &String,
    amount: u64,
    user_balance: u64,
    now: i64,
) -> (r: Result<u64, ErrorCode>)
    requires
        caller@ == old(stake_account).owner@,
    ensures
        r is Ok <==> spec_enter_ok(*old(stake_account), amount, user_balance, now),
        r is Ok ==> r == Ok::<u64, ErrorCode>(amount) && *final(stake_account) == spec_enter_post(
            *old(stake_account),
            amount,
            now,
        ),
        r is Err ==> *final(stake_account) == *old(stake_account),
        r is Ok ==> old(stake_account).last_stake_ts <= final(stake_account).last_stake_ts,
        amount < 1 ==> r == Err::<u64, ErrorCode>(ErrorCode::ZeroSeeded),
        amount >= 1 && user_balance < amount ==> r == Err::<u64, ErrorCode>(ErrorCode::LowSeeded),
        amount >= 1 && user_balance >= amount && now < old(stake_account).last_stake_ts ==> r
            == Err::<u64, ErrorCode>(ErrorCode::ClockRegression),
        amount >= 1 && user_balance >= amount && now >= old(stake_account).last_stake_ts
            && !spec_enter_ok(*old(stake_account), amount, user_balance, now) ==> r == Err::<
            u64,
            ErrorCode,
        >(ErrorCode::AmountOverflow),
{
    if amount < 1 {
        return Err(ErrorCode::ZeroSeeded);
    }
    if user_balance < amount {
        return Err(ErrorCode::LowSeeded);
    }
    let accrued = match accrue(
        stake_account.staked_amount,
        stake_account.earned_amount,
        stake_account.last_stake_ts,
        now,
    ) {
        Ok(p) => p,
        Err(e) => {
            return Err(e);
        },
    };
    let new_staked: u64 = match stake_account.staked_amount.checked_add(amount) {
        Some(v) => v,
        None => {
            return Err(ErrorCode::AmountOverflow);
        },
    };
    stake_account.staked_amount = new_staked;
    stake_account.earned_amount = accrued.0;
    stake_account.last_stake_ts = accrued.1;
    Ok(amount)
}

/// The begin-withdraw transition. Brings reward up to date, computes the
/// payout — the requested principal plus the whole earned balance — and asks
/// the solvency guard to approve it against the custody balance. On success
/// the principal shrinks by `amount`, the earned balance resets, and the
/// returned payout is what the host must transfer from custody to the
/// owner; on any error the account is unchanged and nothing is transferred.
pub fn start_unstaking(
    stake_account: &mut StakeInfoAccount,
    caller: &String,
    amount: u64,
    custody_balance: u64,
    now: i64,
) -> (r: Result<u64, ErrorCode>)
    requires
        caller@ == old(stake_account).owner@,
    ensures
        r is Ok <==> spec_unstake_ok(*old(stake_account), amount, custody_balance, now),
        r is Ok ==> r == Ok::<u64, ErrorCode>(
            spec_unstake_payout(*old(stake_account), amount, now) as u64,
        ) && *final(stake_account) == spec_unstake_post(*old(stake_account), amount, now),
        r matches Ok(payout) ==> payout <= custody_balance,
        r is Err ==> *final(stake_account) == *old(stake_account),
        r is Ok ==> old(stake_account).last_stake_ts <= final(stake_account).last_stake_ts,
        old(stake_account).staked_amount < 1 ==> r == Err::<u64, ErrorCode>(ErrorCode::NoStaked),
        old(stake_account).staked_amount >= 1 && amount > old(stake_account).staked_amount ==> r
            == Err::<u64, ErrorCode>(ErrorCode::LowWithdraw),
        old(stake_account).staked_amount >= 1 && amount <= old(stake_account).staked_amount && now
            < old(stake_account).last_stake_ts ==> r == Err::<u64, ErrorCode>(
            ErrorCode::ClockRegression,
        ),
        old(stake_account).staked_amount >= 1 && amount <= old(stake_account).staked_amount && now
            >= old(stake_account).last_stake_ts && !(spec_account_accrue_ok(
            *old(stake_account),
            now,
        ) && spec_unstake_payout(*old(stake_account), amount, now) <= u64::MAX) ==> r == Err::<
            u64,
            ErrorCode,
        >(ErrorCode::AmountOverflow),
        old(stake_account).staked_amount >= 1 && amount <= old(stake_account).staked_amount
            && spec_account_accrue_ok(*old(stake_account), now) && spec_unstake_payout(
            *old(stake_account),
            amount,
            now,
        ) <= u64::MAX && spec_unstake_payout(*old(stake_account), amount, now) > custody_balance
            ==> r == Err::<u64, ErrorCode>(ErrorCode::NoEnoughPool),
{
    if stake_account.staked_amount < 1 {
        return Err(ErrorCode::NoStaked);
    }
    if stake_account.staked_amount < amount {
        return Err(ErrorCode::LowWithdraw);
    }
    let accrued = match accrue(
        stake_account.staked_amount,
        stake_account.earned_amount,
        stake_account.last_stake_ts,
        now,
    ) {
        Ok(p) => p,
        Err(e) => {
            return Err(e);
        },
    };
    let payout: u64 = match amount.checked_add(accrued.0) {
        Some(v) => v,
        None => {
            return Err(ErrorCode::AmountOverflow);
        },
    };
    if !can_pay(custody_balance, payout) {
        return Err(ErrorCode::NoEnoughPool);
    }
    stake_account.staked_amount = stake_account.staked_amount - amount;
    stake_account.earned_amount = 0;
    stake_account.last_stake_ts = accrued.1;
    Ok(payout)
}

/// The harvest transition. Brings reward up to date, pays out the whole
/// earned balance — at least one unit, approved by the solvency guard — and
/// leaves the principal untouched so that future accrual resumes against
/// it. On success the returned payout is what the host must transfer from
/// custody to the owner; on any error the account is unchanged and nothing
/// is transferred.
pub fn harvest(
    stake_account: &mut StakeInfoAccount,
    caller: &String,
    custody_balance: u64,
    now: i64,
) -> (r: Result<u64, ErrorCode>)
    requires
        caller@ == old(stake_account).owner@,
    ensures
        r is Ok <==> spec_harvest_ok(*old(stake_account), custody_balance, now),
        r is Ok ==> r == Ok::<u64, ErrorCode>(
            spec_harvest_payout(*old(stake_account), now) as u64,
        ) && *final(stake_account) == spec_harvest_post(*old(stake_account), now),
        r matches Ok(payout) ==> payout <= custody_balance,
        r is Ok ==> final(stake_account).staked_amount == old(stake_account).staked_amount,
        r is Err ==> *final(stake_account) == *old(stake_account),
        r is Ok ==> old(stake_account).last_stake_ts <= final(stake_account).last_stake_ts,
        old(stake_account).staked_amount < 1 ==> r == Err::<u64, ErrorCode>(ErrorCode::NoStaked),
        old(stake_account).staked_amount >= 1 && now < old(stake_account).last_stake_ts ==> r
            == Err::<u64, ErrorCode>(ErrorCode::ClockRegression),
        old(stake_account).staked_amount >= 1 && now >= old(stake_account).last_stake_ts
            && !spec_account_accrue_ok(*old(stake_account), now) ==> r == Err::<u64, ErrorCode>(
            ErrorCode::AmountOverflow,
        ),
        old(stake_account).staked_amount >= 1 && spec_account_accrue_ok(*old(stake_account), now)
            && spec_harvest_payout(*old(stake_account), now) < 1 ==> r == Err::<u64, ErrorCode>(
            ErrorCode::NoEnoughHarvest,
        ),
        old(stake_account).staked_amount >= 1 && spec_account_accrue_ok(*old(stake_account), now)
            && spec_harvest_payout(*old(stake_account), now) >= 1 && spec_harvest_payout(
            *old(stake_account),
            now,
        ) > custody_balance ==> r == Err::<u64, ErrorCode>(ErrorCode::NoEnoughPool),
{
    if stake_account.staked_amount < 1 {
        return Err(ErrorCode::NoStaked);
    }
    let accrued = match accrue(
        stake_account.staked_amount,
        stake_account.earned_amount,
        stake_account.last_stake_ts,
        now,
    ) {
        Ok(p) => p,
        Err(e) => {
            return Err(e);
        },
    };
    let harvest_amount: u64 = accrued.0;
    if harvest_amount < 1 {
        return Err(ErrorCode::NoEnoughHarvest);
    }
    if !can_pay(custody_balance, harvest_amount) {
        return Err(ErrorCode::NoEnoughPool);
    }
    stake_account.earned_amount = 0;
    stake_account.last_stake_ts = accrued.1;
    Ok(harvest_amount)
}

/// One successful operation with the given parameters leads from `pre` to
/// `post`: a deposit, a withdrawal, or a harvest.
pub open spec fn spec_step_with(
    pre: StakeInfoAccount,
    post: StakeInfoAccount,
    amount: u64,
    user_balance: u64,
    custody_balance: u64,
    now: i64,
) -> bool {
    ||| (spec_enter_ok(pre, amount, user_balance, now) && post == spec_enter_post(pre, amount, now))
    ||| (spec_unstake_ok(pre, amount, custody_balance, now) && post == spec_unstake_post(
        pre,
        amount,
        now,
    ))
    ||| (spec_harvest_ok(pre, custody_balance, now) && post == spec_harvest_post(pre, now))
}

/// Some successful operation leads from `pre` to `post`.
pub open spec fn spec_step(pre: StakeInfoAccount, post: StakeInfoAccount) -> bool {
    exists|amount: u64, user_balance: u64, custody_balance: u64, now: i64|
        spec_step_with(pre, post, amount, user_balance, custody_balance, now)
}

/// Balances can never be driven below zero: principal and unharvested
/// reward are unsigned machine integers, so the bound holds of every state
/// the operations can produce, and in particular along every reachable
/// sequence of deposits, withdrawals and harvests.
pub proof fn lemma_balances_nonnegative(account: StakeInfoAccount)
    ensures
        account.staked_amount >= 0,
        account.earned_amount >= 0,
{
}

/// A single successful operation never moves the accrual timestamp
/// backwards: each one records the clock reading it accrued at, and accrual
/// rejects a reading earlier than the last recorded one.
pub proof fn lemma_step_ts_nondecreasing(pre: StakeInfoAccount, post: StakeInfoAccount)
    requires
        spec_step(pre, post),
    ensures
        pre.last_stake_ts <= post.last_stake_ts,
{
    let (amount, user_balance, custody_balance, now) = choose|
        amount: u64,
        user_balance: u64,
        custody_balance: u64,
        now: i64,
    | spec_step_with(pre, post, amount, user_balance, custody_balance, now);
    assert(pre.last_stake_ts <= now && post.last_stake_ts == now);
}

/// Along any chain of states related by successful operations, the accrual
/// timestamp is non-decreasing from every earlier state to every later one.
pub proof fn lemma_trace_ts_nondecreasing(trace: Seq<StakeInfoAccount>, i: int, j: int)
    requires
        forall|k: int| 0 <= k < trace.len() - 1 ==> #[trigger] spec_step(trace[k], trace[k + 1]),
        0 <= i <= j < trace.len(),
    ensures
        trace[i].last_stake_ts <= trace[j].last_stake_ts,
    decreases j - i,
{
    if i < j {
        lemma_trace_ts_nondecreasing(trace, i, j - 1);
        let k: int = j - 1;
        assert(spec_step(trace[k], trace[k + 1]));
        lemma_step_ts_nondecreasing(trace[k], trace[k + 1]);
    }
}

} // verus!
