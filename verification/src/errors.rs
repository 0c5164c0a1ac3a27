//! The error taxonomy. Every failing check aborts the whole instruction
//! before any state mutation, so a caller who receives an error may assume
//! nothing was changed and nothing was transferred.

use vstd::prelude::*;

verus! {

/// Why an instruction was rejected.
///
/// Validation errors (`ZeroSeeded`, `LowSeeded`, `FailedInit`) reject bad
/// caller input before any mutation; state errors (`NoStaked`,
/// `LowWithdraw`, `NoEnoughHarvest`) reject a transition the current account
/// state does not allow; `NoEnoughPool` is the custody-solvency refusal that
/// must never be bypassed; `ClockRegression` is defensive, raised only when
/// the host clock runs backwards; `AmountOverflow` is raised where a checked
/// arithmetic step would wrap.
#[derive(Clone, Copy, Debug, PartialEq, Eq, Structural)]
pub enum ErrorCode {
    /// Deposit amount below the minimum of one unit.
    ZeroSeeded,
    /// Nothing withdrawable.
    EmptySeeded,
    /// Custody pool cannot cover the requested withdrawal or harvest.
    NoEnoughPool,
    /// No reward of at least one unit to harvest.
    NoEnoughHarvest,
    /// Withdrawal amount exceeds the staked balance.
    LowWithdraw,
    /// The account has no staked balance.
    NoStaked,
    /// Caller's transferable balance is below the deposit amount.
    LowSeeded,
    /// The supplied seed pair does not match the registry authority identity.
    FailedInit,
    /// Insufficient redeemable tokens.
    LowRedeemable,
    /// Totals of the asset and its redeemable counterpart disagree.
    SeededNotEqRedeem,
    /// The host clock reading is earlier than the last recorded accrual.
    ClockRegression,
    /// A balance or reward computation would exceed the unsigned 64-bit range.
    AmountOverflow,
}

} // verus!
