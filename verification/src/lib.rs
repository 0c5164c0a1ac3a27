//! A time-based staking ledger: depositors lock a fungible asset into a
//! shared custody pool and accrue simple, non-compounding daily interest on
//! their locked balance; they may later withdraw principal plus reward, or
//! harvest reward alone.
//!
//! The crate holds the pure core: the reward-accrual arithmetic, the
//! per-depositor stake-account state machine, the pool registry metadata, and
//! the custody-solvency guard that never approves a payout the pool cannot
//! cover. The host execution environment — account storage, signature checks,
//! the clock reading, and the gateway that actually moves asset units — stays
//! outside: each operation here takes the host-supplied balances and the
//! clock reading as plain values and returns the transfer amount the host
//! must execute on success.

pub mod accrual;
pub mod account;
pub mod errors;
pub mod registry;
pub mod title;

pub use accrual::accrue;
pub use account::StakeInfoAccount;
pub use account::enter_staking;
pub use account::harvest;
pub use account::init_stake_account;
pub use account::start_unstaking;
pub use errors::ErrorCode;
pub use registry::PoolBumps;
pub use registry::StoreAccount;
pub use registry::can_pay;
pub use registry::initialize;
pub use title::TrimAsciiWhitespace;
