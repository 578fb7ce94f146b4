//! A staking-and-reward-distribution ledger.
//!
//! Participants lock ownership of discrete assets into a shared pool (a
//! [`Vault`](state::Vault)) and the pool streams a reward token to each
//! participant in proportion to how many assets they have staked and for how
//! long. The reward rate is a fixed-point value (scaled by
//! [`CALC_PRECISION`](state::CALC_PRECISION)) that the vault authority or a
//! delegated funder can top up over time.
//!
//! This crate holds the vault/user state machine itself: the accrual formula,
//! the funding protocol, and the stake/unstake/claim/lifecycle transitions,
//! each as a pure function over plain record values with a verified contract.
//! Identity and signature checks, account storage, and the actual movement of
//! tokens between accounts are the hosting environment's concern: callers
//! authenticate identities, inject the current time, and perform the ledger
//! transfers that a successful transition calls for.

pub mod claim;
pub mod fund;
pub mod funders;
pub mod laws;
pub mod lifecycle;
pub mod staking;
pub mod state;
pub mod util;
