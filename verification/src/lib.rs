//! A verified custody ledger for software bounties.
//!
//! A proposer locks a payment against a (repository owner, repository URL,
//! issue) identity, solvers register interest, and the proposer later releases
//! the locked payment to exactly one previously registered solver. The
//! lifecycle state machine lives in [`x_bounty`], the keyed record store in
//! [`storage`], and the notification log in [`events`].
//!
//! The host environment supplies caller identity and block time and performs
//! the actual value movement; every operation here takes those as plain values
//! and reports the payout it commits to as a [`x_bounty::Transfer`]
//! instruction, so that the commit and the transfer form one atomic unit.

pub mod events;
pub mod storage;
pub mod x_bounty;
