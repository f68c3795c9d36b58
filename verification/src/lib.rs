//! A ledger for employee token-vesting grants inside organizations.
//!
//! The library tracks organizations, their employees, and per-employee
//! vesting schedules, computes how much of a grant has vested at any point
//! in time, and governs claiming and early revocation. Record storage is an
//! explicit keyed store held in [`ledger::VestingLedger`]; token custody and
//! caller authentication are external collaborators, so every operation takes
//! the caller's identity and the current time as plain values and reports the
//! escrow transfer it requires as a plain amount.

pub mod constants;
pub mod dashboard;
pub mod errors;
pub mod ledger;
pub mod states;
