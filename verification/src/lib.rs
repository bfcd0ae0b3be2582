//! An escrow-and-release protocol for geotagged data submissions.
//!
//! A submitter places a deposit alongside a data record (content hash,
//! coordinates, price). Credentialed voters approve or reject the record.
//! Once a time-lock has elapsed, the submitter may reclaim the deposit if
//! and only if approvals meet or exceed rejections; a successful release
//! mints a fixed reward of the credential to the submitter and destroys
//! the record.
//!
//! The host ledger (account allocation, signature checks, value transfer,
//! credential mint, clock) is an external collaborator: operations take the
//! balances and the current time as plain values and report the transfers
//! and mints to apply. Every state transition is decided here and verified.

pub mod config;
pub mod errors;
pub mod laws;
pub mod record;
pub mod system;
