//! A time-boxed crowdfunding campaign ledger.
//!
//! Donors deposit funds before a deadline; afterwards the campaign is
//! `Successful` if the pooled balance reached the target (the owner may
//! drain the pool) or `Failed` otherwise (each donor may reclaim their own
//! deposit). The ledger enforces every rule: status derivation from time
//! and funds, per-donor accounting, and the deposit and withdrawal guards.

pub mod campaign;
pub mod ledger;
pub mod laws;
