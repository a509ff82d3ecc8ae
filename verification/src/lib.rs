//! Multi-party escrow: a fixed group of participants approves, each with a
//! matching deposit, and the custodial funds are released once the approved
//! share reaches the record's threshold.

pub mod contract;
pub mod error;
pub mod laws;
pub mod ledger;
pub mod multisig;
pub mod ratio;
