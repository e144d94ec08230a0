//! A custodial value-transfer engine: a balance ledger with authorization
//! rules, a mint authority with an irreversible emergency stop, and a
//! buyer/seller escrow workflow (order -> payment -> completion) over that
//! ledger.

pub mod errors;
pub mod ledger;
pub mod marketplace;
pub mod token_manager;
