//! A deposit-backed token ledger: native-asset deposits credit an internal
//! balance per (owner, denomination), withdrawals debit it, and both are gated
//! by a default-deny whitelist of denominations.

pub mod laws;
pub mod ledger;
pub mod msg;
pub mod whitelist;
