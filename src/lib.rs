//! Client accounts and a ledger that applies deposits, withdrawals and the dispute
//! lifecycle (dispute, then resolve or chargeback) to them, in arrival order.
//!
//! Amounts are fixed-point integers in ten-thousandths of a currency unit.

pub mod client;
pub mod decimal;
pub mod ledger;
pub mod transaction;
