//! Accounting and settlement core of an on-chain casino: a liquidity pool that
//! mints and burns shares against deposits and withdrawals, and a dice table
//! that takes wagers, resolves them from block entropy one block later and
//! reports each outcome back to the pool.

pub mod bytes;
pub mod entropy;
pub mod error;
pub mod ledger;
pub mod msg;
pub mod payout;
pub mod pool;
pub mod share_value;
pub mod table;
