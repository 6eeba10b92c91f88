//! Fixed-term yield positions ("wexels"): deposit, boost, accrual, claims,
//! collateralized loans and redemption, with every rule and every amount
//! stated as a contract and proved.

pub mod rates;

pub mod ledger;
pub mod laws;
pub mod outcome;
pub mod takara;

pub use rates::Pubkey;
