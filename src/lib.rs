//! Economic core of a yield-bearing staking and subscription-billing
//! ledger: a global accrual index over locked tranches, yield claims split
//! between operator and depositor, a catalog of services and budget-gated
//! subscriptions, and the request/callback protocol of a confidential
//! engine whose arithmetic runs off-ledger.

pub mod constants;
pub mod error;
pub mod keys;
pub mod accrual;
pub mod tranche;
pub mod position;
pub mod catalog;
pub mod subscriptions;
pub mod due;
pub mod staking;
pub mod subscribing;
pub mod confidential;
pub mod circuits;
pub mod views;
