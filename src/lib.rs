//! Interest-claim reconciliation for an interest-bearing, fee-withholding token.
//!
//! A holder's accrued interest is the gap between the balance the interest
//! extension reports and the raw stored balance. It is settled from the
//! withheld-fee pool first, and new supply is minted only for the shortfall.
use vstd::prelude::*;

pub mod constants;
pub mod claim_interest;
pub mod authority;
pub mod ledger;
pub mod ui_amount;
pub mod interest;
