//! Verified core of a quantitative-finance library.
use vstd::prelude::*;

pub mod cashflows;
pub mod currency;
pub mod errors;
pub mod exercise;
pub mod handle;
pub mod indexes;
pub mod instruments;
pub mod interestrate;
pub mod patterns;
pub mod settings;
pub mod time;

verus! {
}
