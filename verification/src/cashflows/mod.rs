//! Cash flows and the analytics over a leg of them.
pub mod cashflow;
pub mod cashflows;
pub mod coupon;
pub mod fixedrateleg;
pub mod iborcoupon;
pub mod iborleg;
pub mod overnightindexedcoupon;
pub mod overnightleg;
pub mod yoyinflationcoupon;
pub mod yoyinflationleg;
