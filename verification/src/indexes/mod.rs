//! Indexes.
pub mod fixings;
pub mod iborindex;
pub mod inflation;
pub mod inflationindex;
pub mod interestrateindex;
pub mod region;
