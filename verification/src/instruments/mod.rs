//! Financial instruments.
pub mod creditdefaultswap;
pub mod fixedvsfloatingswap;
pub mod forwardrateagreement;
pub mod inflationcapfloor;
pub mod makeois;
pub mod makeyoyinflationcapfloor;
pub mod overnightindexedswap;
pub mod swap;
pub mod swaption;
pub mod vanillaswap;
pub mod yearonyearinflationswap;
pub mod zerocouponinflationswap;
