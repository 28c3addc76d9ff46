//! The inflation indexes of particular regions.
pub mod euhicp;
pub mod ukrpi;
