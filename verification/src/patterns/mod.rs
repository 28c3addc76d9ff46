//! The observer pattern: observables and what they notify.
pub mod observable;
