//! Swaption settlement conventions.
use vstd::prelude::*;

use crate::errors::QlError;

verus! {

/// How a swaption is settled on exercise.
#[derive(Clone, Copy, Debug, PartialEq, Eq, Structural)]
pub enum SettlementType {
    /// The holder enters the physical swap.
    Physical,
    /// The swap's value is settled in cash.
    Cash,
}

/// The convention used to settle a swaption.
#[derive(Clone, Copy, Debug, PartialEq, Eq, Structural)]
pub enum SettlementMethod {
    /// Physical delivery, over-the-counter.
    PhysicalOTC,
    /// Physical delivery, cleared.
    PhysicalCleared,
    /// Cash settled at the collateralised cash price.
    CollateralizedCashPrice,
    /// Cash settled off the par-yield curve.
    ParYieldCurve,
}

impl Default for SettlementType {
    /// Physical settlement.
    fn default() -> (r: SettlementType)
        ensures
            r == SettlementType::Physical,
    {
        SettlementType::Physical
    }
}

impl Default for SettlementMethod {
    /// Over-the-counter physical delivery.
    fn default() -> (r: SettlementMethod)
        ensures
            r == SettlementMethod::PhysicalOTC,
    {
        SettlementMethod::PhysicalOTC
    }
}

/// Whether a settlement method belongs to the given settlement type.
pub open spec fn method_matches_type(t: SettlementType, m: SettlementMethod) -> bool {
    match t {
        SettlementType::Physical => m is PhysicalOTC || m is PhysicalCleared,
        SettlementType::Cash => m is CollateralizedCashPrice || m is ParYieldCurve,
    }
}

/// Checks that a settlement type and method are compatible: physical
/// settlement pairs with the two physical methods, cash settlement with the
/// two cash methods.
pub fn check_type_and_method_consistency(
    settlement_type: SettlementType,
    settlement_method: SettlementMethod,
) -> (r: Result<(), QlError>)
    ensures
        method_matches_type(settlement_type, settlement_method) ==> r == Ok::<(), QlError>(()),
        !method_matches_type(settlement_type, settlement_method) && settlement_type is Physical
            ==> r == Err::<(), QlError>(QlError::InvalidPhysicalSettlementMethod),
        !method_matches_type(settlement_type, settlement_method) && settlement_type is Cash ==> r
            == Err::<(), QlError>(QlError::InvalidCashSettlementMethod),
{
    match settlement_type {
        SettlementType::Physical => match settlement_method {
            SettlementMethod::PhysicalOTC | SettlementMethod::PhysicalCleared => Ok(()),
            _ => Err(QlError::InvalidPhysicalSettlementMethod),
        },
        SettlementType::Cash => match settlement_method {
            SettlementMethod::CollateralizedCashPrice | SettlementMethod::ParYieldCurve => Ok(()),
            _ => Err(QlError::InvalidCashSettlementMethod),
        },
    }
}

} // verus!
