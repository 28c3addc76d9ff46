//! The Eurozone harmonised index of consumer prices.
use vstd::prelude::*;

use crate::currency::Currency;
use crate::indexes::inflationindex::ZeroInflationIndex;
use crate::indexes::region::Region;
use crate::time::period::{Frequency, Period, TimeUnit};

verus! {

/// The harmonised index of consumer prices of the European Union.
pub struct EuHicp;

impl EuHicp {
    /// The index: family `HICP` for the EU region, published monthly one
    /// month after its period, never revised, in euros.
    pub fn new() -> (r: ZeroInflationIndex)
        ensures
            r.base_spec().family_name_spec() == "HICP"@,
            r.base_spec().region_spec().name_spec() == "EU"@,
            !r.base_spec().revised_spec(),
            r.base_spec().frequency_spec() == Frequency::Monthly,
            r.base_spec().availability_lag_spec().length_spec() == 1,
            r.base_spec().availability_lag_spec().units_spec() == TimeUnit::Months,
            r.base_spec().currency_spec().code_spec() == "EUR"@,
    {
        ZeroInflationIndex::new(
            String::from_str("HICP"),
            Region::eu(),
            false,
            Frequency::Monthly,
            Period::new(1, TimeUnit::Months),
            Currency::eur(),
        )
    }
}

} // verus!
