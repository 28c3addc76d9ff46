//! The UK retail prices index.
use vstd::prelude::*;

use crate::currency::Currency;
use crate::indexes::inflationindex::ZeroInflationIndex;
use crate::indexes::region::Region;
use crate::time::period::{Frequency, Period, TimeUnit};

verus! {

/// The retail prices index of the United Kingdom.
pub struct UkRpi;

impl UkRpi {
    /// The index: family `RPI` for the UK region, published monthly one
    /// month after its period, never revised, in pounds.
    pub fn new() -> (r: ZeroInflationIndex)
        ensures
            r.base_spec().family_name_spec() == "RPI"@,
            r.base_spec().region_spec().name_spec() == "UK"@,
            !r.base_spec().revised_spec(),
            r.base_spec().frequency_spec() == Frequency::Monthly,
            r.base_spec().availability_lag_spec().length_spec() == 1,
            r.base_spec().availability_lag_spec().units_spec() == TimeUnit::Months,
            r.base_spec().currency_spec().code_spec() == "GBP"@,
    {
        ZeroInflationIndex::new(
            String::from_str("RPI"),
            Region::uk(),
            false,
            Frequency::Monthly,
            Period::new(1, TimeUnit::Months),
            Currency::gbp(),
        )
    }
}

} // verus!
