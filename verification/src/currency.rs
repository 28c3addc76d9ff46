//! Currencies, by their ISO code.
use vstd::prelude::*;

verus! {

/// A currency, known by its ISO 4217 code.
#[derive(Debug, PartialEq, Eq)]
pub struct Currency {
    code: String,
}

impl Currency {
    /// The ISO 4217 code.
    pub closed spec fn code_spec(&self) -> Seq<char> {
        self.code@
    }

    /// The euro.
    pub fn eur() -> (r: Currency)
        ensures
            r.code_spec() == "EUR"@,
    {
        Currency { code: String::from_str("EUR") }
    }

    /// The British pound.
    pub fn gbp() -> (r: Currency)
        ensures
            r.code_spec() == "GBP"@,
    {
        Currency { code: String::from_str("GBP") }
    }

    /// The ISO 4217 code.
    pub fn code(&self) -> (r: &str)
        ensures
            r@ == self.code_spec(),
    {
        self.code.as_str()
    }

    /// A copy of the currency.
    pub fn copied(&self) -> (r: Currency)
        ensures
            r.code_spec() == self.code_spec(),
    {
        Currency { code: self.code.clone() }
    }
}

} // verus!
