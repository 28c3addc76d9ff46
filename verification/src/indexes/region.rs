//! The regions inflation indexes are published for.
use vstd::prelude::*;

verus! {

/// A region an index is published for, with its name and code.
#[derive(Debug, PartialEq, Eq)]
pub struct Region {
    name: String,
    code: String,
}

impl Region {
    /// The region's name.
    pub closed spec fn name_spec(&self) -> Seq<char> {
        self.name@
    }

    /// The region's code.
    pub closed spec fn code_spec(&self) -> Seq<char> {
        self.code@
    }

    /// The United Kingdom.
    pub fn uk() -> (r: Region)
        ensures
            r.name_spec() == "UK"@,
            r.code_spec() == "UK"@,
    {
        Region { name: String::from_str("UK"), code: String::from_str("UK") }
    }

    /// The European Union.
    pub fn eu() -> (r: Region)
        ensures
            r.name_spec() == "EU"@,
            r.code_spec() == "EU"@,
    {
        Region { name: String::from_str("EU"), code: String::from_str("EU") }
    }

    /// The region's name.
    pub fn name(&self) -> (r: &str)
        ensures
            r@ == self.name_spec(),
    {
        self.name.as_str()
    }

    /// The region's code.
    pub fn code(&self) -> (r: &str)
        ensures
            r@ == self.code_spec(),
    {
        self.code.as_str()
    }
}

} // verus!
