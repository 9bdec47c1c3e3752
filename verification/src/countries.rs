use vstd::prelude::*;

verus! {

/// How a country can be looked up: by its numeric key or by its ISO code.
pub enum CountryIndexes {
    Id(i64),
    Iso(String),
}

} // verus!
