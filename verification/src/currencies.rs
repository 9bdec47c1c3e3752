use vstd::prelude::*;

use crate::dates::Date;

verus! {

/// A currency of the reference table.
pub struct Currency {
    pub id: i64,
    pub name: String,
    pub alphabetic_code: String,
    pub numeric_code: String,
    pub symbol: String,
    pub decimals: i32,
}

/// A conversion rate between two currencies on a day.
pub struct ExchangeRate {
    pub base_id: i64,
    pub target_id: i64,
    pub conversion_rate: String,
    pub precision: i32,
    pub scale: i32,
    pub date: Date,
}

/// A rate as a client submits it: currencies by code, not yet by key.
pub struct ExchangeRatePayload {
    pub base: String,
    pub target: String,
    pub conversion_rate: String,
    pub precision: i32,
    pub scale: i32,
    pub date: Date,
    pub source: String,
}

impl ExchangeRatePayload {
    /// The rate row to store once both currency codes are resolved to keys.
    pub fn into_rate(self, base_id: i64, target_id: i64) -> (r: ExchangeRate)
        ensures
            r.base_id == base_id,
            r.target_id == target_id,
            r.conversion_rate@ == self.conversion_rate@,
            r.precision == self.precision,
            r.scale == self.scale,
            r.date == self.date,
    {
        ExchangeRate {
            base_id,
            target_id,
            conversion_rate: self.conversion_rate,
            precision: self.precision,
            scale: self.scale,
            date: self.date,
        }
    }
}

} // verus!
