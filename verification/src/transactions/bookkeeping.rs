use vstd::prelude::*;

use crate::decimal::Decimal;

verus! {

/// A recorded income; the timestamp is seconds since the Unix epoch.
pub struct Income {
    pub user_id: i64,
    pub amount: Decimal,
    pub date: i64,
    pub description: Option<String>,
    pub comment: Option<String>,
    pub currency_id: i64,
    pub amount_converted: Decimal,
}

/// A recorded expense.
pub struct Expense {
    pub user_id: i64,
    pub amount: Decimal,
    pub date: i64,
    pub description: Option<String>,
    pub comment: Option<String>,
    pub currency_id: i64,
}

/// A recorded investment: a position in an asset with its costs.
pub struct Investment {
    pub fee: Decimal,
    pub quantity: Decimal,
    pub cost: Decimal,
    pub user_id: i64,
    pub amount: Decimal,
    pub date: i64,
    pub description: Option<String>,
    pub comment: Option<String>,
    pub currency_id: i64,
    pub asset_type: String,
    pub asset_id: i64,
}

} // verus!
