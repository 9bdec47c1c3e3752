use vstd::prelude::*;

use crate::dates::Date;
use crate::decimal::Decimal;

verus! {

/// The security a trade concerns.
pub struct AssetDetail {
    pub category: String,
    pub name: String,
    pub company_id: Option<i64>,
}

/// The investment side of a movement: how much of the asset at what cost.
pub struct InvestmentDetail {
    pub quantity: Decimal,
    pub cost: Decimal,
    pub asset_id: i64,
}

/// The descriptive side of a movement.
pub struct TransactionDetail {
    pub description: Option<String>,
    pub comment: Option<String>,
    pub original_amount: Decimal,
    pub fee: Decimal,
}

/// The ledger entry of a movement.
pub struct Transaction {
    pub user_id: i64,
    pub details_id: Option<i64>,
    pub account_id: i64,
    pub date: Date,
    pub amount: Decimal,
    pub category: String,
}

impl Transaction {
    /// Stamps the entry with its owner and its stored details; the movement
    /// itself is untouched.
    pub fn assign_owner(&mut self, user_id: i64, details_id: i64)
        ensures
            final (self).user_id == user_id,
            final (self).details_id == Some(details_id),
            final (self).account_id == old(self).account_id,
            final (self).date == old(self).date,
            final (self).amount == old(self).amount,
            final (self).category@ == old(self).category@,
    {
        self.user_id = user_id;
        self.details_id = Some(details_id);
    }
}

/// A movement as a client submits it.
pub struct TransactionRequest {
    pub details: TransactionDetail,
    pub investment_details: Option<InvestmentDetail>,
    pub transaction: Transaction,
    pub asset: Option<AssetDetail>,
}

impl TransactionRequest {
    /// Whether the investment tables take part: only when the request
    /// carries both the investment figures and the asset they concern.
    pub fn has_investment(&self) -> (r: bool)
        ensures
            r == (self.investment_details is Some && self.asset is Some),
    {
        self.investment_details.is_some() && self.asset.is_some()
    }
}

impl InvestmentDetail {
    /// The investment row bound to the asset row just stored.
    pub fn with_asset(self, asset_id: i64) -> (r: Self)
        ensures
            r.asset_id == asset_id,
            r.quantity == self.quantity,
            r.cost == self.cost,
    {
        InvestmentDetail { asset_id, ..self }
    }
}

} // verus!
