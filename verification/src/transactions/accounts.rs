use vstd::prelude::*;

use crate::decimal::Decimal;

verus! {

/// A recurring amount attached to an account: a fee or a rate of return.
pub struct Amount {
    pub description: Option<String>,
    pub percentage: bool,
    pub recurrence: String,
    pub amount: Decimal,
}

/// A fee charged on an account.
pub struct Fee {
    pub description: Option<String>,
    pub active: bool,
    pub percentage: bool,
    pub account_id: i64,
    pub recurrence: String,
    pub amount: Decimal,
}

/// A rate of return earned on an account.
pub struct Rate {
    pub description: Option<String>,
    pub active: bool,
    pub percentage: bool,
    pub account_id: i64,
    pub recurrence: String,
    pub amount: Decimal,
}

/// Whether two optional descriptions hold the same text.
pub open spec fn same_description(a: Option<String>, b: Option<String>) -> bool {
    match (a, b) {
        (Some(x), Some(y)) => x@ == y@,
        (None, None) => true,
        _ => false,
    }
}

fn clone_description(d: &Option<String>) -> (r: Option<String>)
    ensures
        same_description(r, *d),
{
    match d {
        Some(x) => Some(x.clone()),
        None => None,
    }
}

impl Fee {
    /// An active fee on the given account carrying the amount's terms.
    pub fn new(amount: &Amount, account_id: i64) -> (r: Self)
        ensures
            r.account_id == account_id,
            r.active,
            r.percentage == amount.percentage,
            r.recurrence@ == amount.recurrence@,
            r.amount == amount.amount,
            same_description(r.description, amount.description),
    {
        Fee {
            account_id,
            active: true,
            percentage: amount.percentage,
            recurrence: amount.recurrence.clone(),
            amount: amount.amount,
            description: clone_description(&amount.description),
        }
    }
}

impl Rate {
    /// An active rate on the given account carrying the amount's terms.
    pub fn new(amount: &Amount, account_id: i64) -> (r: Self)
        ensures
            r.account_id == account_id,
            r.active,
            r.percentage == amount.percentage,
            r.recurrence@ == amount.recurrence@,
            r.amount == amount.amount,
            same_description(r.description, amount.description),
    {
        Rate {
            account_id,
            active: true,
            percentage: amount.percentage,
            recurrence: amount.recurrence.clone(),
            amount: amount.amount,
            description: clone_description(&amount.description),
        }
    }
}

/// The columns listings show for an account.
pub struct AccountCore {
    pub id: i64,
    pub name: String,
    pub company: String,
    pub currency_id: i64,
}

/// The columns inserted for a new account.
pub struct Account {
    pub name: String,
    pub category: String,
    pub company: String,
    pub description: Option<String>,
    pub currency_id: i64,
    pub amount: Decimal,
}

/// A request to open an account with its fees and rates.
pub struct AccountRequest {
    pub account: Account,
    pub fees: Vec<Amount>,
    pub rates: Vec<Amount>,
}

impl AccountRequest {
    /// The fee rows to insert for a fresh account: one active fee per
    /// requested amount, in order, all on that account.
    pub fn fees_for_account(&self, account_id: i64) -> (r: Vec<Fee>)
        ensures
            r@.len() == self.fees@.len(),
            forall|i: int|
                0 <= i < r@.len() ==> {
                    &&& (#[trigger] r@[i]).account_id == account_id
                    &&& r@[i].active
                    &&& r@[i].percentage == self.fees@[i].percentage
                    &&& r@[i].recurrence@ == self.fees@[i].recurrence@
                    &&& r@[i].amount == self.fees@[i].amount
                    &&& same_description(r@[i].description, self.fees@[i].description)
                },
    {
        let mut r: Vec<Fee> = Vec::new();
        let mut i: usize = 0;
        while i < self.fees.len()
            invariant
                0 <= i <= self.fees@.len(),
                r@.len() == i,
                forall|k: int|
                    0 <= k < i ==> {
                        &&& (#[trigger] r@[k]).account_id == account_id
                        &&& r@[k].active
                        &&& r@[k].percentage == self.fees@[k].percentage
                        &&& r@[k].recurrence@ == self.fees@[k].recurrence@
                        &&& r@[k].amount == self.fees@[k].amount
                        &&& same_description(r@[k].description, self.fees@[k].description)
                    },
            decreases self.fees@.len() - i,
        {
            r.push(Fee::new(&self.fees[i], account_id));
            i = i + 1;
        }
        r
    }

    /// The rate rows to insert for a fresh account, likewise.
    pub fn rates_for_account(&self, account_id: i64) -> (r: Vec<Rate>)
        ensures
            r@.len() == self.rates@.len(),
            forall|i: int|
                0 <= i < r@.len() ==> {
                    &&& (#[trigger] r@[i]).account_id == account_id
                    &&& r@[i].active
                    &&& r@[i].percentage == self.rates@[i].percentage
                    &&& r@[i].recurrence@ == self.rates@[i].recurrence@
                    &&& r@[i].amount == self.rates@[i].amount
                    &&& same_description(r@[i].description, self.rates@[i].description)
                },
    {
        let mut r: Vec<Rate> = Vec::new();
        let mut i: usize = 0;
        while i < self.rates.len()
            invariant
                0 <= i <= self.rates@.len(),
                r@.len() == i,
                forall|k: int|
                    0 <= k < i ==> {
                        &&& (#[trigger] r@[k]).account_id == account_id
                        &&& r@[k].active
                        &&& r@[k].percentage == self.rates@[k].percentage
                        &&& r@[k].recurrence@ == self.rates@[k].recurrence@
                        &&& r@[k].amount == self.rates@[k].amount
                        &&& same_description(r@[k].description, self.rates@[k].description)
                    },
            decreases self.rates@.len() - i,
        {
            r.push(Rate::new(&self.rates[i], account_id));
            i = i + 1;
        }
        r
    }
}

} // verus!
