//! The data rules of a financial-data service: token identifiers, login
//! claims, pagination, reference-table records and broker-statement parsing,
//! each stated and checked as a contract.

pub mod auth;
pub mod companies;
pub mod config;
pub mod countries;
pub mod currencies;
pub mod dates;
pub mod decimal;
pub mod dictionary;
pub mod numeric;
pub mod pagination;
pub mod responses;
pub mod text;
pub mod transactions;
pub mod ulid;
pub mod users;
