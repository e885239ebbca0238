//! Personal accounts and the income and expense transactions posted against
//! them, with a running balance per account that is never negative and never
//! above the largest amount.

pub mod account;
pub mod account_service;
pub mod amount;
pub mod currency;
pub mod decimal;
pub mod entity;
pub mod in_memory;
pub mod repositories;
pub mod transaction;
pub mod transaction_service;
