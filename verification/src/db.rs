//! The store's tables and the operations on them.

pub mod account;
pub mod agreement;
pub mod cart;
pub mod catalog;
pub mod engine;
pub mod error;
pub mod expiry;
pub mod history;
pub mod identity;
pub mod laws;
pub mod order;
pub mod query;
pub mod search;
pub mod store;
