//! An online bookstore's consistency engine: the catalogue, customers' carts,
//! deduplicated addresses and payment records, and order placement, over an
//! in-memory model of the store's tables.

pub mod numeral;
pub mod db;
pub mod numeric;
pub mod schema;
pub mod calendar;
pub mod request_guards;
pub mod endpoints;
pub mod report;
