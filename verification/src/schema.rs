//! The records of the bookstore: what the tables hold, what queries join
//! together, and the values that get an identifier only when they are stored.

pub mod entities;
pub mod joined;
pub mod no_id;
