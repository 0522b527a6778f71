//! What the library reads from the board's service.

pub mod subscriptions;
