//! What the service exposes upward: the risk engine, the scan coordinator and
//! the records they exchange.
pub mod handlers;
pub mod models;
