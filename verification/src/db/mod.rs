//! The persisted records and the rules that govern how they change.
pub mod models;
