//! Legal-compliance scanning engine: scan lifecycle, analyzer adapters, result
//! merging and risk scoring, with every rule stated as a contract.
pub mod api;
pub mod config;
pub mod db;
pub mod error;
pub mod export;
pub mod git;
pub mod scanner;
pub mod text;
pub mod utils;
