//! The adapter for the local pattern analyzer, which runs as a process.
pub mod client;
pub mod parser;

pub use client::SemgrepScanner;
