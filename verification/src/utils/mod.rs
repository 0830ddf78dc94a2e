//! Encodings and credentials.
pub mod crypto;
pub mod encoding;
