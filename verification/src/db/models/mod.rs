//! Records as they are stored: scans, the findings that belong to them, and
//! API keys.
pub mod api_key;
pub mod scan;
pub mod scan_proofs;
pub mod scan_result;

pub use api_key::ApiKey;
pub use scan::Scan;
pub use scan_result::ScanResult;
