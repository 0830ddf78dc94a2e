//! The analyzer adapters and the findings they report.
pub mod fossology;
pub mod grouping_proofs;
pub mod semgrep;
pub mod traits;

pub use traits::{CopyrightFinding, EccFinding, LicenseFinding, ScanError, ScanResult};
