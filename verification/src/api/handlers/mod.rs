//! The decision logic behind the service's operations.
pub mod merge_proofs;
pub mod risk;
pub mod risk_proofs;
pub mod sbom;
pub mod scan_job;
pub mod scan_job_proofs;
pub mod scans;
