//! The standards-format report of a scan.
pub mod spdx;

use vstd::prelude::*;

verus! {

/// SBOM export format.
#[derive(Debug, Clone, Copy, PartialEq, Eq, Structural)]
pub enum SbomFormat {
    Json,
    Yaml,
}

impl SbomFormat {
    /// The media type of a report in this format.
    pub fn content_type(&self) -> (r: &'static str)
        ensures
            r@ == match self {
                SbomFormat::Json => "application/json"@,
                SbomFormat::Yaml => "application/x-yaml"@,
            },
    {
        match self {
            SbomFormat::Json => "application/json",
            SbomFormat::Yaml => "application/x-yaml",
        }
    }

    /// The file extension of a report in this format.
    pub fn file_extension(&self) -> (r: &'static str)
        ensures
            r@ == match self {
                SbomFormat::Json => "json"@,
                SbomFormat::Yaml => "yaml"@,
            },
    {
        match self {
            SbomFormat::Json => "json",
            SbomFormat::Yaml => "yaml",
        }
    }
}

impl Default for SbomFormat {
    fn default() -> (format: Self)
        ensures
            format == SbomFormat::Json,
    {
        SbomFormat::Json
    }
}

} // verus!
