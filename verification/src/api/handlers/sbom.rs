//! What is decided when a scan's report is exported.
use vstd::prelude::*;
use crate::db::models::scan::{Scan, ScanView};
use crate::db::models::scan_result::{ScanResult, ScanResultView};
use crate::error::{AppError, AppErrorView};
use crate::export::spdx::{build_spdx_document, spdx_document, SpdxDocument};
use crate::export::SbomFormat;
use crate::text::{
    last_segment, push_text, segment_after_last, strip_trailing, stripped_end, text_eq,
};

verus! {

/// The parameters of an export: the format, JSON unless another is asked for.
pub struct SbomQueryParams {
    pub format: SbomFormat,
}

/// A report ready to be written out in its format.
pub struct SbomExport {
    pub document: SpdxDocument,
    pub content_type: String,
    pub filename: String,
}

/// The file name of a report: the repository's name, `-sbom.spdx.` and the
/// format's extension.
pub open spec fn sbom_filename(git_url: Seq<char>, format: SbomFormat) -> Seq<char> {
    last_segment(stripped_end(git_url, ".git"@), '/') + "-sbom.spdx."@ + match format {
        SbomFormat::Json => "json"@,
        SbomFormat::Yaml => "yaml"@,
    }
}

/// Why a scan has no report, if it has none: it has not completed, or it
/// has no findings.
pub open spec fn export_fault(scan: ScanView, results: Seq<ScanResultView>) -> Option<
    AppErrorView,
> {
    if scan.status != "completed"@ {
        Some(
            AppErrorView::Validation(
                "Scan is not completed yet. Current status: "@ + scan.status,
            ),
        )
    } else if results.len() == 0 {
        Some(AppErrorView::NotFound("No scan results found"@))
    } else {
        None
    }
}

/// The value of the `Content-Disposition` header for a report's file name.
pub fn attachment_header(filename: &str) -> (header: String)
    ensures
        header@ == "attachment; filename=\""@ + filename@ + "\""@,
{
    let mut header = String::from_str("attachment; filename=\"");
    push_text(&mut header, filename);
    push_text(&mut header, "\"");
    header
}

/// Prepares the report of a scan for export: only a completed scan with
/// findings has one.
pub fn prepare_sbom(scan: &Scan, results: &[ScanResult], params: &SbomQueryParams) -> (r: Result<
    SbomExport,
    AppError,
>)
    ensures
        match r {
            Ok(export) => {
                &&& export_fault(scan@, results.deep_view()) is None
                &&& export.document@ == spdx_document(scan@, results.deep_view())
                &&& export.filename@ == sbom_filename(scan@.git_url, params.format)
                &&& export.content_type@ == match params.format {
                    SbomFormat::Json => "application/json"@,
                    SbomFormat::Yaml => "application/x-yaml"@,
                }
            },
            Err(e) => export_fault(scan@, results.deep_view()) == Some(e@),
        },
{
    if !text_eq(scan.status.as_str(), "completed") {
        let mut message = String::from_str("Scan is not completed yet. Current status: ");
        push_text(&mut message, scan.status.as_str());
        return Err(AppError::Validation(message));
    }
    if results.len() == 0 {
        return Err(AppError::NotFound(String::from_str("No scan results found")));
    }
    match build_spdx_document(scan, results) {
        Ok(document) => {
            let stripped = strip_trailing(scan.git_url.as_str(), ".git");
            let mut filename = segment_after_last(stripped.as_str(), '/');
            push_text(&mut filename, "-sbom.spdx.");
            push_text(&mut filename, params.format.file_extension());
            Ok(
                SbomExport {
                    document,
                    content_type: String::from_str(params.format.content_type()),
                    filename,
                },
            )
        },
        Err(e) => Err(e),
    }
}

} // verus!
