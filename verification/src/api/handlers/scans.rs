//! What is decided when scans are created and shown.
use vstd::prelude::*;
use crate::api::models::{CreateScanRequest, ScanResponse};
use crate::db::models::scan::Scan;
use crate::db::models::scan_result::{
    opt_int, opt_text, read_stored_texts, stored_texts, ScanResult, ScanResultView,
};
use crate::error::{AppError, AppErrorView};
use crate::git::clone::{git_url_fault, validate_git_url};
use crate::text::{push_text, text_eq};

verus! {

/// Checks a request for a new scan: the repository locator must be one
/// that [`validate_git_url`] accepts; else the request is refused as
/// invalid, with what is wrong with the locator.
pub fn validate_create_scan(payload: &CreateScanRequest) -> (r: Result<(), AppError>)
    ensures
        match r {
            Ok(_) => git_url_fault(payload.git_url@) is None,
            Err(e) => git_url_fault(payload.git_url@) is Some && e@ == AppErrorView::Validation(
                git_url_fault(payload.git_url@)->0,
            ),
        },
{
    match validate_git_url(payload.git_url.as_str()) {
        Ok(_) => Ok(()),
        Err(message) => Err(AppError::Validation(message)),
    }
}

/// What a caller is told about a scan that has no risk assessment yet.
pub fn scan_response(scan: &Scan) -> (response: ScanResponse)
    ensures
        response.scan_id@ == scan.id@,
        response.status@ == scan.status@,
        response.created_at@ == scan.created_at@,
        response.git_url@ == scan.git_url@,
        response.fossology_status@ == scan.fossology_status@,
        response.semgrep_status@ == scan.semgrep_status@,
        response.risk_score is None,
        response.risk_level is None,
{
    ScanResponse {
        scan_id: scan.id.clone(),
        status: scan.status.clone(),
        created_at: scan.created_at.clone(),
        git_url: scan.git_url.clone(),
        fossology_status: scan.fossology_status.clone(),
        semgrep_status: scan.semgrep_status.clone(),
        risk_score: None,
        risk_level: None,
    }
}

/// The error for a scan that does not exist.
pub fn scan_not_found(id: &str) -> (e: AppError)
    ensures
        e@ == AppErrorView::NotFound("Scan "@ + id@ + " not found"@),
{
    let mut message = String::from_str("Scan ");
    push_text(&mut message, id);
    push_text(&mut message, " not found");
    AppError::NotFound(message)
}

/// A license finding as a caller sees it. The confidence is in hundredths.
pub struct LicenseEntry {
    pub file_path: String,
    pub license: Option<String>,
    pub spdx_id: Option<String>,
    pub confidence: Option<i32>,
}

/// A copyright finding as a caller sees it.
pub struct CopyrightEntry {
    pub file_path: String,
    pub statement: Option<String>,
    pub holders: Vec<String>,
    pub years: Vec<String>,
}

/// A control-flag finding as a caller sees it.
pub struct EccEntry {
    pub file_path: String,
    pub content: Option<String>,
    pub risk_severity: Option<String>,
    pub source: Option<String>,
    pub line_number: Option<i32>,
    pub check_id: Option<String>,
}

/// The findings of a scan by kind.
pub struct ScanResults {
    pub licenses: Vec<LicenseEntry>,
    pub copyrights: Vec<CopyrightEntry>,
    pub ecc_findings: Vec<EccEntry>,
}

/// Mathematical value of a [`LicenseEntry`].
pub struct LicenseEntryView {
    pub file_path: Seq<char>,
    pub license: Option<Seq<char>>,
    pub spdx_id: Option<Seq<char>>,
    pub confidence: Option<int>,
}

/// Mathematical value of a [`CopyrightEntry`].
pub struct CopyrightEntryView {
    pub file_path: Seq<char>,
    pub statement: Option<Seq<char>>,
    pub holders: Seq<Seq<char>>,
    pub years: Seq<Seq<char>>,
}

/// Mathematical value of an [`EccEntry`].
pub struct EccEntryView {
    pub file_path: Seq<char>,
    pub content: Option<Seq<char>>,
    pub risk_severity: Option<Seq<char>>,
    pub source: Option<Seq<char>>,
    pub line_number: Option<int>,
    pub check_id: Option<Seq<char>>,
}

/// Mathematical value of a [`ScanResults`].
pub struct ScanResultsView {
    pub licenses: Seq<LicenseEntryView>,
    pub copyrights: Seq<CopyrightEntryView>,
    pub ecc_findings: Seq<EccEntryView>,
}

impl View for LicenseEntry {
    type V = LicenseEntryView;

    open spec fn view(&self) -> LicenseEntryView {
        LicenseEntryView {
            file_path: self.file_path@,
            license: opt_text(self.license),
            spdx_id: opt_text(self.spdx_id),
            confidence: opt_int(self.confidence),
        }
    }
}

impl DeepView for LicenseEntry {
    type V = LicenseEntryView;

    open spec fn deep_view(&self) -> LicenseEntryView {
        self@
    }
}

impl View for CopyrightEntry {
    type V = CopyrightEntryView;

    open spec fn view(&self) -> CopyrightEntryView {
        CopyrightEntryView {
            file_path: self.file_path@,
            statement: opt_text(self.statement),
            holders: self.holders.deep_view(),
            years: self.years.deep_view(),
        }
    }
}

impl DeepView for CopyrightEntry {
    type V = CopyrightEntryView;

    open spec fn deep_view(&self) -> CopyrightEntryView {
        self@
    }
}

impl View for EccEntry {
    type V = EccEntryView;

    open spec fn view(&self) -> EccEntryView {
        EccEntryView {
            file_path: self.file_path@,
            content: opt_text(self.content),
            risk_severity: opt_text(self.risk_severity),
            source: opt_text(self.source),
            line_number: opt_int(self.line_number),
            check_id: opt_text(self.check_id),
        }
    }
}

impl DeepView for EccEntry {
    type V = EccEntryView;

    open spec fn deep_view(&self) -> EccEntryView {
        self@
    }
}

impl View for ScanResults {
    type V = ScanResultsView;

    open spec fn view(&self) -> ScanResultsView {
        ScanResultsView {
            licenses: self.licenses.deep_view(),
            copyrights: self.copyrights.deep_view(),
            ecc_findings: self.ecc_findings.deep_view(),
        }
    }
}

/// The findings by kind with one more finding taken in: it is added at the
/// end of the list of its kind, and a finding of no known kind is left out.
/// The holders and years of a copyright finding are read from their stored
/// lists.
pub open spec fn with_finding(results: ScanResultsView, f: ScanResultView) -> ScanResultsView {
    if f.result_type == "license"@ {
        ScanResultsView {
            licenses: results.licenses.push(
                LicenseEntryView {
                    file_path: f.file_path,
                    license: f.license_name,
                    spdx_id: f.license_spdx_id,
                    confidence: f.confidence,
                },
            ),
            ..results
        }
    } else if f.result_type == "copyright"@ {
        ScanResultsView {
            copyrights: results.copyrights.push(
                CopyrightEntryView {
                    file_path: f.file_path,
                    statement: f.copyright_statement,
                    holders: stored_texts(f.copyright_holders),
                    years: stored_texts(f.copyright_years),
                },
            ),
            ..results
        }
    } else if f.result_type == "ecc"@ {
        ScanResultsView {
            ecc_findings: results.ecc_findings.push(
                EccEntryView {
                    file_path: f.file_path,
                    content: f.raw_data,
                    risk_severity: f.risk_severity,
                    source: f.ecc_source,
                    line_number: f.ecc_line_number,
                    check_id: f.ecc_check_id,
                },
            ),
            ..results
        }
    } else {
        results
    }
}

/// The findings of a scan by kind, each kind in the order of the findings.
pub open spec fn results_by_kind(findings: Seq<ScanResultView>) -> ScanResultsView
    decreases findings.len(),
{
    if findings.len() == 0 {
        ScanResultsView {
            licenses: Seq::empty(),
            copyrights: Seq::empty(),
            ecc_findings: Seq::empty(),
        }
    } else {
        with_finding(results_by_kind(findings.drop_last()), findings.last())
    }
}

/// Separates the findings of a scan into licenses, copyrights and control
/// flags.
pub fn get_scan_results(findings: Vec<ScanResult>) -> (results: ScanResults)
    ensures
        results@ == results_by_kind(findings.deep_view()),
{
    let mut licenses: Vec<LicenseEntry> = Vec::new();
    let mut copyrights: Vec<CopyrightEntry> = Vec::new();
    let mut ecc_findings: Vec<EccEntry> = Vec::new();
    let ghost all = findings.deep_view();
    let ghost items = findings@;
    assert(all.take(0) =~= Seq::<ScanResultView>::empty());
    assert(licenses.deep_view() =~= Seq::<LicenseEntryView>::empty());
    assert(copyrights.deep_view() =~= Seq::<CopyrightEntryView>::empty());
    assert(ecc_findings.deep_view() =~= Seq::<EccEntryView>::empty());
    for finding in it: findings
        invariant
            it.seq() == items,
            all.len() == items.len(),
            forall|k: int| 0 <= k < items.len() ==> all[k] == #[trigger] items[k]@,
            (ScanResultsView {
                licenses: licenses.deep_view(),
                copyrights: copyrights.deep_view(),
                ecc_findings: ecc_findings.deep_view(),
            }) == results_by_kind(all.take(it.index() as int)),
    {
        let ghost done = it.index() as int;
        assert(all.take(done + 1).drop_last() == all.take(done));
        assert(all.take(done + 1).last() == finding@);
        if text_eq(finding.result_type.as_str(), "license") {
            let ghost before = licenses.deep_view();
            let entry = LicenseEntry {
                file_path: finding.file_path,
                license: finding.license_name,
                spdx_id: finding.license_spdx_id,
                confidence: finding.confidence,
            };
            licenses.push(entry);
            assert(licenses.deep_view() =~= before.push(entry@));
        } else if text_eq(finding.result_type.as_str(), "copyright") {
            let ghost before = copyrights.deep_view();
            let entry = CopyrightEntry {
                holders: read_stored_texts(&finding.copyright_holders),
                years: read_stored_texts(&finding.copyright_years),
                file_path: finding.file_path,
                statement: finding.copyright_statement,
            };
            copyrights.push(entry);
            assert(copyrights.deep_view() =~= before.push(entry@));
        } else if text_eq(finding.result_type.as_str(), "ecc") {
            let ghost before = ecc_findings.deep_view();
            let entry = EccEntry {
                file_path: finding.file_path,
                content: finding.raw_data,
                risk_severity: finding.risk_severity,
                source: finding.ecc_source,
                line_number: finding.ecc_line_number,
                check_id: finding.ecc_check_id,
            };
            ecc_findings.push(entry);
            assert(ecc_findings.deep_view() =~= before.push(entry@));
        }
    }
    assert(all.take(all.len() as int) == all);
    ScanResults { licenses, copyrights, ecc_findings }
}

} // verus!
