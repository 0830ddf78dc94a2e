//! What every analyzer reports: findings grouped by file, or an error.
use vstd::prelude::*;
use crate::db::models::scan_result::{opt_int, opt_text};

verus! {

/// The findings of one analyzer for one file.
pub struct ScanResult {
    pub file_path: String,
    pub licenses: Vec<LicenseFinding>,
    pub copyrights: Vec<CopyrightFinding>,
    pub ecc_findings: Vec<EccFinding>,
}

/// A detected license. `confidence` is kept in hundredths: 100 is certainty.
pub struct LicenseFinding {
    pub name: String,
    pub spdx_id: Option<String>,
    pub confidence: i32,
}

/// A copyright statement with the holders and years read from it.
pub struct CopyrightFinding {
    pub statement: String,
    pub holders: Vec<String>,
    pub years: Vec<String>,
}

/// A control-flag finding: an indication of export-controlled or
/// cryptographic code.
pub struct EccFinding {
    pub content: String,
    pub risk_severity: String,
    pub source: Option<String>,
    pub line_number: Option<i32>,
    pub check_id: Option<String>,
}

/// Mathematical value of a [`LicenseFinding`].
pub struct LicenseFindingView {
    pub name: Seq<char>,
    pub spdx_id: Option<Seq<char>>,
    pub confidence: int,
}

/// Mathematical value of a [`CopyrightFinding`].
pub struct CopyrightFindingView {
    pub statement: Seq<char>,
    pub holders: Seq<Seq<char>>,
    pub years: Seq<Seq<char>>,
}

/// Mathematical value of an [`EccFinding`].
pub struct EccFindingView {
    pub content: Seq<char>,
    pub risk_severity: Seq<char>,
    pub source: Option<Seq<char>>,
    pub line_number: Option<int>,
    pub check_id: Option<Seq<char>>,
}

/// Mathematical value of a [`ScanResult`].
pub struct ScanResultView {
    pub file_path: Seq<char>,
    pub licenses: Seq<LicenseFindingView>,
    pub copyrights: Seq<CopyrightFindingView>,
    pub ecc_findings: Seq<EccFindingView>,
}

impl View for LicenseFinding {
    type V = LicenseFindingView;

    open spec fn view(&self) -> LicenseFindingView {
        LicenseFindingView {
            name: self.name@,
            spdx_id: opt_text(self.spdx_id),
            confidence: self.confidence as int,
        }
    }
}

impl DeepView for LicenseFinding {
    type V = LicenseFindingView;

    open spec fn deep_view(&self) -> LicenseFindingView {
        self@
    }
}

impl View for CopyrightFinding {
    type V = CopyrightFindingView;

    open spec fn view(&self) -> CopyrightFindingView {
        CopyrightFindingView {
            statement: self.statement@,
            holders: self.holders.deep_view(),
            years: self.years.deep_view(),
        }
    }
}

impl DeepView for CopyrightFinding {
    type V = CopyrightFindingView;

    open spec fn deep_view(&self) -> CopyrightFindingView {
        self@
    }
}

impl View for EccFinding {
    type V = EccFindingView;

    open spec fn view(&self) -> EccFindingView {
        EccFindingView {
            content: self.content@,
            risk_severity: self.risk_severity@,
            source: opt_text(self.source),
            line_number: opt_int(self.line_number),
            check_id: opt_text(self.check_id),
        }
    }
}

impl DeepView for EccFinding {
    type V = EccFindingView;

    open spec fn deep_view(&self) -> EccFindingView {
        self@
    }
}

impl View for ScanResult {
    type V = ScanResultView;

    open spec fn view(&self) -> ScanResultView {
        ScanResultView {
            file_path: self.file_path@,
            licenses: self.licenses.deep_view(),
            copyrights: self.copyrights.deep_view(),
            ecc_findings: self.ecc_findings.deep_view(),
        }
    }
}

impl DeepView for ScanResult {
    type V = ScanResultView;

    open spec fn deep_view(&self) -> ScanResultView {
        self@
    }
}

/// The least index at which `records` holds `path`, from `from` on.
pub open spec fn first_index_of(records: Seq<ScanResultView>, from: int, path: Seq<char>) -> Option<
    int,
>
    decreases records.len() - from,
{
    if from < 0 || from >= records.len() {
        None
    } else if records[from].file_path == path {
        Some(from)
    } else {
        first_index_of(records, from + 1, path)
    }
}

/// The records with one more taken in: where a record for the file exists,
/// the first such record receives the findings at the end of its own; else
/// the new record is added at the end.
pub open spec fn absorbed(records: Seq<ScanResultView>, item: ScanResultView) -> Seq<
    ScanResultView,
> {
    match first_index_of(records, 0, item.file_path) {
        Some(i) => records.update(
            i,
            ScanResultView {
                file_path: records[i].file_path,
                licenses: records[i].licenses + item.licenses,
                copyrights: records[i].copyrights + item.copyrights,
                ecc_findings: records[i].ecc_findings + item.ecc_findings,
            },
        ),
        None => records.push(item),
    }
}

/// The least index at which `records` holds `path`.
pub fn find_first(records: &Vec<ScanResult>, path: &String) -> (r: Option<usize>)
    ensures
        match r {
            Some(i) => first_index_of(records.deep_view(), 0, path@) == Some(i as int) && i
                < records.len(),
            None => first_index_of(records.deep_view(), 0, path@) is None,
        },
{
    let mut i: usize = 0;
    while i < records.len()
        invariant
            i <= records.len(),
            first_index_of(records.deep_view(), 0, path@) == first_index_of(
                records.deep_view(),
                i as int,
                path@,
            ),
        decreases records.len() - i,
    {
        if records[i].file_path == *path {
            return Some(i);
        }
        i += 1;
    }
    None
}

/// Takes one more record in: its findings go to the first record of the
/// same file, or it becomes a record of its own at the end.
pub fn absorb(records: &mut Vec<ScanResult>, item: ScanResult)
    ensures
        final(records).deep_view() == absorbed(old(records).deep_view(), item@),
{
    let ghost before = records.deep_view();
    match find_first(records, &item.file_path) {
        Some(i) => {
            let ghost old_records = records@;
            let ScanResult { file_path: _, licenses, copyrights, ecc_findings } = item;
            let mut licenses = licenses;
            let mut copyrights = copyrights;
            let mut ecc_findings = ecc_findings;
            let ghost l = licenses.deep_view();
            let ghost c = copyrights.deep_view();
            let ghost e = ecc_findings.deep_view();
            let target = &mut records[i];
            target.licenses.append(&mut licenses);
            target.copyrights.append(&mut copyrights);
            target.ecc_findings.append(&mut ecc_findings);
            let ghost new_record = records@[i as int];
            assert(new_record.licenses.deep_view() =~= old_records[i as int].licenses.deep_view()
                + l);
            assert(new_record.copyrights.deep_view()
                =~= old_records[i as int].copyrights.deep_view() + c);
            assert(new_record.ecc_findings.deep_view()
                =~= old_records[i as int].ecc_findings.deep_view() + e);
            assert(records.deep_view() =~= absorbed(before, item@));
        },
        None => {
            records.push(item);
            assert(records.deep_view() =~= absorbed(before, item@));
        },
    }
}

/// Why an analyzer gave no findings.
pub enum ScanError {
    /// The analyzer cannot be reached or is not installed.
    Unavailable(String),
    /// The analyzer ran and reported failure, or a step of its protocol ran
    /// out of its budget of time or retries.
    Failed(String),
    /// The analyzer's output is not of the expected shape.
    ParseError(String),
    /// Reading or writing around the analyzer failed.
    Io(String),
    /// A request to the analyzer's service failed.
    Http(String),
}

/// Mathematical value of a [`ScanError`].
pub enum ScanErrorView {
    Unavailable(Seq<char>),
    Failed(Seq<char>),
    ParseError(Seq<char>),
    Io(Seq<char>),
    Http(Seq<char>),
}

impl View for ScanError {
    type V = ScanErrorView;

    open spec fn view(&self) -> ScanErrorView {
        match self {
            ScanError::Unavailable(m) => ScanErrorView::Unavailable(m@),
            ScanError::Failed(m) => ScanErrorView::Failed(m@),
            ScanError::ParseError(m) => ScanErrorView::ParseError(m@),
            ScanError::Io(m) => ScanErrorView::Io(m@),
            ScanError::Http(m) => ScanErrorView::Http(m@),
        }
    }
}

impl ScanErrorView {
    /// The error's message: what kind of error it is, then its detail.
    pub open spec fn message(self) -> Seq<char> {
        match self {
            ScanErrorView::Unavailable(m) => "Scanner unavailable: "@ + m,
            ScanErrorView::Failed(m) => "Scan failed: "@ + m,
            ScanErrorView::ParseError(m) => "Parse error: "@ + m,
            ScanErrorView::Io(m) => "IO error: "@ + m,
            ScanErrorView::Http(m) => "HTTP error: "@ + m,
        }
    }
}

impl ScanError {
    /// The error's message, as a sub-job's error field records it.
    pub fn to_string(&self) -> (r: String)
        ensures
            r@ == self@.message(),
    {
        match self {
            ScanError::Unavailable(m) => String::from_str("Scanner unavailable: ").concat(
                m.as_str(),
            ),
            ScanError::Failed(m) => String::from_str("Scan failed: ").concat(m.as_str()),
            ScanError::ParseError(m) => String::from_str("Parse error: ").concat(m.as_str()),
            ScanError::Io(m) => String::from_str("IO error: ").concat(m.as_str()),
            ScanError::Http(m) => String::from_str("HTTP error: ").concat(m.as_str()),
        }
    }
}

} // verus!
