//! From the pattern analyzer's report to control-flag findings by file.
use vstd::prelude::*;
use crate::scanner::traits::{
    absorb, absorbed, CopyrightFinding, EccFinding, EccFindingView, LicenseFinding, ScanError,
    ScanErrorView, ScanResult, ScanResultView,
};
use crate::text::{push_text, text_eq, to_uppercase, trim, trimmed, uppercase_of};

verus! {

/// The analyzer's report.
pub struct SemgrepOutput {
    pub results: Vec<SemgrepResult>,
    pub errors: Vec<SemgrepError>,
}

/// One match of a rule.
pub struct SemgrepResult {
    pub path: String,
    pub start: SemgrepLocation,
    pub end: SemgrepLocation,
    pub check_id: String,
    pub extra: SemgrepExtra,
    /// The matched code, where the report quotes it.
    pub lines: Option<String>,
}

/// A place in a file.
#[derive(Clone, Copy, PartialEq, Eq, Structural)]
pub struct SemgrepLocation {
    pub line: i32,
    pub col: i32,
}

/// What a rule says about its match; `severity` is `ERROR`, `WARNING` or `INFO`.
pub struct SemgrepExtra {
    pub message: String,
    pub severity: String,
}

/// A problem that the analyzer met.
pub struct SemgrepError {
    pub message: String,
    pub path: Option<String>,
}

/// Mathematical value of a [`SemgrepResult`].
pub struct SemgrepResultView {
    pub path: Seq<char>,
    pub start: SemgrepLocation,
    pub end: SemgrepLocation,
    pub check_id: Seq<char>,
    pub message: Seq<char>,
    pub severity: Seq<char>,
    pub lines: Option<Seq<char>>,
}

impl View for SemgrepResult {
    type V = SemgrepResultView;

    open spec fn view(&self) -> SemgrepResultView {
        SemgrepResultView {
            path: self.path@,
            start: self.start,
            end: self.end,
            check_id: self.check_id@,
            message: self.extra.message@,
            severity: self.extra.severity@,
            lines: self.lines.deep_view(),
        }
    }
}

impl DeepView for SemgrepResult {
    type V = SemgrepResultView;

    open spec fn deep_view(&self) -> SemgrepResultView {
        self@
    }
}

/// The severity of a finding for the analyzer's severity in upper case:
/// `ERROR` is `high`, `WARNING` is `medium`, and `INFO` and every other
/// word are `low`.
pub open spec fn severity_for(upper: Seq<char>) -> Seq<char> {
    if upper == "ERROR"@ {
        "high"@
    } else if upper == "WARNING"@ {
        "medium"@
    } else {
        "low"@
    }
}

/// The severity of a finding for the analyzer's severity, whatever its case.
pub open spec fn severity_of(semgrep_severity: Seq<char>) -> Seq<char> {
    severity_for(uppercase_of(semgrep_severity))
}

/// The severity of a finding for the analyzer's severity in upper case.
pub fn severity_for_uppercase(upper: &str) -> (r: String)
    ensures
        r@ == severity_for(upper@),
{
    if text_eq(upper, "ERROR") {
        String::from_str("high")
    } else if text_eq(upper, "WARNING") {
        String::from_str("medium")
    } else {
        String::from_str("low")
    }
}

/// Map Semgrep severity to risk severity. An unknown severity is `low`,
/// never an error.
pub fn map_severity(semgrep_severity: &str) -> (r: String)
    ensures
        r@ == severity_of(semgrep_severity@),
{
    let upper = to_uppercase(semgrep_severity);
    severity_for_uppercase(upper.as_str())
}

/// The content of a finding: the rule's message and, where the report
/// quotes the matched code, that code without the white space around it.
pub open spec fn finding_content(message: Seq<char>, lines: Option<Seq<char>>) -> Seq<char> {
    match lines {
        Some(code) => message + "\n\nMatched code: `"@ + trimmed(code) + "`"@,
        None => message,
    }
}

/// The finding that one match stands for.
pub open spec fn finding_of(result: SemgrepResultView) -> EccFindingView {
    EccFindingView {
        content: finding_content(result.message, result.lines),
        risk_severity: severity_of(result.severity),
        source: Some("semgrep"@),
        line_number: Some(result.start.line as int),
        check_id: Some(result.check_id),
    }
}

/// The record that one match stands for: its file with the one finding.
pub open spec fn record_of(result: SemgrepResultView) -> ScanResultView {
    ScanResultView {
        file_path: result.path,
        licenses: Seq::empty(),
        copyrights: Seq::empty(),
        ecc_findings: seq![finding_of(result)],
    }
}

/// The records for a list of matches: one for each file, in the order in
/// which the files first occur, each with the findings of its file in the
/// order of the report.
pub open spec fn records_of(results: Seq<SemgrepResultView>) -> Seq<ScanResultView>
    decreases results.len(),
{
    if results.len() == 0 {
        Seq::empty()
    } else {
        absorbed(records_of(results.drop_last()), record_of(results.last()))
    }
}

fn record_for(result: SemgrepResult) -> (record: ScanResult)
    ensures
        record@ == record_of(result@),
{
    let mut content = result.extra.message.clone();
    match &result.lines {
        Some(code) => {
            let matched = trim(code.as_str());
            push_text(&mut content, "\n\nMatched code: `");
            push_text(&mut content, matched.as_str());
            push_text(&mut content, "`");
        },
        None => {},
    }
    let finding = EccFinding {
        content,
        risk_severity: map_severity(result.extra.severity.as_str()),
        source: Some(String::from_str("semgrep")),
        line_number: Some(result.start.line),
        check_id: Some(result.check_id),
    };
    assert(finding@ == finding_of(result@));
    let mut ecc_findings: Vec<EccFinding> = Vec::new();
    ecc_findings.push(finding);
    assert(ecc_findings.deep_view() =~= seq![finding@]);
    let licenses: Vec<LicenseFinding> = Vec::new();
    let copyrights: Vec<CopyrightFinding> = Vec::new();
    assert(licenses.deep_view() =~= Seq::empty());
    assert(copyrights.deep_view() =~= Seq::empty());
    ScanResult { file_path: result.path, licenses, copyrights, ecc_findings }
}

/// Convert the analyzer's report to ScanResult format. The report's own
/// errors are for the log and change nothing here.
pub fn parse_semgrep_output(output: SemgrepOutput) -> (records: Vec<ScanResult>)
    ensures
        records.deep_view() == records_of(output.results.deep_view()),
{
    let SemgrepOutput { results, errors: _ } = output;
    let mut records: Vec<ScanResult> = Vec::new();
    let ghost all = results.deep_view();
    let ghost items = results@;
    assert(all.take(0) =~= Seq::<SemgrepResultView>::empty());
    assert(records.deep_view() =~= Seq::<ScanResultView>::empty());
    for result in it: results
        invariant
            it.seq() == items,
            all.len() == items.len(),
            forall|k: int| 0 <= k < items.len() ==> all[k] == #[trigger] items[k]@,
            records.deep_view() == records_of(all.take(it.index() as int)),
    {
        let ghost done = it.index() as int;
        assert(all.take(done + 1).drop_last() == all.take(done));
        assert(all.take(done + 1).last() == result@);
        absorb(&mut records, record_for(result));
    }
    assert(all.take(all.len() as int) == all);
    records
}

/// The error for a report that is not of the expected shape.
pub fn report_unreadable(reason: &str) -> (e: ScanError)
    ensures
        e@ == ScanErrorView::ParseError("Failed to parse Semgrep JSON: "@ + reason@),
{
    let mut message = String::from_str("Failed to parse Semgrep JSON: ");
    push_text(&mut message, reason);
    ScanError::ParseError(message)
}

} // verus!
