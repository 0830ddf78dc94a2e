//! The remote analyzer's protocol: what is sent, what comes back, how long
//! to wait and when to give up. Requests themselves are made by the caller;
//! everything decided between two requests is decided here.
use vstd::prelude::*;
use vstd::utf8::encode_utf8;
use crate::scanner::traits::{ScanError, ScanErrorView};
use crate::text::{
    char_is_alphanumeric, char_is_control, is_alphanumeric_char, is_control_char,
    push_signed_decimal, push_text, signed_decimal, strip_trailing, stripped_end, text_eq,
    to_chars,
};
use crate::utils::encoding::{base64_standard, encode_base64, BASE64_MAX_INPUT};

verus! {

/// What accompanies an upload.
pub struct UploadRequest {
    pub folder_id: i32,
    pub upload_description: String,
}

/// The service's answer to an upload; `message` is the upload's identifier.
pub struct UploadResponse {
    pub code: i32,
    pub message: i32,
    pub response_type: String,
}

/// A request to analyse an upload.
pub struct JobRequest {
    pub upload_id: i32,
    pub folder_id: i32,
    pub analysis: AnalysisSpec,
}

/// Which analyses a job runs.
#[derive(Clone, Copy, PartialEq, Eq, Structural)]
pub struct AnalysisSpec {
    pub bucket: bool,
    pub copyright_email_author: bool,
    pub ecc: bool,
    pub keyword: bool,
    pub mime: bool,
    pub monk: bool,
    pub nomos: bool,
    pub ojo: bool,
    pub package: bool,
}

impl Default for AnalysisSpec {
    /// Every analysis but the keyword search.
    fn default() -> (spec: Self)
        ensures
            spec == (AnalysisSpec {
                bucket: true,
                copyright_email_author: true,
                ecc: true,
                keyword: false,
                mime: true,
                monk: true,
                nomos: true,
                ojo: true,
                package: true,
            }),
    {
        AnalysisSpec {
            bucket: true,
            copyright_email_author: true,
            ecc: true,
            keyword: false,
            mime: true,
            monk: true,
            nomos: true,
            ojo: true,
            package: true,
        }
    }
}

/// The service's answer to a job request; `message` is the job's identifier.
pub struct JobResponse {
    pub code: i32,
    pub message: i32,
    pub response_type: String,
}

/// The state of a job as the service reports it.
pub struct JobStatus {
    pub id: i32,
    pub name: String,
    pub status: String,
    pub eta: Option<i32>,
}

/// The licenses found in one file.
pub struct LicenseResult {
    pub file_path: String,
    pub findings: Vec<LicenseFinding>,
}

/// One license as the service names it. `match_percentage` is a whole
/// percentage: 100 is a full match.
pub struct LicenseFinding {
    pub license: String,
    pub spdx_id: Option<String>,
    pub match_percentage: i32,
}

/// The copyright statements found in one file.
pub struct CopyrightResult {
    pub file_path: String,
    pub findings: Vec<CopyrightFinding>,
}

/// One statement as the service reports it.
pub struct CopyrightFinding {
    pub content: String,
    pub finding_type: String,
}

/// One entry of the service's license report.
pub struct FossologyLicenseResponse {
    pub file_path: String,
    pub findings: Option<FossologyFindings>,
}

/// The license names of one file, by origin.
pub struct FossologyFindings {
    pub scanner: Option<Vec<String>>,
    pub conclusion: Option<Vec<String>>,
}

/// One license match in the service's detailed form. `percentage` is a
/// whole percentage.
pub struct FossologyLicenseMatch {
    pub short_name: String,
    pub spdx_id: Option<String>,
    pub percentage: Option<i32>,
}

/// One entry of the service's copyright report: a statement and the files
/// that carry it.
pub struct FossologyCopyrightResponse {
    pub file_path: Vec<String>,
    pub copyright: String,
}

/// What the service knows of an upload; `hash` is present once the upload
/// has been unpacked and indexed.
pub struct UploadDetails {
    pub id: i32,
    pub folder_id: i32,
    pub folder_name: String,
    pub upload_name: String,
    pub hash: Option<UploadHash>,
}

/// The digests of an upload.
pub struct UploadHash {
    pub sha1: String,
    pub md5: String,
    pub sha256: String,
    pub size: i64,
}

/// Mathematical value of a [`LicenseFinding`].
pub struct LicenseFindingView {
    pub license: Seq<char>,
    pub spdx_id: Option<Seq<char>>,
    pub match_percentage: int,
}

/// Mathematical value of a [`LicenseResult`].
pub struct LicenseResultView {
    pub file_path: Seq<char>,
    pub findings: Seq<LicenseFindingView>,
}

/// Mathematical value of a [`CopyrightFinding`].
pub struct CopyrightFindingView {
    pub content: Seq<char>,
    pub finding_type: Seq<char>,
}

/// Mathematical value of a [`CopyrightResult`].
pub struct CopyrightResultView {
    pub file_path: Seq<char>,
    pub findings: Seq<CopyrightFindingView>,
}

/// Mathematical value of a [`FossologyLicenseResponse`].
pub struct FossologyLicenseResponseView {
    pub file_path: Seq<char>,
    pub scanner: Option<Seq<Seq<char>>>,
    pub conclusion: Option<Seq<Seq<char>>>,
    pub has_findings: bool,
}

/// Mathematical value of a [`FossologyCopyrightResponse`].
pub struct FossologyCopyrightResponseView {
    pub file_path: Seq<Seq<char>>,
    pub copyright: Seq<char>,
}

impl View for LicenseFinding {
    type V = LicenseFindingView;

    open spec fn view(&self) -> LicenseFindingView {
        LicenseFindingView {
            license: self.license@,
            spdx_id: self.spdx_id.deep_view(),
            match_percentage: self.match_percentage as int,
        }
    }
}

impl DeepView for LicenseFinding {
    type V = LicenseFindingView;

    open spec fn deep_view(&self) -> LicenseFindingView {
        self@
    }
}

impl View for LicenseResult {
    type V = LicenseResultView;

    open spec fn view(&self) -> LicenseResultView {
        LicenseResultView { file_path: self.file_path@, findings: self.findings.deep_view() }
    }
}

impl DeepView for LicenseResult {
    type V = LicenseResultView;

    open spec fn deep_view(&self) -> LicenseResultView {
        self@
    }
}

impl View for CopyrightFinding {
    type V = CopyrightFindingView;

    open spec fn view(&self) -> CopyrightFindingView {
        CopyrightFindingView { content: self.content@, finding_type: self.finding_type@ }
    }
}

impl DeepView for CopyrightFinding {
    type V = CopyrightFindingView;

    open spec fn deep_view(&self) -> CopyrightFindingView {
        self@
    }
}

impl View for CopyrightResult {
    type V = CopyrightResultView;

    open spec fn view(&self) -> CopyrightResultView {
        CopyrightResultView { file_path: self.file_path@, findings: self.findings.deep_view() }
    }
}

impl DeepView for CopyrightResult {
    type V = CopyrightResultView;

    open spec fn deep_view(&self) -> CopyrightResultView {
        self@
    }
}

impl View for FossologyLicenseResponse {
    type V = FossologyLicenseResponseView;

    open spec fn view(&self) -> FossologyLicenseResponseView {
        match self.findings {
            Some(f) => FossologyLicenseResponseView {
                file_path: self.file_path@,
                scanner: f.scanner.deep_view(),
                conclusion: f.conclusion.deep_view(),
                has_findings: true,
            },
            None => FossologyLicenseResponseView {
                file_path: self.file_path@,
                scanner: None,
                conclusion: None,
                has_findings: false,
            },
        }
    }
}

impl DeepView for FossologyLicenseResponse {
    type V = FossologyLicenseResponseView;

    open spec fn deep_view(&self) -> FossologyLicenseResponseView {
        self@
    }
}

impl View for FossologyCopyrightResponse {
    type V = FossologyCopyrightResponseView;

    open spec fn view(&self) -> FossologyCopyrightResponseView {
        FossologyCopyrightResponseView {
            file_path: self.file_path.deep_view(),
            copyright: self.copyright@,
        }
    }
}

impl DeepView for FossologyCopyrightResponse {
    type V = FossologyCopyrightResponseView;

    open spec fn deep_view(&self) -> FossologyCopyrightResponseView {
        self@
    }
}

/// The findings for a list of license names: one for each name but the
/// placeholder `No_license_found`, without identifier, at full match.
pub open spec fn findings_for(names: Seq<Seq<char>>) -> Seq<LicenseFindingView>
    decreases names.len(),
{
    if names.len() == 0 {
        Seq::empty()
    } else if names.last() == "No_license_found"@ {
        findings_for(names.drop_last())
    } else {
        findings_for(names.drop_last()).push(
            LicenseFindingView { license: names.last(), spdx_id: None, match_percentage: 100 },
        )
    }
}

/// The findings for an optional list of license names.
pub open spec fn named_findings(names: Option<Seq<Seq<char>>>) -> Seq<LicenseFindingView> {
    match names {
        Some(list) => findings_for(list),
        None => Seq::empty(),
    }
}

/// The license result for one entry of the report, if the entry names a
/// license: the scanner's names first, then the conclusions.
pub open spec fn license_result_of(entry: FossologyLicenseResponseView) -> Option<
    LicenseResultView,
> {
    let findings = named_findings(entry.scanner) + named_findings(entry.conclusion);
    if !entry.has_findings || findings.len() == 0 {
        None
    } else {
        Some(LicenseResultView { file_path: entry.file_path, findings })
    }
}

/// The license results for a report, in the report's order.
pub open spec fn license_results_of(report: Seq<FossologyLicenseResponseView>) -> Seq<
    LicenseResultView,
>
    decreases report.len(),
{
    if report.len() == 0 {
        Seq::empty()
    } else {
        match license_result_of(report.last()) {
            Some(r) => license_results_of(report.drop_last()).push(r),
            None => license_results_of(report.drop_last()),
        }
    }
}

fn push_named_findings(findings: &mut Vec<LicenseFinding>, names: Option<Vec<String>>)
    ensures
        final(findings).deep_view() == old(findings).deep_view() + named_findings(
            names.deep_view(),
        ),
{
    let ghost start = findings.deep_view();
    match names {
        Some(list) => {
            let ghost all = list.deep_view();
            let ghost items = list@;
            assert(all.take(0) =~= Seq::<Seq<char>>::empty());
            assert(start + Seq::<LicenseFindingView>::empty() =~= start);
            for name in it: list
                invariant
                    it.seq() == items,
                    all.len() == items.len(),
                    forall|k: int| 0 <= k < items.len() ==> all[k] == #[trigger] items[k]@,
                    findings.deep_view() == start + findings_for(all.take(it.index() as int)),
            {
                let ghost done = it.index() as int;
                assert(all.take(done + 1).drop_last() == all.take(done));
                assert(all.take(done + 1).last() == name@);
                if !text_eq(name.as_str(), "No_license_found") {
                    let ghost before = findings.deep_view();
                    let finding = LicenseFinding {
                        license: name,
                        spdx_id: None,
                        match_percentage: 100,
                    };
                    findings.push(finding);
                    assert(findings.deep_view() =~= before.push(finding@));
                    assert(before.push(finding@) =~= start + findings_for(all.take(done + 1)));
                }
            }
            assert(all.take(all.len() as int) == all);
        },
        None => {
            assert(start + Seq::<LicenseFindingView>::empty() =~= start);
        },
    }
}

/// Turns the service's license report into license results: entries
/// without findings are dropped, and so is the placeholder for "no license".
pub fn convert_license_report(report: Vec<FossologyLicenseResponse>) -> (results: Vec<
    LicenseResult,
>)
    ensures
        results.deep_view() == license_results_of(report.deep_view()),
{
    let mut results: Vec<LicenseResult> = Vec::new();
    let ghost all = report.deep_view();
    let ghost items = report@;
    assert(all.take(0) =~= Seq::<FossologyLicenseResponseView>::empty());
    assert(results.deep_view() =~= Seq::<LicenseResultView>::empty());
    for entry in it: report
        invariant
            it.seq() == items,
            all.len() == items.len(),
            forall|k: int| 0 <= k < items.len() ==> all[k] == #[trigger] items[k]@,
            results.deep_view() == license_results_of(all.take(it.index() as int)),
    {
        let ghost done = it.index() as int;
        assert(all.take(done + 1).drop_last() == all.take(done));
        assert(all.take(done + 1).last() == entry@);
        let FossologyLicenseResponse { file_path, findings } = entry;
        match findings {
            Some(found) => {
                let FossologyFindings { scanner, conclusion } = found;
                let mut list: Vec<LicenseFinding> = Vec::new();
                assert(list.deep_view() =~= Seq::<LicenseFindingView>::empty());
                push_named_findings(&mut list, scanner);
                push_named_findings(&mut list, conclusion);
                assert(list.deep_view() =~= named_findings(entry@.scanner) + named_findings(
                    entry@.conclusion,
                ));
                if list.len() > 0 {
                    let ghost before = results.deep_view();
                    let result = LicenseResult { file_path, findings: list };
                    results.push(result);
                    assert(results.deep_view() =~= before.push(result@));
                }
            },
            None => {},
        }
    }
    assert(all.take(all.len() as int) == all);
    results
}

/// Whether a character may stand in a copyright statement: tab, line feed,
/// carriage return, any ASCII character that is no control character, and
/// any other character that is alphabetic or numeric.
pub open spec fn is_printable_char(c: char) -> bool {
    ||| c == '\t'
    ||| c == '\n'
    ||| c == '\r'
    ||| (!is_control_char(c) && (c as u32) < 128)
    ||| ((c as u32) >= 128 && is_alphanumeric_char(c))
}

/// Whether a text holds printable characters only.
pub open spec fn is_printable(text: Seq<char>) -> bool {
    forall|i: int| 0 <= i < text.len() ==> is_printable_char(#[trigger] text[i])
}

/// Check if a string contains only printable text (no binary data).
pub fn is_printable_text(text: &str) -> (r: bool)
    ensures
        r == is_printable(text@),
{
    let v = to_chars(text);
    let mut i: usize = 0;
    while i < v.len()
        invariant
            i <= v.len(),
            v@ == text@,
            forall|k: int| 0 <= k < i ==> is_printable_char(#[trigger] text@[k]),
        decreases v.len() - i,
    {
        let c = v[i];
        let ascii = (c as u32) < 128;
        let ok = c == '\t' || c == '\n' || c == '\r' || (!char_is_control(c) && ascii) || (!ascii
            && char_is_alphanumeric(c));
        if !ok {
            assert(!is_printable_char(text@[i as int]));
            return false;
        }
        i += 1;
    }
    true
}

/// The copyright results for one statement: one for each file that carries it.
pub open spec fn copyright_results_for(files: Seq<Seq<char>>, statement: Seq<char>) -> Seq<
    CopyrightResultView,
> {
    Seq::new(
        files.len(),
        |i: int|
            CopyrightResultView {
                file_path: files[i],
                findings: seq![
                    CopyrightFindingView { content: statement, finding_type: "copyright"@ },
                ],
            },
    )
}

/// The copyright results for a report: entries with an empty statement or
/// with unprintable characters are dropped, the others give one result for
/// each of their files.
pub open spec fn copyright_results_of(report: Seq<FossologyCopyrightResponseView>) -> Seq<
    CopyrightResultView,
>
    decreases report.len(),
{
    if report.len() == 0 {
        Seq::empty()
    } else {
        let before = copyright_results_of(report.drop_last());
        let entry = report.last();
        if entry.copyright.len() == 0 || !is_printable(entry.copyright) {
            before
        } else {
            before + copyright_results_for(entry.file_path, entry.copyright)
        }
    }
}

/// Turns the service's copyright report into copyright results, one for
/// each file of each usable statement.
pub fn convert_copyright_report(report: Vec<FossologyCopyrightResponse>) -> (results: Vec<
    CopyrightResult,
>)
    ensures
        results.deep_view() == copyright_results_of(report.deep_view()),
{
    let mut results: Vec<CopyrightResult> = Vec::new();
    let ghost all = report.deep_view();
    let ghost items = report@;
    assert(all.take(0) =~= Seq::<FossologyCopyrightResponseView>::empty());
    assert(results.deep_view() =~= Seq::<CopyrightResultView>::empty());
    for entry in it: report
        invariant
            it.seq() == items,
            all.len() == items.len(),
            forall|k: int| 0 <= k < items.len() ==> all[k] == #[trigger] items[k]@,
            results.deep_view() == copyright_results_of(all.take(it.index() as int)),
    {
        let ghost done = it.index() as int;
        let ghost start = results.deep_view();
        assert(all.take(done + 1).drop_last() == all.take(done));
        assert(all.take(done + 1).last() == entry@);
        let FossologyCopyrightResponse { file_path, copyright } = entry;
        if copyright.as_str().unicode_len() == 0 || !is_printable_text(copyright.as_str()) {
        } else {
            let ghost files = file_path.deep_view();
            let ghost paths = file_path@;
            for path in inner: file_path
                invariant
                    inner.seq() == paths,
                    files.len() == paths.len(),
                    forall|k: int| 0 <= k < paths.len() ==> files[k] == #[trigger] paths[k]@,
                    results.deep_view() =~= start + copyright_results_for(files, copyright@).take(
                        inner.index() as int,
                    ),
            {
                let ghost before = results.deep_view();
                let finding = CopyrightFinding {
                    content: copyright.clone(),
                    finding_type: String::from_str("copyright"),
                };
                let mut findings: Vec<CopyrightFinding> = Vec::new();
                findings.push(finding);
                assert(findings.deep_view() =~= seq![finding@]);
                let result = CopyrightResult { file_path: path, findings };
                results.push(result);
                assert(results.deep_view() =~= before.push(result@));
            }
            assert(copyright_results_for(files, copyright@).take(files.len() as int)
                =~= copyright_results_for(files, copyright@));
        }
    }
    assert(all.take(all.len() as int) == all);
    results
}

/// How the remote analyzer is addressed: where it is and how requests are
/// authorized.
pub struct FossologyClient {
    pub base_url: String,
    pub api_token: String,
    pub username: String,
    pub password: String,
}

/// Mathematical value of a [`FossologyClient`].
pub struct FossologyClientView {
    pub base_url: Seq<char>,
    pub api_token: Seq<char>,
    pub username: Seq<char>,
    pub password: Seq<char>,
}

impl View for FossologyClient {
    type V = FossologyClientView;

    open spec fn view(&self) -> FossologyClientView {
        FossologyClientView {
            base_url: self.base_url@,
            api_token: self.api_token@,
            username: self.username@,
            password: self.password@,
        }
    }
}

/// Whether an API token is taken for a real one: it is not empty and not
/// the placeholder of the sample configuration.
pub open spec fn token_is_set(token: Seq<char>) -> bool {
    token.len() > 0 && token != "your_token_here"@
}

/// The `Authorization` header of a client, if one can be made: with a token
/// the bearer form; else the basic form, the base64 encoding of
/// `username:password`, which is not made for credentials of more than
/// [`BASE64_MAX_INPUT`] bytes.
pub open spec fn authorization(client: FossologyClientView) -> Option<Seq<char>> {
    if token_is_set(client.api_token) {
        Some("Bearer "@ + client.api_token)
    } else {
        let credentials = encode_utf8(client.username + ":"@ + client.password);
        if credentials.len() <= BASE64_MAX_INPUT {
            Some("Basic "@ + base64_standard(credentials))
        } else {
            None
        }
    }
}

/// The address of a resource of the service's API.
pub open spec fn api_url(base_url: Seq<char>, resource: Seq<char>) -> Seq<char> {
    base_url + "/repo/api/v1/"@ + resource
}

/// The address of a numbered resource, with what follows the number.
pub open spec fn api_url_of(base_url: Seq<char>, resource: Seq<char>, id: i32, rest: Seq<char>) -> Seq<
    char,
> {
    base_url + "/repo/api/v1/"@ + resource + signed_decimal(id as int) + rest
}

/// Whether an HTTP status reports success.
pub open spec fn is_success(status: u16) -> bool {
    200 <= status < 300
}

impl FossologyClient {
    /// A client for the service at `base_url`, whose trailing slashes are
    /// dropped, with the service's default credentials.
    pub fn new(base_url: String, api_token: String) -> (client: Self)
        ensures
            client@ == (FossologyClientView {
                base_url: stripped_end(base_url@, "/"@),
                api_token: api_token@,
                username: "fossy"@,
                password: "fossy"@,
            }),
    {
        FossologyClient {
            base_url: strip_trailing(base_url.as_str(), "/"),
            api_token,
            username: String::from_str("fossy"),
            password: String::from_str("fossy"),
        }
    }

    /// The `Authorization` header for requests: the API token if one is set,
    /// else basic authentication with the credentials.
    pub fn auth_header(&self) -> (header: Option<String>)
        ensures
            header.deep_view() == authorization(self@),
    {
        if self.api_token.as_str().unicode_len() > 0 && !text_eq(
            self.api_token.as_str(),
            "your_token_here",
        ) {
            Some(self.bearer_header())
        } else {
            let mut credentials = self.username.clone();
            push_text(&mut credentials, ":");
            push_text(&mut credentials, self.password.as_str());
            match encode_base64(credentials.as_str().as_bytes()) {
                Some(encoded) => {
                    let mut header = String::from_str("Basic ");
                    push_text(&mut header, encoded.as_str());
                    Some(header)
                },
                None => None,
            }
        }
    }

    /// The `Authorization` header that carries the API token.
    pub fn bearer_header(&self) -> (header: String)
        ensures
            header@ == "Bearer "@ + self.api_token@,
    {
        let mut header = String::from_str("Bearer ");
        push_text(&mut header, self.api_token.as_str());
        header
    }

    fn url(&self, resource: &str) -> (url: String)
        ensures
            url@ == api_url(self.base_url@, resource@),
    {
        let mut url = self.base_url.clone();
        push_text(&mut url, "/repo/api/v1/");
        push_text(&mut url, resource);
        url
    }

    fn url_of(&self, resource: &str, id: i32, rest: &str) -> (url: String)
        ensures
            url@ == api_url_of(self.base_url@, resource@, id, rest@),
    {
        let mut url = self.url(resource);
        push_signed_decimal(&mut url, id as i64);
        push_text(&mut url, rest);
        url
    }

    /// Where the service tells its version: the address of the health check.
    pub fn version_url(&self) -> (url: String)
        ensures
            url@ == api_url(self.base_url@, "version"@),
    {
        self.url("version")
    }

    /// Where uploads are made.
    pub fn uploads_url(&self) -> (url: String)
        ensures
            url@ == api_url(self.base_url@, "uploads"@),
    {
        self.url("uploads")
    }

    /// Where the details of an upload are read.
    pub fn upload_url(&self, upload_id: i32) -> (url: String)
        ensures
            url@ == api_url_of(self.base_url@, "uploads/"@, upload_id, ""@),
    {
        self.url_of("uploads/", upload_id, "")
    }

    /// Where jobs are created.
    pub fn jobs_url(&self) -> (url: String)
        ensures
            url@ == api_url(self.base_url@, "jobs"@),
    {
        self.url("jobs")
    }

    /// Where the state of a job is read.
    pub fn job_url(&self, job_id: i32) -> (url: String)
        ensures
            url@ == api_url_of(self.base_url@, "jobs/"@, job_id, ""@),
    {
        self.url_of("jobs/", job_id, "")
    }

    /// Where the license report of an upload is read.
    pub fn licenses_url(&self, upload_id: i32) -> (url: String)
        ensures
            url@ == api_url_of(self.base_url@, "uploads/"@, upload_id, "/licenses"@),
    {
        self.url_of("uploads/", upload_id, "/licenses")
    }

    /// Where the copyright report of an upload is read.
    pub fn copyrights_url(&self, upload_id: i32) -> (url: String)
        ensures
            url@ == api_url_of(self.base_url@, "uploads/"@, upload_id, "/copyrights"@),
    {
        self.url_of("uploads/", upload_id, "/copyrights")
    }
}

/// Whether an HTTP status reports success.
pub fn status_is_success(status: u16) -> (r: bool)
    ensures
        r == is_success(status),
{
    200 <= status && status < 300
}

/// The result of the health check for the status with which the service
/// answered: `Unavailable` unless the status reports success.
pub fn health_check_outcome(status: u16, status_text: &str) -> (r: Result<(), ScanError>)
    ensures
        is_success(status) ==> r is Ok,
        !is_success(status) ==> r is Err && r->Err_0@ == ScanErrorView::Unavailable(
            "Fossology health check failed: "@ + status_text@,
        ),
{
    if status_is_success(status) {
        Ok(())
    } else {
        let mut message = String::from_str("Fossology health check failed: ");
        push_text(&mut message, status_text);
        Err(ScanError::Unavailable(message))
    }
}

/// The error for a step that the service refused, with what it answered.
pub fn step_refused(step: &str, answer: &str) -> (e: ScanError)
    ensures
        e@ == ScanErrorView::Failed(step@ + ": "@ + answer@),
{
    let mut message = String::from_str(step);
    push_text(&mut message, ": ");
    push_text(&mut message, answer);
    ScanError::Failed(message)
}

/// The error for a report that the service refused, with the status and
/// the text of its answer.
pub fn report_refused(report: &str, status_text: &str, answer: &str) -> (e: ScanError)
    ensures
        e@ == ScanErrorView::Failed(
            "Failed to get "@ + report@ + " results: "@ + status_text@ + " - "@ + answer@,
        ),
{
    let mut message = String::from_str("Failed to get ");
    push_text(&mut message, report);
    push_text(&mut message, " results: ");
    push_text(&mut message, status_text);
    push_text(&mut message, " - ");
    push_text(&mut message, answer);
    ScanError::Failed(message)
}

/// The error for a report that is not of the expected shape.
pub fn report_unreadable(report: &str, reason: &str) -> (e: ScanError)
    ensures
        e@ == ScanErrorView::ParseError(
            "Failed to parse "@ + report@ + " response: "@ + reason@,
        ),
{
    let mut message = String::from_str("Failed to parse ");
    push_text(&mut message, report);
    push_text(&mut message, " response: ");
    push_text(&mut message, reason);
    ScanError::ParseError(message)
}

} // verus!
