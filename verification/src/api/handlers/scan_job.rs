//! The scan coordinator: how two analyzers' findings become one record set.
use vstd::prelude::*;
use vstd::hash_map::StringHashMap;
use crate::api::handlers::merge_proofs::{
    last_index_of_finds, last_index_of_reads_paths, merge_keeps_primary_and_adds_the_rest,
};
use crate::db::models::scan::{
    fossology_written, overall_derived, semgrep_written, status_written, Scan, ScanView,
};
use crate::db::models::scan_result::{
    copyright_finding, ecc_finding, license_finding, ScanResult as Finding,
    ScanResultView as FindingView,
};
use crate::scanner::traits::{ScanError, ScanErrorView, ScanResult, ScanResultView};

verus! {

/// The greatest index below `limit` at which `records` holds `path`.
pub open spec fn last_index_of(records: Seq<ScanResultView>, limit: int, path: Seq<char>) -> Option<
    int,
>
    decreases limit,
{
    if limit <= 0 {
        None
    } else if records[limit - 1].file_path == path {
        Some(limit - 1)
    } else {
        last_index_of(records, limit - 1, path)
    }
}

/// One secondary record merged into the records so far, of which the first
/// `primary_len` are the primary analyzer's. Where the primary analyzer has
/// the file, the control-flag findings are appended to its record (the last
/// one, if it has several for the file); the secondary record's license and
/// copyright findings are dropped. Otherwise the file gets a record of its
/// own, which carries the control-flag findings only.
pub open spec fn merge_one(records: Seq<ScanResultView>, primary_len: int, b: ScanResultView) -> Seq<
    ScanResultView,
> {
    match last_index_of(records, primary_len, b.file_path) {
        Some(i) => records.update(
            i,
            ScanResultView { ecc_findings: records[i].ecc_findings + b.ecc_findings, ..records[i] },
        ),
        None => records.push(
            ScanResultView {
                file_path: b.file_path,
                licenses: Seq::empty(),
                copyrights: Seq::empty(),
                ecc_findings: b.ecc_findings,
            },
        ),
    }
}

/// The primary records `a` with the secondary records `b` merged in, one
/// after the other.
pub open spec fn merged(a: Seq<ScanResultView>, b: Seq<ScanResultView>) -> Seq<ScanResultView>
    decreases b.len(),
{
    if b.len() == 0 {
        a
    } else {
        merge_one(merged(a, b.drop_last()), a.len() as int, b.last())
    }
}

/// `index` tells, for every file path, the last of the first `limit`
/// records that holds it, and knows no other path.
pub open spec fn indexes(
    index: Map<Seq<char>, usize>,
    records: Seq<ScanResultView>,
    limit: int,
) -> bool {
    forall|path: Seq<char>|
        #![trigger index.contains_key(path)]
        #![trigger last_index_of(records, limit, path)]
        last_index_of(records, limit, path) == if index.contains_key(path) {
            Some(index[path] as int)
        } else {
            None::<int>
        }
}

/// The index of the records by file path: where a path occurs more than
/// once, the last record that holds it is the one that the index gives.
fn index_by_path(records: &Vec<ScanResult>) -> (index: StringHashMap<usize>)
    ensures
        indexes(index@, records.deep_view(), records.len() as int),
{
    let mut index: StringHashMap<usize> = StringHashMap::new();
    let mut i: usize = 0;
    let ghost all = records.deep_view();
    while i < records.len()
        invariant
            i <= records.len(),
            all == records.deep_view(),
            indexes(index@, all, i as int),
        decreases records.len() - i,
    {
        let ghost before = index@;
        index.insert(records[i].file_path.clone(), i);
        assert forall|path: Seq<char>|
            #![trigger index@.contains_key(path)]
            #![trigger last_index_of(all, i + 1, path)]
            last_index_of(all, i + 1, path) == if index@.contains_key(path) {
                Some(index@[path] as int)
            } else {
                None::<int>
            } by {
            assert(all[i as int].file_path == records[i as int].file_path@);
            if all[i as int].file_path != path {
                assert(before.contains_key(path) == index@.contains_key(path));
                assert(last_index_of(all, i + 1, path) == last_index_of(all, i as int, path));
            }
        }
        i += 1;
    }
    index
}

/// Merge the secondary analyzer's results into the primary analyzer's, by
/// file path. Findings are never deduplicated.
pub fn merge_scan_results(fossology_results: &mut Vec<ScanResult>, semgrep_results: Vec<ScanResult>)
    ensures
        final(fossology_results).deep_view() == merged(
            old(fossology_results).deep_view(),
            semgrep_results.deep_view(),
        ),
{
    let primary_len = fossology_results.len();
    let file_index_map = index_by_path(fossology_results);
    let ghost a = fossology_results.deep_view();
    let ghost b = semgrep_results.deep_view();
    let ghost items = semgrep_results@;
    assert(b.take(0) =~= Seq::<ScanResultView>::empty());
    for item in it: semgrep_results
        invariant
            it.seq() == items,
            b.len() == items.len(),
            forall|k: int| 0 <= k < items.len() ==> b[k] == #[trigger] items[k]@,
            fossology_results.deep_view() == merged(a, b.take(it.index() as int)),
            primary_len == a.len(),
            fossology_results.len() >= primary_len,
            indexes(file_index_map@, a, a.len() as int),
    {
        let ghost done = it.index() as int;
        let ghost before = fossology_results.deep_view();
        assert(item@ == b[done]);
        assert(b.take(done + 1).drop_last() == b.take(done));
        assert(b.take(done + 1).last() == b[done]);
        let ScanResult { file_path, licenses: _, copyrights: _, ecc_findings } = item;
        let mut additions = ecc_findings;
        let ghost added = additions.deep_view();
        proof {
            // The merge so far has kept the paths of the primary records, so
            // the index still tells where the file stands among them.
            merge_keeps_primary_and_adds_the_rest(a, b.take(done));
            last_index_of_reads_paths(before, a, a.len() as int, file_path@);
            last_index_of_finds(a, a.len() as int, file_path@);
            assert(last_index_of(a, a.len() as int, file_path@) == if file_index_map@.contains_key(
                file_path@,
            ) {
                Some(file_index_map@[file_path@] as int)
            } else {
                None::<int>
            });
        }
        let found: Option<usize> = match file_index_map.get(file_path.as_str()) {
            Some(i) => Some(*i),
            None => None,
        };
        match found {
            Some(i) => {
                let ghost old_records = fossology_results@;
                let target = &mut fossology_results[i];
                target.ecc_findings.append(&mut additions);
                let ghost new_record = fossology_results@[i as int];
                assert(new_record.ecc_findings.deep_view() =~= old_records[i as int].ecc_findings.deep_view()
                    + added);
                assert(new_record@ == ScanResultView {
                    ecc_findings: before[i as int].ecc_findings + b[done].ecc_findings,
                    ..before[i as int]
                });
                assert(fossology_results.deep_view() =~= merge_one(before, a.len() as int, b[done]));
            },
            None => {
                let record = ScanResult {
                    file_path,
                    licenses: Vec::new(),
                    copyrights: Vec::new(),
                    ecc_findings: additions,
                };
                assert(record@.licenses =~= Seq::empty());
                assert(record@.copyrights =~= Seq::empty());
                fossology_results.push(record);
                assert(fossology_results.deep_view() =~= merge_one(before, a.len() as int, b[done]));
            },
        }
    }
    assert(b.take(b.len() as int) == b);
}

/// How far a scan job has come.
#[derive(Clone, Copy, PartialEq, Eq, Structural)]
pub enum JobPhase {
    /// Nothing has been asked for yet.
    Created,
    /// The workspace has been asked for.
    Preparing,
    /// The repository is being fetched into the workspace.
    Cloning,
    /// The analyzers are running.
    Scanning,
    /// The merged findings are being stored.
    Persisting,
    /// The workspace is being removed.
    CleaningUp,
    /// The job is over.
    Finished,
}

/// What has happened outside since the last step.
pub enum JobEvent {
    WorkspaceCreated,
    WorkspaceFailed(String),
    Cloned,
    CloneFailed(String),
    FossologyFinished(Result<Vec<ScanResult>, ScanError>),
    SemgrepFinished(Result<Vec<ScanResult>, ScanError>),
    Stored,
    StoreFailed(String),
    CleanedUp,
    CleanupFailed(String),
}

/// What the caller does next. After every step the caller also writes the
/// job's scan to the store.
pub enum JobAction {
    /// Make the workspace of the scan.
    CreateWorkspace,
    /// Fetch the repository into the workspace.
    Clone,
    /// Run both analyzers on the workspace, each on its own.
    RunScanners,
    /// Store these findings.
    Store(Vec<ScanResult>),
    /// Remove the workspace.
    Cleanup,
    /// Nothing, until the other analyzer has finished.
    Wait,
    /// Nothing more: the job is over.
    Finish,
    /// Nothing: the event does not belong to the job's phase.
    Ignore,
}

/// A scan job: the scan, how far it has come, what the analyzers have
/// brought so far, and the error with which it will end, if any.
pub struct ScanJob {
    pub scan: Scan,
    pub phase: JobPhase,
    pub fossology: Option<Result<Vec<ScanResult>, ScanError>>,
    pub semgrep: Option<Result<Vec<ScanResult>, ScanError>>,
    pub failure: Option<String>,
}

/// Mathematical value of what an analyzer brought.
pub type OutcomeView = Option<Result<Seq<ScanResultView>, ScanErrorView>>;

/// The value of what an analyzer returned.
pub open spec fn result_view(result: Result<Vec<ScanResult>, ScanError>) -> Result<
    Seq<ScanResultView>,
    ScanErrorView,
> {
    match result {
        Ok(records) => Ok(records.deep_view()),
        Err(e) => Err(e@),
    }
}

/// The value of what an analyzer has brought so far.
pub open spec fn outcome_view(outcome: Option<Result<Vec<ScanResult>, ScanError>>) -> OutcomeView {
    match outcome {
        Some(result) => Some(result_view(result)),
        None => None,
    }
}

/// Mathematical value of a [`JobEvent`].
pub enum JobEventView {
    WorkspaceCreated,
    WorkspaceFailed(Seq<char>),
    Cloned,
    CloneFailed(Seq<char>),
    FossologyFinished(Result<Seq<ScanResultView>, ScanErrorView>),
    SemgrepFinished(Result<Seq<ScanResultView>, ScanErrorView>),
    Stored,
    StoreFailed(Seq<char>),
    CleanedUp,
    CleanupFailed(Seq<char>),
}

/// Mathematical value of a [`JobAction`].
pub enum JobActionView {
    CreateWorkspace,
    Clone,
    RunScanners,
    Store(Seq<ScanResultView>),
    Cleanup,
    Wait,
    Finish,
    Ignore,
}

/// Mathematical value of a [`ScanJob`].
pub struct ScanJobView {
    pub scan: ScanView,
    pub phase: JobPhase,
    pub fossology: OutcomeView,
    pub semgrep: OutcomeView,
    pub failure: Option<Seq<char>>,
}

impl View for JobEvent {
    type V = JobEventView;

    open spec fn view(&self) -> JobEventView {
        match self {
            JobEvent::WorkspaceCreated => JobEventView::WorkspaceCreated,
            JobEvent::WorkspaceFailed(m) => JobEventView::WorkspaceFailed(m@),
            JobEvent::Cloned => JobEventView::Cloned,
            JobEvent::CloneFailed(m) => JobEventView::CloneFailed(m@),
            JobEvent::FossologyFinished(r) => JobEventView::FossologyFinished(result_view(*r)),
            JobEvent::SemgrepFinished(r) => JobEventView::SemgrepFinished(result_view(*r)),
            JobEvent::Stored => JobEventView::Stored,
            JobEvent::StoreFailed(m) => JobEventView::StoreFailed(m@),
            JobEvent::CleanedUp => JobEventView::CleanedUp,
            JobEvent::CleanupFailed(m) => JobEventView::CleanupFailed(m@),
        }
    }
}

impl View for JobAction {
    type V = JobActionView;

    open spec fn view(&self) -> JobActionView {
        match self {
            JobAction::CreateWorkspace => JobActionView::CreateWorkspace,
            JobAction::Clone => JobActionView::Clone,
            JobAction::RunScanners => JobActionView::RunScanners,
            JobAction::Store(records) => JobActionView::Store(records.deep_view()),
            JobAction::Cleanup => JobActionView::Cleanup,
            JobAction::Wait => JobActionView::Wait,
            JobAction::Finish => JobActionView::Finish,
            JobAction::Ignore => JobActionView::Ignore,
        }
    }
}

impl View for ScanJob {
    type V = ScanJobView;

    open spec fn view(&self) -> ScanJobView {
        ScanJobView {
            scan: self.scan@,
            phase: self.phase,
            fossology: outcome_view(self.fossology),
            semgrep: outcome_view(self.semgrep),
            failure: self.failure.deep_view(),
        }
    }
}

/// The job ends: a failure that was kept is written to the scan, which
/// sets its overall status to `failed` directly.
pub open spec fn job_ended(job: ScanJobView, failure: Option<Seq<char>>, now: Seq<char>) -> (
    ScanJobView,
    JobActionView,
) {
    (
        ScanJobView {
            scan: match failure {
                Some(message) => status_written(job.scan, "failed"@, Some(message), now),
                None => job.scan,
            },
            phase: JobPhase::Finished,
            ..job
        },
        JobActionView::Finish,
    )
}

/// The job turns to removing the workspace, keeping the failure with which
/// it will end.
pub open spec fn job_cleans_up(job: ScanJobView, failure: Option<Seq<char>>) -> (
    ScanJobView,
    JobActionView,
) {
    (ScanJobView { phase: JobPhase::CleaningUp, failure, ..job }, JobActionView::Cleanup)
}

/// An analyzer has returned: its sub-job becomes `completed`, or `failed`
/// with the error's message, and the overall status is derived anew. While
/// the other analyzer is still running, the job waits. Once both have
/// returned, their findings are merged and handed on for storing; but if
/// either failed, nothing is merged or stored, and the job will end with
/// the error of the license analyzer, or else of the pattern analyzer.
pub open spec fn analyzer_returned(
    job: ScanJobView,
    is_fossology: bool,
    result: Result<Seq<ScanResultView>, ScanErrorView>,
    now: Seq<char>,
) -> (ScanJobView, JobActionView) {
    let status = if result is Ok {
        "completed"@
    } else {
        "failed"@
    };
    let error = match result {
        Ok(_) => None,
        Err(e) => Some(e.message()),
    };
    let scan = overall_derived(
        if is_fossology {
            fossology_written(job.scan, status, error, now)
        } else {
            semgrep_written(job.scan, status, error, now)
        },
        now,
    );
    let fossology = if is_fossology {
        Some(result)
    } else {
        job.fossology
    };
    let semgrep = if is_fossology {
        job.semgrep
    } else {
        Some(result)
    };
    match (fossology, semgrep) {
        (Some(Ok(a)), Some(Ok(b))) => (
            ScanJobView {
                scan,
                phase: JobPhase::Persisting,
                fossology: None,
                semgrep: None,
                failure: job.failure,
            },
            JobActionView::Store(merged(a, b)),
        ),
        (Some(Err(e)), Some(_)) => job_cleans_up(
            ScanJobView { scan, fossology, semgrep, ..job },
            Some(e.message()),
        ),
        (Some(Ok(_)), Some(Err(e))) => job_cleans_up(
            ScanJobView { scan, fossology, semgrep, ..job },
            Some(e.message()),
        ),
        _ => (ScanJobView { scan, fossology, semgrep, ..job }, JobActionView::Wait),
    }
}

/// One step of a scan job: the state after the event, and what to do next.
///
/// The workspace is made first; if that fails the job ends as failed.
/// Then the repository is fetched; then both sub-jobs become `in_progress`
/// and the analyzers run. What they bring is handled by
/// [`analyzer_returned`]. After storing, the overall status is derived once
/// more. Whatever happened after the workspace was made, the workspace is
/// removed before the job ends; an error of the removal itself is the one
/// the job ends with. An event that does not belong to the phase changes
/// nothing.
pub open spec fn job_step(job: ScanJobView, event: JobEventView, now: Seq<char>) -> (
    ScanJobView,
    JobActionView,
) {
    match (job.phase, event) {
        (JobPhase::Preparing, JobEventView::WorkspaceCreated) => (
            ScanJobView { phase: JobPhase::Cloning, ..job },
            JobActionView::Clone,
        ),
        (JobPhase::Preparing, JobEventView::WorkspaceFailed(message)) => job_ended(
            job,
            Some(message),
            now,
        ),
        (JobPhase::Cloning, JobEventView::Cloned) => (
            ScanJobView {
                scan: overall_derived(
                    semgrep_written(
                        fossology_written(job.scan, "in_progress"@, None, now),
                        "in_progress"@,
                        None,
                        now,
                    ),
                    now,
                ),
                phase: JobPhase::Scanning,
                ..job
            },
            JobActionView::RunScanners,
        ),
        (JobPhase::Cloning, JobEventView::CloneFailed(message)) => job_cleans_up(
            job,
            Some(message),
        ),
        (JobPhase::Scanning, JobEventView::FossologyFinished(result)) => if job.fossology is None {
            analyzer_returned(job, true, result, now)
        } else {
            (job, JobActionView::Ignore)
        },
        (JobPhase::Scanning, JobEventView::SemgrepFinished(result)) => if job.semgrep is None {
            analyzer_returned(job, false, result, now)
        } else {
            (job, JobActionView::Ignore)
        },
        (JobPhase::Persisting, JobEventView::Stored) => job_cleans_up(
            ScanJobView { scan: overall_derived(job.scan, now), ..job },
            job.failure,
        ),
        (JobPhase::Persisting, JobEventView::StoreFailed(message)) => job_cleans_up(
            job,
            Some(message),
        ),
        (JobPhase::CleaningUp, JobEventView::CleanedUp) => job_ended(job, job.failure, now),
        (JobPhase::CleaningUp, JobEventView::CleanupFailed(message)) => job_ended(
            job,
            Some(message),
            now,
        ),
        _ => (job, JobActionView::Ignore),
    }
}

impl ScanJob {
    /// The job for a scan, before anything has been asked for.
    pub fn new(scan: Scan) -> (job: Self)
        ensures
            job@ == (ScanJobView {
                scan: scan@,
                phase: JobPhase::Created,
                fossology: None,
                semgrep: None,
                failure: None,
            }),
    {
        ScanJob { scan, phase: JobPhase::Created, fossology: None, semgrep: None, failure: None }
    }

    /// Begins the job: the workspace is asked for. A job that has begun is
    /// not begun again.
    pub fn start(&mut self) -> (action: JobAction)
        ensures
            old(self).phase == JobPhase::Created ==> final(self)@ == (ScanJobView {
                phase: JobPhase::Preparing,
                ..old(self)@
            }) && action@ == JobActionView::CreateWorkspace,
            old(self).phase != JobPhase::Created ==> final(self)@ == old(self)@ && action@
                == JobActionView::Ignore,
    {
        match self.phase {
            JobPhase::Created => {
                self.phase = JobPhase::Preparing;
                JobAction::CreateWorkspace
            },
            _ => JobAction::Ignore,
        }
    }

    fn end(&mut self, failure: Option<String>, now: &str) -> (action: JobAction)
        ensures
            (final(self)@, action@) == job_ended(old(self)@, failure.deep_view(), now@),
    {
        match failure {
            Some(message) => {
                self.scan.update_status("failed", Some(message), now);
            },
            None => {},
        }
        self.phase = JobPhase::Finished;
        JobAction::Finish
    }

    fn clean_up(&mut self, failure: Option<String>) -> (action: JobAction)
        ensures
            (final(self)@, action@) == job_cleans_up(old(self)@, failure.deep_view()),
    {
        self.phase = JobPhase::CleaningUp;
        self.failure = failure;
        JobAction::Cleanup
    }

    fn analyzer_returns(
        &mut self,
        is_fossology: bool,
        result: Result<Vec<ScanResult>, ScanError>,
        now: &str,
    ) -> (action: JobAction)
        requires
            is_fossology ==> old(self).fossology is None,
            !is_fossology ==> old(self).semgrep is None,
        ensures
            (final(self)@, action@) == analyzer_returned(
                old(self)@,
                is_fossology,
                result_view(result),
                now@,
            ),
    {
        let ghost before = self@;
        let error = match &result {
            Ok(_) => None,
            Err(e) => Some(e.to_string()),
        };
        let status = if result.is_ok() {
            "completed"
        } else {
            "failed"
        };
        if is_fossology {
            self.scan.update_fossology_status(status, error, now);
            self.fossology = Some(result);
        } else {
            self.scan.update_semgrep_status(status, error, now);
            self.semgrep = Some(result);
        }
        self.scan.update_overall_status(now);
        if self.fossology.is_none() || self.semgrep.is_none() {
            return JobAction::Wait;
        }
        let fossology = self.fossology.take().unwrap();
        let semgrep = self.semgrep.take().unwrap();
        match (fossology, semgrep) {
            (Ok(a), Ok(b)) => {
                let mut records = a;
                merge_scan_results(&mut records, b);
                self.phase = JobPhase::Persisting;
                JobAction::Store(records)
            },
            (Err(e), other) => {
                let message = e.to_string();
                self.fossology = Some(Err(e));
                self.semgrep = Some(other);
                self.clean_up(Some(message))
            },
            (Ok(a), Err(e)) => {
                let message = e.to_string();
                self.fossology = Some(Ok(a));
                self.semgrep = Some(Err(e));
                self.clean_up(Some(message))
            },
        }
    }

    /// Takes one event and decides the next action.
    pub fn handle(&mut self, event: JobEvent, now: &str) -> (action: JobAction)
        ensures
            (final(self)@, action@) == job_step(old(self)@, event@, now@),
    {
        match (self.phase, event) {
            (JobPhase::Preparing, JobEvent::WorkspaceCreated) => {
                self.phase = JobPhase::Cloning;
                JobAction::Clone
            },
            (JobPhase::Preparing, JobEvent::WorkspaceFailed(message)) => self.end(
                Some(message),
                now,
            ),
            (JobPhase::Cloning, JobEvent::Cloned) => {
                self.scan.update_fossology_status("in_progress", None, now);
                self.scan.update_semgrep_status("in_progress", None, now);
                self.scan.update_overall_status(now);
                self.phase = JobPhase::Scanning;
                JobAction::RunScanners
            },
            (JobPhase::Cloning, JobEvent::CloneFailed(message)) => self.clean_up(Some(message)),
            (JobPhase::Scanning, JobEvent::FossologyFinished(result)) => {
                if self.fossology.is_none() {
                    self.analyzer_returns(true, result, now)
                } else {
                    JobAction::Ignore
                }
            },
            (JobPhase::Scanning, JobEvent::SemgrepFinished(result)) => {
                if self.semgrep.is_none() {
                    self.analyzer_returns(false, result, now)
                } else {
                    JobAction::Ignore
                }
            },
            (JobPhase::Persisting, JobEvent::Stored) => {
                self.scan.update_overall_status(now);
                let failure = self.failure.take();
                self.clean_up(failure)
            },
            (JobPhase::Persisting, JobEvent::StoreFailed(message)) => self.clean_up(Some(message)),
            (JobPhase::CleaningUp, JobEvent::CleanedUp) => {
                let failure = self.failure.clone();
                self.end(failure, now)
            },
            (JobPhase::CleaningUp, JobEvent::CleanupFailed(message)) => self.end(
                Some(message),
                now,
            ),
            _ => JobAction::Ignore,
        }
    }
}

/// The findings to be stored for one file: its licenses, then its
/// copyright statements, then its control flags.
pub open spec fn findings_of_record(scan_id: Seq<char>, record: ScanResultView) -> Seq<FindingView> {
    Seq::new(
        record.licenses.len(),
        |i: int|
            license_finding(
                scan_id,
                record.file_path,
                record.licenses[i].name,
                record.licenses[i].spdx_id,
                record.licenses[i].confidence,
            ),
    ) + Seq::new(
        record.copyrights.len(),
        |i: int|
            copyright_finding(
                scan_id,
                record.file_path,
                record.copyrights[i].statement,
                record.copyrights[i].holders,
                record.copyrights[i].years,
            ),
    ) + Seq::new(
        record.ecc_findings.len(),
        |i: int|
            ecc_finding(
                scan_id,
                record.file_path,
                record.ecc_findings[i].content,
                record.ecc_findings[i].risk_severity,
                record.ecc_findings[i].source,
                record.ecc_findings[i].line_number,
                record.ecc_findings[i].check_id,
            ),
    )
}

/// The findings to be stored for a scan's records, file by file.
pub open spec fn findings_of(scan_id: Seq<char>, records: Seq<ScanResultView>) -> Seq<FindingView>
    decreases records.len(),
{
    if records.len() == 0 {
        Seq::empty()
    } else {
        findings_of(scan_id, records.drop_last()) + findings_of_record(scan_id, records.last())
    }
}

fn as_text(text: &Option<String>) -> (r: Option<&str>)
    ensures
        r.deep_view() == text.deep_view(),
{
    match text {
        Some(t) => Some(t.as_str()),
        None => None,
    }
}

fn push_findings_of_record(findings: &mut Vec<Finding>, scan_id: &str, record: &ScanResult)
    ensures
        final(findings).deep_view() == old(findings).deep_view() + findings_of_record(
            scan_id@,
            record@,
        ),
{
    let ghost start = findings.deep_view();
    let ghost r = record@;
    let ghost licenses = Seq::new(
        r.licenses.len(),
        |i: int|
            license_finding(
                scan_id@,
                r.file_path,
                r.licenses[i].name,
                r.licenses[i].spdx_id,
                r.licenses[i].confidence,
            ),
    );
    let ghost copyrights = Seq::new(
        r.copyrights.len(),
        |i: int|
            copyright_finding(
                scan_id@,
                r.file_path,
                r.copyrights[i].statement,
                r.copyrights[i].holders,
                r.copyrights[i].years,
            ),
    );
    let ghost flags = Seq::new(
        r.ecc_findings.len(),
        |i: int|
            ecc_finding(
                scan_id@,
                r.file_path,
                r.ecc_findings[i].content,
                r.ecc_findings[i].risk_severity,
                r.ecc_findings[i].source,
                r.ecc_findings[i].line_number,
                r.ecc_findings[i].check_id,
            ),
    );
    let mut i: usize = 0;
    while i < record.licenses.len()
        invariant
            i <= record.licenses.len(),
            r == record@,
            licenses.len() == record.licenses.len(),
            forall|k: int|
                0 <= k < licenses.len() ==> licenses[k] == license_finding(
                    scan_id@,
                    r.file_path,
                    r.licenses[k].name,
                    r.licenses[k].spdx_id,
                    r.licenses[k].confidence,
                ),
            findings.deep_view() =~= start + licenses.take(i as int),
        decreases record.licenses.len() - i,
    {
        let ghost before = findings.deep_view();
        let l = &record.licenses[i];
        let finding = Finding::create_license(
            scan_id,
            record.file_path.as_str(),
            l.name.as_str(),
            as_text(&l.spdx_id),
            l.confidence,
        );
        assert(r.licenses[i as int] == l@);
        findings.push(finding);
        assert(findings.deep_view() =~= before.push(finding@));
        i += 1;
    }
    let ghost after_licenses = findings.deep_view();
    assert(after_licenses =~= start + licenses);
    let mut j: usize = 0;
    while j < record.copyrights.len()
        invariant
            j <= record.copyrights.len(),
            r == record@,
            copyrights.len() == record.copyrights.len(),
            forall|k: int|
                0 <= k < copyrights.len() ==> copyrights[k] == copyright_finding(
                    scan_id@,
                    r.file_path,
                    r.copyrights[k].statement,
                    r.copyrights[k].holders,
                    r.copyrights[k].years,
                ),
            findings.deep_view() =~= after_licenses + copyrights.take(j as int),
        decreases record.copyrights.len() - j,
    {
        let ghost before = findings.deep_view();
        let c = &record.copyrights[j];
        let finding = Finding::create_copyright(
            scan_id,
            record.file_path.as_str(),
            c.statement.as_str(),
            &c.holders,
            &c.years,
        );
        assert(r.copyrights[j as int] == c@);
        findings.push(finding);
        assert(findings.deep_view() =~= before.push(finding@));
        j += 1;
    }
    let ghost after_copyrights = findings.deep_view();
    assert(after_copyrights =~= start + licenses + copyrights);
    let mut k: usize = 0;
    while k < record.ecc_findings.len()
        invariant
            k <= record.ecc_findings.len(),
            r == record@,
            flags.len() == record.ecc_findings.len(),
            forall|n: int|
                0 <= n < flags.len() ==> flags[n] == ecc_finding(
                    scan_id@,
                    r.file_path,
                    r.ecc_findings[n].content,
                    r.ecc_findings[n].risk_severity,
                    r.ecc_findings[n].source,
                    r.ecc_findings[n].line_number,
                    r.ecc_findings[n].check_id,
                ),
            findings.deep_view() =~= after_copyrights + flags.take(k as int),
        decreases record.ecc_findings.len() - k,
    {
        let ghost before = findings.deep_view();
        let e = &record.ecc_findings[k];
        let finding = Finding::create_ecc(
            scan_id,
            record.file_path.as_str(),
            e.content.as_str(),
            e.risk_severity.as_str(),
            as_text(&e.source),
            e.line_number,
            as_text(&e.check_id),
        );
        assert(r.ecc_findings[k as int] == e@);
        findings.push(finding);
        assert(findings.deep_view() =~= before.push(finding@));
        k += 1;
    }
    assert(findings.deep_view() =~= start + (licenses + copyrights + flags));
    assert(licenses + copyrights + flags =~= findings_of_record(scan_id@, record@));
}

/// The findings to be stored for the records of a scan: for each file its
/// licenses, its copyright statements and its control flags, in this order.
pub fn findings_to_store(scan_id: &str, scan_results: &Vec<ScanResult>) -> (findings: Vec<Finding>)
    ensures
        findings.deep_view() == findings_of(scan_id@, scan_results.deep_view()),
{
    let mut findings: Vec<Finding> = Vec::new();
    let mut i: usize = 0;
    let ghost all = scan_results.deep_view();
    assert(all.take(0) =~= Seq::<ScanResultView>::empty());
    assert(findings.deep_view() =~= Seq::<FindingView>::empty());
    while i < scan_results.len()
        invariant
            i <= scan_results.len(),
            all == scan_results.deep_view(),
            findings.deep_view() == findings_of(scan_id@, all.take(i as int)),
        decreases scan_results.len() - i,
    {
        assert(all.take(i + 1).drop_last() == all.take(i as int));
        assert(all.take(i + 1).last() == scan_results[i as int]@);
        push_findings_of_record(&mut findings, scan_id, &scan_results[i]);
        i += 1;
    }
    assert(all.take(scan_results.len() as int) == all);
    findings
}

} // verus!
