//! A scan and the lifecycle of its two sub-jobs.
//!
//! Each analyzer's sub-job goes from `pending` to `in_progress` and ends as
//! `completed` or `failed`. The overall status is derived from the two
//! sub-statuses by a fixed precedence. Time is an argument: the functions
//! here decide what is written, the caller says when.
use vstd::prelude::*;
use crate::db::models::scan_result::opt_text;
use crate::text::text_eq;

verus! {

/// A scan of one repository.
pub struct Scan {
    pub id: String,
    pub git_url: String,
    pub status: String,
    pub error_message: Option<String>,
    pub created_at: String,
    pub started_at: Option<String>,
    pub completed_at: Option<String>,
    pub created_by_key_id: Option<String>,
    pub git_token: Option<String>,
    pub fossology_status: String,
    pub semgrep_status: String,
    pub fossology_started_at: Option<String>,
    pub fossology_completed_at: Option<String>,
    pub semgrep_started_at: Option<String>,
    pub semgrep_completed_at: Option<String>,
    pub fossology_error: Option<String>,
    pub semgrep_error: Option<String>,
}

/// Mathematical value of a [`Scan`].
pub struct ScanView {
    pub id: Seq<char>,
    pub git_url: Seq<char>,
    pub status: Seq<char>,
    pub error_message: Option<Seq<char>>,
    pub created_at: Seq<char>,
    pub started_at: Option<Seq<char>>,
    pub completed_at: Option<Seq<char>>,
    pub created_by_key_id: Option<Seq<char>>,
    pub git_token: Option<Seq<char>>,
    pub fossology_status: Seq<char>,
    pub semgrep_status: Seq<char>,
    pub fossology_started_at: Option<Seq<char>>,
    pub fossology_completed_at: Option<Seq<char>>,
    pub semgrep_started_at: Option<Seq<char>>,
    pub semgrep_completed_at: Option<Seq<char>>,
    pub fossology_error: Option<Seq<char>>,
    pub semgrep_error: Option<Seq<char>>,
}

impl View for Scan {
    type V = ScanView;

    open spec fn view(&self) -> ScanView {
        ScanView {
            id: self.id@,
            git_url: self.git_url@,
            status: self.status@,
            error_message: opt_text(self.error_message),
            created_at: self.created_at@,
            started_at: opt_text(self.started_at),
            completed_at: opt_text(self.completed_at),
            created_by_key_id: opt_text(self.created_by_key_id),
            git_token: opt_text(self.git_token),
            fossology_status: self.fossology_status@,
            semgrep_status: self.semgrep_status@,
            fossology_started_at: opt_text(self.fossology_started_at),
            fossology_completed_at: opt_text(self.fossology_completed_at),
            semgrep_started_at: opt_text(self.semgrep_started_at),
            semgrep_completed_at: opt_text(self.semgrep_completed_at),
            fossology_error: opt_text(self.fossology_error),
            semgrep_error: opt_text(self.semgrep_error),
        }
    }
}

/// Counts over the findings of one scan.
pub struct ScanSummary {
    pub total_files: i64,
    pub files_with_licenses: i64,
    pub files_with_copyrights: i64,
    pub unique_licenses: i64,
    pub unique_copyrights: i64,
}

/// The overall status for a pair of sub-statuses: `completed` if both are
/// completed; else `failed` if either failed; else `in_progress` if either
/// is in progress; else `pending`.
pub open spec fn overall_status(fossology: Seq<char>, semgrep: Seq<char>) -> Seq<char> {
    if fossology == "completed"@ && semgrep == "completed"@ {
        "completed"@
    } else if fossology == "failed"@ || semgrep == "failed"@ {
        "failed"@
    } else if fossology == "in_progress"@ || semgrep == "in_progress"@ {
        "in_progress"@
    } else {
        "pending"@
    }
}

/// The start time after `status` is written: set on the first entry into
/// `in_progress`, and kept from then on.
pub open spec fn stamp_started(previous: Option<Seq<char>>, status: Seq<char>, now: Seq<char>) -> Option<
    Seq<char>,
> {
    if previous is None && status == "in_progress"@ {
        Some(now)
    } else {
        previous
    }
}

/// The completion time after `status` is written: set on the first entry
/// into `completed` or `failed`, and kept from then on.
pub open spec fn stamp_completed(
    previous: Option<Seq<char>>,
    status: Seq<char>,
    now: Seq<char>,
) -> Option<Seq<char>> {
    if previous is None && (status == "completed"@ || status == "failed"@) {
        Some(now)
    } else {
        previous
    }
}

/// The scan after its overall status is set directly.
pub open spec fn status_written(
    scan: ScanView,
    status: Seq<char>,
    error: Option<Seq<char>>,
    now: Seq<char>,
) -> ScanView {
    ScanView {
        status,
        error_message: error,
        started_at: stamp_started(scan.started_at, status, now),
        completed_at: stamp_completed(scan.completed_at, status, now),
        ..scan
    }
}

/// The scan after a transition of the license analyzer's sub-job.
pub open spec fn fossology_written(
    scan: ScanView,
    status: Seq<char>,
    error: Option<Seq<char>>,
    now: Seq<char>,
) -> ScanView {
    ScanView {
        fossology_status: status,
        fossology_error: error,
        fossology_started_at: stamp_started(scan.fossology_started_at, status, now),
        fossology_completed_at: stamp_completed(scan.fossology_completed_at, status, now),
        ..scan
    }
}

/// The scan after a transition of the pattern analyzer's sub-job.
pub open spec fn semgrep_written(
    scan: ScanView,
    status: Seq<char>,
    error: Option<Seq<char>>,
    now: Seq<char>,
) -> ScanView {
    ScanView {
        semgrep_status: status,
        semgrep_error: error,
        semgrep_started_at: stamp_started(scan.semgrep_started_at, status, now),
        semgrep_completed_at: stamp_completed(scan.semgrep_completed_at, status, now),
        ..scan
    }
}

/// The scan after its overall status is derived from the sub-statuses. The
/// times are stamped as for every write: on the first entry into
/// `in_progress`, and on the first entry into `completed` or `failed`.
pub open spec fn overall_derived(scan: ScanView, now: Seq<char>) -> ScanView {
    ScanView {
        status: overall_status(scan.fossology_status, scan.semgrep_status),
        started_at: stamp_started(
            scan.started_at,
            overall_status(scan.fossology_status, scan.semgrep_status),
            now,
        ),
        completed_at: stamp_completed(
            scan.completed_at,
            overall_status(scan.fossology_status, scan.semgrep_status),
            now,
        ),
        ..scan
    }
}

/// The overall status of the scan is the one derived from its sub-statuses.
pub open spec fn is_derived(scan: ScanView) -> bool {
    scan.status == overall_status(scan.fossology_status, scan.semgrep_status)
}

fn started_stamp(previous: Option<String>, status: &str, now: &str) -> (r: Option<String>)
    ensures
        opt_text(r) == stamp_started(opt_text(previous), status@, now@),
{
    match previous {
        Some(t) => Some(t),
        None => {
            if text_eq(status, "in_progress") {
                Some(String::from_str(now))
            } else {
                None
            }
        },
    }
}

fn completed_stamp(previous: Option<String>, status: &str, now: &str) -> (r: Option<String>)
    ensures
        opt_text(r) == stamp_completed(opt_text(previous), status@, now@),
{
    match previous {
        Some(t) => Some(t),
        None => {
            if text_eq(status, "completed") || text_eq(status, "failed") {
                Some(String::from_str(now))
            } else {
                None
            }
        },
    }
}

/// The overall status for a pair of sub-statuses.
pub fn derive_overall_status(fossology: &str, semgrep: &str) -> (r: String)
    ensures
        r@ == overall_status(fossology@, semgrep@),
{
    if text_eq(fossology, "completed") && text_eq(semgrep, "completed") {
        String::from_str("completed")
    } else if text_eq(fossology, "failed") || text_eq(semgrep, "failed") {
        String::from_str("failed")
    } else if text_eq(fossology, "in_progress") || text_eq(semgrep, "in_progress") {
        String::from_str("in_progress")
    } else {
        String::from_str("pending")
    }
}

impl Scan {
    /// The overall status is the one derived from the two sub-statuses.
    pub open spec fn status_is_derived(self) -> bool {
        is_derived(self@)
    }

    /// A new scan: everything is `pending`, nothing has started, no error.
    pub fn create(
        id: String,
        git_url: String,
        git_token: Option<String>,
        created_by_key_id: Option<String>,
        created_at: String,
    ) -> (scan: Scan)
        ensures
            scan@ == (ScanView {
                id: id@,
                git_url: git_url@,
                status: "pending"@,
                error_message: None,
                created_at: created_at@,
                started_at: None,
                completed_at: None,
                created_by_key_id: opt_text(created_by_key_id),
                git_token: opt_text(git_token),
                fossology_status: "pending"@,
                semgrep_status: "pending"@,
                fossology_started_at: None,
                fossology_completed_at: None,
                semgrep_started_at: None,
                semgrep_completed_at: None,
                fossology_error: None,
                semgrep_error: None,
            }),
            scan.status_is_derived(),
    {
        proof {
            reveal_strlit("pending");
            reveal_strlit("completed");
            reveal_strlit("failed");
            reveal_strlit("in_progress");
            assert("pending"@.len() == 7);
            assert("completed"@.len() == 9);
            assert("failed"@.len() == 6);
            assert("in_progress"@.len() == 11);
        }
        Scan {
            id,
            git_url,
            status: String::from_str("pending"),
            error_message: None,
            created_at,
            started_at: None,
            completed_at: None,
            created_by_key_id,
            git_token,
            fossology_status: String::from_str("pending"),
            semgrep_status: String::from_str("pending"),
            fossology_started_at: None,
            fossology_completed_at: None,
            semgrep_started_at: None,
            semgrep_completed_at: None,
            fossology_error: None,
            semgrep_error: None,
        }
    }

    /// Sets the overall status directly, without regard to the sub-statuses:
    /// the way a scan is marked `failed` when the coordinator itself fails.
    /// The error is replaced, and the times are stamped on first entry.
    pub fn update_status(&mut self, status: &str, error_message: Option<String>, now: &str)
        ensures
            final(self)@ == status_written(old(self)@, status@, opt_text(error_message), now@),
    {
        self.status = String::from_str(status);
        self.error_message = error_message;
        self.started_at = started_stamp(self.started_at.take(), status, now);
        self.completed_at = completed_stamp(self.completed_at.take(), status, now);
    }

    /// Records a transition of the license analyzer's sub-job.
    pub fn update_fossology_status(
        &mut self,
        status: &str,
        error_message: Option<String>,
        now: &str,
    )
        ensures
            final(self)@ == fossology_written(old(self)@, status@, opt_text(error_message), now@),
    {
        self.fossology_status = String::from_str(status);
        self.fossology_error = error_message;
        self.fossology_started_at = started_stamp(self.fossology_started_at.take(), status, now);
        self.fossology_completed_at = completed_stamp(
            self.fossology_completed_at.take(),
            status,
            now,
        );
    }

    /// Records a transition of the pattern analyzer's sub-job.
    pub fn update_semgrep_status(&mut self, status: &str, error_message: Option<String>, now: &str)
        ensures
            final(self)@ == semgrep_written(old(self)@, status@, opt_text(error_message), now@),
    {
        self.semgrep_status = String::from_str(status);
        self.semgrep_error = error_message;
        self.semgrep_started_at = started_stamp(self.semgrep_started_at.take(), status, now);
        self.semgrep_completed_at = completed_stamp(self.semgrep_completed_at.take(), status, now);
    }

    /// Derives the overall status from the two sub-statuses, and stamps the
    /// times where the scan enters a state for the first time.
    pub fn update_overall_status(&mut self, now: &str)
        ensures
            final(self)@ == overall_derived(old(self)@, now@),
            final(self).status_is_derived(),
    {
        let status = derive_overall_status(
            self.fossology_status.as_str(),
            self.semgrep_status.as_str(),
        );
        self.started_at = started_stamp(self.started_at.take(), status.as_str(), now);
        self.completed_at = completed_stamp(self.completed_at.take(), status.as_str(), now);
        self.status = status;
    }
}

} // verus!
