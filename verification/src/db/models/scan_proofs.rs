//! What holds of every write to a scan.
use vstd::prelude::*;
use crate::db::models::scan::{
    fossology_written, is_derived, overall_derived, overall_status, semgrep_written,
    status_written, ScanView,
};

verus! {

/// After the overall status has been derived, it is the one that the
/// precedence gives for the current pair of sub-statuses, whatever stood
/// there before; and deriving it once more changes nothing.
pub proof fn derived_status_follows_the_precedence(scan: ScanView, now: Seq<char>, later: Seq<char>)
    ensures
        is_derived(overall_derived(scan, now)),
        overall_derived(scan, now).status == overall_status(
            scan.fossology_status,
            scan.semgrep_status,
        ),
        overall_derived(overall_derived(scan, now), later) == overall_derived(scan, now),
{
}

/// Repeating a write changes nothing: neither the status nor the error,
/// and no time that the first write has stamped.
pub proof fn repeated_writes_change_nothing(
    scan: ScanView,
    status: Seq<char>,
    error: Option<Seq<char>>,
    now: Seq<char>,
    later: Seq<char>,
)
    ensures
        status_written(status_written(scan, status, error, now), status, error, later)
            == status_written(scan, status, error, now),
        fossology_written(fossology_written(scan, status, error, now), status, error, later)
            == fossology_written(scan, status, error, now),
        semgrep_written(semgrep_written(scan, status, error, now), status, error, later)
            == semgrep_written(scan, status, error, now),
{
}

/// A time that has been stamped is never replaced: no write changes a start
/// or completion time that is set.
pub proof fn stamped_times_stay(
    scan: ScanView,
    status: Seq<char>,
    error: Option<Seq<char>>,
    now: Seq<char>,
)
    ensures
        scan.started_at is Some ==> status_written(scan, status, error, now).started_at
            == scan.started_at && overall_derived(scan, now).started_at == scan.started_at,
        scan.completed_at is Some ==> status_written(scan, status, error, now).completed_at
            == scan.completed_at && overall_derived(scan, now).completed_at == scan.completed_at,
        scan.fossology_started_at is Some ==> fossology_written(
            scan,
            status,
            error,
            now,
        ).fossology_started_at == scan.fossology_started_at,
        scan.fossology_completed_at is Some ==> fossology_written(
            scan,
            status,
            error,
            now,
        ).fossology_completed_at == scan.fossology_completed_at,
        scan.semgrep_started_at is Some ==> semgrep_written(
            scan,
            status,
            error,
            now,
        ).semgrep_started_at == scan.semgrep_started_at,
        scan.semgrep_completed_at is Some ==> semgrep_written(
            scan,
            status,
            error,
            now,
        ).semgrep_completed_at == scan.semgrep_completed_at,
{
}

/// A write to one sub-job leaves the other sub-job as it was.
pub proof fn sub_jobs_are_written_apart(
    scan: ScanView,
    status: Seq<char>,
    error: Option<Seq<char>>,
    now: Seq<char>,
)
    ensures
        fossology_written(scan, status, error, now).semgrep_status == scan.semgrep_status,
        fossology_written(scan, status, error, now).semgrep_error == scan.semgrep_error,
        semgrep_written(scan, status, error, now).fossology_status == scan.fossology_status,
        semgrep_written(scan, status, error, now).fossology_error == scan.fossology_error,
        fossology_written(scan, status, error, now).status == scan.status,
        semgrep_written(scan, status, error, now).status == scan.status,
{
}

/// The writes of the two sub-jobs may come in either order: the scan is the
/// same afterwards, and so is the overall status derived from it.
pub proof fn sub_job_writes_commute(
    scan: ScanView,
    fossology: Seq<char>,
    fossology_error: Option<Seq<char>>,
    fossology_time: Seq<char>,
    semgrep: Seq<char>,
    semgrep_error: Option<Seq<char>>,
    semgrep_time: Seq<char>,
)
    ensures
        semgrep_written(
            fossology_written(scan, fossology, fossology_error, fossology_time),
            semgrep,
            semgrep_error,
            semgrep_time,
        ) == fossology_written(
            semgrep_written(scan, semgrep, semgrep_error, semgrep_time),
            fossology,
            fossology_error,
            fossology_time,
        ),
        semgrep_written(
            fossology_written(scan, fossology, fossology_error, fossology_time),
            semgrep,
            semgrep_error,
            semgrep_time,
        ).fossology_status == fossology,
        semgrep_written(
            fossology_written(scan, fossology, fossology_error, fossology_time),
            semgrep,
            semgrep_error,
            semgrep_time,
        ).semgrep_status == semgrep,
{
}

} // verus!
