//! What holds of every step of every scan job.
use vstd::prelude::*;
use crate::api::handlers::scan_job::{
    job_step, merged, JobActionView, JobEventView, JobPhase, ScanJobView,
};
use crate::db::models::scan::is_derived;

verus! {

/// The overall status of a job's scan is the one that the precedence of
/// the sub-statuses gives, or the job has ended and the scan was marked
/// `failed` directly.
pub open spec fn status_in_order(job: ScanJobView) -> bool {
    is_derived(job.scan) || (job.phase == JobPhase::Finished && job.scan.status == "failed"@)
}

/// The overall status is always the one derived from the pair of
/// sub-statuses: no step of a job breaks this, except the last step of a
/// job that ends in failure, which marks the scan `failed`.
pub proof fn step_keeps_status_in_order(job: ScanJobView, event: JobEventView, now: Seq<char>)
    requires
        status_in_order(job),
    ensures
        status_in_order(job_step(job, event, now).0),
        job_step(job, event, now).0.phase != JobPhase::Finished && is_derived(job.scan)
            ==> is_derived(job_step(job, event, now).0.scan),
{
}

/// Once the workspace has been made, the job does not end before the
/// workspace has been removed: a step ends the job only from the phase of
/// cleaning up, or from the phase in which the workspace did not come to be.
pub proof fn job_ends_after_cleanup(job: ScanJobView, event: JobEventView, now: Seq<char>)
    ensures
        job_step(job, event, now).0.phase == JobPhase::Finished ==> job.phase
            == JobPhase::Finished || job.phase == JobPhase::CleaningUp || (job.phase
            == JobPhase::Preparing && event is WorkspaceFailed),
        job_step(job, event, now).1 is Finish ==> job.phase == JobPhase::CleaningUp || job.phase
            == JobPhase::Preparing,
{
}

/// Findings are stored only when both analyzers have succeeded, and what is
/// stored is the merge of the license analyzer's findings with the pattern
/// analyzer's.
pub proof fn store_needs_both(job: ScanJobView, event: JobEventView, now: Seq<char>)
    ensures
        match job_step(job, event, now).1 {
            JobActionView::Store(records) => job.phase == JobPhase::Scanning && match event {
                JobEventView::FossologyFinished(Ok(a)) => job.semgrep matches Some(Ok(b))
                    && records == merged(a, b),
                JobEventView::SemgrepFinished(Ok(b)) => job.fossology matches Some(Ok(a))
                    && records == merged(a, b),
                _ => false,
            },
            _ => true,
        },
{
}

/// The failure of one analyzer does not end the wait for the other: the
/// failure is recorded in its sub-job at once, and the job goes on waiting.
pub proof fn failure_waits_for_the_other(job: ScanJobView, event: JobEventView, now: Seq<char>)
    requires
        job.phase == JobPhase::Scanning,
        job.fossology is None,
        job.semgrep is None,
        event matches JobEventView::FossologyFinished(Err(_))
            || event matches JobEventView::SemgrepFinished(Err(_)),
    ensures
        job_step(job, event, now).1 == JobActionView::Wait,
        job_step(job, event, now).0.phase == JobPhase::Scanning,
        job_step(job, event, now).0.scan.status == "failed"@,
        event is FossologyFinished ==> job_step(job, event, now).0.scan.fossology_error is Some,
        event is SemgrepFinished ==> job_step(job, event, now).0.scan.semgrep_error is Some,
{
    reveal_strlit("completed");
    reveal_strlit("failed");
    assert("completed"@.len() == 9);
    assert("failed"@.len() == 6);
}

/// No failure is dropped: a failure of the workspace or of its removal is
/// written to the scan at once, a failure of the fetch or of the store is
/// kept until the workspace has been removed, and a failure that was kept
/// is written to the scan when the job ends. A scan to which a failure is
/// written is `failed`.
pub proof fn failures_are_recorded(job: ScanJobView, event: JobEventView, now: Seq<char>)
    ensures
        match (job.phase, event) {
            (JobPhase::Preparing, JobEventView::WorkspaceFailed(m)) => {
                &&& job_step(job, event, now).0.scan.status == "failed"@
                &&& job_step(job, event, now).0.scan.error_message == Some(m)
            },
            (JobPhase::Cloning, JobEventView::CloneFailed(m)) => job_step(job, event, now).0.failure
                == Some(m),
            (JobPhase::Persisting, JobEventView::StoreFailed(m)) => job_step(
                job,
                event,
                now,
            ).0.failure == Some(m),
            (JobPhase::Persisting, JobEventView::Stored) => job_step(job, event, now).0.failure
                == job.failure,
            (JobPhase::CleaningUp, JobEventView::CleanupFailed(m)) => {
                &&& job_step(job, event, now).0.scan.status == "failed"@
                &&& job_step(job, event, now).0.scan.error_message == Some(m)
            },
            (JobPhase::CleaningUp, JobEventView::CleanedUp) => job.failure is Some ==> {
                &&& job_step(job, event, now).0.scan.status == "failed"@
                &&& job_step(job, event, now).0.scan.error_message == job.failure
            },
            _ => true,
        },
{
}

/// When the second analyzer has returned and either has failed, the job
/// turns to cleaning up and keeps the failure: the error of the license
/// analyzer if it failed, else the error of the pattern analyzer.
pub proof fn analyzer_failure_is_kept(job: ScanJobView, event: JobEventView, now: Seq<char>)
    requires
        job.phase == JobPhase::Scanning,
    ensures
        match event {
            JobEventView::FossologyFinished(Err(e)) => job.fossology is None && job.semgrep
                is Some ==> {
                &&& job_step(job, event, now).1 == JobActionView::Cleanup
                &&& job_step(job, event, now).0.failure == Some(e.message())
            },
            JobEventView::FossologyFinished(Ok(_)) => match job.semgrep {
                Some(Err(e)) => job.fossology is None ==> {
                    &&& job_step(job, event, now).1 == JobActionView::Cleanup
                    &&& job_step(job, event, now).0.failure == Some(e.message())
                },
                _ => true,
            },
            JobEventView::SemgrepFinished(Err(e)) => match job.fossology {
                Some(Ok(_)) => job.semgrep is None ==> {
                    &&& job_step(job, event, now).1 == JobActionView::Cleanup
                    &&& job_step(job, event, now).0.failure == Some(e.message())
                },
                Some(Err(first)) => job.semgrep is None ==> {
                    &&& job_step(job, event, now).1 == JobActionView::Cleanup
                    &&& job_step(job, event, now).0.failure == Some(first.message())
                },
                None => true,
            },
            JobEventView::SemgrepFinished(Ok(_)) => match job.fossology {
                Some(Err(e)) => job.semgrep is None ==> {
                    &&& job_step(job, event, now).1 == JobActionView::Cleanup
                    &&& job_step(job, event, now).0.failure == Some(e.message())
                },
                _ => true,
            },
            _ => true,
        },
{
}

} // verus!
