use legalscanner_api::api::handlers::scan_job::{JobAction, JobEvent, JobPhase, ScanJob};
use legalscanner_api::db::models::scan::{derive_overall_status, Scan};
use legalscanner_api::scanner::traits::{EccFinding, LicenseFinding, ScanError, ScanResult};

fn new_scan() -> Scan {
    Scan::create(
        "scan-1".to_string(),
        "https://example.org/repo.git".to_string(),
        Some("token".to_string()),
        None,
        "2025-01-01 00:00:00".to_string(),
    )
}

fn license_record(path: &str) -> ScanResult {
    ScanResult {
        file_path: path.to_string(),
        licenses: vec![LicenseFinding {
            name: "MIT".to_string(),
            spdx_id: Some("MIT".to_string()),
            confidence: 100,
        }],
        copyrights: Vec::new(),
        ecc_findings: Vec::new(),
    }
}

fn flag_record(path: &str) -> ScanResult {
    ScanResult {
        file_path: path.to_string(),
        licenses: Vec::new(),
        copyrights: Vec::new(),
        ecc_findings: vec![EccFinding {
            content: "AES".to_string(),
            risk_severity: "high".to_string(),
            source: Some("semgrep".to_string()),
            line_number: Some(3),
            check_id: None,
        }],
    }
}

fn scanning_job() -> ScanJob {
    let mut job = ScanJob::new(new_scan());
    assert!(matches!(job.start(), JobAction::CreateWorkspace));
    assert!(matches!(job.handle(JobEvent::WorkspaceCreated, "t1"), JobAction::Clone));
    assert!(matches!(job.handle(JobEvent::Cloned, "t2"), JobAction::RunScanners));
    job
}

#[test]
fn overall_status_follows_the_precedence_table() {
    let states = ["pending", "in_progress", "completed", "failed"];
    for f in states {
        for s in states {
            let expected = if f == "completed" && s == "completed" {
                "completed"
            } else if f == "failed" || s == "failed" {
                "failed"
            } else if f == "in_progress" || s == "in_progress" {
                "in_progress"
            } else {
                "pending"
            };
            assert_eq!(derive_overall_status(f, s), expected);
            let mut scan = new_scan();
            scan.update_fossology_status(f, None, "t");
            scan.update_semgrep_status(s, None, "t");
            scan.update_overall_status("t");
            assert_eq!(scan.status, expected);
        }
    }
}

#[test]
fn failed_takes_precedence_over_in_progress() {
    assert_eq!(derive_overall_status("failed", "in_progress"), "failed");
    assert_eq!(derive_overall_status("in_progress", "failed"), "failed");
    assert_eq!(derive_overall_status("completed", "in_progress"), "in_progress");
    assert_eq!(derive_overall_status("completed", "pending"), "pending");
    assert_eq!(derive_overall_status("odd", "words"), "pending");
}

#[test]
fn a_new_scan_is_pending() {
    let scan = new_scan();
    assert_eq!(scan.status, "pending");
    assert_eq!(scan.fossology_status, "pending");
    assert_eq!(scan.semgrep_status, "pending");
    assert_eq!(scan.started_at, None);
    assert_eq!(scan.completed_at, None);
    assert_eq!(scan.error_message, None);
    assert_eq!(scan.git_token, Some("token".to_string()));
}

#[test]
fn times_are_stamped_once() {
    let mut scan = new_scan();
    scan.update_fossology_status("in_progress", None, "t1");
    scan.update_fossology_status("in_progress", None, "t2");
    assert_eq!(scan.fossology_started_at, Some("t1".to_string()));
    assert_eq!(scan.fossology_completed_at, None);
    scan.update_fossology_status("failed", Some("boom".to_string()), "t3");
    scan.update_fossology_status("failed", Some("boom".to_string()), "t4");
    assert_eq!(scan.fossology_started_at, Some("t1".to_string()));
    assert_eq!(scan.fossology_completed_at, Some("t3".to_string()));
    assert_eq!(scan.fossology_error, Some("boom".to_string()));

    scan.update_status("in_progress", None, "t5");
    scan.update_status("failed", Some("gone".to_string()), "t6");
    scan.update_status("failed", Some("gone".to_string()), "t7");
    assert_eq!(scan.started_at, Some("t5".to_string()));
    assert_eq!(scan.completed_at, Some("t6".to_string()));
    assert_eq!(scan.error_message, Some("gone".to_string()));
}

#[test]
fn overall_completion_is_stamped_when_both_have_completed() {
    let mut scan = new_scan();
    scan.update_fossology_status("completed", None, "t1");
    scan.update_overall_status("t2");
    assert_eq!(scan.status, "pending");
    assert_eq!(scan.completed_at, None);
    scan.update_semgrep_status("completed", None, "t3");
    scan.update_overall_status("t4");
    scan.update_overall_status("t5");
    assert_eq!(scan.status, "completed");
    assert_eq!(scan.completed_at, Some("t4".to_string()));
}

#[test]
fn a_job_with_two_successful_analyzers_stores_the_merge_and_completes() {
    let mut job = scanning_job();
    assert_eq!(job.scan.status, "in_progress");
    assert_eq!(job.scan.fossology_started_at, Some("t2".to_string()));
    assert_eq!(job.scan.semgrep_started_at, Some("t2".to_string()));

    let action = job.handle(JobEvent::SemgrepFinished(Ok(vec![flag_record("a.rs")])), "t3");
    assert!(matches!(action, JobAction::Wait));
    assert_eq!(job.scan.semgrep_status, "completed");
    assert_eq!(job.scan.status, "in_progress");

    let action = job.handle(JobEvent::FossologyFinished(Ok(vec![license_record("a.rs")])), "t4");
    let stored = match action {
        JobAction::Store(records) => records,
        _ => panic!("the merged findings were not handed on"),
    };
    assert_eq!(stored.len(), 1);
    assert_eq!(stored[0].licenses.len(), 1);
    assert_eq!(stored[0].ecc_findings.len(), 1);
    assert_eq!(job.scan.status, "completed");
    assert!(job.phase == JobPhase::Persisting);

    assert!(matches!(job.handle(JobEvent::Stored, "t5"), JobAction::Cleanup));
    assert!(matches!(job.handle(JobEvent::CleanedUp, "t6"), JobAction::Finish));
    assert!(job.phase == JobPhase::Finished);
    assert_eq!(job.scan.status, "completed");
    assert_eq!(job.scan.started_at, Some("t2".to_string()));
    assert_eq!(job.scan.completed_at, Some("t4".to_string()));
    assert_eq!(job.scan.error_message, None);
}

#[test]
fn a_failed_analyzer_does_not_stop_the_other_and_nothing_is_stored() {
    let mut job = scanning_job();
    let failure = ScanError::Unavailable("no route".to_string());
    let action = job.handle(JobEvent::FossologyFinished(Err(failure)), "t3");
    assert!(matches!(action, JobAction::Wait));
    assert_eq!(job.scan.fossology_status, "failed");
    assert_eq!(job.scan.fossology_error, Some("Scanner unavailable: no route".to_string()));
    assert_eq!(job.scan.status, "failed");

    let action = job.handle(JobEvent::SemgrepFinished(Ok(vec![flag_record("a.rs")])), "t4");
    assert!(matches!(action, JobAction::Cleanup));
    assert_eq!(job.scan.semgrep_status, "completed");
    assert_eq!(job.scan.status, "failed");

    assert!(matches!(job.handle(JobEvent::CleanedUp, "t5"), JobAction::Finish));
    assert_eq!(job.scan.status, "failed");
    assert_eq!(job.scan.error_message, Some("Scanner unavailable: no route".to_string()));
    assert_eq!(job.scan.started_at, Some("t2".to_string()));
    assert_eq!(job.scan.completed_at, Some("t3".to_string()));
}

#[test]
fn with_two_failed_analyzers_the_error_of_the_first_is_kept() {
    let mut job = scanning_job();
    job.handle(JobEvent::SemgrepFinished(Err(ScanError::ParseError("bad".to_string()))), "t3");
    job.handle(JobEvent::FossologyFinished(Err(ScanError::Failed("late".to_string()))), "t4");
    job.handle(JobEvent::CleanedUp, "t5");
    assert_eq!(job.scan.error_message, Some("Scan failed: late".to_string()));
    assert_eq!(job.scan.semgrep_error, Some("Parse error: bad".to_string()));
}

#[test]
fn a_failed_clone_removes_the_workspace_and_fails_the_scan() {
    let mut job = ScanJob::new(new_scan());
    job.start();
    job.handle(JobEvent::WorkspaceCreated, "t1");
    let action = job.handle(JobEvent::CloneFailed("no such repository".to_string()), "t2");
    assert!(matches!(action, JobAction::Cleanup));
    assert_eq!(job.scan.status, "pending");
    assert!(matches!(job.handle(JobEvent::CleanedUp, "t3"), JobAction::Finish));
    assert_eq!(job.scan.status, "failed");
    assert_eq!(job.scan.error_message, Some("no such repository".to_string()));
    assert_eq!(job.scan.fossology_status, "pending");
    assert_eq!(job.scan.started_at, None);
    assert_eq!(job.scan.completed_at, Some("t3".to_string()));
}

#[test]
fn a_failed_workspace_fails_the_scan_at_once() {
    let mut job = ScanJob::new(new_scan());
    job.start();
    let action = job.handle(JobEvent::WorkspaceFailed("disk full".to_string()), "t1");
    assert!(matches!(action, JobAction::Finish));
    assert_eq!(job.scan.status, "failed");
    assert_eq!(job.scan.error_message, Some("disk full".to_string()));
}

#[test]
fn a_failed_store_and_a_failed_cleanup_fail_the_scan() {
    let mut job = scanning_job();
    job.handle(JobEvent::FossologyFinished(Ok(Vec::new())), "t3");
    job.handle(JobEvent::SemgrepFinished(Ok(Vec::new())), "t4");
    let action = job.handle(JobEvent::StoreFailed("locked".to_string()), "t5");
    assert!(matches!(action, JobAction::Cleanup));
    let action = job.handle(JobEvent::CleanupFailed("busy".to_string()), "t6");
    assert!(matches!(action, JobAction::Finish));
    assert_eq!(job.scan.status, "failed");
    assert_eq!(job.scan.error_message, Some("busy".to_string()));
}

#[test]
fn events_out_of_turn_are_ignored() {
    let mut job = ScanJob::new(new_scan());
    assert!(matches!(job.handle(JobEvent::Cloned, "t"), JobAction::Ignore));
    job.start();
    assert!(matches!(job.start(), JobAction::Ignore));
    assert!(matches!(job.handle(JobEvent::Stored, "t"), JobAction::Ignore));
    let mut job = scanning_job();
    job.handle(JobEvent::FossologyFinished(Ok(Vec::new())), "t3");
    let again = job.handle(JobEvent::FossologyFinished(Ok(vec![license_record("a.rs")])), "t4");
    assert!(matches!(again, JobAction::Ignore));
    assert_eq!(job.scan.status, "in_progress");
}
