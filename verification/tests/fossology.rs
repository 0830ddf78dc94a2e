use legalscanner_api::scanner::fossology::client::{
    convert_copyright_report, convert_license_report, health_check_outcome, is_printable_text,
    report_refused, report_unreadable, step_refused, AnalysisSpec, CopyrightFinding,
    CopyrightResult, FossologyClient, FossologyCopyrightResponse, FossologyFindings,
    FossologyLicenseResponse, JobStatus, LicenseFinding, LicenseResult, UploadDetails,
    UploadHash,
};
use legalscanner_api::scanner::fossology::parser::{
    holder_from_match, merge_copyright_results, parse_copyright_statement,
    parse_license_results, spdx_for_normalized, years_from_matches, GroupMatch,
};
use legalscanner_api::scanner::fossology::poll::{
    readiness_delay_secs, JobPoll, PollStep, ReadinessPoll, UploadProbe,
};
use legalscanner_api::scanner::fossology::{
    classify_upload_probe, FossologyScan, FossologyScanner, ScanEnd, ScanReply, ScanStage,
};
use legalscanner_api::scanner::traits::ScanError;

fn names(list: &[&str]) -> Option<Vec<String>> {
    Some(list.iter().map(|s| s.to_string()).collect())
}

fn status(word: &str) -> JobStatus {
    JobStatus { id: 7, name: "job".to_string(), status: word.to_string(), eta: None }
}

fn message_of(step: PollStep) -> String {
    match step {
        PollStep::Abort(e) => e.to_string(),
        _ => panic!("the wait was not given up"),
    }
}

#[test]
fn readiness_delays_follow_the_schedule() {
    let delays: Vec<u64> = (1..=8).map(readiness_delay_secs).collect();
    assert_eq!(delays, vec![1, 2, 4, 8, 15, 30, 30, 30]);
}

#[test]
fn readiness_poll_of_a_service_that_is_never_ready_gives_up_after_five_minutes() {
    // A clock that moves by the delays and by 10 ms for each request.
    let mut poll = ReadinessPoll::new(12);
    let mut elapsed_ms: u64 = 0;
    let mut waits: Vec<u64> = Vec::new();
    let failure = loop {
        match poll.before_attempt(elapsed_ms / 1000) {
            PollStep::Probe => {}
            PollStep::Abort(e) => break e,
            _ => panic!("neither a request nor the end"),
        }
        elapsed_ms += 10;
        match poll.after_attempt(UploadProbe::Processing) {
            PollStep::Wait(delay) => {
                waits.push(delay);
                elapsed_ms += delay * 1000;
            }
            _ => panic!("the wait did not go on"),
        }
    };
    assert_eq!(&waits[..5], &[1, 2, 4, 8, 15]);
    assert!(waits[5..].iter().all(|d| *d == 30));
    assert_eq!(waits.len(), 14);
    assert!((299_000..=301_000).contains(&elapsed_ms));
    assert!(matches!(failure, ScanError::Failed(_)));
    assert_eq!(
        failure.to_string(),
        "Scan failed: Upload 12 readiness timeout after 300 seconds (14 attempts)"
    );
}

#[test]
fn readiness_poll_with_prompt_answers_gives_up_at_exactly_five_minutes() {
    // A clock that moves by the delays only.
    let mut poll = ReadinessPoll::new(4);
    let mut elapsed_secs: u64 = 0;
    let mut decisions: Vec<u64> = Vec::new();
    let failure = loop {
        decisions.push(elapsed_secs);
        match poll.before_attempt(elapsed_secs) {
            PollStep::Probe => {}
            PollStep::Abort(e) => break e,
            _ => panic!("neither a request nor the end"),
        }
        match poll.after_attempt(UploadProbe::NotHashed) {
            PollStep::Wait(delay) => elapsed_secs += delay,
            _ => panic!("the wait did not go on"),
        }
    };
    assert_eq!(
        decisions,
        vec![0, 1, 3, 7, 15, 30, 60, 90, 120, 150, 180, 210, 240, 270, 300]
    );
    assert_eq!(poll.attempts, 14);
    assert_eq!(elapsed_secs, 300);
    assert_eq!(
        failure.to_string(),
        "Scan failed: Upload 4 readiness timeout after 300 seconds (14 attempts)"
    );
}

#[test]
fn readiness_poll_ends_when_five_minutes_are_reached() {
    let mut poll = ReadinessPoll::new(1);
    assert!(matches!(poll.before_attempt(299), PollStep::Probe));
    assert_eq!(poll.attempts, 1);
    assert!(matches!(poll.before_attempt(300), PollStep::Abort(_)));
    assert_eq!(poll.attempts, 1);
    assert!(matches!(poll.before_attempt(301), PollStep::Abort(_)));
    assert_eq!(poll.attempts, 1);
}

#[test]
fn readiness_poll_ends_when_the_upload_is_ready() {
    let mut poll = ReadinessPoll::new(1);
    poll.before_attempt(0);
    assert!(matches!(poll.after_attempt(UploadProbe::NotHashed), PollStep::Wait(1)));
    assert!(matches!(poll.after_attempt(UploadProbe::Unreadable), PollStep::Wait(1)));
    assert!(matches!(poll.after_attempt(UploadProbe::Refused), PollStep::Wait(1)));
    poll.before_attempt(1);
    assert!(matches!(poll.after_attempt(UploadProbe::Processing), PollStep::Wait(2)));
    assert!(matches!(poll.after_attempt(UploadProbe::Ready), PollStep::Done));
    let failed = poll.after_attempt(UploadProbe::RequestFailed("refused".to_string()));
    assert_eq!(message_of(failed), "HTTP error: refused");
}

#[test]
fn upload_probes_are_classified_by_status_and_details() {
    let details = |hash: Option<UploadHash>| UploadDetails {
        id: 1,
        folder_id: 1,
        folder_name: "f".to_string(),
        upload_name: "u".to_string(),
        hash,
    };
    let hash = UploadHash {
        sha1: "a".to_string(),
        md5: "b".to_string(),
        sha256: "c".to_string(),
        size: 3,
    };
    assert!(matches!(classify_upload_probe(200, Some(details(Some(hash)))), UploadProbe::Ready));
    assert!(matches!(classify_upload_probe(200, Some(details(None))), UploadProbe::NotHashed));
    assert!(matches!(classify_upload_probe(204, None), UploadProbe::Unreadable));
    assert!(matches!(classify_upload_probe(503, None), UploadProbe::Processing));
    assert!(matches!(classify_upload_probe(500, None), UploadProbe::Refused));
    assert!(matches!(classify_upload_probe(404, Some(details(None))), UploadProbe::Refused));
}

#[test]
fn job_poll_gives_up_after_one_hundred_and_twenty_attempts() {
    let mut poll = JobPoll::new(7);
    for _ in 0..120 {
        assert!(matches!(poll.before_attempt(), PollStep::Probe));
        assert!(matches!(poll.after_attempt(Ok(status("Processing"))), PollStep::Wait(5)));
    }
    assert_eq!(poll.attempts, 120);
    assert_eq!(message_of(poll.before_attempt()), "Scan failed: Job timeout");
}

#[test]
fn job_poll_ends_with_the_job() {
    let mut poll = JobPoll::new(7);
    poll.before_attempt();
    assert!(matches!(poll.after_attempt(Ok(status("Queued"))), PollStep::Wait(5)));
    assert!(matches!(poll.after_attempt(Ok(status("Completed"))), PollStep::Done));
    assert_eq!(message_of(poll.after_attempt(Ok(status("Failed")))), "Scan failed: Job 7 failed");
}

#[test]
fn job_poll_forgives_two_errors_in_a_row_but_not_three() {
    let error = || Err(ScanError::Http("timed out".to_string()));
    let mut poll = JobPoll::new(-3);
    assert!(matches!(poll.after_attempt(error()), PollStep::Wait(5)));
    assert!(matches!(poll.after_attempt(error()), PollStep::Wait(5)));
    assert_eq!(poll.consecutive_errors, 2);
    assert!(matches!(poll.after_attempt(Ok(status("Processing"))), PollStep::Wait(5)));
    assert_eq!(poll.consecutive_errors, 0);
    assert!(matches!(poll.after_attempt(error()), PollStep::Wait(5)));
    assert!(matches!(poll.after_attempt(error()), PollStep::Wait(5)));
    assert_eq!(
        message_of(poll.after_attempt(error())),
        "Scan failed: Job -3 status check failed after 3 consecutive errors: HTTP error: timed out"
    );
}

#[test]
fn client_drops_trailing_slashes_and_builds_addresses() {
    let client = FossologyClient::new("http://host:8081//".to_string(), "tok".to_string());
    assert_eq!(client.base_url, "http://host:8081");
    assert_eq!(client.version_url(), "http://host:8081/repo/api/v1/version");
    assert_eq!(client.uploads_url(), "http://host:8081/repo/api/v1/uploads");
    assert_eq!(client.upload_url(42), "http://host:8081/repo/api/v1/uploads/42");
    assert_eq!(client.jobs_url(), "http://host:8081/repo/api/v1/jobs");
    assert_eq!(client.job_url(9), "http://host:8081/repo/api/v1/jobs/9");
    assert_eq!(client.licenses_url(42), "http://host:8081/repo/api/v1/uploads/42/licenses");
    assert_eq!(client.copyrights_url(42), "http://host:8081/repo/api/v1/uploads/42/copyrights");
}

#[test]
fn authorization_is_by_token_or_by_basic_credentials() {
    let with_token = FossologyClient::new("http://h".to_string(), "abc".to_string());
    assert_eq!(with_token.auth_header(), Some("Bearer abc".to_string()));
    assert_eq!(with_token.bearer_header(), "Bearer abc");
    let without = FossologyClient::new("http://h".to_string(), "".to_string());
    assert_eq!(without.auth_header(), Some("Basic Zm9zc3k6Zm9zc3k=".to_string()));
    let placeholder = FossologyClient::new("http://h".to_string(), "your_token_here".to_string());
    assert_eq!(placeholder.auth_header(), Some("Basic Zm9zc3k6Zm9zc3k=".to_string()));
}

#[test]
fn analysis_runs_everything_but_the_keyword_search() {
    let spec = AnalysisSpec::default();
    assert!(spec.bucket && spec.copyright_email_author && spec.ecc && spec.mime);
    assert!(spec.monk && spec.nomos && spec.ojo && spec.package);
    assert!(!spec.keyword);
}

#[test]
fn refusals_are_worded_by_step() {
    assert!(health_check_outcome(200, "200 OK").is_ok());
    let e = health_check_outcome(502, "502 Bad Gateway").unwrap_err();
    assert!(matches!(e, ScanError::Unavailable(_)));
    assert_eq!(e.to_string(), "Scanner unavailable: Fossology health check failed: 502 Bad Gateway");
    assert_eq!(step_refused("Upload failed", "too big").to_string(), "Scan failed: Upload failed: too big");
    assert_eq!(
        report_refused("license", "500 Internal Server Error", "oops").to_string(),
        "Scan failed: Failed to get license results: 500 Internal Server Error - oops"
    );
    assert_eq!(
        report_unreadable("copyright", "EOF").to_string(),
        "Parse error: Failed to parse copyright response: EOF"
    );
}

#[test]
fn license_report_drops_the_placeholder_and_empty_entries() {
    let report = vec![
        FossologyLicenseResponse {
            file_path: "a.rs".to_string(),
            findings: Some(FossologyFindings {
                scanner: names(&["MIT", "No_license_found"]),
                conclusion: names(&["GPL-3.0"]),
            }),
        },
        FossologyLicenseResponse { file_path: "b.rs".to_string(), findings: None },
        FossologyLicenseResponse {
            file_path: "c.rs".to_string(),
            findings: Some(FossologyFindings {
                scanner: names(&["No_license_found"]),
                conclusion: None,
            }),
        },
    ];
    let results = convert_license_report(report);
    assert_eq!(results.len(), 1);
    assert_eq!(results[0].file_path, "a.rs");
    let licenses: Vec<&str> = results[0].findings.iter().map(|f| f.license.as_str()).collect();
    assert_eq!(licenses, vec!["MIT", "GPL-3.0"]);
    assert!(results[0].findings.iter().all(|f| f.spdx_id.is_none() && f.match_percentage == 100));
}

#[test]
fn copyright_report_gives_one_result_for_each_file() {
    let report = vec![
        FossologyCopyrightResponse {
            file_path: vec!["a.rs".to_string(), "b.rs".to_string()],
            copyright: "Copyright 2025 Acme".to_string(),
        },
        FossologyCopyrightResponse {
            file_path: vec!["c.rs".to_string()],
            copyright: "".to_string(),
        },
        FossologyCopyrightResponse {
            file_path: vec!["d.rs".to_string()],
            copyright: "bin\u{1}ary".to_string(),
        },
    ];
    let results = convert_copyright_report(report);
    let files: Vec<&str> = results.iter().map(|r| r.file_path.as_str()).collect();
    assert_eq!(files, vec!["a.rs", "b.rs"]);
    assert_eq!(results[0].findings.len(), 1);
    assert_eq!(results[0].findings[0].content, "Copyright 2025 Acme");
    assert_eq!(results[0].findings[0].finding_type, "copyright");
}

#[test]
fn printable_text_has_no_control_characters() {
    assert!(is_printable_text("Copyright (c) 2025\tJohn\r\n"));
    assert!(is_printable_text("Müller 株式会社"));
    assert!(is_printable_text(""));
    assert!(!is_printable_text("a\u{0}b"));
    assert!(!is_printable_text("a\u{7f}b"));
    assert!(!is_printable_text("© 2025"));
}

#[test]
fn license_results_are_grouped_by_file_in_order_of_first_occurrence() {
    let finding = |license: &str, spdx: Option<&str>, pct: i32| LicenseFinding {
        license: license.to_string(),
        spdx_id: spdx.map(|s| s.to_string()),
        match_percentage: pct,
    };
    let results = vec![
        LicenseResult { file_path: "b.rs".to_string(), findings: vec![finding("MIT License", None, 100)] },
        LicenseResult {
            file_path: "a.rs".to_string(),
            findings: vec![finding("Weird", None, 80), finding("GPL", Some("GPL-2.0-only"), 55)],
        },
        LicenseResult { file_path: "b.rs".to_string(), findings: vec![finding("Apache License 2.0", None, 100)] },
    ];
    let records = parse_license_results(results);
    assert_eq!(records.len(), 2);
    assert_eq!(records[0].file_path, "b.rs");
    assert_eq!(records[1].file_path, "a.rs");
    let b: Vec<(&str, Option<&str>, i32)> = records[0]
        .licenses
        .iter()
        .map(|l| (l.name.as_str(), l.spdx_id.as_deref(), l.confidence))
        .collect();
    assert_eq!(
        b,
        vec![("MIT License", Some("MIT"), 100), ("Apache License 2.0", Some("Apache-2.0"), 100)]
    );
    let a: Vec<(&str, Option<&str>, i32)> = records[1]
        .licenses
        .iter()
        .map(|l| (l.name.as_str(), l.spdx_id.as_deref(), l.confidence))
        .collect();
    assert_eq!(a, vec![("Weird", None, 80), ("GPL", Some("GPL-2.0-only"), 55)]);
}

#[test]
fn copyrights_join_their_file_or_get_a_record_of_their_own() {
    let statement = |text: &str| CopyrightFinding {
        content: text.to_string(),
        finding_type: "copyright".to_string(),
    };
    let records = parse_license_results(vec![LicenseResult {
        file_path: "a.rs".to_string(),
        findings: vec![LicenseFinding {
            license: "MIT".to_string(),
            spdx_id: None,
            match_percentage: 100,
        }],
    }]);
    let copyrights = vec![
        CopyrightResult { file_path: "n.rs".to_string(), findings: vec![statement("no names here")] },
        CopyrightResult {
            file_path: "a.rs".to_string(),
            findings: vec![statement("  Copyright (c) 2024 Jane Roe  "), statement("  ")],
        },
        CopyrightResult { file_path: "n.rs".to_string(), findings: vec![statement("Copyright 2021 Acme Inc.")] },
    ];
    let merged = merge_copyright_results(records, copyrights);
    assert_eq!(merged.len(), 2);
    assert_eq!(merged[0].file_path, "a.rs");
    assert_eq!(merged[0].licenses.len(), 1);
    assert_eq!(merged[0].copyrights.len(), 1);
    assert_eq!(merged[0].copyrights[0].statement, "Copyright (c) 2024 Jane Roe");
    assert_eq!(merged[0].copyrights[0].holders, vec!["Jane Roe"]);
    assert_eq!(merged[0].copyrights[0].years, vec!["2024"]);
    assert_eq!(merged[1].file_path, "n.rs");
    assert!(merged[1].licenses.is_empty());
    assert_eq!(merged[1].copyrights.len(), 1);
    assert_eq!(merged[1].copyrights[0].holders, vec!["Acme Inc"]);
}

#[test]
fn statements_without_holder_and_year_are_dropped() {
    assert!(parse_copyright_statement("").is_none());
    assert!(parse_copyright_statement("   \n").is_none());
    assert!(parse_copyright_statement("all rights reserved").is_none());
    let only_year = parse_copyright_statement("released 1999").unwrap();
    assert!(only_year.holders.is_empty());
    assert_eq!(only_year.years, vec!["1999"]);
}

#[test]
fn identifiers_are_found_by_the_first_key_that_the_name_contains() {
    assert_eq!(spdx_for_normalized("the-mit-license"), Some("MIT".to_string()));
    assert_eq!(spdx_for_normalized("lgpl-3.0"), Some("GPL-3.0-only".to_string()));
    assert_eq!(spdx_for_normalized("lgpl-2.1+"), Some("LGPL-2.1-only".to_string()));
    assert_eq!(spdx_for_normalized("gpl-3.0-or-later"), Some("GPL-3.0-only".to_string()));
    assert_eq!(spdx_for_normalized("permit"), Some("MIT".to_string()));
    assert_eq!(spdx_for_normalized("zlib"), Some("Zlib".to_string()));
    assert_eq!(spdx_for_normalized("MIT"), None);
    assert_eq!(spdx_for_normalized(""), None);
}

#[test]
fn holders_are_trimmed_and_must_not_begin_with_a_number() {
    assert_eq!(holder_from_match(GroupMatch::Text("  Jane Roe ".to_string())), Some("Jane Roe".to_string()));
    assert_eq!(holder_from_match(GroupMatch::Text("2024 Jane".to_string())), None);
    assert_eq!(holder_from_match(GroupMatch::Text("   ".to_string())), None);
    assert_eq!(holder_from_match(GroupMatch::NoMatch), None);
    assert_eq!(holder_from_match(GroupMatch::Unset), None);
    assert_eq!(holder_from_match(GroupMatch::InvalidPattern), None);
}

#[test]
fn years_are_sorted_and_told_once() {
    let found = Some(vec![
        Some("2025".to_string()),
        None,
        Some("1999".to_string()),
        Some("2025".to_string()),
        Some("2010".to_string()),
    ]);
    assert_eq!(years_from_matches(found), vec!["1999", "2010", "2025"]);
    assert!(years_from_matches(None).is_empty());
    assert!(years_from_matches(Some(Vec::new())).is_empty());
}

#[test]
fn a_scan_passes_through_its_stages() {
    let scanner = FossologyScanner::new_with_folder("http://h/".to_string(), "t".to_string(), 5);
    assert_eq!(scanner.folder_id, 5);
    assert_eq!(FossologyScanner::new("http://h/".to_string(), "t".to_string()).folder_id, 1);
    assert_eq!(FossologyScanner::upload_description("/tmp/w/1"), "Repository scan: /tmp/w/1");

    let mut scan = FossologyScan::new();
    assert!(matches!(scan.advance(ScanReply::Uploaded(3)), ScanEnd::Running));
    assert!(scan.stage == ScanStage::AwaitingUpload { upload_id: 3 });
    assert!(matches!(scan.advance(ScanReply::UploadReady), ScanEnd::Running));
    assert!(matches!(scan.advance(ScanReply::JobCreated(8)), ScanEnd::Running));
    assert!(scan.stage == ScanStage::AwaitingJob { upload_id: 3, job_id: 8 });
    assert!(matches!(scan.advance(ScanReply::JobCompleted), ScanEnd::Running));
    let licenses = vec![LicenseResult {
        file_path: "a.rs".to_string(),
        findings: vec![LicenseFinding {
            license: "MIT".to_string(),
            spdx_id: None,
            match_percentage: 100,
        }],
    }];
    assert!(matches!(scan.advance(ScanReply::Licenses(licenses)), ScanEnd::Running));
    assert!(scan.stage == ScanStage::FetchingCopyrights { upload_id: 3 });
    let copyrights = vec![CopyrightResult {
        file_path: "a.rs".to_string(),
        findings: vec![CopyrightFinding {
            content: "Copyright 2025 Acme".to_string(),
            finding_type: "copyright".to_string(),
        }],
    }];
    match scan.advance(ScanReply::Copyrights(copyrights)) {
        ScanEnd::Returned(Ok(records)) => {
            assert_eq!(records.len(), 1);
            assert_eq!(records[0].licenses.len(), 1);
            assert_eq!(records[0].copyrights.len(), 1);
        }
        _ => panic!("the scan did not return its records"),
    }
    assert!(scan.stage == ScanStage::Finished);
}

#[test]
fn a_failed_request_ends_the_scan() {
    let mut scan = FossologyScan::new();
    scan.advance(ScanReply::Uploaded(3));
    let failure = ScanError::Failed("Upload 3 readiness timeout".to_string());
    match scan.advance(ScanReply::Failed(failure)) {
        ScanEnd::Returned(Err(e)) => assert_eq!(e.to_string(), "Scan failed: Upload 3 readiness timeout"),
        _ => panic!("the scan went on"),
    }
    let mut scan = FossologyScan::new();
    match scan.advance(ScanReply::JobCompleted) {
        ScanEnd::Returned(Err(e)) => assert!(matches!(e, ScanError::Failed(_))),
        _ => panic!("the scan went on"),
    }
}
