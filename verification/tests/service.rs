use std::time::Duration;

use legalscanner_api::api::handlers::sbom::{attachment_header, prepare_sbom, SbomQueryParams};
use legalscanner_api::api::handlers::scans::{
    get_scan_results, scan_not_found, scan_response, validate_create_scan,
};
use legalscanner_api::api::models::CreateScanRequest;
use legalscanner_api::config::{parse_port, Config, ConfigError, Settings};
use legalscanner_api::db::models::scan::Scan;
use legalscanner_api::db::models::scan_result::ScanResult;
use legalscanner_api::error::AppError;
use legalscanner_api::export::spdx::{build_relationships, build_spdx_document, extract_repo_name};
use legalscanner_api::export::SbomFormat;
use legalscanner_api::git::clone::validate_git_url;
use legalscanner_api::git::workspace::Workspace;
use legalscanner_api::scanner::semgrep::client::SemgrepScanner;
use legalscanner_api::scanner::semgrep::parser::{
    map_severity, parse_semgrep_output, report_unreadable, severity_for_uppercase, SemgrepExtra,
    SemgrepLocation, SemgrepOutput, SemgrepResult,
};
use legalscanner_api::scanner::traits::ScanError;
use legalscanner_api::text;
use legalscanner_api::utils::crypto::{
    api_key_from_choices, hash_api_key, salt_text_from, verify_api_key,
};
use legalscanner_api::utils::encoding::encode_base64;

fn completed_scan(url: &str) -> Scan {
    let mut scan = Scan::create(
        "scan-9".to_string(),
        url.to_string(),
        None,
        None,
        "2025-01-01".to_string(),
    );
    scan.update_fossology_status("completed", None, "2025-01-02");
    scan.update_semgrep_status("completed", None, "2025-01-02");
    scan.update_overall_status("2025-01-03");
    scan
}

fn findings() -> Vec<ScanResult> {
    vec![
        ScanResult::create_license("scan-9", "src/a.rs", "MIT License", Some("MIT"), 100),
        ScanResult::create_ecc("scan-9", "src/b.rs", "AES", "high", Some("semgrep"), Some(42), None),
        ScanResult::create_license("scan-9", "src/a.rs", "GPL", None, 90),
        ScanResult::create_copyright(
            "scan-9",
            "src/a.rs",
            "Copyright 2025 Acme",
            &vec!["Acme".to_string()],
            &vec!["2025".to_string()],
        ),
        ScanResult::create_copyright("scan-9", "src/c.rs", "Copyright 2024 Roe", &Vec::new(), &Vec::new()),
        ScanResult::create_ecc("scan-9", "src/b.rs", "RSA", "critical", None, None, None),
    ]
}

fn semgrep_match(path: &str, severity: &str, lines: Option<&str>) -> SemgrepResult {
    SemgrepResult {
        path: path.to_string(),
        start: SemgrepLocation { line: 10, col: 1 },
        end: SemgrepLocation { line: 11, col: 2 },
        check_id: "rule".to_string(),
        extra: SemgrepExtra { message: "Found".to_string(), severity: severity.to_string() },
        lines: lines.map(|l| l.to_string()),
    }
}

#[test]
fn git_url_faults_are_worded() {
    assert_eq!(validate_git_url(""), Err("Git URL cannot be empty".to_string()));
    assert_eq!(
        validate_git_url("ftp://host/repo"),
        Err("Invalid Git URL format. Must start with one of: http://, https://, git://, ssh://, git@".to_string())
    );
    assert_eq!(validate_git_url("ssh://git@host/repo"), Ok(()));
    assert!(validate_git_url("http:/host").is_err());
}

#[test]
fn a_request_with_a_bad_locator_is_invalid() {
    let request = |url: &str| CreateScanRequest {
        git_url: url.to_string(),
        branch: None,
        git_token: None,
    };
    assert!(validate_create_scan(&request("https://host/repo.git")).is_ok());
    let error = validate_create_scan(&request("")).err().unwrap();
    assert_eq!(error.status_code(), 400);
    assert_eq!(error.error_message(), "Git URL cannot be empty");
    assert_eq!(error.to_string(), "Invalid input: Git URL cannot be empty");
    assert!(matches!(validate_create_scan(&request("repo")), Err(AppError::Validation(_))));
}

#[test]
fn errors_have_a_status_and_two_wordings() {
    let cases: Vec<(AppError, u16, &str, &str)> = vec![
        (AppError::Database("x".to_string()), 500, "Database error", "Database error: x"),
        (AppError::Git("x".to_string()), 400, "Git operation failed", "Git error: x"),
        (AppError::Scanner("x".to_string()), 500, "Scanner error", "Scanner error: x"),
        (AppError::Docker("x".to_string()), 500, "Docker error", "Docker error: x"),
        (AppError::Unauthorized, 401, "Unauthorized", "Authentication failed"),
        (AppError::NotFound("x".to_string()), 404, "x", "Resource not found: x"),
        (AppError::Validation("x".to_string()), 400, "x", "Invalid input: x"),
        (AppError::Internal("x".to_string()), 500, "Internal server error", "Internal server error: x"),
    ];
    for (error, status, summary, details) in cases {
        assert_eq!(error.status_code(), status);
        assert_eq!(error.error_message(), summary);
        assert_eq!(error.to_string(), details);
    }
    assert_eq!(scan_not_found("abc").to_string(), "Resource not found: Scan abc not found");
}

#[test]
fn a_scan_is_shown_without_its_token() {
    let scan = completed_scan("https://host/repo.git");
    let response = scan_response(&scan);
    assert_eq!(response.scan_id, "scan-9");
    assert_eq!(response.status, "completed");
    assert_eq!(response.created_at, "2025-01-01");
    assert_eq!(response.git_url, "https://host/repo.git");
    assert_eq!(response.fossology_status, "completed");
    assert_eq!(response.semgrep_status, "completed");
    assert_eq!(response.risk_score, None);
    assert_eq!(response.risk_level, None);
}

#[test]
fn repository_names_are_the_last_segment() {
    assert_eq!(extract_repo_name("https://github.com/user/repo.git"), "repo");
    assert_eq!(extract_repo_name("https://github.com/user/repo"), "repo");
    assert_eq!(extract_repo_name("git@github.com:user/repo.git.git"), "repo");
    assert_eq!(extract_repo_name("repo"), "repo");
    assert_eq!(extract_repo_name("https://host/user/"), "");
    assert_eq!(extract_repo_name(""), "");
}

#[test]
fn a_document_lists_the_package_the_files_and_their_relationships() {
    let scan = completed_scan("https://host/user/repo.git");
    let document = match build_spdx_document(&scan, &findings()) {
        Ok(d) => d,
        Err(e) => panic!("{}", e.to_string()),
    };
    assert_eq!(document.spdx_version, "SPDX-2.3");
    assert_eq!(document.data_license, "CC0-1.0");
    assert_eq!(document.spdxid, "SPDXRef-DOCUMENT");
    assert_eq!(document.name, "Legal Scanner Report - repo");
    assert_eq!(document.document_namespace, "https://legalscanner.io/spdx/scan-9");
    assert_eq!(document.creation_info.created, "2025-01-03");
    assert_eq!(document.creation_info.creators, vec!["Tool: LegalScanner-1.0"]);
    assert_eq!(document.creation_info.license_list_version, Some("3.22".to_string()));

    assert_eq!(document.packages.len(), 1);
    let package = &document.packages[0];
    assert_eq!(package.spdxid, "SPDXRef-Package");
    assert_eq!(package.name, "repo");
    assert_eq!(package.download_location, "https://host/user/repo.git");
    assert!(package.files_analyzed);
    assert_eq!(package.license_concluded, "(MIT AND GPL)");
    assert_eq!(package.license_declared, "(MIT AND GPL)");
    assert_eq!(package.copyright_text, "Copyright 2025 Acme\nCopyright 2024 Roe");
    assert_eq!(
        package.summary,
        Some(
            "Repository scanned for legal compliance. Found 2 license findings, 2 copyright statements, and 2 security findings."
                .to_string()
        )
    );

    let names: Vec<&str> = document.files.iter().map(|f| f.file_name.as_str()).collect();
    assert_eq!(names, vec!["src/a.rs", "src/b.rs", "src/c.rs"]);
    let a = &document.files[0];
    assert_eq!(a.spdxid, "SPDXRef-File-1");
    assert_eq!(a.license_concluded, "(MIT AND GPL)");
    assert_eq!(a.license_info_in_files, vec!["MIT", "GPL"]);
    assert_eq!(a.copyright_text, "Copyright 2025 Acme");
    assert_eq!(a.comment, None);
    let b = &document.files[1];
    assert_eq!(b.spdxid, "SPDXRef-File-2");
    assert_eq!(b.license_concluded, "NOASSERTION");
    assert_eq!(b.license_info_in_files, vec!["NOASSERTION"]);
    assert_eq!(b.copyright_text, "NOASSERTION");
    assert_eq!(
        b.comment,
        Some(
            "ECC: semgrep (Severity: high, Line: 42); ECC: Unknown (Severity: critical, Line: 0)"
                .to_string()
        )
    );
    let c = &document.files[2];
    assert_eq!(c.spdxid, "SPDXRef-File-3");
    assert_eq!(c.copyright_text, "Copyright 2024 Roe");

    assert_eq!(document.relationships.len(), 3);
    for (relationship, file) in document.relationships.iter().zip(document.files.iter()) {
        assert_eq!(relationship.spdx_element_id, "SPDXRef-Package");
        assert_eq!(relationship.relationship_type, "CONTAINS");
        assert_eq!(relationship.related_spdx_element, file.spdxid);
    }
    assert!(build_relationships(&[]).is_empty());
}

#[test]
fn a_document_of_one_license_names_it_alone() {
    let mut scan = completed_scan("https://host/repo");
    scan.completed_at = None;
    let one = vec![ScanResult::create_license("scan-9", "a.rs", "MIT License", None, 100)];
    let document = build_spdx_document(&scan, &one).ok().unwrap();
    assert_eq!(document.creation_info.created, "2025-01-01");
    assert_eq!(document.packages[0].license_concluded, "MIT License");
    assert_eq!(document.packages[0].copyright_text, "NOASSERTION");
    assert_eq!(document.files[0].license_concluded, "MIT License");
    let none = build_spdx_document(&scan, &[]).ok().unwrap();
    assert_eq!(none.packages[0].license_concluded, "NOASSERTION");
    assert!(none.files.is_empty());
    assert!(none.relationships.is_empty());
}

#[test]
fn only_a_completed_scan_with_findings_is_exported() {
    let params = SbomQueryParams { format: SbomFormat::Yaml };
    let scan = completed_scan("https://host/user/repo.git");
    let export = prepare_sbom(&scan, &findings(), &params).ok().unwrap();
    assert_eq!(export.filename, "repo-sbom.spdx.yaml");
    assert_eq!(export.content_type, "application/x-yaml");
    assert_eq!(export.document.files.len(), 3);
    assert_eq!(
        attachment_header(&export.filename),
        "attachment; filename=\"repo-sbom.spdx.yaml\""
    );

    let json = SbomQueryParams { format: SbomFormat::default() };
    let export = prepare_sbom(&scan, &findings(), &json).ok().unwrap();
    assert_eq!(export.filename, "repo-sbom.spdx.json");
    assert_eq!(export.content_type, "application/json");

    let empty = prepare_sbom(&scan, &[], &params).err().unwrap();
    assert_eq!(empty.to_string(), "Resource not found: No scan results found");

    let mut running = completed_scan("https://host/user/repo.git");
    running.update_semgrep_status("in_progress", None, "t");
    running.update_overall_status("t");
    let early = prepare_sbom(&running, &findings(), &params).err().unwrap();
    assert_eq!(
        early.to_string(),
        "Invalid input: Scan is not completed yet. Current status: in_progress"
    );
}

#[test]
fn formats_have_a_media_type_and_an_extension() {
    assert_eq!(SbomFormat::Json.content_type(), "application/json");
    assert_eq!(SbomFormat::Yaml.content_type(), "application/x-yaml");
    assert_eq!(SbomFormat::Json.file_extension(), "json");
    assert_eq!(SbomFormat::Yaml.file_extension(), "yaml");
    assert!(SbomFormat::default() == SbomFormat::Json);
}

#[test]
fn workspace_path_ends_with_the_scan() {
    let path = |base: &str, id: &str| Workspace::new(base.to_string(), id.to_string()).path();
    assert_eq!(path("/tmp/legalscanner", "test-scan-123"), "/tmp/legalscanner/test-scan-123");
    assert_eq!(path("/tmp/legalscanner/", "s"), "/tmp/legalscanner/s");
    assert_eq!(path("", "s"), "s");
    assert_eq!(path("/tmp", "/abs"), "/abs");
}

#[test]
fn configuration_has_defaults() {
    let silent = Settings {
        database_url: None,
        fossology_url: None,
        fossology_api_token: None,
        temp_workspace_dir: None,
        server_port: None,
        api_key_salt: None,
    };
    let config = Config::from_settings(silent).ok().unwrap();
    assert_eq!(config.database_url, "./data/legalscanner.db");
    assert_eq!(config.fossology_url, "http://localhost:8081");
    assert_eq!(config.fossology_api_token, "");
    assert_eq!(config.temp_workspace_dir, "/tmp/legalscanner");
    assert_eq!(config.server_port, 8080);
    assert_eq!(config.api_key_salt, "default-salt-change-in-production");

    let said = Settings {
        database_url: Some("sqlite://x.db".to_string()),
        fossology_url: Some("http://f".to_string()),
        fossology_api_token: Some("t".to_string()),
        temp_workspace_dir: Some("/w".to_string()),
        server_port: Some("9000".to_string()),
        api_key_salt: Some("salt".to_string()),
    };
    let config = Config::from_settings(said).ok().unwrap();
    assert_eq!(config.database_url, "sqlite://x.db");
    assert_eq!(config.server_port, 9000);
    assert_eq!(config.api_key_salt, "salt");

    let bad = Settings {
        database_url: None,
        fossology_url: None,
        fossology_api_token: None,
        temp_workspace_dir: None,
        server_port: Some("80a".to_string()),
        api_key_salt: None,
    };
    match Config::from_settings(bad) {
        Err(ConfigError::InvalidPort(text)) => assert_eq!(text, "80a"),
        Ok(_) => panic!("a port was read from 80a"),
    }
}

#[test]
fn ports_are_read_as_the_standard_library_reads_them() {
    for text in ["0", "8080", "+443", "65535", "00080", "65536", "", "+", "-1", " 80", "80 ", "8_0", "١٢"] {
        assert_eq!(parse_port(text), text.parse::<u16>().ok(), "{:?}", text);
    }
}

#[test]
fn semgrep_findings_are_grouped_by_file() {
    let output = SemgrepOutput {
        results: vec![
            semgrep_match("b.rs", "warning", Some("  let k = aes();\n")),
            semgrep_match("a.rs", "INFO", None),
            semgrep_match("b.rs", "Error", None),
        ],
        errors: Vec::new(),
    };
    let records = parse_semgrep_output(output);
    assert_eq!(records.len(), 2);
    assert_eq!(records[0].file_path, "b.rs");
    assert_eq!(records[1].file_path, "a.rs");
    assert!(records[0].licenses.is_empty() && records[0].copyrights.is_empty());
    let first = &records[0].ecc_findings[0];
    assert_eq!(first.content, "Found\n\nMatched code: `let k = aes();`");
    assert_eq!(first.risk_severity, "medium");
    assert_eq!(first.line_number, Some(10));
    assert_eq!(first.check_id, Some("rule".to_string()));
    assert_eq!(records[0].ecc_findings[1].risk_severity, "high");
    assert_eq!(records[1].ecc_findings[0].risk_severity, "low");
}

#[test]
fn severity_goes_by_the_word_in_upper_case() {
    assert_eq!(map_severity("error"), "high");
    assert_eq!(map_severity("Warning"), "medium");
    assert_eq!(map_severity(""), "low");
    assert_eq!(severity_for_uppercase("ERROR"), "high");
    assert_eq!(severity_for_uppercase("error"), "low");
    assert_eq!(severity_for_uppercase("WARNING"), "medium");
    assert_eq!(severity_for_uppercase("INFO"), "low");
}

#[test]
fn semgrep_is_run_in_its_container() {
    let scanner = SemgrepScanner::default();
    assert_eq!(scanner.timeout, Duration::from_secs(300));
    assert_eq!(
        scanner.scan_command("/scans/scans/abc"),
        vec![
            "exec",
            "legalscanner-semgrep",
            "semgrep",
            "--config",
            "/semgrep-rules/ecc-crypto-detection.yaml",
            "--json",
            "--no-git-ignore",
            "--max-memory",
            "2000",
            "/scans/scans/abc",
        ]
    );
    assert_eq!(
        scanner.version_command(),
        vec!["exec", "legalscanner-semgrep", "semgrep", "--version"]
    );
    assert_eq!(
        SemgrepScanner::scan_path(Some("/app/tmp/scans/abc"), Some("abc")).ok(),
        Some("/scans/scans/abc".to_string())
    );
    let no_text = SemgrepScanner::scan_path(None, Some("abc")).err().unwrap();
    assert_eq!(no_text.to_string(), "Scan failed: Invalid repository path");
    let no_name = SemgrepScanner::scan_path(Some("/"), None).err().unwrap();
    assert_eq!(no_name.to_string(), "Scan failed: Could not determine repo folder name");
}

#[test]
fn semgrep_exits_are_read() {
    assert!(SemgrepScanner::scan_outcome(true, true, "").is_ok());
    assert!(SemgrepScanner::scan_outcome(false, false, "warnings").is_ok());
    let failed = SemgrepScanner::scan_outcome(false, true, "no rules").err().unwrap();
    assert!(matches!(failed, ScanError::Failed(_)));
    assert_eq!(failed.to_string(), "Scan failed: Semgrep scan failed: no rules");
    assert!(SemgrepScanner::health_outcome(true, "").is_ok());
    let down = SemgrepScanner::health_outcome(false, "no container").err().unwrap();
    assert!(matches!(down, ScanError::Unavailable(_)));
    assert_eq!(down.to_string(), "Scanner unavailable: Semgrep is not available: no container");
    assert_eq!(
        SemgrepScanner::not_executed("not found").to_string(),
        "Scan failed: Failed to execute Semgrep: not found"
    );
    assert_eq!(
        SemgrepScanner::not_checked("not found").to_string(),
        "Scanner unavailable: Failed to check Semgrep version: not found"
    );
    assert_eq!(
        SemgrepScanner::not_text("byte 3").to_string(),
        "Parse error: Invalid UTF-8 in Semgrep output: byte 3"
    );
    assert_eq!(
        report_unreadable("EOF").to_string(),
        "Parse error: Failed to parse Semgrep JSON: EOF"
    );
}

#[test]
fn scan_errors_are_worded_by_kind() {
    assert_eq!(ScanError::Unavailable("x".to_string()).to_string(), "Scanner unavailable: x");
    assert_eq!(ScanError::Failed("x".to_string()).to_string(), "Scan failed: x");
    assert_eq!(ScanError::ParseError("x".to_string()).to_string(), "Parse error: x");
    assert_eq!(ScanError::Io("x".to_string()).to_string(), "IO error: x");
    assert_eq!(ScanError::Http("x".to_string()).to_string(), "HTTP error: x");
}

#[test]
fn api_keys_are_made_of_the_alphabet() {
    assert_eq!(api_key_from_choices(&vec![0, 25, 26, 51, 52, 61]), Some("lgs_AZaz09".to_string()));
    assert_eq!(api_key_from_choices(&Vec::new()), Some("lgs_".to_string()));
    assert_eq!(api_key_from_choices(&vec![0, 62]), None);
}

#[test]
fn hashes_depend_on_key_and_salt() {
    let hash = |key: &str, salt: &str| hash_api_key(key, salt).map_err(|e| e.message).unwrap();
    let one = hash("key-one", "salt");
    assert!(one.starts_with("$argon2id$v=19$m=19456,t=2,p=1$c2FsdAAAAAAAAAAAAAAAAA$"));
    assert_ne!(one, hash("key-two", "salt"));
    assert_ne!(one, hash("key-one", "pepper"));
    assert_eq!(one, hash("key-one", "salt"));
    assert_eq!(verify_api_key("key-one", "salt").map_err(|e| e.message).unwrap(), one);
    assert_eq!(hash("k", "0123456789abcdefXYZ"), hash("k", "0123456789abcdef"));
}

#[test]
fn salts_are_twenty_two_characters() {
    assert_eq!(salt_text_from("c2FsdAAAAAAAAAAAAAAAAA=="), "c2FsdAAAAAAAAAAAAAAAAA");
    assert_eq!(salt_text_from("abc"), "abc...................");
    assert_eq!(salt_text_from(""), "......................");
    assert_eq!(encode_base64(b"fossy:fossy"), Some("Zm9zc3k6Zm9zc3k=".to_string()));
    assert_eq!(encode_base64(b""), Some("".to_string()));
}

#[test]
fn text_is_searched_and_cut() {
    let chars = |t: &str| text::to_chars(t);
    assert!(text::chars_start_with(&chars("GPL-3.0"), &chars("GPL")));
    assert!(!text::chars_start_with(&chars("LGPL"), &chars("GPL")));
    assert!(text::chars_start_with(&chars("x"), &chars("")));
    assert!(text::chars_end_with(&chars("Creative Commons"), &chars("Commons")));
    assert!(!text::chars_end_with(&chars("Commons Clause"), &chars("Commons")));
    assert!(text::chars_contain(&chars("LGPL-2.1"), &chars("GPL")));
    assert!(text::chars_contain(&chars("abc"), &chars("")));
    assert!(!text::chars_contain(&chars("ab"), &chars("abc")));
    assert!(text::chars_occur_at(&chars("abc"), &chars("bc"), 1));
    assert!(!text::chars_occur_at(&chars("abc"), &chars("bc"), 2));
    assert!(!text::chars_occur_at(&chars("abc"), &chars("bc"), 9));
    assert_eq!(text::slice_chars(&chars("abcd"), 1, 3), vec!['b', 'c']);
    assert_eq!(text::from_chars(&chars("abcd"), 1, 3), "bc");
    assert!(text::text_eq("é", "é"));
    assert!(!text::text_eq("a", "ab"));
    assert_eq!(text::trim(" \t x y \u{a0}\n"), "x y");
    assert_eq!(text::trim("\u{3000}"), "");
    assert_eq!(text::replace_char("a b  c", ' ', '-'), "a-b--c");
    assert_eq!(text::strip_trailing("repo.git.git", ".git"), "repo");
    assert_eq!(text::strip_trailing("repo", ""), "repo");
    assert_eq!(text::strip_trailing("///", "/"), "");
    assert_eq!(text::segment_after_last("a/b/c", '/'), "c");
    assert_eq!(text::segment_after_last("a/b/", '/'), "");
    assert_eq!(text::join_texts(&vec!["a".to_string(), "b".to_string()], ", "), "a, b");
    assert_eq!(text::join_texts(&Vec::new(), ", "), "");
    let mut s = String::new();
    text::push_decimal(&mut s, 0);
    text::push_text(&mut s, " ");
    text::push_decimal(&mut s, 18446744073709551615);
    text::push_text(&mut s, " ");
    text::push_signed_decimal(&mut s, -9223372036854775808);
    text::push_text(&mut s, " ");
    text::push_signed_decimal(&mut s, 305);
    assert_eq!(s, "0 18446744073709551615 -9223372036854775808 305");
    let mut seen = vec!["a".to_string()];
    text::push_distinct(&mut seen, &"a".to_string());
    text::push_distinct(&mut seen, &"b".to_string());
    assert_eq!(seen, vec!["a", "b"]);
}

#[test]
fn findings_are_shown_by_kind() {
    let mut all = findings();
    all.push(ScanResult::create_license("scan-9", "z.rs", "Odd", None, 45));
    let mut unknown = ScanResult::create_license("scan-9", "y.rs", "Kind", None, 1);
    unknown.result_type = "other".to_string();
    all.push(unknown);
    let mut broken = ScanResult::create_copyright("scan-9", "x.rs", "Copyright", &Vec::new(), &Vec::new());
    broken.copyright_holders = Some("not json".to_string());
    broken.copyright_years = None;
    all.push(broken);

    let results = get_scan_results(all);
    let licenses: Vec<(&str, Option<&str>, Option<&str>, Option<i32>)> = results
        .licenses
        .iter()
        .map(|l| (l.file_path.as_str(), l.license.as_deref(), l.spdx_id.as_deref(), l.confidence))
        .collect();
    assert_eq!(
        licenses,
        vec![
            ("src/a.rs", Some("MIT License"), Some("MIT"), Some(100)),
            ("src/a.rs", Some("GPL"), None, Some(90)),
            ("z.rs", Some("Odd"), None, Some(45)),
        ]
    );
    assert_eq!(results.copyrights.len(), 3);
    assert_eq!(results.copyrights[0].file_path, "src/a.rs");
    assert_eq!(results.copyrights[0].statement, Some("Copyright 2025 Acme".to_string()));
    assert_eq!(results.copyrights[0].holders, vec!["Acme"]);
    assert_eq!(results.copyrights[0].years, vec!["2025"]);
    assert!(results.copyrights[1].holders.is_empty());
    assert!(results.copyrights[2].holders.is_empty());
    assert!(results.copyrights[2].years.is_empty());
    assert_eq!(results.ecc_findings.len(), 2);
    assert_eq!(results.ecc_findings[0].content, Some("AES".to_string()));
    assert_eq!(results.ecc_findings[0].risk_severity, Some("high".to_string()));
    assert_eq!(results.ecc_findings[0].source, Some("semgrep".to_string()));
    assert_eq!(results.ecc_findings[0].line_number, Some(42));
    assert_eq!(results.ecc_findings[1].check_id, None);
}

#[test]
fn text_functions_agree_with_the_standard_library() {
    let texts = [
        "",
        " ",
        "a",
        "repo.git",
        "repo.git.git",
        ".git",
        "git",
        "a/b/c",
        "a/b/",
        "/",
        "//",
        "  padded\t\n",
        "\u{2003}wide\u{a0}",
        "GPL-3.0-only",
        "LGPL",
        "aaa",
        "abcabc",
        "ünï/cödé.git",
    ];
    let patterns = ["", "a", "aa", ".git", "/", "GPL", "abc", "bc", "é", "c"];
    for t in texts {
        assert_eq!(text::trim(t), t.trim(), "{:?}", t);
        assert_eq!(text::segment_after_last(t, '/'), t.rsplit('/').next().unwrap(), "{:?}", t);
        assert_eq!(text::replace_char(t, ' ', '-'), t.replace(" ", "-"), "{:?}", t);
        assert_eq!(text::to_chars(t), t.chars().collect::<Vec<char>>());
        for p in patterns {
            let (tc, pc) = (text::to_chars(t), text::to_chars(p));
            assert_eq!(text::chars_start_with(&tc, &pc), t.starts_with(p), "{:?} {:?}", t, p);
            assert_eq!(text::chars_end_with(&tc, &pc), t.ends_with(p), "{:?} {:?}", t, p);
            assert_eq!(text::chars_contain(&tc, &pc), t.contains(p), "{:?} {:?}", t, p);
            assert_eq!(text::text_eq(t, p), t == p, "{:?} {:?}", t, p);
            if !p.is_empty() {
                assert_eq!(text::strip_trailing(t, p), t.trim_end_matches(p), "{:?} {:?}", t, p);
            }
        }
    }
    let mut sorted: Vec<String> = texts.iter().map(|t| t.to_string()).collect();
    let mut expected = sorted.clone();
    text::sort_texts(&mut sorted);
    expected.sort();
    assert_eq!(sorted, expected);
    for n in [0u64, 7, 10, 99, 100, 1234567890, u64::MAX] {
        let mut s = String::new();
        text::push_decimal(&mut s, n);
        assert_eq!(s, n.to_string());
    }
    for n in [0i64, -1, 1, -10, i64::MIN, i64::MAX, -2147483648] {
        let mut s = String::new();
        text::push_signed_decimal(&mut s, n);
        assert_eq!(s, n.to_string());
    }
}

#[test]
fn workspace_paths_agree_with_joined_paths() {
    for base in ["/tmp/legalscanner", "/tmp/legalscanner/", "", "relative/dir", "/"] {
        for id in ["test-scan-123", "a/b", "/absolute"] {
            let expected = std::path::Path::new(base).join(id);
            let path = Workspace::new(base.to_string(), id.to_string()).path();
            assert_eq!(std::path::Path::new(&path), expected.as_path(), "{:?} {:?}", base, id);
        }
    }
}

#[test]
fn control_characters_agree_with_the_standard_library() {
    for code in 0u32..=0x10FFFF {
        if let Some(c) = char::from_u32(code) {
            assert_eq!(text::char_is_control(c), c.is_control(), "{:?}", c);
        }
    }
}
