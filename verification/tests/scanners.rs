use std::time::Duration;

use legalscanner_api::git::clone::validate_git_url;
use legalscanner_api::scanner::fossology::parser::{
    extract_copyright_holders, extract_copyright_years, map_to_spdx, parse_copyright_statement,
};
use legalscanner_api::scanner::fossology::FossologyScanner;
use legalscanner_api::scanner::semgrep::client::SemgrepScanner;
use legalscanner_api::scanner::semgrep::parser::{
    map_severity, parse_semgrep_output, SemgrepError, SemgrepExtra, SemgrepLocation,
    SemgrepOutput, SemgrepResult,
};
use legalscanner_api::utils::crypto::{generate_api_key, hash_api_key, API_KEY_LENGTH};

fn location(value: &serde_json::Value) -> SemgrepLocation {
    SemgrepLocation {
        line: value["line"].as_i64().unwrap() as i32,
        col: value["col"].as_i64().unwrap() as i32,
    }
}

/// Reads a report as the service's boundary does: the JSON text becomes the
/// library's record of it.
fn read_report(json: &str) -> SemgrepOutput {
    let value: serde_json::Value = serde_json::from_str(json).unwrap();
    let results = value["results"]
        .as_array()
        .unwrap()
        .iter()
        .map(|r| SemgrepResult {
            path: r["path"].as_str().unwrap().to_string(),
            start: location(&r["start"]),
            end: location(&r["end"]),
            check_id: r["check_id"].as_str().unwrap().to_string(),
            extra: SemgrepExtra {
                message: r["extra"]["message"].as_str().unwrap().to_string(),
                severity: r["extra"]["severity"].as_str().unwrap().to_string(),
            },
            lines: r.get("lines").and_then(|l| l.as_str()).map(|l| l.to_string()),
        })
        .collect();
    let errors = value["errors"]
        .as_array()
        .map(|list| {
            list.iter()
                .map(|e| SemgrepError {
                    message: e["message"].as_str().unwrap().to_string(),
                    path: e.get("path").and_then(|p| p.as_str()).map(|p| p.to_string()),
                })
                .collect()
        })
        .unwrap_or_default();
    SemgrepOutput { results, errors }
}

#[test]
fn test_validate_git_url() {
    assert!(validate_git_url("https://github.com/user/repo.git").is_ok());
    assert!(validate_git_url("http://github.com/user/repo.git").is_ok());
    assert!(validate_git_url("git://github.com/user/repo.git").is_ok());
    assert!(validate_git_url("git@github.com:user/repo.git").is_ok());
    assert!(validate_git_url("").is_err());
    assert!(validate_git_url("not-a-git-url").is_err());
}

#[test]
fn mod_test_scanner_creation() {
    let scanner =
        FossologyScanner::new("http://localhost:8081".to_string(), "test-token".to_string());
    assert_eq!(scanner.name(), "fossology");
}

#[test]
fn test_map_to_spdx() {
    assert_eq!(map_to_spdx("MIT License"), Some("MIT".to_string()));
    assert_eq!(map_to_spdx("Apache License 2.0"), Some("Apache-2.0".to_string()));
    assert_eq!(map_to_spdx("GPL-3.0"), Some("GPL-3.0-only".to_string()));
    assert_eq!(map_to_spdx("Unknown License"), None);
}

#[test]
fn test_extract_copyright_holders() {
    let holders = extract_copyright_holders("Copyright (c) 2025 John Doe");
    assert_eq!(holders, vec!["John Doe"]);

    let holders = extract_copyright_holders("Copyright 2024-2025 by Acme Corporation.");
    assert_eq!(holders, vec!["Acme Corporation"]);

    let holders = extract_copyright_holders("© 2025 Tech Company Inc.");
    assert_eq!(holders, vec!["Tech Company Inc"]);
}

#[test]
fn test_extract_copyright_years() {
    let years = extract_copyright_years("Copyright (c) 2025 John Doe");
    assert_eq!(years, vec!["2025"]);

    let years = extract_copyright_years("Copyright 2020-2025 Company");
    assert_eq!(years, vec!["2020", "2025"]);

    let years = extract_copyright_years("© 2023, 2024, 2025 Company");
    assert_eq!(years, vec!["2023", "2024", "2025"]);
}

#[test]
fn test_parse_copyright_statement() {
    let result = parse_copyright_statement("Copyright (c) 2025 John Doe");
    assert!(result.is_some());

    let copyright = result.unwrap();
    assert_eq!(copyright.statement, "Copyright (c) 2025 John Doe");
    assert_eq!(copyright.holders, vec!["John Doe"]);
    assert_eq!(copyright.years, vec!["2025"]);
}

#[test]
fn client_test_scanner_creation() {
    let scanner = SemgrepScanner::new();
    assert_eq!(scanner.name(), "semgrep");
    assert_eq!(scanner.container_name, "legalscanner-semgrep");
}

#[test]
fn test_scanner_with_timeout() {
    let scanner = SemgrepScanner::new().with_timeout(Duration::from_secs(60));
    assert_eq!(scanner.timeout, Duration::from_secs(60));
}

#[test]
fn test_parse_empty_output() {
    let json = r#"{"results": [], "errors": []}"#;
    let results = parse_semgrep_output(read_report(json));
    assert_eq!(results.len(), 0);
}

#[test]
fn test_parse_single_finding() {
    let json = r#"{
            "results": [
                {
                    "path": "src/crypto.rs",
                    "start": {"line": 42, "col": 5},
                    "end": {"line": 42, "col": 25},
                    "check_id": "rust.crypto.aes-usage",
                    "extra": {
                        "message": "Detected AES encryption usage",
                        "severity": "ERROR",
                        "metadata": {}
                    }
                }
            ],
            "errors": []
        }"#;

    let results = parse_semgrep_output(read_report(json));
    assert_eq!(results.len(), 1);
    assert_eq!(results[0].file_path, "src/crypto.rs");
    assert_eq!(results[0].ecc_findings.len(), 1);

    let finding = &results[0].ecc_findings[0];
    assert_eq!(finding.content, "Detected AES encryption usage");
    assert_eq!(finding.risk_severity, "high");
    assert_eq!(finding.source, Some("semgrep".to_string()));
    assert_eq!(finding.line_number, Some(42));
    assert_eq!(finding.check_id, Some("rust.crypto.aes-usage".to_string()));
}

#[test]
fn test_severity_mapping() {
    assert_eq!(map_severity("ERROR"), "high");
    assert_eq!(map_severity("WARNING"), "medium");
    assert_eq!(map_severity("INFO"), "low");
    assert_eq!(map_severity("unknown"), "low");
}

#[test]
fn test_generate_api_key() {
    let key = generate_api_key();
    assert!(key.starts_with("lgs_"));
    assert_eq!(key.len(), 4 + API_KEY_LENGTH);
}

#[test]
fn test_hash_and_verify() {
    let key = "test_api_key_123";
    let salt = "test_salt_for_hashing";

    let hash1 = hash_api_key(key, salt).map_err(|e| e.message).unwrap();
    let hash2 = hash_api_key(key, salt).map_err(|e| e.message).unwrap();

    // Same key and salt should produce same hash
    assert_eq!(hash1, hash2);
}
