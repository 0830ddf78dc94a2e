use legalscanner_api::api::handlers::scan_job::merge_scan_results;
use legalscanner_api::scanner::traits::{
    CopyrightFinding, EccFinding, LicenseFinding, ScanResult,
};

fn flag(content: &str) -> EccFinding {
    EccFinding {
        content: content.to_string(),
        risk_severity: "high".to_string(),
        source: Some("semgrep".to_string()),
        line_number: Some(1),
        check_id: None,
    }
}

fn primary(path: &str, license: &str) -> ScanResult {
    ScanResult {
        file_path: path.to_string(),
        licenses: vec![LicenseFinding {
            name: license.to_string(),
            spdx_id: None,
            confidence: 100,
        }],
        copyrights: vec![CopyrightFinding {
            statement: "Copyright 2025 Acme".to_string(),
            holders: vec!["Acme".to_string()],
            years: vec!["2025".to_string()],
        }],
        ecc_findings: Vec::new(),
    }
}

fn secondary(path: &str, flags: &[&str]) -> ScanResult {
    ScanResult {
        file_path: path.to_string(),
        licenses: Vec::new(),
        copyrights: Vec::new(),
        ecc_findings: flags.iter().map(|c| flag(c)).collect(),
    }
}

fn contents(record: &ScanResult) -> Vec<&str> {
    record.ecc_findings.iter().map(|f| f.content.as_str()).collect()
}

#[test]
fn merging_nothing_changes_nothing() {
    let mut a = vec![primary("a.rs", "MIT"), primary("b.rs", "GPL-3.0")];
    merge_scan_results(&mut a, Vec::new());
    assert_eq!(a.len(), 2);
    assert_eq!(a[0].file_path, "a.rs");
    assert_eq!(a[0].licenses[0].name, "MIT");
    assert_eq!(a[0].copyrights.len(), 1);
    assert!(a[0].ecc_findings.is_empty());
    assert_eq!(a[1].file_path, "b.rs");
    assert_eq!(a[1].licenses[0].name, "GPL-3.0");
}

#[test]
fn merged_flags_join_the_file_of_the_primary_analyzer() {
    let mut a = vec![primary("a.rs", "MIT"), primary("b.rs", "GPL-3.0")];
    a[1].ecc_findings.push(flag("own"));
    let b = vec![secondary("b.rs", &["x", "y"]), secondary("b.rs", &["x"])];
    merge_scan_results(&mut a, b);
    assert_eq!(a.len(), 2);
    assert!(a[0].ecc_findings.is_empty());
    assert_eq!(contents(&a[1]), vec!["own", "x", "y", "x"]);
    assert_eq!(a[1].licenses.len(), 1);
    assert_eq!(a[1].copyrights.len(), 1);
}

#[test]
fn files_of_the_secondary_analyzer_alone_are_added_after_the_others() {
    let mut a = vec![primary("a.rs", "MIT")];
    let mut with_license = secondary("c.rs", &["z"]);
    with_license.licenses.push(LicenseFinding {
        name: "BSD".to_string(),
        spdx_id: None,
        confidence: 100,
    });
    let b = vec![secondary("b.rs", &["x"]), secondary("a.rs", &["y"]), with_license];
    merge_scan_results(&mut a, b);
    let paths: Vec<&str> = a.iter().map(|r| r.file_path.as_str()).collect();
    assert_eq!(paths, vec!["a.rs", "b.rs", "c.rs"]);
    assert_eq!(contents(&a[0]), vec!["y"]);
    assert_eq!(contents(&a[1]), vec!["x"]);
    assert_eq!(contents(&a[2]), vec!["z"]);
    assert!(a[2].licenses.is_empty());
    assert!(a[2].copyrights.is_empty());
}

#[test]
fn a_file_that_the_primary_analyzer_lacks_gets_a_record_for_each_secondary_record() {
    let mut a: Vec<ScanResult> = Vec::new();
    let b = vec![secondary("n.rs", &["x"]), secondary("n.rs", &["y"])];
    merge_scan_results(&mut a, b);
    assert_eq!(a.len(), 2);
    assert_eq!(contents(&a[0]), vec!["x"]);
    assert_eq!(contents(&a[1]), vec!["y"]);
}

#[test]
fn with_two_primary_records_for_a_file_the_last_one_receives() {
    let mut a = vec![primary("a.rs", "MIT"), primary("a.rs", "BSD")];
    merge_scan_results(&mut a, vec![secondary("a.rs", &["x"])]);
    assert_eq!(a.len(), 2);
    assert!(a[0].ecc_findings.is_empty());
    assert_eq!(contents(&a[1]), vec!["x"]);
}

#[test]
fn merge_is_not_symmetric() {
    let mut a = vec![primary("a.rs", "MIT")];
    merge_scan_results(&mut a, vec![secondary("a.rs", &["x"])]);
    let mut b = vec![secondary("a.rs", &["x"])];
    merge_scan_results(&mut b, vec![primary("a.rs", "MIT")]);
    assert_eq!(a[0].licenses.len(), 1);
    assert!(b[0].licenses.is_empty());
}
