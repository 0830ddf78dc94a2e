use legalscanner_api::api::handlers::risk::{
    calculate_risk_score, get_license_weight, is_copyleft, is_unknown_or_proprietary,
    pattern_matches,
};
use legalscanner_api::api::handlers::scan_job::{findings_to_store, merge_scan_results};
use legalscanner_api::api::models::RiskAssessment;
use legalscanner_api::db::models::scan_result::ScanResult;
use legalscanner_api::scanner::traits::{
    EccFinding, LicenseFinding, ScanResult as FileFindings,
};

fn rules() -> Vec<(String, i32)> {
    vec![
        ("GPL%".to_string(), 20),
        ("AGPL%".to_string(), 25),
        ("%Commons".to_string(), 5),
        ("Unknown".to_string(), 10),
        ("MIT".to_string(), 0),
    ]
}

fn license(file: &str, name: &str, spdx: Option<&str>, confidence: Option<i32>) -> ScanResult {
    let mut r = ScanResult::create_license("scan", file, name, spdx, 0);
    r.confidence = confidence;
    r
}

fn flag(file: &str, severity: &str) -> ScanResult {
    ScanResult::create_ecc("scan", file, "content", severity, Some("semgrep"), Some(1), None)
}

fn categories(assessment: &RiskAssessment) -> Vec<&str> {
    assessment.factors.iter().map(|f| f.category.as_str()).collect()
}

#[test]
fn weight_lookup_prefix_rule_matches() {
    let config = vec![("GPL%".to_string(), 20)];
    assert_eq!(get_license_weight(&config, "GPL-3.0-only"), Some(20));
    assert_eq!(get_license_weight(&config, "LGPL-3.0-only"), None);
}

#[test]
fn weight_lookup_suffix_rule_matches_only_the_ending() {
    let config = vec![("%Commons".to_string(), 5)];
    assert_eq!(get_license_weight(&config, "Creative Commons"), Some(5));
    assert_eq!(get_license_weight(&config, "Commons Clause 1.0"), None);
}

#[test]
fn weight_lookup_exact_rule_matches_only_the_literal() {
    let config = vec![("MIT".to_string(), 3)];
    assert_eq!(get_license_weight(&config, "MIT"), Some(3));
    assert_eq!(get_license_weight(&config, "MIT License"), None);
    assert_eq!(get_license_weight(&config, "mit"), None);
}

#[test]
fn weight_lookup_takes_the_first_matching_rule() {
    let config = vec![("GPL%".to_string(), 20), ("GPL-3.0%".to_string(), 40)];
    assert_eq!(get_license_weight(&config, "GPL-3.0-only"), Some(20));
    assert_eq!(get_license_weight(&Vec::new(), "GPL-3.0-only"), None);
}

#[test]
fn pattern_with_inner_wildcard_needs_both_ends() {
    assert!(pattern_matches("GPL%only", "GPL-3.0-only"));
    assert!(!pattern_matches("GPL%only", "GPL-3.0-or-later"));
    assert!(!pattern_matches("G%L%only", "GPL-3.0-only"));
    assert!(pattern_matches("%", "anything"));
    assert!(pattern_matches("", ""));
    assert!(!pattern_matches("", "x"));
}

#[test]
fn license_categories_go_by_keyword() {
    assert!(is_copyleft("GPL-3.0-only"));
    assert!(is_copyleft("Sleepycat"));
    assert!(!is_copyleft("MIT"));
    assert!(is_unknown_or_proprietary("No_license_found"));
    assert!(is_unknown_or_proprietary("Dual-license possibility"));
    assert!(!is_unknown_or_proprietary("Apache-2.0"));
}

#[test]
fn no_findings_score_zero() {
    let assessment = calculate_risk_score(&[], &rules());
    assert_eq!(assessment.score, 0);
    assert_eq!(assessment.level, "low");
    assert!(assessment.factors.is_empty());
}

#[test]
fn low_confidence_alone_scores_fifteen() {
    let findings = vec![license("a.rs", "MIT", Some("MIT"), Some(30))];
    let assessment = calculate_risk_score(&findings, &rules());
    assert_eq!(assessment.score, 15);
    assert_eq!(assessment.level, "low");
    assert_eq!(categories(&assessment), vec!["low_confidence"]);
    assert_eq!(assessment.factors[0].severity, "high");
    assert_eq!(assessment.factors[0].affected_count, 1);
    assert_eq!(assessment.factors[0].details, vec!["MIT (30% confidence)"]);
}

#[test]
fn confidence_between_half_and_seven_tenths_scores_eight() {
    let findings = vec![
        license("a.rs", "MIT", Some("MIT"), Some(50)),
        license("b.rs", "MIT", Some("MIT"), Some(69)),
        license("c.rs", "MIT", Some("MIT"), Some(70)),
        license("d.rs", "MIT", Some("MIT"), None),
    ];
    let assessment = calculate_risk_score(&findings, &rules());
    assert_eq!(assessment.score, 16);
    assert_eq!(assessment.factors[0].severity, "medium");
    assert_eq!(assessment.factors[0].affected_count, 2);
    assert!(assessment.factors[0].details.is_empty());
}

#[test]
fn sixteen_distinct_licenses_score_ten() {
    let findings: Vec<ScanResult> = (0..16)
        .map(|i| {
            let name = format!("License-{}", i);
            license("a.rs", &name, Some("X"), Some(100))
        })
        .collect();
    let assessment = calculate_risk_score(&findings, &rules());
    assert_eq!(assessment.score, 10);
    assert_eq!(assessment.level, "low");
    assert_eq!(categories(&assessment), vec!["license_diversity"]);
    let factor = &assessment.factors[0];
    assert_eq!(factor.affected_count, 16);
    assert_eq!(
        factor.description,
        "High license diversity (16 unique licenses) - may indicate compatibility issues"
    );
    assert_eq!(factor.details.len(), 10);
    assert_eq!(factor.details[0], "License-0");
    assert_eq!(factor.details[9], "License-9");
}

#[test]
fn diversity_points_follow_the_thresholds() {
    let score_of = |n: usize| {
        let findings: Vec<ScanResult> = (0..n)
            .map(|i| license("a.rs", &format!("L{}", i), Some("X"), None))
            .collect();
        calculate_risk_score(&findings, &rules()).score
    };
    assert_eq!(score_of(4), 0);
    assert_eq!(score_of(5), 3);
    assert_eq!(score_of(9), 3);
    assert_eq!(score_of(10), 6);
    assert_eq!(score_of(14), 6);
    assert_eq!(score_of(15), 10);
}

#[test]
fn copyleft_license_and_critical_flag_after_merge() {
    let mut primary = vec![FileFindings {
        file_path: "a.rs".to_string(),
        licenses: vec![LicenseFinding {
            name: "GPL-3.0-only".to_string(),
            spdx_id: Some("GPL-3.0-only".to_string()),
            confidence: 90,
        }],
        copyrights: Vec::new(),
        ecc_findings: Vec::new(),
    }];
    let secondary = vec![FileFindings {
        file_path: "a.rs".to_string(),
        licenses: Vec::new(),
        copyrights: Vec::new(),
        ecc_findings: vec![EccFinding {
            content: "AES".to_string(),
            risk_severity: "critical".to_string(),
            source: Some("semgrep".to_string()),
            line_number: Some(7),
            check_id: Some("crypto.aes".to_string()),
        }],
    }];
    merge_scan_results(&mut primary, secondary);
    assert_eq!(primary.len(), 1);
    assert_eq!(primary[0].file_path, "a.rs");
    assert_eq!(primary[0].licenses.len(), 1);
    assert_eq!(primary[0].ecc_findings.len(), 1);

    let findings = findings_to_store("scan-1", &primary);
    assert_eq!(findings.len(), 2);
    assert_eq!(findings[0].result_type, "license");
    assert_eq!(findings[0].confidence, Some(90));
    assert_eq!(findings[1].result_type, "ecc");
    assert_eq!(findings[1].raw_data, Some("AES".to_string()));
    assert_eq!(findings[1].ecc_line_number, Some(7));

    let assessment = calculate_risk_score(&findings, &rules());
    assert_eq!(assessment.score, 40);
    assert_eq!(assessment.level, "medium");
    assert_eq!(categories(&assessment), vec!["copyleft_license", "ecc_critical_high"]);
    assert_eq!(assessment.factors[0].details, vec!["GPL-3.0-only (1 files)"]);
    assert_eq!(assessment.factors[0].affected_count, 1);
    assert_eq!(assessment.factors[1].severity, "critical");
    assert_eq!(assessment.factors[1].details, vec!["Critical: 1 findings", "a.rs"]);

    let heavier = vec![("GPL%".to_string(), 40)];
    let assessment = calculate_risk_score(&findings, &heavier);
    assert_eq!(assessment.score, 60);
    assert_eq!(assessment.level, "high");
}

#[test]
fn copyleft_weight_counts_once_for_each_distinct_license() {
    let findings = vec![
        license("a.rs", "GPL-3.0-only", Some("GPL-3.0-only"), None),
        license("b.rs", "GPL-3.0-only", Some("GPL-3.0-only"), None),
        license("b.rs", "GPL-3.0-only", Some("GPL-3.0-only"), None),
        license("c.rs", "AGPL-3.0", Some("AGPL-3.0"), None),
    ];
    let assessment = calculate_risk_score(&findings, &rules());
    assert_eq!(assessment.score, 45);
    let factor = &assessment.factors[0];
    assert_eq!(factor.category, "copyleft_license");
    assert_eq!(factor.severity, "high");
    assert_eq!(factor.affected_count, 3);
    assert_eq!(factor.details, vec!["GPL-3.0-only (2 files)", "AGPL-3.0 (1 files)"]);
}

#[test]
fn unknown_license_is_a_factor_of_its_own() {
    let findings = vec![license("a.rs", "Unknown", Some("X"), None)];
    let assessment = calculate_risk_score(&findings, &rules());
    assert_eq!(assessment.score, 10);
    assert_eq!(categories(&assessment), vec!["unknown_license"]);
    assert_eq!(assessment.factors[0].severity, "medium");
}

#[test]
fn unweighted_license_brings_nothing() {
    let findings = vec![
        license("a.rs", "MIT", Some("MIT"), Some(100)),
        license("a.rs", "Zlib", Some("Zlib"), Some(100)),
    ];
    let assessment = calculate_risk_score(&findings, &rules());
    assert_eq!(assessment.score, 0);
    assert!(assessment.factors.is_empty());
}

#[test]
fn missing_identifier_scores_two_for_each_file() {
    let findings = vec![
        license("b.rs", "Zeta", None, None),
        license("a.rs", "Alpha", Some(""), None),
        license("a.rs", "Zeta", None, None),
        license("c.rs", "Named", Some("Named-1.0"), None),
    ];
    let assessment = calculate_risk_score(&findings, &rules());
    assert_eq!(assessment.score, 4);
    assert_eq!(categories(&assessment), vec!["missing_spdx_id"]);
    let factor = &assessment.factors[0];
    assert_eq!(factor.severity, "medium");
    assert_eq!(factor.affected_count, 2);
    assert_eq!(factor.details, vec!["Alpha (1 files)", "Zeta (2 files)"]);
}

#[test]
fn control_flags_score_by_severity() {
    let findings = vec![
        flag("a.rs", "critical"),
        flag("b.rs", "high"),
        flag("c.rs", "medium"),
        flag("d.rs", "low"),
        flag("e.rs", "other"),
    ];
    let assessment = calculate_risk_score(&findings, &rules());
    assert_eq!(assessment.score, 20 + 12 + 6 + 2 + 2);
    assert_eq!(categories(&assessment), vec!["ecc_critical_high", "ecc_medium_low"]);
    assert_eq!(
        assessment.factors[0].details,
        vec!["Critical: 1 findings", "a.rs", "High: 1 findings", "b.rs"]
    );
    assert_eq!(assessment.factors[0].affected_count, 2);
    assert_eq!(assessment.factors[1].details, vec!["Medium: 1 findings", "Low: 2 findings"]);
    assert_eq!(assessment.factors[1].affected_count, 3);
    assert_eq!(assessment.factors[1].severity, "medium");
}

#[test]
fn control_flag_without_severity_counts_as_medium() {
    let mut finding = flag("a.rs", "high");
    finding.risk_severity = None;
    let assessment = calculate_risk_score(&[finding], &rules());
    assert_eq!(assessment.score, 6);
    assert_eq!(categories(&assessment), vec!["ecc_medium_low"]);
}

#[test]
fn high_flags_show_at_most_three_files() {
    let findings: Vec<ScanResult> =
        (0..5).map(|i| flag(&format!("f{}.rs", i), "high")).collect();
    let assessment = calculate_risk_score(&findings, &rules());
    assert_eq!(assessment.score, 60);
    assert_eq!(assessment.level, "high");
    assert_eq!(assessment.factors[0].severity, "high");
    assert_eq!(
        assessment.factors[0].details,
        vec!["High: 5 findings", "f0.rs", "f1.rs", "f2.rs"]
    );
}

#[test]
fn score_is_capped_at_one_hundred() {
    let findings: Vec<ScanResult> =
        (0..9).map(|i| flag(&format!("f{}.rs", i), "critical")).collect();
    let assessment = calculate_risk_score(&findings, &rules());
    assert_eq!(assessment.score, 100);
    assert_eq!(assessment.level, "critical");
}

#[test]
fn levels_change_at_their_bounds() {
    let level_of = |critical: usize, low: usize| {
        let mut findings: Vec<ScanResult> =
            (0..critical).map(|i| flag(&format!("c{}.rs", i), "critical")).collect();
        findings.extend((0..low).map(|i| flag(&format!("l{}.rs", i), "low")));
        let a = calculate_risk_score(&findings, &rules());
        (a.score, a.level)
    };
    assert_eq!(level_of(1, 2), (24, "low".to_string()));
    assert_eq!(level_of(1, 3), (26, "medium".to_string()));
    assert_eq!(level_of(2, 5), (50, "medium".to_string()));
    assert_eq!(level_of(2, 6), (52, "high".to_string()));
    assert_eq!(level_of(3, 7), (74, "high".to_string()));
    assert_eq!(level_of(3, 8), (76, "critical".to_string()));
}

#[test]
fn score_does_not_fall_when_findings_are_added() {
    let all = vec![
        license("a.rs", "GPL-3.0-only", None, Some(40)),
        flag("a.rs", "high"),
        license("b.rs", "Unknown", Some("X"), Some(60)),
        flag("b.rs", "critical"),
        license("c.rs", "GPL-3.0-only", None, Some(90)),
        flag("c.rs", "low"),
    ];
    let mut previous = 0;
    for n in 0..=all.len() {
        let score = calculate_risk_score(&all[..n], &rules()).score;
        assert!(score >= previous);
        assert!((0..=100).contains(&score));
        previous = score;
    }
}

#[test]
fn findings_of_other_kinds_are_not_scored() {
    let copyright = ScanResult::create_copyright(
        "scan",
        "a.rs",
        "Copyright 2025 Acme",
        &vec!["Acme".to_string()],
        &vec!["2025".to_string()],
    );
    assert_eq!(copyright.copyright_holders, Some("[\"Acme\"]".to_string()));
    assert_eq!(copyright.copyright_years, Some("[\"2025\"]".to_string()));
    let assessment = calculate_risk_score(&[copyright], &rules());
    assert_eq!(assessment.score, 0);
}
