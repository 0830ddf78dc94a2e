//! The risk-scoring engine: a pure function from a scan's findings and the
//! configured weight rules to a score, a level and the factors that explain
//! them.
use vstd::prelude::*;
use crate::api::models::{RiskAssessment, RiskAssessmentView, RiskFactor, RiskFactorView};
use crate::db::models::scan_result::{opt_text, ScanResult, ScanResultView};
use crate::text::{
    chars_contain, chars_end_with, chars_eq, chars_start_with, contains_text, decimal, distinct,
    push_decimal, push_distinct, push_signed_decimal, push_text, signed_decimal, slice_chars,
    sort_texts, sorted_texts, text_eq, to_chars,
};

verus! {

/// Whether a weight rule's pattern accepts a license name. `%` is the
/// wildcard: a trailing `%` asks for a prefix, a leading `%` for a suffix, a
/// single `%` inside splits the pattern into a required prefix and a required
/// suffix, and a pattern without `%` must equal the name.
pub open spec fn rule_matches(pattern: Seq<char>, name: Seq<char>) -> bool {
    if pattern.len() > 0 && pattern.last() == '%' {
        pattern.drop_last().is_prefix_of(name)
    } else if pattern.len() > 0 && pattern.first() == '%' {
        pattern.drop_first().is_suffix_of(name)
    } else if pattern.contains('%') {
        exists|k: int| infix_split(pattern, name, k)
    } else {
        pattern == name
    }
}

/// `pattern` holds its only `%` at index `k`, and `name` begins with what
/// stands before it and ends with what stands after it.
pub open spec fn infix_split(pattern: Seq<char>, name: Seq<char>, k: int) -> bool {
    &&& 0 <= k < pattern.len()
    &&& pattern[k] == '%'
    &&& forall|j: int| 0 <= j < pattern.len() && j != k ==> pattern[j] != '%'
    &&& pattern.take(k).is_prefix_of(name)
    &&& pattern.skip(k + 1).is_suffix_of(name)
}

/// The weight of a license name under an ordered rule list: that of the
/// first rule whose pattern accepts it.
pub open spec fn weight_of(config: Seq<(Seq<char>, i32)>, name: Seq<char>) -> Option<i32>
    decreases config.len(),
{
    if config.len() == 0 {
        None
    } else if rule_matches(config[0].0, name) {
        Some(config[0].1)
    } else {
        weight_of(config.drop_first(), name)
    }
}

/// Index of the first `%` in `pattern`, if any.
fn find_wildcard(pattern: &Vec<char>) -> (r: Option<usize>)
    ensures
        match r {
            Some(k) => k < pattern.len() && pattern[k as int] == '%' && forall|j: int|
                0 <= j < k ==> pattern[j] != '%',
            None => !pattern@.contains('%'),
        },
{
    let mut i: usize = 0;
    while i < pattern.len()
        invariant
            i <= pattern.len(),
            forall|j: int| 0 <= j < i ==> pattern[j] != '%',
        decreases pattern.len() - i,
    {
        if pattern[i] == '%' {
            return Some(i);
        }
        i += 1;
    }
    None
}

/// Whether `pattern[from..]` is free of `%`.
fn no_wildcard_from(pattern: &Vec<char>, from: usize) -> (r: bool)
    requires
        from <= pattern.len(),
    ensures
        r == forall|j: int| from <= j < pattern.len() ==> pattern[j] != '%',
{
    let mut i: usize = from;
    while i < pattern.len()
        invariant
            from <= i <= pattern.len(),
            forall|j: int| from <= j < i ==> pattern[j] != '%',
        decreases pattern.len() - i,
    {
        if pattern[i] == '%' {
            return false;
        }
        i += 1;
    }
    true
}

/// Whether one rule pattern accepts `name`.
pub fn pattern_matches(pattern: &str, name: &str) -> (r: bool)
    ensures
        r == rule_matches(pattern@, name@),
{
    let p = to_chars(pattern);
    let n = to_chars(name);
    let len = p.len();
    if len > 0 && p[len - 1] == '%' {
        let pre = slice_chars(&p, 0, len - 1);
        chars_start_with(&n, &pre)
    } else if len > 0 && p[0] == '%' {
        let suf = slice_chars(&p, 1, len);
        chars_end_with(&n, &suf)
    } else {
        match find_wildcard(&p) {
            Some(k) => {
                if no_wildcard_from(&p, k + 1) {
                    let h = slice_chars(&p, 0, k);
                    let t = slice_chars(&p, k + 1, len);
                    let r = chars_start_with(&n, &h) && chars_end_with(&n, &t);
                    proof {
                        if r {
                            assert(infix_split(pattern@, name@, k as int));
                        } else {
                            assert forall|k2: int| !infix_split(pattern@, name@, k2) by {
                                if infix_split(pattern@, name@, k2) {
                                    assert(k2 == k);
                                }
                            }
                        }
                    }
                    r
                } else {
                    proof {
                        let j = choose|j: int| k + 1 <= j < p.len() && p[j] == '%';
                        assert forall|k2: int| !infix_split(pattern@, name@, k2) by {
                            if infix_split(pattern@, name@, k2) {
                                if k2 == k {
                                    assert(p[j] != '%');
                                } else {
                                    assert(p[k as int] != '%');
                                }
                            }
                        }
                    }
                    false
                }
            },
            None => chars_eq(&p, &n),
        }
    }
}

/// Looks up the weight of a license name: the rules are tried in order and
/// the first whose pattern accepts the name decides.
pub fn get_license_weight(config: &[(String, i32)], license_name: &str) -> (r: Option<i32>)
    ensures
        r == weight_of(config.deep_view(), license_name@),
{
    let mut i: usize = 0;
    assert(config.deep_view().skip(0) == config.deep_view());
    while i < config.len()
        invariant
            i <= config.len(),
            weight_of(config.deep_view(), license_name@) == weight_of(
                config.deep_view().skip(i as int),
                license_name@,
            ),
        decreases config.len() - i,
    {
        let ghost rest = config.deep_view().skip(i as int);
        assert(rest[0] == config.deep_view()[i as int]);
        assert(rest.drop_first() == config.deep_view().skip(i + 1));
        if pattern_matches(config[i].0.as_str(), license_name) {
            return Some(config[i].1);
        }
        i += 1;
    }
    None
}

/// Whether a license name belongs to the copyleft category: it contains one
/// of the keywords GPL, AGPL, LGPL, MPL, EPL, CDDL, CPL, Sleepycat.
pub open spec fn is_copyleft_name(name: Seq<char>) -> bool {
    ||| contains_text(name, "GPL"@)
    ||| contains_text(name, "AGPL"@)
    ||| contains_text(name, "LGPL"@)
    ||| contains_text(name, "MPL"@)
    ||| contains_text(name, "EPL"@)
    ||| contains_text(name, "CDDL"@)
    ||| contains_text(name, "CPL"@)
    ||| contains_text(name, "Sleepycat"@)
}

/// Whether a license name belongs to the unknown-or-proprietary category.
pub open spec fn is_unknown_name(name: Seq<char>) -> bool {
    ||| contains_text(name, "No_license_found"@)
    ||| contains_text(name, "Unknown"@)
    ||| contains_text(name, "Proprietary"@)
    ||| contains_text(name, "Commercial"@)
    ||| contains_text(name, "See-file"@)
    ||| contains_text(name, "possibility"@)
}

fn holds_keyword(name: &Vec<char>, keyword: &str) -> (r: bool)
    ensures
        r == contains_text(name@, keyword@),
{
    let k = to_chars(keyword);
    chars_contain(name, &k)
}

/// Check if license is copyleft.
pub fn is_copyleft(license_name: &str) -> (r: bool)
    ensures
        r == is_copyleft_name(license_name@),
{
    let n = to_chars(license_name);
    holds_keyword(&n, "GPL") || holds_keyword(&n, "AGPL") || holds_keyword(&n, "LGPL")
        || holds_keyword(&n, "MPL") || holds_keyword(&n, "EPL") || holds_keyword(&n, "CDDL")
        || holds_keyword(&n, "CPL") || holds_keyword(&n, "Sleepycat")
}

/// Check if license is unknown or proprietary.
pub fn is_unknown_or_proprietary(license_name: &str) -> (r: bool)
    ensures
        r == is_unknown_name(license_name@),
{
    let n = to_chars(license_name);
    holds_keyword(&n, "No_license_found") || holds_keyword(&n, "Unknown") || holds_keyword(
        &n,
        "Proprietary",
    ) || holds_keyword(&n, "Commercial") || holds_keyword(&n, "See-file") || holds_keyword(
        &n,
        "possibility",
    )
}

/// The severity classes of a control-flag finding.
#[derive(Clone, Copy, PartialEq, Eq, Structural)]
pub enum EccRank {
    Critical,
    High,
    Medium,
    Low,
}

/// What a signal reads off a finding: a license name or a file path, taken
/// only from the findings that the signal is about.
pub enum Selector {
    /// The name of a license finding whose weight is positive and whose name
    /// is in the copyleft category.
    CopyleftName,
    /// The name of a license finding whose weight is positive and whose name
    /// is in the unknown-or-proprietary category and not in the copyleft one.
    UnknownName,
    /// The name of a license finding.
    LicenseName,
    /// The file of a license finding that names a license without a standard
    /// identifier.
    UnidentifiedFile,
    /// The license name of such a finding.
    UnidentifiedName,
    /// The file of a license finding with the given license name.
    FileOfLicense(String),
    /// The file of a license finding that names the given license without a
    /// standard identifier.
    UnidentifiedFileOfLicense(String),
    /// The file of a control-flag finding of the given severity class.
    EccFile(EccRank),
    /// For a license finding with a confidence below 50 hundredths: a label
    /// made of its license name and its confidence.
    VeryLowConfidence,
    /// The file of a license finding with a confidence of at least 50 and
    /// below 70 hundredths.
    FairlyLowConfidence,
}

/// Mathematical value of a [`Selector`].
pub enum SelectorView {
    CopyleftName,
    UnknownName,
    LicenseName,
    UnidentifiedFile,
    UnidentifiedName,
    FileOfLicense(Seq<char>),
    UnidentifiedFileOfLicense(Seq<char>),
    EccFile(EccRank),
    VeryLowConfidence,
    FairlyLowConfidence,
}

impl View for Selector {
    type V = SelectorView;

    open spec fn view(&self) -> SelectorView {
        match self {
            Selector::CopyleftName => SelectorView::CopyleftName,
            Selector::UnknownName => SelectorView::UnknownName,
            Selector::LicenseName => SelectorView::LicenseName,
            Selector::UnidentifiedFile => SelectorView::UnidentifiedFile,
            Selector::UnidentifiedName => SelectorView::UnidentifiedName,
            Selector::FileOfLicense(n) => SelectorView::FileOfLicense(n@),
            Selector::UnidentifiedFileOfLicense(n) => SelectorView::UnidentifiedFileOfLicense(n@),
            Selector::EccFile(r) => SelectorView::EccFile(*r),
            Selector::VeryLowConfidence => SelectorView::VeryLowConfidence,
            Selector::FairlyLowConfidence => SelectorView::FairlyLowConfidence,
        }
    }
}

/// The finding is a license finding.
pub open spec fn is_license(f: ScanResultView) -> bool {
    f.result_type == "license"@
}

/// The finding is a control-flag finding.
pub open spec fn is_ecc(f: ScanResultView) -> bool {
    f.result_type == "ecc"@
}

/// The points that a license name brings: its weight where that is positive.
pub open spec fn name_points(config: Seq<(Seq<char>, i32)>, name: Seq<char>) -> int {
    match weight_of(config, name) {
        Some(w) => if w > 0 {
            w as int
        } else {
            0
        },
        None => 0,
    }
}

/// A license finding that names a license but gives no standard identifier
/// for it (none, or an empty one).
pub open spec fn lacks_identifier(f: ScanResultView) -> bool {
    &&& is_license(f)
    &&& f.license_name is Some
    &&& match f.license_spdx_id {
        Some(id) => id.len() == 0,
        None => true,
    }
}

/// The severity class of a control-flag finding; a finding without a
/// severity counts as `medium`, and an unrecognised severity as low.
pub open spec fn ecc_rank(f: ScanResultView) -> EccRank {
    let severity = match f.risk_severity {
        Some(s) => s,
        None => "medium"@,
    };
    if severity == "critical"@ {
        EccRank::Critical
    } else if severity == "high"@ {
        EccRank::High
    } else if severity == "medium"@ {
        EccRank::Medium
    } else {
        EccRank::Low
    }
}

/// The label of a low-confidence detection: the license name, or `Unknown`,
/// and the confidence as a percentage.
pub open spec fn confidence_label(name: Option<Seq<char>>, confidence: int) -> Seq<char> {
    (match name {
        Some(n) => n,
        None => "Unknown"@,
    }) + " ("@ + signed_decimal(confidence) + "% confidence)"@
}

/// What `selector` reads off the finding `f`, if `f` is one of its findings.
pub open spec fn select(
    selector: SelectorView,
    f: ScanResultView,
    config: Seq<(Seq<char>, i32)>,
) -> Option<Seq<char>> {
    match selector {
        SelectorView::CopyleftName => match f.license_name {
            Some(name) => if is_license(f) && name_points(config, name) > 0 && is_copyleft_name(
                name,
            ) {
                Some(name)
            } else {
                None
            },
            None => None,
        },
        SelectorView::UnknownName => match f.license_name {
            Some(name) => if is_license(f) && name_points(config, name) > 0 && !is_copyleft_name(
                name,
            ) && is_unknown_name(name) {
                Some(name)
            } else {
                None
            },
            None => None,
        },
        SelectorView::LicenseName => if is_license(f) {
            f.license_name
        } else {
            None
        },
        SelectorView::UnidentifiedFile => if lacks_identifier(f) {
            Some(f.file_path)
        } else {
            None
        },
        SelectorView::UnidentifiedName => if lacks_identifier(f) {
            f.license_name
        } else {
            None
        },
        SelectorView::FileOfLicense(name) => if is_license(f) && f.license_name == Some(name) {
            Some(f.file_path)
        } else {
            None
        },
        SelectorView::UnidentifiedFileOfLicense(name) => if lacks_identifier(f) && f.license_name
            == Some(name) {
            Some(f.file_path)
        } else {
            None
        },
        SelectorView::EccFile(rank) => if is_ecc(f) && ecc_rank(f) == rank {
            Some(f.file_path)
        } else {
            None
        },
        SelectorView::VeryLowConfidence => match f.confidence {
            Some(c) => if is_license(f) && c < 50 {
                Some(confidence_label(f.license_name, c))
            } else {
                None
            },
            None => None,
        },
        SelectorView::FairlyLowConfidence => match f.confidence {
            Some(c) => if is_license(f) && 50 <= c < 70 {
                Some(f.file_path)
            } else {
                None
            },
            None => None,
        },
    }
}

/// What `selector` reads off the findings, in their order.
pub open spec fn selected(
    findings: Seq<ScanResultView>,
    selector: SelectorView,
    config: Seq<(Seq<char>, i32)>,
) -> Seq<Seq<char>>
    decreases findings.len(),
{
    if findings.len() == 0 {
        Seq::empty()
    } else {
        let before = selected(findings.drop_last(), selector, config);
        match select(selector, findings.last(), config) {
            Some(t) => before.push(t),
            None => before,
        }
    }
}

fn finding_is_license(f: &ScanResult) -> (r: bool)
    ensures
        r == is_license(f@),
{
    text_eq(f.result_type.as_str(), "license")
}

fn finding_is_ecc(f: &ScanResult) -> (r: bool)
    ensures
        r == is_ecc(f@),
{
    text_eq(f.result_type.as_str(), "ecc")
}

fn finding_lacks_identifier(f: &ScanResult) -> (r: bool)
    ensures
        r == lacks_identifier(f@),
{
    if !finding_is_license(f) || f.license_name.is_none() {
        return false;
    }
    match &f.license_spdx_id {
        Some(id) => id.as_str().unicode_len() == 0,
        None => true,
    }
}

fn finding_rank(f: &ScanResult) -> (r: EccRank)
    ensures
        r == ecc_rank(f@),
{
    match &f.risk_severity {
        Some(s) => {
            if text_eq(s.as_str(), "critical") {
                EccRank::Critical
            } else if text_eq(s.as_str(), "high") {
                EccRank::High
            } else if text_eq(s.as_str(), "medium") {
                EccRank::Medium
            } else {
                EccRank::Low
            }
        },
        None => {
            proof {
                reveal_strlit("medium");
                reveal_strlit("critical");
                reveal_strlit("high");
                assert("medium"@.len() == 6);
                assert("critical"@.len() == 8);
                assert("high"@.len() == 4);
            }
            EccRank::Medium
        },
    }
}

fn positive_weight(config: &[(String, i32)], name: &str) -> (r: bool)
    ensures
        r == (name_points(config.deep_view(), name@) > 0),
{
    match get_license_weight(config, name) {
        Some(w) => w > 0,
        None => false,
    }
}

fn same_rank(a: EccRank, b: EccRank) -> (r: bool)
    ensures
        r == (a == b),
{
    match (a, b) {
        (EccRank::Critical, EccRank::Critical) => true,
        (EccRank::High, EccRank::High) => true,
        (EccRank::Medium, EccRank::Medium) => true,
        (EccRank::Low, EccRank::Low) => true,
        _ => false,
    }
}

/// What `selector` reads off one finding.
pub fn select_from(selector: &Selector, f: &ScanResult, config: &[(String, i32)]) -> (r: Option<
    String,
>)
    ensures
        opt_text(r) == select(selector@, f@, config.deep_view()),
{
    match selector {
        Selector::CopyleftName => match &f.license_name {
            Some(name) => {
                if finding_is_license(f) && positive_weight(config, name.as_str()) && is_copyleft(
                    name.as_str(),
                ) {
                    Some(name.clone())
                } else {
                    None
                }
            },
            None => None,
        },
        Selector::UnknownName => match &f.license_name {
            Some(name) => {
                if finding_is_license(f) && positive_weight(config, name.as_str()) && !is_copyleft(
                    name.as_str(),
                ) && is_unknown_or_proprietary(name.as_str()) {
                    Some(name.clone())
                } else {
                    None
                }
            },
            None => None,
        },
        Selector::LicenseName => match &f.license_name {
            Some(name) => {
                if finding_is_license(f) {
                    Some(name.clone())
                } else {
                    None
                }
            },
            None => None,
        },
        Selector::UnidentifiedFile => {
            if finding_lacks_identifier(f) {
                Some(f.file_path.clone())
            } else {
                None
            }
        },
        Selector::UnidentifiedName => match &f.license_name {
            Some(name) => {
                if finding_lacks_identifier(f) {
                    Some(name.clone())
                } else {
                    None
                }
            },
            None => None,
        },
        Selector::FileOfLicense(wanted) => match &f.license_name {
            Some(name) => {
                if finding_is_license(f) && *name == *wanted {
                    Some(f.file_path.clone())
                } else {
                    None
                }
            },
            None => None,
        },
        Selector::UnidentifiedFileOfLicense(wanted) => match &f.license_name {
            Some(name) => {
                if finding_lacks_identifier(f) && *name == *wanted {
                    Some(f.file_path.clone())
                } else {
                    None
                }
            },
            None => None,
        },
        Selector::EccFile(rank) => {
            if finding_is_ecc(f) && same_rank(finding_rank(f), *rank) {
                Some(f.file_path.clone())
            } else {
                None
            }
        },
        Selector::VeryLowConfidence => match f.confidence {
            Some(c) => {
                if finding_is_license(f) && c < 50 {
                    let mut label = match &f.license_name {
                        Some(n) => n.clone(),
                        None => String::from_str("Unknown"),
                    };
                    push_text(&mut label, " (");
                    push_signed_decimal(&mut label, c as i64);
                    push_text(&mut label, "% confidence)");
                    Some(label)
                } else {
                    None
                }
            },
            None => None,
        },
        Selector::FairlyLowConfidence => match f.confidence {
            Some(c) => {
                if finding_is_license(f) && 50 <= c && c < 70 {
                    Some(f.file_path.clone())
                } else {
                    None
                }
            },
            None => None,
        },
    }
}

/// What `selector` reads off the findings, in their order; with `unique`,
/// each string at its first occurrence only.
pub fn collect(
    findings: &[ScanResult],
    selector: &Selector,
    config: &[(String, i32)],
    unique: bool,
) -> (r: Vec<String>)
    ensures
        r.deep_view() == if unique {
            distinct(selected(findings.deep_view(), selector@, config.deep_view()))
        } else {
            selected(findings.deep_view(), selector@, config.deep_view())
        },
{
    let mut out: Vec<String> = Vec::new();
    let mut i: usize = 0;
    assert(out.deep_view() =~= Seq::<Seq<char>>::empty());
    assert(findings.deep_view().take(0) =~= Seq::<ScanResultView>::empty());
    while i < findings.len()
        invariant
            i <= findings.len(),
            out.deep_view() == if unique {
                distinct(selected(findings.deep_view().take(i as int), selector@, config.deep_view()))
            } else {
                selected(findings.deep_view().take(i as int), selector@, config.deep_view())
            },
        decreases findings.len() - i,
    {
        let ghost prefix = findings.deep_view().take(i as int);
        let ghost next = findings.deep_view().take(i + 1);
        assert(next.drop_last() == prefix);
        assert(next.last() == findings[i as int]@);
        match select_from(selector, &findings[i], config) {
            Some(t) => {
                if unique {
                    assert(selected(next, selector@, config.deep_view()).drop_last() == selected(
                        prefix,
                        selector@,
                        config.deep_view(),
                    ));
                    push_distinct(&mut out, &t);
                } else {
                    let ghost before = out.deep_view();
                    out.push(t);
                    assert(out.deep_view() =~= before.push(t@));
                }
            },
            None => {},
        }
        i += 1;
    }
    assert(findings.deep_view().take(findings.len() as int) == findings.deep_view());
    out
}

/// The sum of the points of the given license names.
pub open spec fn weight_sum(names: Seq<Seq<char>>, config: Seq<(Seq<char>, i32)>) -> int
    decreases names.len(),
{
    if names.len() == 0 {
        0
    } else {
        weight_sum(names.drop_last(), config) + name_points(config, names.last())
    }
}

/// The points for the number of distinct license names.
pub open spec fn diversity_points(distinct_names: int) -> int {
    if distinct_names >= 15 {
        10
    } else if distinct_names >= 10 {
        6
    } else if distinct_names >= 5 {
        3
    } else {
        0
    }
}

/// The sum of all contributions, before the cap:
/// the weight of each distinct copyleft license and of each distinct unknown
/// or proprietary license; 2 for each file with a license that lacks a
/// standard identifier; 15 for each detection with a confidence below 0.5 and
/// 8 for each in [0.5, 0.7); 20, 12, 6 and 2 for each control-flag finding
/// that is critical, high, medium and other; and the diversity points.
pub open spec fn total_points(findings: Seq<ScanResultView>, config: Seq<(Seq<char>, i32)>) -> int {
    weight_sum(distinct(selected(findings, SelectorView::CopyleftName, config)), config)
        + weight_sum(distinct(selected(findings, SelectorView::UnknownName, config)), config) + 2
        * distinct(selected(findings, SelectorView::UnidentifiedFile, config)).len() + 15
        * selected(findings, SelectorView::VeryLowConfidence, config).len() + 8 * selected(
        findings,
        SelectorView::FairlyLowConfidence,
        config,
    ).len() + 20 * selected(findings, SelectorView::EccFile(EccRank::Critical), config).len() + 12
        * selected(findings, SelectorView::EccFile(EccRank::High), config).len() + 6 * selected(
        findings,
        SelectorView::EccFile(EccRank::Medium),
        config,
    ).len() + 2 * selected(findings, SelectorView::EccFile(EccRank::Low), config).len()
        + diversity_points(
        distinct(selected(findings, SelectorView::LicenseName, config)).len() as int,
    )
}

/// The risk score: the sum of the contributions, capped at 100.
pub open spec fn risk_score(findings: Seq<ScanResultView>, config: Seq<(Seq<char>, i32)>) -> int {
    if total_points(findings, config) > 100 {
        100
    } else {
        total_points(findings, config)
    }
}

/// The level of a score: up to 25 `low`, up to 50 `medium`, up to 75 `high`,
/// above that `critical`.
pub open spec fn risk_level(score: int) -> Seq<char> {
    if score <= 25 {
        "low"@
    } else if score <= 50 {
        "medium"@
    } else if score <= 75 {
        "high"@
    } else {
        "critical"@
    }
}

/// A count as a factor reports it: the largest 32-bit number stands for
/// every count beyond it.
pub open spec fn capped_count(n: int) -> int {
    if n > i32::MAX {
        i32::MAX as int
    } else {
        n
    }
}

/// The selector for the files of one license: all of them, or only those
/// where the license lacks a standard identifier.
pub open spec fn files_selector(name: Seq<char>, unidentified: bool) -> SelectorView {
    if unidentified {
        SelectorView::UnidentifiedFileOfLicense(name)
    } else {
        SelectorView::FileOfLicense(name)
    }
}

/// The number of distinct files of one license.
pub open spec fn file_count(
    findings: Seq<ScanResultView>,
    name: Seq<char>,
    config: Seq<(Seq<char>, i32)>,
    unidentified: bool,
) -> nat {
    distinct(selected(findings, files_selector(name, unidentified), config)).len()
}

/// The sum of the file counts of the given licenses.
pub open spec fn file_count_sum(
    findings: Seq<ScanResultView>,
    names: Seq<Seq<char>>,
    config: Seq<(Seq<char>, i32)>,
    unidentified: bool,
) -> int
    decreases names.len(),
{
    if names.len() == 0 {
        0
    } else {
        file_count_sum(findings, names.drop_last(), config, unidentified) + file_count(
            findings,
            names.last(),
            config,
            unidentified,
        )
    }
}

/// The detail line of one license: its name and the number of its files.
pub open spec fn files_label(name: Seq<char>, files: nat) -> Seq<char> {
    name + " ("@ + decimal(files) + " files)"@
}

/// The detail lines of the given licenses, in their order.
pub open spec fn file_labels(
    findings: Seq<ScanResultView>,
    names: Seq<Seq<char>>,
    config: Seq<(Seq<char>, i32)>,
    unidentified: bool,
) -> Seq<Seq<char>> {
    Seq::new(
        names.len(),
        |i: int| files_label(names[i], file_count(findings, names[i], config, unidentified)),
    )
}

/// The factor for a category of licenses, if the category has a member.
pub open spec fn license_factor(
    findings: Seq<ScanResultView>,
    config: Seq<(Seq<char>, i32)>,
    names: Seq<Seq<char>>,
    category: Seq<char>,
    severity: Seq<char>,
    description: Seq<char>,
) -> Seq<RiskFactorView> {
    if names.len() == 0 {
        Seq::empty()
    } else {
        seq![
            RiskFactorView {
                category,
                severity,
                description,
                affected_count: capped_count(file_count_sum(findings, names, config, false)),
                details: file_labels(findings, names, config, false),
            },
        ]
    }
}

/// The factor for the copyleft licenses: one detail line for each distinct
/// license, and the number of their files.
pub open spec fn copyleft_factor(
    findings: Seq<ScanResultView>,
    config: Seq<(Seq<char>, i32)>,
) -> Seq<RiskFactorView> {
    license_factor(
        findings,
        config,
        distinct(selected(findings, SelectorView::CopyleftName, config)),
        "copyleft_license"@,
        "high"@,
        "Strong copyleft licenses detected - may require releasing derivative works under same license"@,
    )
}

/// The factor for the unknown or proprietary licenses.
pub open spec fn unknown_factor(
    findings: Seq<ScanResultView>,
    config: Seq<(Seq<char>, i32)>,
) -> Seq<RiskFactorView> {
    license_factor(
        findings,
        config,
        distinct(selected(findings, SelectorView::UnknownName, config)),
        "unknown_license"@,
        "medium"@,
        "Unknown or proprietary licenses detected - unclear usage rights"@,
    )
}

/// The factor for licenses without a standard identifier: the number of
/// affected files, and one detail line for each such license, sorted.
pub open spec fn unidentified_factor(
    findings: Seq<ScanResultView>,
    config: Seq<(Seq<char>, i32)>,
) -> Seq<RiskFactorView> {
    let files = distinct(selected(findings, SelectorView::UnidentifiedFile, config));
    let names = distinct(selected(findings, SelectorView::UnidentifiedName, config));
    if files.len() == 0 {
        Seq::empty()
    } else {
        seq![
            RiskFactorView {
                category: "missing_spdx_id"@,
                severity: "medium"@,
                description: "Licenses without SPDX identifiers - ambiguous or non-standard licenses"@,
                affected_count: capped_count(files.len() as int),
                details: sorted_texts(file_labels(findings, names, config, true)),
            },
        ]
    }
}

/// The factor for low-confidence detections: `high` if any is below 0.5,
/// else `medium`; the details label those below 0.5.
pub open spec fn confidence_factor(
    findings: Seq<ScanResultView>,
    config: Seq<(Seq<char>, i32)>,
) -> Seq<RiskFactorView> {
    let very_low = selected(findings, SelectorView::VeryLowConfidence, config);
    let fairly_low = selected(findings, SelectorView::FairlyLowConfidence, config);
    if very_low.len() + fairly_low.len() == 0 {
        Seq::empty()
    } else {
        seq![
            RiskFactorView {
                category: "low_confidence"@,
                severity: if very_low.len() > 0 {
                    "high"@
                } else {
                    "medium"@
                },
                description: "Low confidence license detections - may require manual review"@,
                affected_count: capped_count((very_low.len() + fairly_low.len()) as int),
                details: very_low,
            },
        ]
    }
}

/// The detail lines for one severity class of control-flag findings: the
/// number of findings and, with `sample`, the files of the first three.
pub open spec fn rank_details(heading: Seq<char>, files: Seq<Seq<char>>, sample: bool) -> Seq<
    Seq<char>,
> {
    if files.len() == 0 {
        Seq::empty()
    } else if sample {
        seq![heading + decimal(files.len()) + " findings"@] + files.take(
            if files.len() < 3 {
                files.len() as int
            } else {
                3
            },
        )
    } else {
        seq![heading + decimal(files.len()) + " findings"@]
    }
}

/// The factor for critical and high control-flag findings.
pub open spec fn ecc_major_factor(
    findings: Seq<ScanResultView>,
    config: Seq<(Seq<char>, i32)>,
) -> Seq<RiskFactorView> {
    let critical = selected(findings, SelectorView::EccFile(EccRank::Critical), config);
    let high = selected(findings, SelectorView::EccFile(EccRank::High), config);
    if critical.len() + high.len() == 0 {
        Seq::empty()
    } else {
        seq![
            RiskFactorView {
                category: "ecc_critical_high"@,
                severity: if critical.len() > 0 {
                    "critical"@
                } else {
                    "high"@
                },
                description: "Critical or high-severity export control findings - may require compliance review"@,
                affected_count: capped_count((critical.len() + high.len()) as int),
                details: rank_details("Critical: "@, critical, true) + rank_details(
                    "High: "@,
                    high,
                    true,
                ),
            },
        ]
    }
}

/// The factor for medium and other control-flag findings.
pub open spec fn ecc_minor_factor(
    findings: Seq<ScanResultView>,
    config: Seq<(Seq<char>, i32)>,
) -> Seq<RiskFactorView> {
    let medium = selected(findings, SelectorView::EccFile(EccRank::Medium), config);
    let low = selected(findings, SelectorView::EccFile(EccRank::Low), config);
    if medium.len() + low.len() == 0 {
        Seq::empty()
    } else {
        seq![
            RiskFactorView {
                category: "ecc_medium_low"@,
                severity: "medium"@,
                description: "Export control findings detected - review for compliance requirements"@,
                affected_count: capped_count((medium.len() + low.len()) as int),
                details: rank_details("Medium: "@, medium, false) + rank_details(
                    "Low: "@,
                    low,
                    false,
                ),
            },
        ]
    }
}

/// The factor for license diversity, present where it brings points: the
/// number of distinct license names and the first ten of them.
pub open spec fn diversity_factor(
    findings: Seq<ScanResultView>,
    config: Seq<(Seq<char>, i32)>,
) -> Seq<RiskFactorView> {
    let names = distinct(selected(findings, SelectorView::LicenseName, config));
    if diversity_points(names.len() as int) == 0 {
        Seq::empty()
    } else {
        seq![
            RiskFactorView {
                category: "license_diversity"@,
                severity: "low"@,
                description: "High license diversity ("@ + decimal(names.len())
                    + " unique licenses) - may indicate compatibility issues"@,
                affected_count: capped_count(names.len() as int),
                details: names.take(
                    if names.len() < 10 {
                        names.len() as int
                    } else {
                        10
                    },
                ),
            },
        ]
    }
}

/// The factors of an assessment, in the order in which the signals are
/// examined.
pub open spec fn risk_factors(
    findings: Seq<ScanResultView>,
    config: Seq<(Seq<char>, i32)>,
) -> Seq<RiskFactorView> {
    copyleft_factor(findings, config) + unknown_factor(findings, config) + unidentified_factor(
        findings,
        config,
    ) + confidence_factor(findings, config) + ecc_major_factor(findings, config)
        + ecc_minor_factor(findings, config) + diversity_factor(findings, config)
}

/// The assessment of a scan's findings under the given weight rules.
pub open spec fn assess(
    findings: Seq<ScanResultView>,
    config: Seq<(Seq<char>, i32)>,
) -> RiskAssessmentView {
    RiskAssessmentView {
        score: risk_score(findings, config),
        level: risk_level(risk_score(findings, config)),
        factors: risk_factors(findings, config),
    }
}

/// A number of points as the score counts it: capped at 100.
pub open spec fn capped_points(points: int) -> int {
    if points > 100 {
        100
    } else {
        points
    }
}

/// The capped points of `each` points for every one of `items`.
pub open spec fn count_points(each: int, items: Seq<Seq<char>>) -> int {
    capped_points(each * items.len())
}

fn capped_product(count: usize, each: i32) -> (r: i32)
    requires
        0 < each <= 100,
    ensures
        r == capped_points(count * each),
{
    if count >= 100 {
        assert(count * each >= 100) by (nonlinear_arith)
            requires
                count >= 100,
                each >= 1,
        ;
        100
    } else {
        assert(count * each <= 9900) by (nonlinear_arith)
            requires
                count <= 99,
                0 < each <= 100,
        ;
        let product: i32 = (count as i32) * each;
        if product > 100 {
            100
        } else {
            product
        }
    }
}

fn count_to_i32(n: usize) -> (r: i32)
    ensures
        r == capped_count(n as int),
{
    if n > 2147483647 {
        2147483647
    } else {
        n as i32
    }
}

fn add_counts(a: i32, b: usize) -> (r: i32)
    requires
        a >= 0,
    ensures
        r == capped_count(a + b),
{
    let b32 = count_to_i32(b);
    if b32 > 2147483647 - a {
        2147483647
    } else {
        a + b32
    }
}

fn capped_weight_sum(names: &Vec<String>, config: &[(String, i32)]) -> (r: i32)
    ensures
        r == capped_points(weight_sum(names.deep_view(), config.deep_view())),
        weight_sum(names.deep_view(), config.deep_view()) >= 0,
{
    let mut acc: i32 = 0;
    let mut i: usize = 0;
    assert(names.deep_view().take(0) =~= Seq::<Seq<char>>::empty());
    while i < names.len()
        invariant
            i <= names.len(),
            0 <= acc <= 100,
            acc == capped_points(weight_sum(names.deep_view().take(i as int), config.deep_view())),
            weight_sum(names.deep_view().take(i as int), config.deep_view()) >= 0,
        decreases names.len() - i,
    {
        assert(names.deep_view().take(i + 1).drop_last() == names.deep_view().take(i as int));
        assert(names.deep_view().take(i + 1).last() == names[i as int]@);
        let points: i32 = match get_license_weight(config, names[i].as_str()) {
            Some(w) => if w > 0 {
                w
            } else {
                0
            },
            None => 0,
        };
        if points >= 100 - acc {
            acc = 100;
        } else {
            acc = acc + points;
        }
        i += 1;
    }
    assert(names.deep_view().take(names.len() as int) == names.deep_view());
    acc
}

fn make_text(s: &str) -> (r: String)
    ensures
        r@ == s@,
{
    String::from_str(s)
}

/// The detail lines and the summed file count of the given licenses.
fn label_files(
    findings: &[ScanResult],
    names: &Vec<String>,
    config: &[(String, i32)],
    unidentified: bool,
) -> (r: (Vec<String>, i32))
    ensures
        r.0.deep_view() == file_labels(
            findings.deep_view(),
            names.deep_view(),
            config.deep_view(),
            unidentified,
        ),
        r.1 == capped_count(
            file_count_sum(findings.deep_view(), names.deep_view(), config.deep_view(), unidentified),
        ),
{
    let mut labels: Vec<String> = Vec::new();
    let mut total: i32 = 0;
    let mut i: usize = 0;
    let ghost fs = findings.deep_view();
    let ghost cfg = config.deep_view();
    let ghost all = names.deep_view();
    assert(all.take(0) =~= Seq::<Seq<char>>::empty());
    while i < names.len()
        invariant
            i <= names.len(),
            fs == findings.deep_view(),
            cfg == config.deep_view(),
            all == names.deep_view(),
            labels.deep_view() =~= file_labels(fs, all.take(i as int), cfg, unidentified),
            total == capped_count(file_count_sum(fs, all.take(i as int), cfg, unidentified)),
            file_count_sum(fs, all.take(i as int), cfg, unidentified) >= 0,
        decreases names.len() - i,
    {
        assert(all.take(i + 1).drop_last() == all.take(i as int));
        assert(all.take(i + 1).last() == names[i as int]@);
        let selector = if unidentified {
            Selector::UnidentifiedFileOfLicense(names[i].clone())
        } else {
            Selector::FileOfLicense(names[i].clone())
        };
        assert(selector@ == files_selector(names[i as int]@, unidentified));
        let files = collect(findings, &selector, config, true);
        assert(files.len() == file_count(fs, names[i as int]@, cfg, unidentified));
        let mut label = names[i].clone();
        push_text(&mut label, " (");
        push_decimal(&mut label, files.len() as u64);
        push_text(&mut label, " files)");
        assert(label@ == files_label(names[i as int]@, files.len() as nat));
        let ghost before = labels.deep_view();
        labels.push(label);
        assert(labels.deep_view() =~= before.push(label@));
        total = add_counts(total, files.len());
        i += 1;
    }
    assert(all.take(names.len() as int) == all);
    (labels, total)
}

fn push_factor(factors: &mut Vec<RiskFactor>, factor: RiskFactor)
    ensures
        final(factors).deep_view() == old(factors).deep_view() + seq![factor@],
{
    let ghost before = factors.deep_view();
    factors.push(factor);
    assert(factors.deep_view() =~= before + seq![factor@]);
}

fn license_signal(
    findings: &[ScanResult],
    config: &[(String, i32)],
    copyleft: bool,
    factors: &mut Vec<RiskFactor>,
) -> (points: i32)
    ensures
        final(factors).deep_view() == old(factors).deep_view() + if copyleft {
            copyleft_factor(findings.deep_view(), config.deep_view())
        } else {
            unknown_factor(findings.deep_view(), config.deep_view())
        },
        points == capped_points(
            weight_sum(
                distinct(
                    selected(
                        findings.deep_view(),
                        if copyleft {
                            SelectorView::CopyleftName
                        } else {
                            SelectorView::UnknownName
                        },
                        config.deep_view(),
                    ),
                ),
                config.deep_view(),
            ),
        ),
        weight_sum(
            distinct(
                selected(
                    findings.deep_view(),
                    if copyleft {
                        SelectorView::CopyleftName
                    } else {
                        SelectorView::UnknownName
                    },
                    config.deep_view(),
                ),
            ),
            config.deep_view(),
        ) >= 0,
{
    let selector = if copyleft {
        Selector::CopyleftName
    } else {
        Selector::UnknownName
    };
    let names = collect(findings, &selector, config, true);
    let points = capped_weight_sum(&names, config);
    if names.len() > 0 {
        let (details, affected_count) = label_files(findings, &names, config, false);
        let factor = if copyleft {
            RiskFactor {
                category: make_text("copyleft_license"),
                severity: make_text("high"),
                description: make_text(
                    "Strong copyleft licenses detected - may require releasing derivative works under same license",
                ),
                affected_count,
                details,
            }
        } else {
            RiskFactor {
                category: make_text("unknown_license"),
                severity: make_text("medium"),
                description: make_text(
                    "Unknown or proprietary licenses detected - unclear usage rights",
                ),
                affected_count,
                details,
            }
        };
        push_factor(factors, factor);
    } else {
        assert(factors.deep_view() + Seq::<RiskFactorView>::empty() =~= factors.deep_view());
    }
    points
}

fn unidentified_signal(
    findings: &[ScanResult],
    config: &[(String, i32)],
    factors: &mut Vec<RiskFactor>,
) -> (points: i32)
    ensures
        final(factors).deep_view() == old(factors).deep_view() + unidentified_factor(
            findings.deep_view(),
            config.deep_view(),
        ),
        points == count_points(2, distinct(
                selected(findings.deep_view(), SelectorView::UnidentifiedFile, config.deep_view()),
            )),
{
    let files = collect(findings, &Selector::UnidentifiedFile, config, true);
    let points = capped_product(files.len(), 2);
    if files.len() > 0 {
        let names = collect(findings, &Selector::UnidentifiedName, config, true);
        let (mut details, _) = label_files(findings, &names, config, true);
        sort_texts(&mut details);
        push_factor(
            factors,
            RiskFactor {
                category: make_text("missing_spdx_id"),
                severity: make_text("medium"),
                description: make_text(
                    "Licenses without SPDX identifiers - ambiguous or non-standard licenses",
                ),
                affected_count: count_to_i32(files.len()),
                details,
            },
        );
    } else {
        assert(factors.deep_view() + Seq::<RiskFactorView>::empty() =~= factors.deep_view());
    }
    points
}

fn confidence_signal(
    findings: &[ScanResult],
    config: &[(String, i32)],
    factors: &mut Vec<RiskFactor>,
) -> (points: (i32, i32))
    ensures
        final(factors).deep_view() == old(factors).deep_view() + confidence_factor(
            findings.deep_view(),
            config.deep_view(),
        ),
        points.0 == count_points(15, selected(
                findings.deep_view(),
                SelectorView::VeryLowConfidence,
                config.deep_view(),
            )),
        points.1 == count_points(8, selected(
                findings.deep_view(),
                SelectorView::FairlyLowConfidence,
                config.deep_view(),
            )),
{
    let very_low = collect(findings, &Selector::VeryLowConfidence, config, false);
    let fairly_low = collect(findings, &Selector::FairlyLowConfidence, config, false);
    let points = (capped_product(very_low.len(), 15), capped_product(fairly_low.len(), 8));
    if very_low.len() > 0 || fairly_low.len() > 0 {
        let severity = if very_low.len() > 0 {
            make_text("high")
        } else {
            make_text("medium")
        };
        let affected_count = add_counts(count_to_i32(very_low.len()), fairly_low.len());
        push_factor(
            factors,
            RiskFactor {
                category: make_text("low_confidence"),
                severity,
                description: make_text(
                    "Low confidence license detections - may require manual review",
                ),
                affected_count,
                details: very_low,
            },
        );
    } else {
        assert(factors.deep_view() + Seq::<RiskFactorView>::empty() =~= factors.deep_view());
    }
    points
}

/// Appends the detail lines of one severity class to `details`.
fn push_rank_details(details: &mut Vec<String>, heading: &str, files: &Vec<String>, sample: bool)
    ensures
        final(details).deep_view() == old(details).deep_view() + rank_details(
            heading@,
            files.deep_view(),
            sample,
        ),
{
    let ghost start = details.deep_view();
    if files.len() == 0 {
        assert(start + Seq::<Seq<char>>::empty() =~= start);
        return ;
    }
    let mut line = make_text(heading);
    push_decimal(&mut line, files.len() as u64);
    push_text(&mut line, " findings");
    details.push(line);
    assert(details.deep_view() =~= start + seq![line@]);
    if sample {
        let shown: usize = if files.len() < 3 {
            files.len()
        } else {
            3
        };
        let mut i: usize = 0;
        while i < shown
            invariant
                i <= shown <= files.len(),
                details.deep_view() =~= start + (seq![line@] + files.deep_view().take(i as int)),
            decreases shown - i,
        {
            let ghost before = details.deep_view();
            details.push(files[i].clone());
            assert(details.deep_view() =~= before.push(files[i as int]@));
            i += 1;
        }
    } else {
        assert(start + seq![line@] =~= start + rank_details(heading@, files.deep_view(), sample));
    }
}

fn ecc_signal(
    findings: &[ScanResult],
    config: &[(String, i32)],
    factors: &mut Vec<RiskFactor>,
) -> (points: (i32, i32, i32, i32))
    ensures
        final(factors).deep_view() == old(factors).deep_view() + ecc_major_factor(
            findings.deep_view(),
            config.deep_view(),
        ) + ecc_minor_factor(findings.deep_view(), config.deep_view()),
        points.0 == count_points(20, selected(
                findings.deep_view(),
                SelectorView::EccFile(EccRank::Critical),
                config.deep_view(),
            )),
        points.1 == count_points(12, selected(
                findings.deep_view(),
                SelectorView::EccFile(EccRank::High),
                config.deep_view(),
            )),
        points.2 == count_points(6, selected(
                findings.deep_view(),
                SelectorView::EccFile(EccRank::Medium),
                config.deep_view(),
            )),
        points.3 == count_points(2, selected(
                findings.deep_view(),
                SelectorView::EccFile(EccRank::Low),
                config.deep_view(),
            )),
{
    let critical = collect(findings, &Selector::EccFile(EccRank::Critical), config, false);
    let high = collect(findings, &Selector::EccFile(EccRank::High), config, false);
    let medium = collect(findings, &Selector::EccFile(EccRank::Medium), config, false);
    let low = collect(findings, &Selector::EccFile(EccRank::Low), config, false);
    let points = (
        capped_product(critical.len(), 20),
        capped_product(high.len(), 12),
        capped_product(medium.len(), 6),
        capped_product(low.len(), 2),
    );
    let ghost start = factors.deep_view();
    if critical.len() > 0 || high.len() > 0 {
        let mut details: Vec<String> = Vec::new();
        assert(details.deep_view() =~= Seq::<Seq<char>>::empty());
        push_rank_details(&mut details, "Critical: ", &critical, true);
        push_rank_details(&mut details, "High: ", &high, true);
        assert(details.deep_view() =~= rank_details("Critical: "@, critical.deep_view(), true)
            + rank_details("High: "@, high.deep_view(), true));
        let severity = if critical.len() > 0 {
            make_text("critical")
        } else {
            make_text("high")
        };
        push_factor(
            factors,
            RiskFactor {
                category: make_text("ecc_critical_high"),
                severity,
                description: make_text(
                    "Critical or high-severity export control findings - may require compliance review",
                ),
                affected_count: add_counts(count_to_i32(critical.len()), high.len()),
                details,
            },
        );
    } else {
        assert(start + Seq::<RiskFactorView>::empty() =~= start);
    }
    let ghost middle = factors.deep_view();
    if medium.len() > 0 || low.len() > 0 {
        let mut details: Vec<String> = Vec::new();
        assert(details.deep_view() =~= Seq::<Seq<char>>::empty());
        push_rank_details(&mut details, "Medium: ", &medium, false);
        push_rank_details(&mut details, "Low: ", &low, false);
        assert(details.deep_view() =~= rank_details("Medium: "@, medium.deep_view(), false)
            + rank_details("Low: "@, low.deep_view(), false));
        push_factor(
            factors,
            RiskFactor {
                category: make_text("ecc_medium_low"),
                severity: make_text("medium"),
                description: make_text(
                    "Export control findings detected - review for compliance requirements",
                ),
                affected_count: add_counts(count_to_i32(medium.len()), low.len()),
                details,
            },
        );
    } else {
        assert(middle + Seq::<RiskFactorView>::empty() =~= middle);
    }
    points
}

fn first_texts(v: &Vec<String>, limit: usize) -> (r: Vec<String>)
    ensures
        r.deep_view() == v.deep_view().take(
            if v.len() < limit {
                v.len() as int
            } else {
                limit as int
            },
        ),
{
    let shown: usize = if v.len() < limit {
        v.len()
    } else {
        limit
    };
    let mut out: Vec<String> = Vec::new();
    let mut i: usize = 0;
    while i < shown
        invariant
            i <= shown <= v.len(),
            out.deep_view() =~= v.deep_view().take(i as int),
        decreases shown - i,
    {
        let ghost before = out.deep_view();
        out.push(v[i].clone());
        assert(out.deep_view() =~= before.push(v[i as int]@));
        i += 1;
    }
    out
}

fn diversity_signal(
    findings: &[ScanResult],
    config: &[(String, i32)],
    factors: &mut Vec<RiskFactor>,
) -> (points: i32)
    ensures
        final(factors).deep_view() == old(factors).deep_view() + diversity_factor(
            findings.deep_view(),
            config.deep_view(),
        ),
        points == diversity_points(
            distinct(
                selected(findings.deep_view(), SelectorView::LicenseName, config.deep_view()),
            ).len() as int,
        ),
{
    let names = collect(findings, &Selector::LicenseName, config, true);
    let count = names.len();
    let points: i32 = if count >= 15 {
        10
    } else if count >= 10 {
        6
    } else if count >= 5 {
        3
    } else {
        0
    };
    if points > 0 {
        let mut description = make_text("High license diversity (");
        push_decimal(&mut description, count as u64);
        push_text(&mut description, " unique licenses) - may indicate compatibility issues");
        push_factor(
            factors,
            RiskFactor {
                category: make_text("license_diversity"),
                severity: make_text("low"),
                description,
                affected_count: count_to_i32(count),
                details: first_texts(&names, 10),
            },
        );
    } else {
        assert(factors.deep_view() + Seq::<RiskFactorView>::empty() =~= factors.deep_view());
    }
    points
}

/// The name of the level of a score.
pub fn level_name(score: i32) -> (r: String)
    ensures
        r@ == risk_level(score as int),
{
    if score <= 25 {
        make_text("low")
    } else if score <= 50 {
        make_text("medium")
    } else if score <= 75 {
        make_text("high")
    } else {
        make_text("critical")
    }
}

/// Calculate the risk assessment of a scan from its findings and the
/// configured weight rules. Nothing is read or written besides the
/// arguments; storing the result is the caller's part.
pub fn calculate_risk_score(results: &[ScanResult], risk_config: &[(String, i32)]) -> (r:
    RiskAssessment)
    ensures
        r@ == assess(results.deep_view(), risk_config.deep_view()),
        0 <= r.score <= 100,
{
    let mut factors: Vec<RiskFactor> = Vec::new();
    let ghost fs = results.deep_view();
    let ghost cfg = risk_config.deep_view();
    assert(factors.deep_view() =~= Seq::<RiskFactorView>::empty());
    let copyleft = license_signal(results, risk_config, true, &mut factors);
    assert(factors.deep_view() =~= copyleft_factor(fs, cfg));
    let unknown = license_signal(results, risk_config, false, &mut factors);
    let unidentified = unidentified_signal(results, risk_config, &mut factors);
    let confidence = confidence_signal(results, risk_config, &mut factors);
    let ecc = ecc_signal(results, risk_config, &mut factors);
    let diversity = diversity_signal(results, risk_config, &mut factors);
    let sum: i32 = copyleft + unknown + unidentified + confidence.0 + confidence.1 + ecc.0 + ecc.1
        + ecc.2 + ecc.3 + diversity;
    let score: i32 = if sum > 100 {
        100
    } else {
        sum
    };
    RiskAssessment { score, level: level_name(score), factors }
}

} // verus!
