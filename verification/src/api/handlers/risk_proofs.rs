//! What holds of the risk score for all findings and all weight rules.
use vstd::prelude::*;
use crate::api::handlers::risk::{
    assess, risk_score, select, selected, total_points, weight_sum, EccRank, SelectorView,
};
use crate::api::models::{RiskAssessmentView, RiskFactorView};
use crate::db::models::scan_result::ScanResultView;
use crate::text::distinct;

verus! {

/// Adding a finding at the end adds at most what the selector reads off it.
pub proof fn selected_push(
    findings: Seq<ScanResultView>,
    f: ScanResultView,
    selector: SelectorView,
    config: Seq<(Seq<char>, i32)>,
)
    ensures
        selected(findings.push(f), selector, config) == match select(selector, f, config) {
            Some(t) => selected(findings, selector, config).push(t),
            None => selected(findings, selector, config),
        },
{
    assert(findings.push(f).drop_last() == findings);
}

/// A string added at the end is kept exactly if it is new.
pub proof fn distinct_push(s: Seq<Seq<char>>, x: Seq<char>)
    ensures
        distinct(s.push(x)) == if distinct(s).contains(x) {
            distinct(s)
        } else {
            distinct(s).push(x)
        },
{
    assert(s.push(x).drop_last() == s);
}

/// No sum of name points is negative.
pub proof fn weight_sum_nonnegative(names: Seq<Seq<char>>, config: Seq<(Seq<char>, i32)>)
    ensures
        weight_sum(names, config) >= 0,
    decreases names.len(),
{
    if names.len() > 0 {
        weight_sum_nonnegative(names.drop_last(), config);
    }
}

/// One more finding never lowers what a selector yields: neither the number
/// of strings, nor the number of distinct strings, nor their summed points.
pub proof fn selected_grows(
    findings: Seq<ScanResultView>,
    f: ScanResultView,
    selector: SelectorView,
    config: Seq<(Seq<char>, i32)>,
)
    ensures
        selected(findings.push(f), selector, config).len() >= selected(
            findings,
            selector,
            config,
        ).len(),
        distinct(selected(findings.push(f), selector, config)).len() >= distinct(
            selected(findings, selector, config),
        ).len(),
        weight_sum(distinct(selected(findings.push(f), selector, config)), config) >= weight_sum(
            distinct(selected(findings, selector, config)),
            config,
        ),
{
    selected_push(findings, f, selector, config);
    let before = selected(findings, selector, config);
    match select(selector, f, config) {
        Some(t) => {
            distinct_push(before, t);
            if !distinct(before).contains(t) {
                assert(distinct(before).push(t).drop_last() == distinct(before));
            }
        },
        None => {},
    }
}

/// The score is never below 0 and never above 100.
pub proof fn score_in_range(findings: Seq<ScanResultView>, config: Seq<(Seq<char>, i32)>)
    ensures
        0 <= risk_score(findings, config) <= 100,
{
    weight_sum_nonnegative(distinct(selected(findings, SelectorView::CopyleftName, config)), config);
    weight_sum_nonnegative(distinct(selected(findings, SelectorView::UnknownName, config)), config);
}

/// The score does not fall when one more finding is added.
pub proof fn score_monotonic_push(
    findings: Seq<ScanResultView>,
    f: ScanResultView,
    config: Seq<(Seq<char>, i32)>,
)
    ensures
        total_points(findings.push(f), config) >= total_points(findings, config),
        risk_score(findings.push(f), config) >= risk_score(findings, config),
{
    selected_grows(findings, f, SelectorView::CopyleftName, config);
    selected_grows(findings, f, SelectorView::UnknownName, config);
    selected_grows(findings, f, SelectorView::UnidentifiedFile, config);
    selected_grows(findings, f, SelectorView::VeryLowConfidence, config);
    selected_grows(findings, f, SelectorView::FairlyLowConfidence, config);
    selected_grows(findings, f, SelectorView::EccFile(EccRank::Critical), config);
    selected_grows(findings, f, SelectorView::EccFile(EccRank::High), config);
    selected_grows(findings, f, SelectorView::EccFile(EccRank::Medium), config);
    selected_grows(findings, f, SelectorView::EccFile(EccRank::Low), config);
    selected_grows(findings, f, SelectorView::LicenseName, config);
}

/// The score is monotonic: with more findings added to a scan's findings,
/// it is at least what it was.
pub proof fn score_monotonic(
    findings: Seq<ScanResultView>,
    more: Seq<ScanResultView>,
    config: Seq<(Seq<char>, i32)>,
)
    ensures
        total_points(findings + more, config) >= total_points(findings, config),
        risk_score(findings + more, config) >= risk_score(findings, config),
    decreases more.len(),
{
    if more.len() == 0 {
        assert(findings + more == findings);
    } else {
        score_monotonic(findings, more.drop_last(), config);
        score_monotonic_push(findings + more.drop_last(), more.last(), config);
        assert((findings + more.drop_last()).push(more.last()) == findings + more);
    }
}

/// A scan without findings has the score 0, the level `low` and no factors,
/// whatever the weight rules are.
pub proof fn no_findings_no_risk(config: Seq<(Seq<char>, i32)>)
    ensures
        assess(Seq::empty(), config) == (RiskAssessmentView {
            score: 0,
            level: "low"@,
            factors: Seq::empty(),
        }),
{
    assert(assess(Seq::empty(), config).factors =~= Seq::<RiskFactorView>::empty());
}

} // verus!
