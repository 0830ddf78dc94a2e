//! From the remote analyzer's reports to findings by file: license names are
//! given standard identifiers where a table knows them, and copyright
//! statements are read for their holders and years.
use vstd::prelude::*;
use regex::Regex;
use crate::scanner::fossology::client::{
    CopyrightFindingView as ReportedCopyrightView, CopyrightResult, CopyrightResultView,
    LicenseFindingView as ReportedLicenseView, LicenseResult, LicenseResultView,
};
use crate::scanner::traits::{
    absorb, absorbed, CopyrightFinding, CopyrightFindingView, LicenseFinding, LicenseFindingView,
    ScanResult, ScanResultView,
};
use crate::text::{
    char_is_numeric, chars_contain, contains_text, distinct, is_numeric_char, lowercase_of,
    push_distinct, replace_char, replaced, sort_texts, sorted_texts, to_chars, to_lowercase, trim,
    trimmed,
};

verus! {

/// A license name as the table of identifiers is searched with: in lower
/// case, with hyphens for spaces.
pub open spec fn normalized_name(name: Seq<char>) -> Seq<char> {
    replaced(lowercase_of(name), ' ', '-')
}

/// The standard identifier for a normalized license name: that of the first
/// entry of the table whose key the name contains.
pub open spec fn spdx_of_normalized(name: Seq<char>) -> Option<Seq<char>> {
    if contains_text(name, "mit"@) {
        Some("MIT"@)
    } else if contains_text(name, "apache-2.0"@) {
        Some("Apache-2.0"@)
    } else if contains_text(name, "apache-license-2.0"@) {
        Some("Apache-2.0"@)
    } else if contains_text(name, "gpl-2.0"@) {
        Some("GPL-2.0-only"@)
    } else if contains_text(name, "gpl-3.0"@) {
        Some("GPL-3.0-only"@)
    } else if contains_text(name, "lgpl-2.1"@) {
        Some("LGPL-2.1-only"@)
    } else if contains_text(name, "lgpl-3.0"@) {
        Some("LGPL-3.0-only"@)
    } else if contains_text(name, "bsd-2-clause"@) {
        Some("BSD-2-Clause"@)
    } else if contains_text(name, "bsd-3-clause"@) {
        Some("BSD-3-Clause"@)
    } else if contains_text(name, "mpl-2.0"@) {
        Some("MPL-2.0"@)
    } else if contains_text(name, "isc"@) {
        Some("ISC"@)
    } else if contains_text(name, "cc0-1.0"@) {
        Some("CC0-1.0"@)
    } else if contains_text(name, "unlicense"@) {
        Some("Unlicense"@)
    } else if contains_text(name, "artistic-2.0"@) {
        Some("Artistic-2.0"@)
    } else if contains_text(name, "zlib"@) {
        Some("Zlib"@)
    } else {
        None
    }
}

/// The standard identifier for a license name as the service gives it.
pub open spec fn spdx_of(name: Seq<char>) -> Option<Seq<char>> {
    spdx_of_normalized(normalized_name(name))
}

fn holds(name: &Vec<char>, key: &str) -> (r: bool)
    ensures
        r == contains_text(name@, key@),
{
    let k = to_chars(key);
    chars_contain(name, &k)
}

fn identifier(id: &str) -> (r: Option<String>)
    ensures
        r.deep_view() == Some(id@),
{
    Some(String::from_str(id))
}

/// The standard identifier for a license name that is already normalized.
/// An unknown name has none, which is no error.
pub fn spdx_for_normalized(normalized: &str) -> (r: Option<String>)
    ensures
        r.deep_view() == spdx_of_normalized(normalized@),
{
    let n = to_chars(normalized);
    if holds(&n, "mit") {
        identifier("MIT")
    } else if holds(&n, "apache-2.0") {
        identifier("Apache-2.0")
    } else if holds(&n, "apache-license-2.0") {
        identifier("Apache-2.0")
    } else if holds(&n, "gpl-2.0") {
        identifier("GPL-2.0-only")
    } else if holds(&n, "gpl-3.0") {
        identifier("GPL-3.0-only")
    } else if holds(&n, "lgpl-2.1") {
        identifier("LGPL-2.1-only")
    } else if holds(&n, "lgpl-3.0") {
        identifier("LGPL-3.0-only")
    } else if holds(&n, "bsd-2-clause") {
        identifier("BSD-2-Clause")
    } else if holds(&n, "bsd-3-clause") {
        identifier("BSD-3-Clause")
    } else if holds(&n, "mpl-2.0") {
        identifier("MPL-2.0")
    } else if holds(&n, "isc") {
        identifier("ISC")
    } else if holds(&n, "cc0-1.0") {
        identifier("CC0-1.0")
    } else if holds(&n, "unlicense") {
        identifier("Unlicense")
    } else if holds(&n, "artistic-2.0") {
        identifier("Artistic-2.0")
    } else if holds(&n, "zlib") {
        identifier("Zlib")
    } else {
        None
    }
}

/// Map Fossology license names to SPDX identifiers.
pub fn map_to_spdx(license_name: &str) -> (r: Option<String>)
    ensures
        r.deep_view() == spdx_of(license_name@),
{
    let lower = to_lowercase(license_name);
    let normalized = replace_char(lower.as_str(), ' ', '-');
    spdx_for_normalized(normalized.as_str())
}

/// What a pattern's first capture group found in a text.
pub enum GroupMatch {
    /// The pattern is not a valid regular expression.
    InvalidPattern,
    /// The pattern does not match the text.
    NoMatch,
    /// The pattern matches, but the group took no part in the match.
    Unset,
    /// The text that the group matched.
    Text(String),
}

/// Mathematical value of a [`GroupMatch`].
pub enum GroupMatchView {
    InvalidPattern,
    NoMatch,
    Unset,
    Text(Seq<char>),
}

impl View for GroupMatch {
    type V = GroupMatchView;

    open spec fn view(&self) -> GroupMatchView {
        match self {
            GroupMatch::InvalidPattern => GroupMatchView::InvalidPattern,
            GroupMatch::NoMatch => GroupMatchView::NoMatch,
            GroupMatch::Unset => GroupMatchView::Unset,
            GroupMatch::Text(t) => GroupMatchView::Text(t@),
        }
    }
}

/// What the first capture group of `pattern` finds at the leftmost match in
/// `text`, under the `regex` crate's syntax and matching rules.
pub uninterp spec fn regex_first_match(pattern: Seq<char>, text: Seq<char>) -> GroupMatchView;

/// What the first capture group of `pattern` finds at each of the successive
/// non-overlapping matches in `text`, or `None` for an invalid pattern.
pub uninterp spec fn regex_all_matches(pattern: Seq<char>, text: Seq<char>) -> Option<
    Seq<Option<Seq<char>>>,
>;

/// `regex::Regex::captures`, on the expression compiled from `pattern` by
/// `Regex::new`. Taken on trust: the result tells whether the pattern
/// compiles, whether it matches, and what capture group 1 holds at the
/// leftmost match; it depends on pattern and text alone.
#[verifier::external_body]
fn first_match(pattern: &str, text: &str) -> (r: GroupMatch)
    ensures
        r@ == regex_first_match(pattern@, text@),
{
    match Regex::new(pattern) {
        Ok(re) => match re.captures(text) {
            Some(captures) => match captures.get(1) {
                Some(group) => GroupMatch::Text(group.as_str().to_string()),
                None => GroupMatch::Unset,
            },
            None => GroupMatch::NoMatch,
        },
        Err(_) => GroupMatch::InvalidPattern,
    }
}

/// `regex::Regex::captures_iter`, on the expression compiled from `pattern`
/// by `Regex::new`. Taken on trust: the result holds, for each successive
/// match, what capture group 1 holds there; it depends on pattern and text
/// alone.
#[verifier::external_body]
fn all_matches(pattern: &str, text: &str) -> (r: Option<Vec<Option<String>>>)
    ensures
        r.deep_view() == regex_all_matches(pattern@, text@),
{
    match Regex::new(pattern) {
        Ok(re) => Some(
            re.captures_iter(text).map(|c| c.get(1).map(|m| m.as_str().to_string())).collect(),
        ),
        Err(_) => None,
    }
}

/// The holder that a match stands for: the matched text without the white
/// space around it, unless that is empty or begins with a numeric character.
pub open spec fn holder_from(found: GroupMatchView) -> Option<Seq<char>> {
    match found {
        GroupMatchView::Text(t) => if trimmed(t).len() > 0 && !is_numeric_char(trimmed(t)[0]) {
            Some(trimmed(t))
        } else {
            None
        },
        _ => None,
    }
}

/// The holder that a match stands for, if it stands for one.
pub fn holder_from_match(found: GroupMatch) -> (r: Option<String>)
    ensures
        r.deep_view() == holder_from(found@),
{
    match found {
        GroupMatch::Text(t) => {
            let holder = trim(t.as_str());
            let chars = to_chars(holder.as_str());
            if chars.len() > 0 && !char_is_numeric(chars[0]) {
                Some(holder)
            } else {
                None
            }
        },
        _ => None,
    }
}

/// The holder found by a pattern in a statement.
pub open spec fn holder_by(pattern: Seq<char>, statement: Seq<char>) -> Option<Seq<char>> {
    holder_from(regex_first_match(pattern, statement))
}

/// The holders of a statement: the holder found by the first of three
/// patterns that finds one. The patterns look for what follows `Copyright`,
/// the copyright sign or `Copr.`, after an optional `(c)`, years and `by`,
/// up to the first full stop.
pub open spec fn holders_of(statement: Seq<char>) -> Seq<Seq<char>> {
    match holder_by(
        r"(?i)copyright\s*(?:\(c\))?\s*(?:\d{4}[-,\s]*)*\s*(?:by\s+)?(.+?)(?:\.|$)"@,
        statement,
    ) {
        Some(h) => seq![h],
        None => match holder_by(
            r"(?i)©\s*(?:\d{4}[-,\s]*)*\s*(?:by\s+)?(.+?)(?:\.|$)"@,
            statement,
        ) {
            Some(h) => seq![h],
            None => match holder_by(
                r"(?i)copr\.\s*(?:\d{4}[-,\s]*)*\s*(?:by\s+)?(.+?)(?:\.|$)"@,
                statement,
            ) {
                Some(h) => seq![h],
                None => Seq::empty(),
            },
        },
    }
}

fn holder_found_by(pattern: &str, statement: &str) -> (r: Option<String>)
    ensures
        r.deep_view() == holder_by(pattern@, statement@),
{
    holder_from_match(first_match(pattern, statement))
}

fn single(text: String) -> (r: Vec<String>)
    ensures
        r.deep_view() == seq![text@],
{
    let mut v: Vec<String> = Vec::new();
    v.push(text);
    assert(v.deep_view() =~= seq![text@]);
    v
}

/// Extract copyright holders from a statement.
pub fn extract_copyright_holders(statement: &str) -> (holders: Vec<String>)
    ensures
        holders.deep_view() == holders_of(statement@),
{
    match holder_found_by(
        r"(?i)copyright\s*(?:\(c\))?\s*(?:\d{4}[-,\s]*)*\s*(?:by\s+)?(.+?)(?:\.|$)",
        statement,
    ) {
        Some(h) => single(h),
        None => match holder_found_by(
            r"(?i)©\s*(?:\d{4}[-,\s]*)*\s*(?:by\s+)?(.+?)(?:\.|$)",
            statement,
        ) {
            Some(h) => single(h),
            None => match holder_found_by(
                r"(?i)copr\.\s*(?:\d{4}[-,\s]*)*\s*(?:by\s+)?(.+?)(?:\.|$)",
                statement,
            ) {
                Some(h) => single(h),
                None => {
                    let v: Vec<String> = Vec::new();
                    assert(v.deep_view() =~= Seq::<Seq<char>>::empty());
                    v
                },
            },
        },
    }
}

/// The texts among the matches, in their order.
pub open spec fn present(matches: Seq<Option<Seq<char>>>) -> Seq<Seq<char>>
    decreases matches.len(),
{
    if matches.len() == 0 {
        Seq::empty()
    } else {
        match matches.last() {
            Some(t) => present(matches.drop_last()).push(t),
            None => present(matches.drop_last()),
        }
    }
}

/// The years that a list of matches stands for: the matched texts in
/// ascending order, each once.
pub open spec fn years_from(matches: Option<Seq<Option<Seq<char>>>>) -> Seq<Seq<char>> {
    match matches {
        Some(list) => distinct(sorted_texts(present(list))),
        None => Seq::empty(),
    }
}

/// The years that a list of matches stands for.
pub fn years_from_matches(matches: Option<Vec<Option<String>>>) -> (years: Vec<String>)
    ensures
        years.deep_view() == years_from(matches.deep_view()),
{
    let mut years: Vec<String> = Vec::new();
    assert(years.deep_view() =~= Seq::<Seq<char>>::empty());
    match matches {
        Some(list) => {
            let mut found: Vec<String> = Vec::new();
            let ghost all = list.deep_view();
            let ghost items = list@;
            assert(all.take(0) =~= Seq::<Option<Seq<char>>>::empty());
            assert(found.deep_view() =~= Seq::<Seq<char>>::empty());
            for item in it: list
                invariant
                    it.seq() == items,
                    all.len() == items.len(),
                    forall|k: int|
                        0 <= k < items.len() ==> all[k] == (#[trigger] items[k]).deep_view(),
                    found.deep_view() == present(all.take(it.index() as int)),
            {
                let ghost done = it.index() as int;
                assert(all.take(done + 1).drop_last() == all.take(done));
                assert(all.take(done + 1).last() == item.deep_view());
                match item {
                    Some(t) => {
                        let ghost before = found.deep_view();
                        found.push(t);
                        assert(found.deep_view() =~= before.push(t@));
                    },
                    None => {},
                }
            }
            assert(all.take(all.len() as int) == all);
            sort_texts(&mut found);
            let ghost sorted = found.deep_view();
            let mut i: usize = 0;
            assert(sorted.take(0) =~= Seq::<Seq<char>>::empty());
            while i < found.len()
                invariant
                    i <= found.len(),
                    sorted == found.deep_view(),
                    years.deep_view() == distinct(sorted.take(i as int)),
                decreases found.len() - i,
            {
                assert(sorted.take(i + 1).drop_last() == sorted.take(i as int));
                assert(sorted.take(i + 1).last() == found[i as int]@);
                push_distinct(&mut years, &found[i]);
                i += 1;
            }
            assert(sorted.take(sorted.len() as int) == sorted);
        },
        None => {},
    }
    years
}

/// The years of a statement: every four-digit number from 1900 to 2099 that
/// stands as a word of its own, in ascending order, each once.
pub open spec fn years_of(statement: Seq<char>) -> Seq<Seq<char>> {
    years_from(regex_all_matches(r"\b(19\d{2}|20\d{2})\b"@, statement))
}

/// Extract copyright years from a statement.
pub fn extract_copyright_years(statement: &str) -> (years: Vec<String>)
    ensures
        years.deep_view() == years_of(statement@),
{
    years_from_matches(all_matches(r"\b(19\d{2}|20\d{2})\b", statement))
}

/// What a copyright statement says, if it names a holder or a year: the
/// statement without the white space around it, its holders and its years.
pub open spec fn parsed_statement(statement: Seq<char>) -> Option<CopyrightFindingView> {
    let text = trimmed(statement);
    if text.len() == 0 || (holders_of(text).len() == 0 && years_of(text).len() == 0) {
        None
    } else {
        Some(
            CopyrightFindingView {
                statement: text,
                holders: holders_of(text),
                years: years_of(text),
            },
        )
    }
}

/// Parse a copyright statement to extract holders and years.
pub fn parse_copyright_statement(statement: &str) -> (r: Option<CopyrightFinding>)
    ensures
        r.deep_view() == parsed_statement(statement@),
{
    let text = trim(statement);
    if text.as_str().unicode_len() == 0 {
        return None;
    }
    let holders = extract_copyright_holders(text.as_str());
    let years = extract_copyright_years(text.as_str());
    if holders.len() == 0 && years.len() == 0 {
        return None;
    }
    Some(CopyrightFinding { statement: text, holders, years })
}

/// The finding for a license as the service reports it: a missing
/// identifier is looked up by name, and the whole percentage of the match
/// becomes the confidence in hundredths.
pub open spec fn license_finding_of(reported: ReportedLicenseView) -> LicenseFindingView {
    LicenseFindingView {
        name: reported.license,
        spdx_id: match reported.spdx_id {
            Some(id) => Some(id),
            None => spdx_of(reported.license),
        },
        confidence: reported.match_percentage,
    }
}

/// The findings for the licenses of one file, in their order.
pub open spec fn license_findings_of(reported: Seq<ReportedLicenseView>) -> Seq<
    LicenseFindingView,
> {
    Seq::new(reported.len(), |i: int| license_finding_of(reported[i]))
}

/// The record that one license result stands for.
pub open spec fn license_record(result: LicenseResultView) -> ScanResultView {
    ScanResultView {
        file_path: result.file_path,
        licenses: license_findings_of(result.findings),
        copyrights: Seq::empty(),
        ecc_findings: Seq::empty(),
    }
}

/// The copyright findings that the reported statements stand for: those
/// that name a holder or a year.
pub open spec fn parsed_statements(reported: Seq<ReportedCopyrightView>) -> Seq<
    CopyrightFindingView,
>
    decreases reported.len(),
{
    if reported.len() == 0 {
        Seq::empty()
    } else {
        match parsed_statement(reported.last().content) {
            Some(c) => parsed_statements(reported.drop_last()).push(c),
            None => parsed_statements(reported.drop_last()),
        }
    }
}

/// The record that one copyright result stands for.
pub open spec fn copyright_record(result: CopyrightResultView) -> ScanResultView {
    ScanResultView {
        file_path: result.file_path,
        licenses: Seq::empty(),
        copyrights: parsed_statements(result.findings),
        ecc_findings: Seq::empty(),
    }
}

/// The records with the license results taken in, one after the other: each
/// file has one record, in the order in which the files first occur.
pub open spec fn with_licenses(records: Seq<ScanResultView>, results: Seq<LicenseResultView>) -> Seq<
    ScanResultView,
>
    decreases results.len(),
{
    if results.len() == 0 {
        records
    } else {
        absorbed(with_licenses(records, results.drop_last()), license_record(results.last()))
    }
}

/// The records with the copyright results taken in, one after the other:
/// the statements of a file go to the first record of that file, and a file
/// without a record gets one, after the others.
pub open spec fn with_copyrights(
    records: Seq<ScanResultView>,
    results: Seq<CopyrightResultView>,
) -> Seq<ScanResultView>
    decreases results.len(),
{
    if results.len() == 0 {
        records
    } else {
        absorbed(with_copyrights(records, results.drop_last()), copyright_record(results.last()))
    }
}

fn record_of_licenses(result: LicenseResult) -> (record: ScanResult)
    ensures
        record@ == license_record(result@),
{
    let LicenseResult { file_path, findings } = result;
    let mut licenses: Vec<LicenseFinding> = Vec::new();
    let ghost all = findings.deep_view();
    let ghost items = findings@;
    for finding in it: findings
        invariant
            it.seq() == items,
            all.len() == items.len(),
            forall|k: int| 0 <= k < items.len() ==> all[k] == #[trigger] items[k]@,
            licenses.deep_view() =~= license_findings_of(all).take(it.index() as int),
    {
        let ghost before = licenses.deep_view();
        let spdx_id = match finding.spdx_id {
            Some(id) => Some(id),
            None => map_to_spdx(finding.license.as_str()),
        };
        let converted = LicenseFinding {
            name: finding.license,
            spdx_id,
            confidence: finding.match_percentage,
        };
        assert(converted@ == license_finding_of(finding@));
        licenses.push(converted);
        assert(licenses.deep_view() =~= before.push(converted@));
    }
    assert(license_findings_of(all).take(all.len() as int) =~= license_findings_of(all));
    let copyrights: Vec<CopyrightFinding> = Vec::new();
    let ecc_findings: Vec<crate::scanner::traits::EccFinding> = Vec::new();
    assert(copyrights.deep_view() =~= Seq::empty());
    assert(ecc_findings.deep_view() =~= Seq::empty());
    ScanResult { file_path, licenses, copyrights, ecc_findings }
}

fn record_of_copyrights(result: CopyrightResult) -> (record: ScanResult)
    ensures
        record@ == copyright_record(result@),
{
    let CopyrightResult { file_path, findings } = result;
    let mut copyrights: Vec<CopyrightFinding> = Vec::new();
    let ghost all = findings.deep_view();
    let ghost items = findings@;
    assert(all.take(0) =~= Seq::<ReportedCopyrightView>::empty());
    assert(copyrights.deep_view() =~= Seq::<CopyrightFindingView>::empty());
    for finding in it: findings
        invariant
            it.seq() == items,
            all.len() == items.len(),
            forall|k: int| 0 <= k < items.len() ==> all[k] == #[trigger] items[k]@,
            copyrights.deep_view() == parsed_statements(all.take(it.index() as int)),
    {
        let ghost done = it.index() as int;
        assert(all.take(done + 1).drop_last() == all.take(done));
        assert(all.take(done + 1).last() == finding@);
        match parse_copyright_statement(finding.content.as_str()) {
            Some(c) => {
                let ghost before = copyrights.deep_view();
                copyrights.push(c);
                assert(copyrights.deep_view() =~= before.push(c@));
            },
            None => {},
        }
    }
    assert(all.take(all.len() as int) == all);
    let licenses: Vec<LicenseFinding> = Vec::new();
    let ecc_findings: Vec<crate::scanner::traits::EccFinding> = Vec::new();
    assert(licenses.deep_view() =~= Seq::empty());
    assert(ecc_findings.deep_view() =~= Seq::empty());
    ScanResult { file_path, licenses, copyrights, ecc_findings }
}

/// Parse Fossology license results into standardized format: one record for
/// each file, in the order in which the files first occur.
pub fn parse_license_results(results: Vec<LicenseResult>) -> (records: Vec<ScanResult>)
    ensures
        records.deep_view() == with_licenses(Seq::empty(), results.deep_view()),
{
    let mut records: Vec<ScanResult> = Vec::new();
    let ghost all = results.deep_view();
    let ghost items = results@;
    assert(all.take(0) =~= Seq::<LicenseResultView>::empty());
    assert(records.deep_view() =~= Seq::<ScanResultView>::empty());
    for result in it: results
        invariant
            it.seq() == items,
            all.len() == items.len(),
            forall|k: int| 0 <= k < items.len() ==> all[k] == #[trigger] items[k]@,
            records.deep_view() == with_licenses(Seq::empty(), all.take(it.index() as int)),
    {
        let ghost done = it.index() as int;
        assert(all.take(done + 1).drop_last() == all.take(done));
        assert(all.take(done + 1).last() == result@);
        absorb(&mut records, record_of_licenses(result));
    }
    assert(all.take(all.len() as int) == all);
    records
}

/// Parse Fossology copyright results and merge with existing scan results.
pub fn merge_copyright_results(
    scan_results: Vec<ScanResult>,
    copyright_results: Vec<CopyrightResult>,
) -> (records: Vec<ScanResult>)
    ensures
        records.deep_view() == with_copyrights(
            scan_results.deep_view(),
            copyright_results.deep_view(),
        ),
{
    let mut records = scan_results;
    let ghost start = records.deep_view();
    let ghost all = copyright_results.deep_view();
    let ghost items = copyright_results@;
    assert(all.take(0) =~= Seq::<CopyrightResultView>::empty());
    for result in it: copyright_results
        invariant
            it.seq() == items,
            all.len() == items.len(),
            forall|k: int| 0 <= k < items.len() ==> all[k] == #[trigger] items[k]@,
            records.deep_view() == with_copyrights(start, all.take(it.index() as int)),
    {
        let ghost done = it.index() as int;
        assert(all.take(done + 1).drop_last() == all.take(done));
        assert(all.take(done + 1).last() == result@);
        absorb(&mut records, record_of_copyrights(result));
    }
    assert(all.take(all.len() as int) == all);
    records
}

} // verus!
