//! A persisted finding: one observation about one file of one scan.
use vstd::prelude::*;

verus! {

/// One finding. `result_type` tags its kind (`license`, `copyright` or `ecc`),
/// and only the fields of that kind are filled in. `confidence` is kept in
/// hundredths, so 0.5 is stored as 50.
pub struct ScanResult {
    pub id: i64,
    pub scan_id: String,
    pub file_path: String,
    pub result_type: String,
    pub license_name: Option<String>,
    pub license_spdx_id: Option<String>,
    pub copyright_statement: Option<String>,
    pub copyright_holders: Option<String>,
    pub copyright_years: Option<String>,
    pub confidence: Option<i32>,
    pub raw_data: Option<String>,
    pub risk_severity: Option<String>,
    pub ecc_source: Option<String>,
    pub ecc_line_number: Option<i32>,
    pub ecc_check_id: Option<String>,
}

/// Mathematical value of a [`ScanResult`].
pub struct ScanResultView {
    pub id: int,
    pub scan_id: Seq<char>,
    pub file_path: Seq<char>,
    pub result_type: Seq<char>,
    pub license_name: Option<Seq<char>>,
    pub license_spdx_id: Option<Seq<char>>,
    pub copyright_statement: Option<Seq<char>>,
    pub copyright_holders: Option<Seq<char>>,
    pub copyright_years: Option<Seq<char>>,
    pub confidence: Option<int>,
    pub raw_data: Option<Seq<char>>,
    pub risk_severity: Option<Seq<char>>,
    pub ecc_source: Option<Seq<char>>,
    pub ecc_line_number: Option<int>,
    pub ecc_check_id: Option<Seq<char>>,
}

/// The characters of an optional string.
pub open spec fn opt_text(s: Option<String>) -> Option<Seq<char>> {
    match s {
        Some(t) => Some(t@),
        None => None,
    }
}

/// The value of an optional 32-bit number.
pub open spec fn opt_int(n: Option<i32>) -> Option<int> {
    match n {
        Some(v) => Some(v as int),
        None => None,
    }
}

impl View for ScanResult {
    type V = ScanResultView;

    open spec fn view(&self) -> ScanResultView {
        ScanResultView {
            id: self.id as int,
            scan_id: self.scan_id@,
            file_path: self.file_path@,
            result_type: self.result_type@,
            license_name: opt_text(self.license_name),
            license_spdx_id: opt_text(self.license_spdx_id),
            copyright_statement: opt_text(self.copyright_statement),
            copyright_holders: opt_text(self.copyright_holders),
            copyright_years: opt_text(self.copyright_years),
            confidence: opt_int(self.confidence),
            raw_data: opt_text(self.raw_data),
            risk_severity: opt_text(self.risk_severity),
            ecc_source: opt_text(self.ecc_source),
            ecc_line_number: opt_int(self.ecc_line_number),
            ecc_check_id: opt_text(self.ecc_check_id),
        }
    }
}

impl DeepView for ScanResult {
    type V = ScanResultView;

    open spec fn deep_view(&self) -> ScanResultView {
        self@
    }
}

/// The JSON text of an array of strings, as `serde_json` writes it.
pub uninterp spec fn json_text_array(items: Seq<Seq<char>>) -> Seq<char>;

/// `serde_json::to_string`, on a list of strings. Taken on trust: the
/// result is the JSON array of the strings, which depends on the strings
/// alone; the empty text stands for a failure to write it.
#[verifier::external_body]
fn to_json_array(items: &Vec<String>) -> (r: String)
    ensures
        r@ == json_text_array(items.deep_view()),
{
    serde_json::to_string(items).unwrap_or_default()
}

/// The strings of a JSON array of strings, as `serde_json` reads it; `None`
/// for a text that is no such array.
pub uninterp spec fn json_array_texts(text: Seq<char>) -> Option<Seq<Seq<char>>>;

/// `serde_json::from_str`, for a list of strings. Taken on trust: the
/// result holds the strings of the JSON array that the text is, or nothing
/// where the text is no JSON array of strings; it depends on the text alone.
#[verifier::external_body]
fn from_json_array(text: &str) -> (r: Option<Vec<String>>)
    ensures
        r.deep_view() == json_array_texts(text@),
{
    serde_json::from_str::<Vec<String>>(text).ok()
}

/// The strings that a stored list stands for: those of the JSON array, and
/// none where nothing is stored or what is stored is no such array.
pub open spec fn stored_texts(stored: Option<Seq<char>>) -> Seq<Seq<char>> {
    match stored {
        Some(text) => match json_array_texts(text) {
            Some(items) => items,
            None => Seq::empty(),
        },
        None => Seq::empty(),
    }
}

/// The strings that a stored list stands for.
pub fn read_stored_texts(stored: &Option<String>) -> (items: Vec<String>)
    ensures
        items.deep_view() == stored_texts(opt_text(*stored)),
{
    let found = match stored {
        Some(text) => from_json_array(text.as_str()),
        None => None,
    };
    match found {
        Some(items) => items,
        None => {
            let items: Vec<String> = Vec::new();
            assert(items.deep_view() =~= Seq::<Seq<char>>::empty());
            items
        },
    }
}

/// A finding of the given kind for a file of a scan, with nothing else
/// filled in. The store gives a finding its identity; until then it is 0.
pub open spec fn blank_finding(
    scan_id: Seq<char>,
    file_path: Seq<char>,
    result_type: Seq<char>,
) -> ScanResultView {
    ScanResultView {
        id: 0,
        scan_id,
        file_path,
        result_type,
        license_name: None,
        license_spdx_id: None,
        copyright_statement: None,
        copyright_holders: None,
        copyright_years: None,
        confidence: None,
        raw_data: None,
        risk_severity: None,
        ecc_source: None,
        ecc_line_number: None,
        ecc_check_id: None,
    }
}

/// The license finding to be stored.
pub open spec fn license_finding(
    scan_id: Seq<char>,
    file_path: Seq<char>,
    license_name: Seq<char>,
    license_spdx_id: Option<Seq<char>>,
    confidence: int,
) -> ScanResultView {
    ScanResultView {
        license_name: Some(license_name),
        license_spdx_id,
        confidence: Some(confidence),
        ..blank_finding(scan_id, file_path, "license"@)
    }
}

/// The copyright finding to be stored; holders and years are kept as JSON
/// arrays.
pub open spec fn copyright_finding(
    scan_id: Seq<char>,
    file_path: Seq<char>,
    statement: Seq<char>,
    holders: Seq<Seq<char>>,
    years: Seq<Seq<char>>,
) -> ScanResultView {
    ScanResultView {
        copyright_statement: Some(statement),
        copyright_holders: Some(json_text_array(holders)),
        copyright_years: Some(json_text_array(years)),
        ..blank_finding(scan_id, file_path, "copyright"@)
    }
}

/// The control-flag finding to be stored; its content is kept as the raw
/// data.
pub open spec fn ecc_finding(
    scan_id: Seq<char>,
    file_path: Seq<char>,
    content: Seq<char>,
    risk_severity: Seq<char>,
    source: Option<Seq<char>>,
    line_number: Option<int>,
    check_id: Option<Seq<char>>,
) -> ScanResultView {
    ScanResultView {
        raw_data: Some(content),
        risk_severity: Some(risk_severity),
        ecc_source: source,
        ecc_line_number: line_number,
        ecc_check_id: check_id,
        ..blank_finding(scan_id, file_path, "ecc"@)
    }
}

fn optional(text: Option<&str>) -> (r: Option<String>)
    ensures
        opt_text(r) == text.deep_view(),
{
    match text {
        Some(t) => Some(String::from_str(t)),
        None => None,
    }
}

impl ScanResult {
    fn blank(scan_id: &str, file_path: &str, result_type: &str) -> (r: ScanResult)
        ensures
            r@ == blank_finding(scan_id@, file_path@, result_type@),
    {
        ScanResult {
            id: 0,
            scan_id: String::from_str(scan_id),
            file_path: String::from_str(file_path),
            result_type: String::from_str(result_type),
            license_name: None,
            license_spdx_id: None,
            copyright_statement: None,
            copyright_holders: None,
            copyright_years: None,
            confidence: None,
            raw_data: None,
            risk_severity: None,
            ecc_source: None,
            ecc_line_number: None,
            ecc_check_id: None,
        }
    }

    /// The finding for a detected license.
    pub fn create_license(
        scan_id: &str,
        file_path: &str,
        license_name: &str,
        license_spdx_id: Option<&str>,
        confidence: i32,
    ) -> (r: ScanResult)
        ensures
            r@ == license_finding(
                scan_id@,
                file_path@,
                license_name@,
                license_spdx_id.deep_view(),
                confidence as int,
            ),
    {
        let mut r = ScanResult::blank(scan_id, file_path, "license");
        r.license_name = Some(String::from_str(license_name));
        r.license_spdx_id = optional(license_spdx_id);
        r.confidence = Some(confidence);
        r
    }

    /// The finding for a copyright statement.
    pub fn create_copyright(
        scan_id: &str,
        file_path: &str,
        copyright_statement: &str,
        copyright_holders: &Vec<String>,
        copyright_years: &Vec<String>,
    ) -> (r: ScanResult)
        ensures
            r@ == copyright_finding(
                scan_id@,
                file_path@,
                copyright_statement@,
                copyright_holders.deep_view(),
                copyright_years.deep_view(),
            ),
    {
        let mut r = ScanResult::blank(scan_id, file_path, "copyright");
        r.copyright_statement = Some(String::from_str(copyright_statement));
        r.copyright_holders = Some(to_json_array(copyright_holders));
        r.copyright_years = Some(to_json_array(copyright_years));
        r
    }

    /// The finding for a control flag.
    pub fn create_ecc(
        scan_id: &str,
        file_path: &str,
        content: &str,
        risk_severity: &str,
        source: Option<&str>,
        line_number: Option<i32>,
        check_id: Option<&str>,
    ) -> (r: ScanResult)
        ensures
            r@ == ecc_finding(
                scan_id@,
                file_path@,
                content@,
                risk_severity@,
                source.deep_view(),
                opt_int(line_number),
                check_id.deep_view(),
            ),
    {
        let mut r = ScanResult::blank(scan_id, file_path, "ecc");
        r.raw_data = Some(String::from_str(content));
        r.risk_severity = Some(String::from_str(risk_severity));
        r.ecc_source = optional(source);
        r.ecc_line_number = line_number;
        r.ecc_check_id = optional(check_id);
        r
    }
}

} // verus!
