//! An SPDX 2.3 document for a scan: one package, one file entry for each
//! file with findings, and a `CONTAINS` relationship for each file.
use vstd::prelude::*;
use crate::db::models::scan::{Scan, ScanView};
use crate::db::models::scan_result::{ScanResult, ScanResultView};
use crate::error::AppError;
use crate::text::{
    decimal, distinct, join_texts, joined_texts, last_segment, push_decimal, push_distinct,
    push_signed_decimal, push_text, segment_after_last, signed_decimal, strip_trailing,
    stripped_end, text_eq,
};

verus! {

/// SPDX 2.3 Document.
pub struct SpdxDocument {
    pub spdx_version: String,
    pub data_license: String,
    pub spdxid: String,
    pub name: String,
    pub document_namespace: String,
    pub creation_info: CreationInfo,
    pub packages: Vec<Package>,
    pub files: Vec<File>,
    pub relationships: Vec<Relationship>,
}

/// When and by what the document was made.
pub struct CreationInfo {
    pub created: String,
    pub creators: Vec<String>,
    pub license_list_version: Option<String>,
}

/// The scanned repository as a package.
pub struct Package {
    pub spdxid: String,
    pub name: String,
    pub download_location: String,
    pub files_analyzed: bool,
    pub license_concluded: String,
    pub license_declared: String,
    pub copyright_text: String,
    pub summary: Option<String>,
}

/// One file with its findings.
pub struct File {
    pub spdxid: String,
    pub file_name: String,
    pub license_concluded: String,
    pub license_info_in_files: Vec<String>,
    pub copyright_text: String,
    pub comment: Option<String>,
}

/// A relationship between two elements of the document.
pub struct Relationship {
    pub spdx_element_id: String,
    pub relationship_type: String,
    pub related_spdx_element: String,
}

/// Mathematical value of a [`CreationInfo`].
pub struct CreationInfoView {
    pub created: Seq<char>,
    pub creators: Seq<Seq<char>>,
    pub license_list_version: Option<Seq<char>>,
}

/// Mathematical value of a [`Package`].
pub struct PackageView {
    pub spdxid: Seq<char>,
    pub name: Seq<char>,
    pub download_location: Seq<char>,
    pub files_analyzed: bool,
    pub license_concluded: Seq<char>,
    pub license_declared: Seq<char>,
    pub copyright_text: Seq<char>,
    pub summary: Option<Seq<char>>,
}

/// Mathematical value of a [`File`].
pub struct FileView {
    pub spdxid: Seq<char>,
    pub file_name: Seq<char>,
    pub license_concluded: Seq<char>,
    pub license_info_in_files: Seq<Seq<char>>,
    pub copyright_text: Seq<char>,
    pub comment: Option<Seq<char>>,
}

/// Mathematical value of a [`Relationship`].
pub struct RelationshipView {
    pub spdx_element_id: Seq<char>,
    pub relationship_type: Seq<char>,
    pub related_spdx_element: Seq<char>,
}

/// Mathematical value of an [`SpdxDocument`].
pub struct SpdxDocumentView {
    pub spdx_version: Seq<char>,
    pub data_license: Seq<char>,
    pub spdxid: Seq<char>,
    pub name: Seq<char>,
    pub document_namespace: Seq<char>,
    pub creation_info: CreationInfoView,
    pub packages: Seq<PackageView>,
    pub files: Seq<FileView>,
    pub relationships: Seq<RelationshipView>,
}

impl View for CreationInfo {
    type V = CreationInfoView;

    open spec fn view(&self) -> CreationInfoView {
        CreationInfoView {
            created: self.created@,
            creators: self.creators.deep_view(),
            license_list_version: self.license_list_version.deep_view(),
        }
    }
}

impl View for Package {
    type V = PackageView;

    open spec fn view(&self) -> PackageView {
        PackageView {
            spdxid: self.spdxid@,
            name: self.name@,
            download_location: self.download_location@,
            files_analyzed: self.files_analyzed,
            license_concluded: self.license_concluded@,
            license_declared: self.license_declared@,
            copyright_text: self.copyright_text@,
            summary: self.summary.deep_view(),
        }
    }
}

impl DeepView for Package {
    type V = PackageView;

    open spec fn deep_view(&self) -> PackageView {
        self@
    }
}

impl View for File {
    type V = FileView;

    open spec fn view(&self) -> FileView {
        FileView {
            spdxid: self.spdxid@,
            file_name: self.file_name@,
            license_concluded: self.license_concluded@,
            license_info_in_files: self.license_info_in_files.deep_view(),
            copyright_text: self.copyright_text@,
            comment: self.comment.deep_view(),
        }
    }
}

impl DeepView for File {
    type V = FileView;

    open spec fn deep_view(&self) -> FileView {
        self@
    }
}

impl View for Relationship {
    type V = RelationshipView;

    open spec fn view(&self) -> RelationshipView {
        RelationshipView {
            spdx_element_id: self.spdx_element_id@,
            relationship_type: self.relationship_type@,
            related_spdx_element: self.related_spdx_element@,
        }
    }
}

impl DeepView for Relationship {
    type V = RelationshipView;

    open spec fn deep_view(&self) -> RelationshipView {
        self@
    }
}

impl View for SpdxDocument {
    type V = SpdxDocumentView;

    open spec fn view(&self) -> SpdxDocumentView {
        SpdxDocumentView {
            spdx_version: self.spdx_version@,
            data_license: self.data_license@,
            spdxid: self.spdxid@,
            name: self.name@,
            document_namespace: self.document_namespace@,
            creation_info: self.creation_info@,
            packages: self.packages.deep_view(),
            files: self.files.deep_view(),
            relationships: self.relationships.deep_view(),
        }
    }
}

/// What a part of the document reads off a finding.
#[derive(Clone, Copy, PartialEq, Eq, Structural)]
pub enum Column {
    /// The file of any finding.
    FilePath,
    /// Of a license finding: its standard identifier, or failing that its name.
    License,
    /// Of a copyright finding: its statement.
    Copyright,
    /// Of a control-flag finding: a note of its origin, severity and line.
    Ecc,
}

/// The note for a control-flag finding.
pub open spec fn ecc_note(f: ScanResultView) -> Seq<char> {
    "ECC: "@ + (match f.ecc_source {
        Some(s) => s,
        None => "Unknown"@,
    }) + " (Severity: "@ + (match f.risk_severity {
        Some(s) => s,
        None => "unknown"@,
    }) + ", Line: "@ + signed_decimal(
        match f.ecc_line_number {
            Some(n) => n,
            None => 0,
        },
    ) + ")"@
}

/// What `column` reads off the finding `f`; with a file given, only off a
/// finding of that file.
pub open spec fn cell(column: Column, file: Option<Seq<char>>, f: ScanResultView) -> Option<
    Seq<char>,
> {
    if file is Some && file != Some(f.file_path) {
        None
    } else {
        match column {
            Column::FilePath => Some(f.file_path),
            Column::License => if f.result_type == "license"@ {
                match f.license_spdx_id {
                    Some(id) => Some(id),
                    None => f.license_name,
                }
            } else {
                None
            },
            Column::Copyright => if f.result_type == "copyright"@ {
                f.copyright_statement
            } else {
                None
            },
            Column::Ecc => if f.result_type == "ecc"@ {
                Some(ecc_note(f))
            } else {
                None
            },
        }
    }
}

/// What `column` reads off the findings, in their order.
pub open spec fn cells(
    results: Seq<ScanResultView>,
    column: Column,
    file: Option<Seq<char>>,
) -> Seq<Seq<char>>
    decreases results.len(),
{
    if results.len() == 0 {
        Seq::empty()
    } else {
        match cell(column, file, results.last()) {
            Some(t) => cells(results.drop_last(), column, file).push(t),
            None => cells(results.drop_last(), column, file),
        }
    }
}

/// The number of findings of a kind.
pub open spec fn count_of_kind(results: Seq<ScanResultView>, kind: Seq<char>) -> nat
    decreases results.len(),
{
    if results.len() == 0 {
        0
    } else if results.last().result_type == kind {
        count_of_kind(results.drop_last(), kind) + 1
    } else {
        count_of_kind(results.drop_last(), kind)
    }
}

fn read_cell(column: Column, file: Option<&String>, f: &ScanResult) -> (r: Option<String>)
    ensures
        r.deep_view() == cell(column, file.deep_view(), f@),
{
    match file {
        Some(p) => {
            if !(f.file_path == *p) {
                return None;
            }
        },
        None => {},
    }
    match column {
        Column::FilePath => Some(f.file_path.clone()),
        Column::License => {
            if text_eq(f.result_type.as_str(), "license") {
                match &f.license_spdx_id {
                    Some(id) => Some(id.clone()),
                    None => f.license_name.clone(),
                }
            } else {
                None
            }
        },
        Column::Copyright => {
            if text_eq(f.result_type.as_str(), "copyright") {
                f.copyright_statement.clone()
            } else {
                None
            }
        },
        Column::Ecc => {
            if text_eq(f.result_type.as_str(), "ecc") {
                let mut note = String::from_str("ECC: ");
                match &f.ecc_source {
                    Some(s) => push_text(&mut note, s.as_str()),
                    None => push_text(&mut note, "Unknown"),
                }
                push_text(&mut note, " (Severity: ");
                match &f.risk_severity {
                    Some(s) => push_text(&mut note, s.as_str()),
                    None => push_text(&mut note, "unknown"),
                }
                push_text(&mut note, ", Line: ");
                let line: i32 = match f.ecc_line_number {
                    Some(n) => n,
                    None => 0,
                };
                push_signed_decimal(&mut note, line as i64);
                push_text(&mut note, ")");
                Some(note)
            } else {
                None
            }
        },
    }
}

fn read_cells(results: &[ScanResult], column: Column, file: Option<&String>, unique: bool) -> (r:
    Vec<String>)
    ensures
        r.deep_view() == if unique {
            distinct(cells(results.deep_view(), column, file.deep_view()))
        } else {
            cells(results.deep_view(), column, file.deep_view())
        },
{
    let mut out: Vec<String> = Vec::new();
    let mut i: usize = 0;
    let ghost all = results.deep_view();
    assert(out.deep_view() =~= Seq::<Seq<char>>::empty());
    assert(all.take(0) =~= Seq::<ScanResultView>::empty());
    while i < results.len()
        invariant
            i <= results.len(),
            all == results.deep_view(),
            out.deep_view() == if unique {
                distinct(cells(all.take(i as int), column, file.deep_view()))
            } else {
                cells(all.take(i as int), column, file.deep_view())
            },
        decreases results.len() - i,
    {
        let ghost prefix = all.take(i as int);
        let ghost next = all.take(i + 1);
        assert(next.drop_last() == prefix);
        assert(next.last() == results[i as int]@);
        match read_cell(column, file, &results[i]) {
            Some(t) => {
                if unique {
                    assert(cells(next, column, file.deep_view()).drop_last() == cells(
                        prefix,
                        column,
                        file.deep_view(),
                    ));
                    push_distinct(&mut out, &t);
                } else {
                    let ghost before = out.deep_view();
                    out.push(t);
                    assert(out.deep_view() =~= before.push(t@));
                }
            },
            None => {},
        }
        i += 1;
    }
    assert(all.take(results.len() as int) == all);
    out
}

fn count_kind(results: &[ScanResult], kind: &str) -> (n: usize)
    ensures
        n == count_of_kind(results.deep_view(), kind@),
{
    let mut n: usize = 0;
    let mut i: usize = 0;
    let ghost all = results.deep_view();
    assert(all.take(0) =~= Seq::<ScanResultView>::empty());
    while i < results.len()
        invariant
            i <= results.len(),
            all == results.deep_view(),
            n == count_of_kind(all.take(i as int), kind@),
            n <= i,
        decreases results.len() - i,
    {
        assert(all.take(i + 1).drop_last() == all.take(i as int));
        assert(all.take(i + 1).last() == results[i as int]@);
        if text_eq(results[i].result_type.as_str(), kind) {
            n += 1;
        }
        i += 1;
    }
    assert(all.take(results.len() as int) == all);
    n
}

/// The name of a repository: the last segment of its locator, without a
/// trailing `.git`.
pub open spec fn repo_name_of(git_url: Seq<char>) -> Seq<char> {
    last_segment(stripped_end(git_url, ".git"@), '/')
}

/// The name of the repository that a locator points to.
pub fn extract_repo_name(git_url: &str) -> (name: String)
    ensures
        name@ == repo_name_of(git_url@),
{
    let stripped = strip_trailing(git_url, ".git");
    segment_after_last(stripped.as_str(), '/')
}

/// The license expression for a list of licenses: `NOASSERTION` for none,
/// the license itself for one, and for more all of them joined by `AND`
/// in brackets.
pub open spec fn license_expression(licenses: Seq<Seq<char>>) -> Seq<char> {
    if licenses.len() == 0 {
        "NOASSERTION"@
    } else if licenses.len() == 1 {
        licenses[0]
    } else {
        "("@ + joined_texts(licenses, " AND "@) + ")"@
    }
}

fn express_licenses(licenses: &Vec<String>) -> (r: String)
    ensures
        r@ == license_expression(licenses.deep_view()),
{
    if licenses.len() == 0 {
        String::from_str("NOASSERTION")
    } else if licenses.len() == 1 {
        licenses[0].clone()
    } else {
        let mut r = String::from_str("(");
        let joined = join_texts(licenses, " AND ");
        push_text(&mut r, joined.as_str());
        push_text(&mut r, ")");
        r
    }
}

/// A text, or `NOASSERTION` in place of an empty one.
pub open spec fn or_no_assertion(text: Seq<char>) -> Seq<char> {
    if text.len() == 0 {
        "NOASSERTION"@
    } else {
        text
    }
}

/// The identifier of the file entry with the given number.
pub open spec fn file_id(index: nat) -> Seq<char> {
    "SPDXRef-File-"@ + decimal(index)
}

/// The entry for one file: its licenses in the order of the findings, the
/// expression concluded from them, its copyright statements line by line,
/// and its control-flag findings as a comment.
pub open spec fn file_entry(results: Seq<ScanResultView>, path: Seq<char>, index: nat) -> FileView {
    let licenses = cells(results, Column::License, Some(path));
    let notes = cells(results, Column::Ecc, Some(path));
    FileView {
        spdxid: file_id(index),
        file_name: path,
        license_concluded: license_expression(licenses),
        license_info_in_files: if licenses.len() == 0 {
            seq!["NOASSERTION"@]
        } else {
            licenses
        },
        copyright_text: or_no_assertion(
            joined_texts(cells(results, Column::Copyright, Some(path)), "\n"@),
        ),
        comment: if notes.len() == 0 {
            None
        } else {
            Some(joined_texts(notes, "; "@))
        },
    }
}

/// The file entries of a document: one for each file with findings, in the
/// order in which the files first occur, numbered from 1.
pub open spec fn file_entries(results: Seq<ScanResultView>) -> Seq<FileView> {
    let paths = distinct(cells(results, Column::FilePath, None));
    Seq::new(paths.len(), |i: int| file_entry(results, paths[i], (i + 1) as nat))
}

fn build_file(results: &[ScanResult], file_path: &String, index: usize) -> (file: File)
    ensures
        file@ == file_entry(results.deep_view(), file_path@, index as nat),
{
    let mut spdxid = String::from_str("SPDXRef-File-");
    push_decimal(&mut spdxid, index as u64);
    let licenses = read_cells(results, Column::License, Some(file_path), false);
    let license_concluded = express_licenses(&licenses);
    let statements = read_cells(results, Column::Copyright, Some(file_path), false);
    let copyright_text = join_texts(&statements, "\n");
    let copyright = if copyright_text.as_str().unicode_len() == 0 {
        String::from_str("NOASSERTION")
    } else {
        copyright_text
    };
    let notes = read_cells(results, Column::Ecc, Some(file_path), false);
    let comment = if notes.len() > 0 {
        Some(join_texts(&notes, "; "))
    } else {
        None
    };
    let license_info_in_files = if licenses.len() == 0 {
        let mut v: Vec<String> = Vec::new();
        v.push(String::from_str("NOASSERTION"));
        assert(v.deep_view() =~= seq!["NOASSERTION"@]);
        v
    } else {
        licenses
    };
    File {
        spdxid,
        file_name: file_path.clone(),
        license_concluded,
        license_info_in_files,
        copyright_text: copyright,
        comment,
    }
}

fn build_files(results: &[ScanResult]) -> (files: Vec<File>)
    ensures
        files.deep_view() == file_entries(results.deep_view()),
{
    let paths = read_cells(results, Column::FilePath, None, true);
    let mut files: Vec<File> = Vec::new();
    let mut i: usize = 0;
    while i < paths.len()
        invariant
            i <= paths.len(),
            paths.deep_view() == distinct(cells(results.deep_view(), Column::FilePath, None)),
            files.deep_view() =~= file_entries(results.deep_view()).take(i as int),
        decreases paths.len() - i,
    {
        let ghost before = files.deep_view();
        let file = build_file(results, &paths[i], i + 1);
        files.push(file);
        assert(files.deep_view() =~= before.push(file@));
        i += 1;
    }
    files
}

/// The relationships of a document: the package contains each file.
pub open spec fn contains_relationships(files: Seq<FileView>) -> Seq<RelationshipView> {
    Seq::new(
        files.len(),
        |i: int|
            RelationshipView {
                spdx_element_id: "SPDXRef-Package"@,
                relationship_type: "CONTAINS"@,
                related_spdx_element: files[i].spdxid,
            },
    )
}

/// The relationships for the given file entries.
pub fn build_relationships(files: &[File]) -> (relationships: Vec<Relationship>)
    ensures
        relationships.deep_view() == contains_relationships(files.deep_view()),
{
    let mut relationships: Vec<Relationship> = Vec::new();
    let mut i: usize = 0;
    while i < files.len()
        invariant
            i <= files.len(),
            relationships.deep_view() =~= contains_relationships(files.deep_view()).take(i as int),
        decreases files.len() - i,
    {
        let ghost before = relationships.deep_view();
        let relationship = Relationship {
            spdx_element_id: String::from_str("SPDXRef-Package"),
            relationship_type: String::from_str("CONTAINS"),
            related_spdx_element: files[i].spdxid.clone(),
        };
        relationships.push(relationship);
        assert(relationships.deep_view() =~= before.push(relationship@));
        i += 1;
    }
    relationships
}

/// The summary of a package: how many findings of each kind there are.
pub open spec fn package_summary(results: Seq<ScanResultView>) -> Seq<char> {
    "Repository scanned for legal compliance. Found "@ + decimal(
        count_of_kind(results, "license"@),
    ) + " license findings, "@ + decimal(count_of_kind(results, "copyright"@))
        + " copyright statements, and "@ + decimal(count_of_kind(results, "ecc"@))
        + " security findings."@
}

/// The package of a document: the repository under its name, with the
/// expression of all its distinct licenses, concluded and declared, and all
/// its copyright statements line by line.
pub open spec fn package_entry(scan: ScanView, results: Seq<ScanResultView>) -> PackageView {
    let concluded = license_expression(distinct(cells(results, Column::License, None)));
    PackageView {
        spdxid: "SPDXRef-Package"@,
        name: repo_name_of(scan.git_url),
        download_location: scan.git_url,
        files_analyzed: true,
        license_concluded: concluded,
        license_declared: concluded,
        copyright_text: or_no_assertion(joined_texts(cells(results, Column::Copyright, None), "\n"@)),
        summary: Some(package_summary(results)),
    }
}

fn build_package(scan: &Scan, repo_name: &String, results: &[ScanResult]) -> (package: Package)
    requires
        repo_name@ == repo_name_of(scan@.git_url),
    ensures
        package@ == package_entry(scan@, results.deep_view()),
{
    let licenses = read_cells(results, Column::License, None, true);
    let concluded = express_licenses(&licenses);
    let statements = read_cells(results, Column::Copyright, None, false);
    let copyright_text = join_texts(&statements, "\n");
    let copyright = if copyright_text.as_str().unicode_len() == 0 {
        String::from_str("NOASSERTION")
    } else {
        copyright_text
    };
    let mut summary = String::from_str("Repository scanned for legal compliance. Found ");
    push_decimal(&mut summary, count_kind(results, "license") as u64);
    push_text(&mut summary, " license findings, ");
    push_decimal(&mut summary, count_kind(results, "copyright") as u64);
    push_text(&mut summary, " copyright statements, and ");
    push_decimal(&mut summary, count_kind(results, "ecc") as u64);
    push_text(&mut summary, " security findings.");
    Package {
        spdxid: String::from_str("SPDXRef-Package"),
        name: repo_name.clone(),
        download_location: scan.git_url.clone(),
        files_analyzed: true,
        license_concluded: concluded.clone(),
        license_declared: concluded,
        copyright_text: copyright,
        summary: Some(summary),
    }
}

/// The SPDX 2.3 document of a scan and its findings. It is dated by the
/// scan's completion, or by its creation where it has not completed.
pub open spec fn spdx_document(scan: ScanView, results: Seq<ScanResultView>) -> SpdxDocumentView {
    SpdxDocumentView {
        spdx_version: "SPDX-2.3"@,
        data_license: "CC0-1.0"@,
        spdxid: "SPDXRef-DOCUMENT"@,
        name: "Legal Scanner Report - "@ + repo_name_of(scan.git_url),
        document_namespace: "https://legalscanner.io/spdx/"@ + scan.id,
        creation_info: CreationInfoView {
            created: match scan.completed_at {
                Some(t) => t,
                None => scan.created_at,
            },
            creators: seq!["Tool: LegalScanner-1.0"@],
            license_list_version: Some("3.22"@),
        },
        packages: seq![package_entry(scan, results)],
        files: file_entries(results),
        relationships: contains_relationships(file_entries(results)),
    }
}

/// Build an SPDX 2.3 document from scan data. Every scan has a document.
pub fn build_spdx_document(scan: &Scan, results: &[ScanResult]) -> (r: Result<
    SpdxDocument,
    AppError,
>)
    ensures
        r is Ok,
        r->Ok_0@ == spdx_document(scan@, results.deep_view()),
{
    let repo_name = extract_repo_name(scan.git_url.as_str());
    let mut document_namespace = String::from_str("https://legalscanner.io/spdx/");
    push_text(&mut document_namespace, scan.id.as_str());
    let mut creators: Vec<String> = Vec::new();
    creators.push(String::from_str("Tool: LegalScanner-1.0"));
    assert(creators.deep_view() =~= seq!["Tool: LegalScanner-1.0"@]);
    let creation_info = CreationInfo {
        created: match &scan.completed_at {
            Some(t) => t.clone(),
            None => scan.created_at.clone(),
        },
        creators,
        license_list_version: Some(String::from_str("3.22")),
    };
    let package = build_package(scan, &repo_name, results);
    let files = build_files(results);
    let relationships = build_relationships(files.as_slice());
    let mut name = String::from_str("Legal Scanner Report - ");
    push_text(&mut name, repo_name.as_str());
    let mut packages: Vec<Package> = Vec::new();
    packages.push(package);
    assert(packages.deep_view() =~= seq![package@]);
    Ok(
        SpdxDocument {
            spdx_version: String::from_str("SPDX-2.3"),
            data_license: String::from_str("CC0-1.0"),
            spdxid: String::from_str("SPDXRef-DOCUMENT"),
            name,
            document_namespace,
            creation_info,
            packages,
            files,
            relationships,
        },
    )
}

} // verus!
