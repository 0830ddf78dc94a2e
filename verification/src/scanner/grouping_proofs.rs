//! What holds of findings that are grouped by file.
use vstd::prelude::*;
use crate::scanner::fossology::client::{CopyrightResultView, LicenseResultView};
use crate::scanner::fossology::parser::{
    copyright_record, license_record, with_copyrights, with_licenses,
};
use crate::scanner::semgrep::parser::{record_of, records_of, SemgrepResultView};
use crate::scanner::traits::{absorbed, first_index_of, ScanResultView};

verus! {

/// No two records are for the same file.
pub open spec fn one_record_for_each_file(records: Seq<ScanResultView>) -> bool {
    forall|i: int, j: int|
        0 <= i < records.len() && 0 <= j < records.len() && i != j ==> records[i].file_path
            != records[j].file_path
}

/// Some record is for the file.
pub open spec fn has_file(records: Seq<ScanResultView>, path: Seq<char>) -> bool {
    exists|i: int| 0 <= i < records.len() && records[i].file_path == path
}

/// An index that `first_index_of` reports holds the path, and no index
/// before it does; it reports none exactly if no index from `from` on holds
/// the path.
pub proof fn first_index_of_finds(records: Seq<ScanResultView>, from: int, path: Seq<char>)
    requires
        0 <= from,
    ensures
        match first_index_of(records, from, path) {
            Some(i) => from <= i < records.len() && records[i].file_path == path && forall|k: int|
                from <= k < i ==> records[k].file_path != path,
            None => forall|k: int| from <= k < records.len() ==> records[k].file_path != path,
        },
    decreases records.len() - from,
{
    if from < records.len() && records[from].file_path != path {
        first_index_of_finds(records, from + 1, path);
    }
}

/// Taking a record in changes no file path that is there, adds the
/// record's file if it was not there, and adds nothing else.
pub proof fn absorbed_keeps_files(records: Seq<ScanResultView>, item: ScanResultView)
    ensures
        absorbed(records, item).len() == if has_file(records, item.file_path) {
            records.len()
        } else {
            records.len() + 1
        },
        forall|i: int|
            0 <= i < records.len() ==> (#[trigger] absorbed(records, item)[i]).file_path
                == records[i].file_path,
        has_file(absorbed(records, item), item.file_path),
        !has_file(records, item.file_path) ==> absorbed(records, item).last().file_path
            == item.file_path,
        one_record_for_each_file(records) ==> one_record_for_each_file(absorbed(records, item)),
{
    first_index_of_finds(records, 0, item.file_path);
    let after = absorbed(records, item);
    match first_index_of(records, 0, item.file_path) {
        Some(i) => {
            assert(records[i].file_path == item.file_path);
            assert(after[i].file_path == item.file_path);
        },
        None => {
            assert(after[records.len() as int].file_path == item.file_path);
        },
    }
}

/// The license results grouped by file hold one record for each file.
pub proof fn licenses_are_grouped_by_file(results: Seq<LicenseResultView>)
    ensures
        one_record_for_each_file(with_licenses(Seq::empty(), results)),
    decreases results.len(),
{
    if results.len() > 0 {
        licenses_are_grouped_by_file(results.drop_last());
        absorbed_keeps_files(
            with_licenses(Seq::empty(), results.drop_last()),
            license_record(results.last()),
        );
    }
}

/// Taking copyright results in keeps one record for each file, keeps every
/// record that was there in its place, and changes no license.
pub proof fn copyrights_keep_the_grouping(
    records: Seq<ScanResultView>,
    results: Seq<CopyrightResultView>,
)
    ensures
        with_copyrights(records, results).len() >= records.len(),
        forall|i: int|
            0 <= i < records.len() ==> {
                &&& (#[trigger] with_copyrights(records, results)[i]).file_path
                    == records[i].file_path
                &&& with_copyrights(records, results)[i].licenses == records[i].licenses
                &&& with_copyrights(records, results)[i].ecc_findings == records[i].ecc_findings
            },
        one_record_for_each_file(records) ==> one_record_for_each_file(
            with_copyrights(records, results),
        ),
    decreases results.len(),
{
    if results.len() > 0 {
        let before = with_copyrights(records, results.drop_last());
        let item = copyright_record(results.last());
        copyrights_keep_the_grouping(records, results.drop_last());
        absorbed_keeps_files(before, item);
        first_index_of_finds(before, 0, item.file_path);
        let after = absorbed(before, item);
        assert forall|i: int| 0 <= i < records.len() implies {
            &&& (#[trigger] after[i]).file_path == records[i].file_path
            &&& after[i].licenses == records[i].licenses
            &&& after[i].ecc_findings == records[i].ecc_findings
        } by {
            assert(after[i].licenses =~= before[i].licenses);
            assert(after[i].ecc_findings =~= before[i].ecc_findings);
        }
    }
}

/// The pattern analyzer's matches grouped by file hold one record for each
/// file, and none of them holds a license or a copyright.
pub proof fn matches_are_grouped_by_file(results: Seq<SemgrepResultView>)
    ensures
        one_record_for_each_file(records_of(results)),
        forall|i: int|
            0 <= i < records_of(results).len() ==> {
                &&& (#[trigger] records_of(results)[i]).licenses.len() == 0
                &&& records_of(results)[i].copyrights.len() == 0
            },
    decreases results.len(),
{
    if results.len() > 0 {
        let before = records_of(results.drop_last());
        let item = record_of(results.last());
        matches_are_grouped_by_file(results.drop_last());
        absorbed_keeps_files(before, item);
        first_index_of_finds(before, 0, item.file_path);
    }
}

} // verus!
