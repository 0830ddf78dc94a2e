//! What holds of every merge of two analyzers' results.
use vstd::prelude::*;
use crate::api::handlers::scan_job::{last_index_of, merge_one, merged};
use crate::scanner::traits::ScanResultView;

verus! {

/// An index that `last_index_of` reports lies below the limit and holds the path.
pub proof fn last_index_of_finds(records: Seq<ScanResultView>, limit: int, path: Seq<char>)
    requires
        0 <= limit <= records.len(),
    ensures
        match last_index_of(records, limit, path) {
            Some(i) => 0 <= i < limit && records[i].file_path == path,
            None => forall|i: int| 0 <= i < limit ==> records[i].file_path != path,
        },
    decreases limit,
{
    if limit > 0 && records[limit - 1].file_path != path {
        last_index_of_finds(records, limit - 1, path);
    }
}

/// `last_index_of` reads nothing but the file paths below the limit.
pub proof fn last_index_of_reads_paths(
    first: Seq<ScanResultView>,
    second: Seq<ScanResultView>,
    limit: int,
    path: Seq<char>,
)
    requires
        0 <= limit <= first.len(),
        limit <= second.len(),
        forall|i: int| 0 <= i < limit ==> first[i].file_path == second[i].file_path,
    ensures
        last_index_of(first, limit, path) == last_index_of(second, limit, path),
    decreases limit,
{
    if limit > 0 && first[limit - 1].file_path != path {
        last_index_of_reads_paths(first, second, limit - 1, path);
    }
}

/// The file paths of the secondary records whose file the primary analyzer
/// does not have, in their order.
pub open spec fn unmatched_paths(a: Seq<ScanResultView>, b: Seq<ScanResultView>) -> Seq<Seq<char>>
    decreases b.len(),
{
    if b.len() == 0 {
        Seq::empty()
    } else if last_index_of(a, a.len() as int, b.last().file_path) is None {
        unmatched_paths(a, b.drop_last()).push(b.last().file_path)
    } else {
        unmatched_paths(a, b.drop_last())
    }
}

/// Merging with no secondary records leaves the primary records unchanged.
pub proof fn merge_with_nothing(a: Seq<ScanResultView>)
    ensures
        merged(a, Seq::empty()) == a,
{
}

/// A merge keeps every primary record in its place, with its file path, its
/// license findings and its copyright findings unchanged and its
/// control-flag findings extended at the end. After the primary records
/// stand exactly the files that only the secondary analyzer has, each with
/// control-flag findings only.
pub proof fn merge_keeps_primary_and_adds_the_rest(a: Seq<ScanResultView>, b: Seq<ScanResultView>)
    ensures
        merged(a, b).len() == a.len() + unmatched_paths(a, b).len(),
        forall|i: int|
            0 <= i < a.len() ==> {
                &&& (#[trigger] merged(a, b)[i]).file_path == a[i].file_path
                &&& merged(a, b)[i].licenses == a[i].licenses
                &&& merged(a, b)[i].copyrights == a[i].copyrights
                &&& a[i].ecc_findings.is_prefix_of(merged(a, b)[i].ecc_findings)
            },
        forall|j: int|
            0 <= j < unmatched_paths(a, b).len() ==> {
                &&& (#[trigger] merged(a, b)[a.len() + j]).file_path == unmatched_paths(a, b)[j]
                &&& merged(a, b)[a.len() + j].licenses.len() == 0
                &&& merged(a, b)[a.len() + j].copyrights.len() == 0
            },
    decreases b.len(),
{
    if b.len() == 0 {
        assert forall|i: int| 0 <= i < a.len() implies a[i].ecc_findings.is_prefix_of(
            a[i].ecc_findings,
        ) by {
            assert(a[i].ecc_findings.subrange(0, a[i].ecc_findings.len() as int)
                =~= a[i].ecc_findings);
        }
    } else {
        let init = b.drop_last();
        let last = b.last();
        let before = merged(a, init);
        merge_keeps_primary_and_adds_the_rest(a, init);
        last_index_of_reads_paths(before, a, a.len() as int, last.file_path);
        last_index_of_finds(a, a.len() as int, last.file_path);
        let after = merge_one(before, a.len() as int, last);
        assert(after == merged(a, b));
        match last_index_of(a, a.len() as int, last.file_path) {
            Some(k) => {
                assert forall|i: int| 0 <= i < a.len() implies a[i].ecc_findings.is_prefix_of(
                    (#[trigger] after[i]).ecc_findings,
                ) by {
                    if i == k {
                        let grown = before[k].ecc_findings + last.ecc_findings;
                        assert(grown.subrange(0, a[k].ecc_findings.len() as int)
                            =~= before[k].ecc_findings.subrange(
                            0,
                            a[k].ecc_findings.len() as int,
                        ));
                    }
                }
            },
            None => {},
        }
    }
}

/// The number of control-flag findings in the records.
pub open spec fn flag_count(records: Seq<ScanResultView>) -> nat
    decreases records.len(),
{
    if records.len() == 0 {
        0
    } else {
        flag_count(records.drop_last()) + records.last().ecc_findings.len()
    }
}

proof fn flag_count_of_update(records: Seq<ScanResultView>, i: int, record: ScanResultView)
    requires
        0 <= i < records.len(),
    ensures
        flag_count(records.update(i, record)) + records[i].ecc_findings.len() == flag_count(
            records,
        ) + record.ecc_findings.len(),
    decreases records.len(),
{
    let updated = records.update(i, record);
    if i == records.len() - 1 {
        assert(updated.drop_last() == records.drop_last());
    } else {
        flag_count_of_update(records.drop_last(), i, record);
        assert(updated.drop_last() == records.drop_last().update(i, record));
    }
}

/// Nothing is deduplicated and nothing is lost: after a merge the records
/// hold as many control-flag findings as both analyzers have brought.
pub proof fn merge_keeps_every_flag(a: Seq<ScanResultView>, b: Seq<ScanResultView>)
    ensures
        flag_count(merged(a, b)) == flag_count(a) + flag_count(b),
    decreases b.len(),
{
    if b.len() > 0 {
        let before = merged(a, b.drop_last());
        let last = b.last();
        merge_keeps_every_flag(a, b.drop_last());
        merge_keeps_primary_and_adds_the_rest(a, b.drop_last());
        last_index_of_finds(before, a.len() as int, last.file_path);
        match last_index_of(before, a.len() as int, last.file_path) {
            Some(i) => {
                flag_count_of_update(
                    before,
                    i,
                    ScanResultView {
                        ecc_findings: before[i].ecc_findings + last.ecc_findings,
                        ..before[i]
                    },
                );
            },
            None => {
                let added = ScanResultView {
                    file_path: last.file_path,
                    licenses: Seq::empty(),
                    copyrights: Seq::empty(),
                    ecc_findings: last.ecc_findings,
                };
                assert(before.push(added).drop_last() == before);
            },
        }
    }
}

} // verus!
