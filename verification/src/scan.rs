//! Finding the environments that a walk came across.
//!
//! An environment is a directory named [`MARKER`](crate::walk::MARKER). A
//! search that descends reports every such directory except those that lie
//! inside another one; a search that does not descend looks only at what lies
//! directly in the directory the walk started from.

use vstd::prelude::*;
use crate::timestamp::Timestamp;
use crate::venv_info::{VenvInfo, VenvRecord};
use crate::walk::{depth_of, end_of, file_bytes, is_marker_dir, is_marker_directory, item_depth,
    lemma_subtree_end, lemma_subtree_end_bound, measure_subtree, saturated, Measure, WalkItem};

verus! {

/// True when the report at `inner` lies below the marked directory at `outer`.
pub open spec fn covers(items: Seq<WalkItem>, outer: int, inner: int) -> bool {
    0 <= outer < inner && is_marker_dir(items[outer]) && inner < end_of(items, outer)
}

/// True when the report at `i` lies below some marked directory.
pub open spec fn covered(items: Seq<WalkItem>, i: int) -> bool {
    exists|outer: int| #[trigger] covers(items, outer, i)
}

/// True when the report at `i` is an environment that a descending search
/// reports: a marked directory that does not lie below another.
pub open spec fn is_managed(items: Seq<WalkItem>, i: int) -> bool {
    0 <= i < items.len() && is_marker_dir(items[i]) && !covered(items, i)
}

/// The places below `n` at which a descending search finds an environment,
/// in rising order.
pub open spec fn managed_upto(items: Seq<WalkItem>, n: int) -> Seq<int>
    decreases n,
{
    if n <= 0 {
        Seq::empty()
    } else if is_managed(items, n - 1) {
        managed_upto(items, n - 1).push(n - 1)
    } else {
        managed_upto(items, n - 1)
    }
}

/// True of a marked directory that lies directly in the directory the walk
/// started from.
pub open spec fn is_direct_marker(item: WalkItem) -> bool {
    is_marker_dir(item) && depth_of(item) == 1
}

/// The first place at or after `from` that holds a direct marked directory,
/// or the length of the walk.
pub open spec fn first_direct(items: Seq<WalkItem>, from: int) -> int
    decreases items.len() - from,
{
    if from < 0 || from >= items.len() {
        items.len() as int
    } else if is_direct_marker(items[from]) {
        from
    } else {
        first_direct(items, from + 1)
    }
}

/// The places at which a search finds an environment.
pub open spec fn search_indices(items: Seq<WalkItem>, recursive: bool) -> Seq<int> {
    if recursive {
        managed_upto(items, items.len() as int)
    } else if first_direct(items, 0) < items.len() {
        seq![first_direct(items, 0)]
    } else {
        Seq::empty()
    }
}

/// The record of the environment at `i`, or `None` when the metadata of the
/// directory could not be read. The size is that of the regular files from
/// `i` to the end of what lies below it; a time that the file system does not
/// record is replaced by `now`.
pub open spec fn record_at(items: Seq<WalkItem>, i: int, now: Timestamp) -> Option<VenvRecord> {
    match items[i] {
        WalkItem::Entry(entry) => match entry.metadata {
            Some(metadata) => Some(
                VenvRecord {
                    path: entry.path@,
                    size_bytes: saturated(file_bytes(items, i, end_of(items, i))),
                    created: match metadata.created {
                        Some(t) => t,
                        None => now,
                    },
                    last_modified: match metadata.modified {
                        Some(t) => t,
                        None => now,
                    },
                },
            ),
            None => None,
        },
        WalkItem::Failure { .. } => None,
    }
}

/// The records of the environments at `indices`, leaving out those without a
/// record.
pub open spec fn records_of(items: Seq<WalkItem>, indices: Seq<int>, now: Timestamp) -> Seq<
    VenvRecord,
>
    decreases indices.len(),
{
    if indices.len() == 0 {
        Seq::empty()
    } else {
        let front = records_of(items, indices.drop_last(), now);
        match record_at(items, indices.last(), now) {
            Some(record) => front.push(record),
            None => front,
        }
    }
}

/// How many of the environments at `indices` have no record.
pub open spec fn failures_of(items: Seq<WalkItem>, indices: Seq<int>, now: Timestamp) -> nat
    decreases indices.len(),
{
    if indices.len() == 0 {
        0
    } else {
        failures_of(items, indices.drop_last(), now) + if record_at(items, indices.last(), now)
            is None {
            1nat
        } else {
            0nat
        }
    }
}

/// The records that a list of entries stands for.
pub open spec fn records(entries: Seq<VenvInfo>) -> Seq<VenvRecord> {
    entries.map_values(|e: VenvInfo| e@)
}

/// What a search found.
#[derive(Debug)]
pub struct ScanReport {
    /// The environments, in the order of the walk.
    pub entries: Vec<VenvInfo>,
    /// How many environments could not be examined.
    pub errors: usize,
}

/// Every environment found gives a record or counts as a failure.
pub proof fn lemma_records_and_failures(items: Seq<WalkItem>, indices: Seq<int>, now: Timestamp)
    ensures
        records_of(items, indices, now).len() + failures_of(items, indices, now) == indices.len(),
    decreases indices.len(),
{
    if indices.len() > 0 {
        lemma_records_and_failures(items, indices.drop_last(), now);
    }
}

/// The places that `managed_upto` lists are below `n`, and there are at most
/// `n` of them.
pub proof fn lemma_managed_upto_len(items: Seq<WalkItem>, n: int)
    requires
        0 <= n,
    ensures
        managed_upto(items, n).len() <= n,
    decreases n,
{
    if n > 0 {
        lemma_managed_upto_len(items, n - 1);
    }
}

/// Nothing below a marked directory is found by a descending search.
proof fn lemma_nothing_found_below(items: Seq<WalkItem>, root: int, upto: int)
    requires
        0 <= root < items.len(),
        is_marker_dir(items[root]),
        root < upto <= end_of(items, root),
    ensures
        managed_upto(items, upto) == managed_upto(items, root + 1),
    decreases upto,
{
    if upto > root + 1 {
        assert(covers(items, root, upto - 1));
        lemma_nothing_found_below(items, root, upto - 1);
    }
}

/// Builds the record of the environment at `index`.
fn analyse(items: &Vec<WalkItem>, index: usize, measure: &Measure, now: Timestamp) -> (r: Option<
    VenvInfo,
>)
    requires
        index < items.len(),
        measure.end == end_of(items@, index as int),
        measure.total_size == saturated(file_bytes(items@, index as int, measure.end as int)),
    ensures
        match r {
            Some(info) => record_at(items@, index as int, now) == Some(info@),
            None => record_at(items@, index as int, now) is None,
        },
{
    match &items[index] {
        WalkItem::Entry(entry) => match entry.metadata {
            Some(metadata) => {
                let created = match metadata.created {
                    Some(t) => t,
                    None => now,
                };
                let modified = match metadata.modified {
                    Some(t) => t,
                    None => now,
                };
                Some(VenvInfo::new(entry.path.clone(), measure.total_size, created, modified))
            },
            None => None,
        },
        WalkItem::Failure { .. } => None,
    }
}

/// Examines the environment at `index` and adds what comes of it to the
/// report in the making.
fn report_match(
    items: &Vec<WalkItem>,
    index: usize,
    now: Timestamp,
    entries: &mut Vec<VenvInfo>,
    errors: &mut usize,
    Ghost(found): Ghost<Seq<int>>,
) -> (end: usize)
    requires
        index < items.len(),
        records(old(entries)@) == records_of(items@, found, now),
        *old(errors) == failures_of(items@, found, now),
        found.len() <= index,
    ensures
        end == end_of(items@, index as int),
        index < end <= items.len(),
        records(final(entries)@) == records_of(items@, found.push(index as int), now),
        *final(errors) == failures_of(items@, found.push(index as int), now),
{
    let measure = measure_subtree(items, index);
    proof {
        lemma_records_and_failures(items@, found, now);
        assert(found.push(index as int).drop_last() =~= found);
    }
    match analyse(items, index, &measure, now) {
        Some(info) => {
            let ghost before = entries@;
            entries.push(info);
            assert(records(entries@) =~= records(before).push(info@));
        },
        None => {
            *errors = *errors + 1;
        },
    }
    measure.end
}

/// Searches a walk for environments.
///
/// With `recursive` the search descends: it reports every marked directory
/// that does not lie below another marked directory. Without it, the search
/// reports the first marked directory directly in the directory the walk
/// started from. The report holds one record for every environment whose
/// metadata could be read, in the order of the walk, and the number of those
/// whose metadata could not.
pub fn scan(items: &Vec<WalkItem>, recursive: bool, now: Timestamp) -> (report: ScanReport)
    ensures
        records(report.entries@) == records_of(items@, search_indices(items@, recursive), now),
        report.errors == failures_of(items@, search_indices(items@, recursive), now),
        report.entries.len() + report.errors == search_indices(items@, recursive).len(),
        !recursive ==> report.entries.len() + report.errors <= 1,
{
    let mut entries: Vec<VenvInfo> = Vec::new();
    let mut errors: usize = 0;
    let mut i: usize = 0;
    assert(records(entries@) =~= Seq::<VenvRecord>::empty());
    if recursive {
        while i < items.len()
            invariant
                i <= items.len(),
                forall|j: int|
                    0 <= j < i && is_marker_dir(#[trigger] items@[j]) ==> end_of(items@, j) <= i,
                records(entries@) == records_of(items@, managed_upto(items@, i as int), now),
                errors == failures_of(items@, managed_upto(items@, i as int), now),
            decreases items.len() - i,
        {
            let ghost found = managed_upto(items@, i as int);
            proof {
                lemma_managed_upto_len(items@, i as int);
            }
            if is_marker_directory(&items[i]) {
                assert(!covered(items@, i as int)) by {
                    if covered(items@, i as int) {
                        let outer = choose|outer: int| #[trigger] covers(items@, outer, i as int);
                        assert(is_marker_dir(items@[outer]));
                    }
                }
                assert(managed_upto(items@, i + 1) == found.push(i as int));
                let end = report_match(items, i, now, &mut entries, &mut errors, Ghost(found));
                proof {
                    let depth = depth_of(items@[i as int]);
                    lemma_subtree_end(items@, depth, i + 1);
                    lemma_nothing_found_below(items@, i as int, end as int);
                    assert forall|j: int|
                        0 <= j < end && is_marker_dir(#[trigger] items@[j]) implies end_of(
                        items@,
                        j,
                    ) <= end by {
                        if j > i {
                            lemma_subtree_end_bound(items@, depth_of(items@[j]), j + 1, end as int);
                        }
                    }
                }
                i = end;
            } else {
                assert(!is_managed(items@, i as int));
                i = i + 1;
            }
        }
    } else {
        while i < items.len()
            invariant
                !recursive,
                i <= items.len(),
                first_direct(items@, 0) == first_direct(items@, i as int),
                entries@.len() == 0,
                errors == 0,
            decreases items.len() - i,
        {
            if is_marker_directory(&items[i]) && item_depth(&items[i]) == 1 {
                let ghost found = Seq::<int>::empty();
                assert(records(entries@) =~= records_of(items@, found, now));
                let end = report_match(items, i, now, &mut entries, &mut errors, Ghost(found));
                proof {
                    assert(found.push(i as int) =~= seq![i as int]);
                    assert(first_direct(items@, 0) == i);
                    lemma_records_and_failures(items@, seq![i as int], now);
                }
                return ScanReport { entries, errors };
            }
            i = i + 1;
        }
    }
    proof {
        lemma_records_and_failures(items@, search_indices(items@, recursive), now);
    }
    ScanReport { entries, errors }
}

/// How many marked directories the walk reports below place `n`.
pub open spec fn marker_count(items: Seq<WalkItem>, n: int) -> nat
    decreases n,
{
    if n <= 0 {
        0
    } else {
        marker_count(items, n - 1) + if is_marker_dir(items[n - 1]) {
            1nat
        } else {
            0nat
        }
    }
}

/// A descending search lists a place exactly when the place holds a marked
/// directory that lies below no other, and it lists the places in rising
/// order.
pub proof fn law_search_lists_managed(items: Seq<WalkItem>, n: int)
    requires
        0 <= n <= items.len(),
    ensures
        forall|i: int| #[trigger]
            managed_upto(items, n).contains(i) <==> (is_managed(items, i) && i < n),
        forall|a: int, b: int|
            0 <= a < b < managed_upto(items, n).len() ==> #[trigger] managed_upto(items, n)[a]
                < #[trigger] managed_upto(items, n)[b],
        forall|a: int|
            0 <= a < managed_upto(items, n).len() ==> 0 <= #[trigger] managed_upto(items, n)[a]
                < n,
    decreases n,
{
    if n > 0 {
        law_search_lists_managed(items, n - 1);
        let shorter = managed_upto(items, n - 1);
        let full = managed_upto(items, n);
        if is_managed(items, n - 1) {
            assert(full == shorter.push(n - 1));
            assert(full[full.len() - 1] == n - 1);
            assert forall|i: int| #[trigger] full.contains(i) <==> (is_managed(items, i) && i
                < n) by {
                if full.contains(i) {
                    let k = choose|k: int| 0 <= k < full.len() && full[k] == i;
                    if k < shorter.len() {
                        assert(shorter[k] == i);
                        assert(shorter.contains(i));
                    }
                }
                if is_managed(items, i) && i < n {
                    if i == n - 1 {
                        assert(full[full.len() - 1] == i);
                    } else {
                        assert(shorter.contains(i));
                        let k = choose|k: int| 0 <= k < shorter.len() && shorter[k] == i;
                        assert(full[k] == i);
                    }
                }
            }
        } else {
            assert forall|i: int| #[trigger] full.contains(i) <==> (is_managed(items, i) && i
                < n) by {
                if is_managed(items, i) && i < n {
                    assert(shorter.contains(i));
                }
            }
        }
    } else {
        assert forall|i: int| !(#[trigger] managed_upto(items, n).contains(i)) by {}
    }
}

/// Where no environment lies inside another, a descending search finds every
/// marked directory of the walk: as many as there are.
pub proof fn law_search_finds_all_unnested(items: Seq<WalkItem>, n: int)
    requires
        0 <= n <= items.len(),
        forall|i: int| 0 <= i < items.len() && is_marker_dir(#[trigger] items[i]) ==> !covered(
            items,
            i,
        ),
    ensures
        managed_upto(items, n).len() == marker_count(items, n),
    decreases n,
{
    if n > 0 {
        law_search_finds_all_unnested(items, n - 1);
    }
}

/// A search that does not descend reports at most one place, and what it
/// reports is a marked directory directly in the directory the walk started
/// from.
pub proof fn law_flat_search_is_direct(items: Seq<WalkItem>)
    ensures
        search_indices(items, false).len() <= 1,
        forall|k: int|
            0 <= k < search_indices(items, false).len() ==> {
                &&& 0 <= #[trigger] search_indices(items, false)[k] < items.len()
                &&& is_direct_marker(items[search_indices(items, false)[k]])
            },
{
    lemma_first_direct(items, 0);
}

/// What `first_direct` finds is a direct marked directory at or after `from`.
proof fn lemma_first_direct(items: Seq<WalkItem>, from: int)
    requires
        0 <= from <= items.len(),
    ensures
        from <= first_direct(items, from) <= items.len(),
        first_direct(items, from) < items.len() ==> is_direct_marker(
            items[first_direct(items, from)],
        ),
    decreases items.len() - from,
{
    if from < items.len() && !is_direct_marker(items[from]) {
        lemma_first_direct(items, from + 1);
    }
}

/// The size in the record of an environment is the sum of the sizes of the
/// regular files that the walk reported below it, as long as that sum can be
/// held; entries that are no regular files, or whose size could not be read,
/// add nothing.
pub proof fn law_size_is_sum_of_files(items: Seq<WalkItem>, i: int, now: Timestamp)
    requires
        0 <= i < items.len(),
        record_at(items, i, now) is Some,
    ensures
        file_bytes(items, i, end_of(items, i)) <= u64::MAX ==> record_at(
            items,
            i,
            now,
        )->0.size_bytes == file_bytes(items, i, end_of(items, i)),
        file_bytes(items, i, end_of(items, i)) > u64::MAX ==> record_at(
            items,
            i,
            now,
        )->0.size_bytes == u64::MAX,
        record_at(items, i, now)->0.path == items[i]->Entry_0.path@,
{
}

} // verus!
