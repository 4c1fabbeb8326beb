//! Ordering a list of environments by one of its attributes.
//!
//! The order is stable: entries that tie on the attribute keep the order in
//! which they stood.

use vstd::prelude::*;
use std::cmp::Ordering;
use crate::sort_key::SortBy;
use crate::venv_info::{VenvInfo, VenvRecord};

verus! {

/// The sign of comparing `a` with `b` on the attribute `key`, in the
/// attribute's natural direction: paths ascending, sizes and times descending.
pub open spec fn key_sign(key: SortBy, a: VenvRecord, b: VenvRecord) -> int {
    match key {
        SortBy::Path => a.path_sign(b),
        SortBy::Size => a.size_sign(b),
        SortBy::Created => a.created_sign(b),
        SortBy::LastModified => a.last_modified_sign(b),
    }
}

/// True when `a` has to stand somewhere before `b`. With `reverse` the two
/// change places in the comparison.
pub open spec fn orders_before(key: SortBy, reverse: bool, a: VenvRecord, b: VenvRecord) -> bool {
    if reverse {
        key_sign(key, b, a) < 0
    } else {
        key_sign(key, a, b) < 0
    }
}

/// Where `x` goes in `sorted`: behind the last entry that it does not have to
/// stand before.
pub open spec fn insert_position(sorted: Seq<VenvInfo>, x: VenvInfo, key: SortBy, reverse: bool) -> int
    decreases sorted.len(),
{
    if sorted.len() > 0 && orders_before(key, reverse, x@, sorted.last()@) {
        insert_position(sorted.drop_last(), x, key, reverse)
    } else {
        sorted.len() as int
    }
}

/// The stable arrangement of `entries`: all but the last entry arranged, and
/// the last put behind everything it does not have to stand before.
pub open spec fn stable_sorted(entries: Seq<VenvInfo>, key: SortBy, reverse: bool) -> Seq<VenvInfo>
    decreases entries.len(),
{
    if entries.len() == 0 {
        entries
    } else {
        let front = stable_sorted(entries.drop_last(), key, reverse);
        front.insert(insert_position(front, entries.last(), key, reverse), entries.last())
    }
}

/// The insert position lies within the list; everything from it on has `x`
/// before it, and what stands just in front of it has not.
pub proof fn lemma_insert_position(sorted: Seq<VenvInfo>, x: VenvInfo, key: SortBy, reverse: bool)
    ensures
        0 <= insert_position(sorted, x, key, reverse) <= sorted.len(),
        forall|i: int|
            insert_position(sorted, x, key, reverse) <= i < sorted.len() ==> orders_before(
                key,
                reverse,
                x@,
                #[trigger] sorted[i]@,
            ),
        insert_position(sorted, x, key, reverse) > 0 ==> !orders_before(
            key,
            reverse,
            x@,
            sorted[insert_position(sorted, x, key, reverse) - 1]@,
        ),
    decreases sorted.len(),
{
    if sorted.len() > 0 && orders_before(key, reverse, x@, sorted.last()@) {
        let shorter = sorted.drop_last();
        lemma_insert_position(shorter, x, key, reverse);
        let pos = insert_position(sorted, x, key, reverse);
        assert forall|i: int| pos <= i < sorted.len() implies orders_before(
            key,
            reverse,
            x@,
            #[trigger] sorted[i]@,
        ) by {
            if i < shorter.len() {
                assert(shorter[i] == sorted[i]);
            }
        }
        if pos > 0 {
            assert(shorter[pos - 1] == sorted[pos - 1]);
        }
    }
}

/// Arranging keeps the number of entries.
pub proof fn lemma_stable_sorted_len(entries: Seq<VenvInfo>, key: SortBy, reverse: bool)
    ensures
        stable_sorted(entries, key, reverse).len() == entries.len(),
    decreases entries.len(),
{
    if entries.len() > 0 {
        let front = stable_sorted(entries.drop_last(), key, reverse);
        lemma_stable_sorted_len(entries.drop_last(), key, reverse);
        lemma_insert_position(front, entries.last(), key, reverse);
    }
}

/// True when `a` has to stand before `b`.
pub fn precedes(key: SortBy, reverse: bool, a: &VenvInfo, b: &VenvInfo) -> (r: bool)
    ensures
        r == orders_before(key, reverse, a@, b@),
{
    let first = if reverse {
        b
    } else {
        a
    };
    let second = if reverse {
        a
    } else {
        b
    };
    let o = match key {
        SortBy::Path => first.compare_by_path(second),
        SortBy::Size => first.compare_by_size(second),
        SortBy::Created => first.compare_by_created(second),
        SortBy::LastModified => first.compare_by_last_modified(second),
    };
    match o {
        Ordering::Less => true,
        _ => false,
    }
}

/// Arranges `entries` by `key`, reversed when `reverse` is set. Entries that
/// tie keep their order.
pub fn sort_entries(entries: &mut Vec<VenvInfo>, key: SortBy, reverse: bool)
    ensures
        final(entries)@ == stable_sorted(old(entries)@, key, reverse),
        final(entries)@.len() == old(entries)@.len(),
        final(entries)@.to_multiset() == old(entries)@.to_multiset(),
        key != SortBy::Path ==> crate::sorting_laws::is_ordered(final(entries)@, key, reverse),
{
    let ghost unsorted = entries@;
    let n: usize = entries.len();
    let mut i: usize = 0;
    while i < n
        invariant
            i <= n,
            n == unsorted.len(),
            entries@.len() == n,
            entries@.take(i as int) == stable_sorted(unsorted.take(i as int), key, reverse),
            entries@.skip(i as int) == unsorted.skip(i as int),
        decreases n - i,
    {
        let ghost before = entries@;
        let ghost front = before.take(i as int);
        let x = entries.remove(i);
        assert(x == unsorted[i as int]) by {
            assert(before.skip(i as int)[0] == unsorted.skip(i as int)[0]);
        }
        let mut pos: usize = i;
        assert(front.take(pos as int) =~= front);
        loop
            invariant
                pos <= i,
                i < n,
                entries@ == before.remove(i as int),
                before.len() == n,
                front == before.take(i as int),
                insert_position(front, x, key, reverse) == insert_position(
                    front.take(pos as int),
                    x,
                    key,
                    reverse,
                ),
            ensures
                pos == insert_position(front, x, key, reverse),
            decreases pos,
        {
            if pos == 0 {
                break ;
            }
            assert(entries@[pos - 1] == front.take(pos as int).last());
            if !precedes(key, reverse, &x, &entries[pos - 1]) {
                break ;
            }
            assert(front.take(pos as int).drop_last() =~= front.take(pos - 1));
            pos = pos - 1;
        }
        entries.insert(pos, x);
        proof {
            assert(unsorted.take(i + 1).drop_last() =~= unsorted.take(i as int));
            assert(unsorted.take(i + 1).last() == x);
            assert(entries@.take(i + 1) =~= front.insert(pos as int, x));
            assert(entries@.skip(i + 1) =~= unsorted.skip(i + 1)) by {
                let rest = entries@.skip(i + 1);
                assert forall|k: int| 0 <= k < n - i - 1 implies #[trigger] rest[k]
                    == unsorted.skip(i + 1)[k] by {
                    assert(before.skip(i as int)[k + 1] == unsorted.skip(i as int)[k + 1]);
                }
            }
        }
        i = i + 1;
    }
    proof {
        assert(entries@.take(n as int) =~= entries@);
        assert(unsorted.take(n as int) =~= unsorted);
        crate::sorting_laws::law_sorted_is_permutation(unsorted, key, reverse);
        if key != SortBy::Path {
            crate::sorting_laws::law_sorted_is_ordered(unsorted, key, reverse);
        }
    }
}

} // verus!
