//! What holds of the stable arrangement of a list.

use vstd::prelude::*;
use crate::sort_key::SortBy;
use crate::sorting::{insert_position, lemma_insert_position, lemma_stable_sorted_len, orders_before,
    stable_sorted};
use crate::venv_info::{VenvInfo, VenvRecord};

verus! {

/// The number an entry is ordered by under `key`: its size in bytes, or one of
/// its times in nanoseconds. Paths are not numbers and get zero.
pub open spec fn sort_value(key: SortBy, r: VenvRecord) -> int {
    match key {
        SortBy::Path => 0,
        SortBy::Size => r.size_bytes as int,
        SortBy::Created => r.created.nanos as int,
        SortBy::LastModified => r.last_modified.nanos as int,
    }
}

/// True when the values of `entries` under `key` never rise, or with `reverse`
/// never fall, from one entry to a later one.
pub open spec fn is_ordered(entries: Seq<VenvInfo>, key: SortBy, reverse: bool) -> bool {
    forall|i: int, j: int|
        0 <= i < j < entries.len() ==> if reverse {
            sort_value(key, #[trigger] entries[i]@) <= sort_value(key, #[trigger] entries[j]@)
        } else {
            sort_value(key, entries[i]@) >= sort_value(key, entries[j]@)
        }
}

/// True when the values of `entries` under `key` strictly fall, or with
/// `reverse` strictly rise.
pub open spec fn is_strictly_ordered(entries: Seq<VenvInfo>, key: SortBy, reverse: bool) -> bool {
    forall|i: int, j: int|
        0 <= i < j < entries.len() ==> if reverse {
            sort_value(key, #[trigger] entries[i]@) < sort_value(key, #[trigger] entries[j]@)
        } else {
            sort_value(key, entries[i]@) > sort_value(key, entries[j]@)
        }
}

/// True when no two entries at different places share a value under `key`.
pub open spec fn has_distinct_values(entries: Seq<VenvInfo>, key: SortBy) -> bool {
    forall|i: int, j: int|
        0 <= i < entries.len() && 0 <= j < entries.len() && i != j ==> sort_value(
            key,
            #[trigger] entries[i]@,
        ) != sort_value(key, #[trigger] entries[j]@)
}

/// The entries whose value under `key` is `value`, in the order in which they
/// stand.
pub open spec fn with_value(entries: Seq<VenvInfo>, key: SortBy, value: int) -> Seq<VenvInfo> {
    entries.filter(|e: VenvInfo| sort_value(key, e@) == value)
}

/// For the numeric attributes, standing before is a comparison of values.
pub proof fn lemma_orders_by_value(key: SortBy, reverse: bool, a: VenvRecord, b: VenvRecord)
    requires
        key != SortBy::Path,
    ensures
        orders_before(key, reverse, a, b) == if reverse {
            sort_value(key, a) < sort_value(key, b)
        } else {
            sort_value(key, a) > sort_value(key, b)
        },
{
}

/// The arrangement holds exactly the entries of the list, each as often as
/// the list does.
pub proof fn law_sorted_is_permutation(entries: Seq<VenvInfo>, key: SortBy, reverse: bool)
    ensures
        stable_sorted(entries, key, reverse).to_multiset() == entries.to_multiset(),
        stable_sorted(entries, key, reverse).len() == entries.len(),
    decreases entries.len(),
{
    lemma_stable_sorted_len(entries, key, reverse);
    if entries.len() > 0 {
        let rest = entries.drop_last();
        let x = entries.last();
        let front = stable_sorted(rest, key, reverse);
        let pos = insert_position(front, x, key, reverse);
        let full = front.insert(pos, x);
        law_sorted_is_permutation(rest, key, reverse);
        lemma_insert_position(front, x, key, reverse);
        front.insert_ensures(pos, x);
        assert(full.remove(pos) =~= front);
        full.to_multiset_ensures();
        rest.to_multiset_ensures();
        assert(rest.push(x) =~= entries);
        assert(full[pos] == x);
        assert(full.contains(x));
        assert(full.to_multiset() =~= front.to_multiset().insert(x));
    } else {
        assert(stable_sorted(entries, key, reverse) =~= entries);
    }
}

/// Sorting by size or by one of the times leaves the values in order: never
/// rising, or with `reverse` never falling.
pub proof fn law_sorted_is_ordered(entries: Seq<VenvInfo>, key: SortBy, reverse: bool)
    requires
        key != SortBy::Path,
    ensures
        is_ordered(stable_sorted(entries, key, reverse), key, reverse),
    decreases entries.len(),
{
    if entries.len() > 0 {
        let rest = entries.drop_last();
        let x = entries.last();
        let front = stable_sorted(rest, key, reverse);
        let pos = insert_position(front, x, key, reverse);
        let full = front.insert(pos, x);
        law_sorted_is_ordered(rest, key, reverse);
        lemma_insert_position(front, x, key, reverse);
        front.insert_ensures(pos, x);
        assert forall|i: int, j: int| 0 <= i < j < full.len() implies if reverse {
            sort_value(key, #[trigger] full[i]@) <= sort_value(key, #[trigger] full[j]@)
        } else {
            sort_value(key, full[i]@) >= sort_value(key, full[j]@)
        } by {
            if j < pos {
                assert(full[i] == front[i] && full[j] == front[j]);
            } else if j == pos {
                assert(full[i] == front[i]);
                lemma_orders_by_value(key, reverse, x@, front[pos - 1]@);
                if i < pos - 1 {
                    assert(sort_value(key, front[i]@) == sort_value(key, front[i]@));
                }
            } else if i < pos {
                assert(full[i] == front[i] && full[j] == front[j - 1]);
            } else if i == pos {
                assert(full[j] == front[j - 1]);
                lemma_orders_by_value(key, reverse, x@, front[j - 1]@);
            } else {
                assert(full[i] == front[i - 1] && full[j] == front[j - 1]);
            }
        }
    }
}

/// A filter lets nothing through when nothing passes its test.
pub proof fn lemma_filter_none(s: Seq<VenvInfo>, pred: spec_fn(VenvInfo) -> bool)
    requires
        forall|i: int| 0 <= i < s.len() ==> !pred(#[trigger] s[i]),
    ensures
        s.filter(pred) =~= Seq::<VenvInfo>::empty(),
    decreases s.len(),
{
    reveal(Seq::filter);
    if s.len() > 0 {
        let shorter = s.drop_last();
        assert forall|i: int| 0 <= i < shorter.len() implies !pred(#[trigger] shorter[i]) by {
            assert(shorter[i] == s[i]);
        }
        lemma_filter_none(shorter, pred);
    }
}

/// Filtering a list with one more entry at its end.
pub proof fn lemma_filter_push(s: Seq<VenvInfo>, x: VenvInfo, pred: spec_fn(VenvInfo) -> bool)
    ensures
        s.push(x).filter(pred) =~= if pred(x) {
            s.filter(pred).push(x)
        } else {
            s.filter(pred)
        },
{
    reveal(Seq::filter);
    assert(s.push(x).drop_last() =~= s);
}

/// Sorting by size or by one of the times is stable: the entries that share a
/// value stand in the arrangement in the order in which they stood in the
/// list.
pub proof fn law_sort_is_stable(entries: Seq<VenvInfo>, key: SortBy, reverse: bool, value: int)
    requires
        key != SortBy::Path,
    ensures
        with_value(stable_sorted(entries, key, reverse), key, value) == with_value(
            entries,
            key,
            value,
        ),
    decreases entries.len(),
{
    let pred = |e: VenvInfo| sort_value(key, e@) == value;
    if entries.len() > 0 {
        let rest = entries.drop_last();
        let x = entries.last();
        let front = stable_sorted(rest, key, reverse);
        let pos = insert_position(front, x, key, reverse);
        let full = front.insert(pos, x);
        law_sort_is_stable(rest, key, reverse, value);
        lemma_insert_position(front, x, key, reverse);
        let head = front.subrange(0, pos);
        let tail = front.subrange(pos, front.len() as int);
        assert(front =~= head + tail);
        assert(full =~= head.push(x) + tail);
        Seq::filter_distributes_over_add(head, tail, pred);
        Seq::filter_distributes_over_add(head.push(x), tail, pred);
        lemma_filter_push(head, x, pred);
        lemma_filter_push(rest, x, pred);
        assert(rest.push(x) =~= entries);
        if pred(x) {
            assert forall|i: int| 0 <= i < tail.len() implies !pred(#[trigger] tail[i]) by {
                assert(tail[i] == front[pos + i]);
                lemma_orders_by_value(key, reverse, x@, front[pos + i]@);
            }
            lemma_filter_none(tail, pred);
            assert(full.filter(pred) =~= head.filter(pred).push(x));
            assert(front.filter(pred) =~= head.filter(pred));
        }
        assert(full.filter(pred) =~= entries.filter(pred));
    } else {
        assert(stable_sorted(entries, key, reverse) =~= entries);
    }
}

/// A list without ties comes out of the sort strictly ordered.
pub proof fn lemma_distinct_sorted_strictly(entries: Seq<VenvInfo>, key: SortBy, reverse: bool)
    requires
        key != SortBy::Path,
        has_distinct_values(entries, key),
    ensures
        is_strictly_ordered(stable_sorted(entries, key, reverse), key, reverse),
{
    let sorted = stable_sorted(entries, key, reverse);
    law_sorted_is_ordered(entries, key, reverse);
    law_sorted_is_permutation(entries, key, reverse);
    assert forall|i: int, j: int| 0 <= i < j < sorted.len() implies sort_value(
        key,
        #[trigger] sorted[i]@,
    ) != sort_value(key, #[trigger] sorted[j]@) by {
        let v = sort_value(key, sorted[i]@);
        if sort_value(key, sorted[j]@) == v {
            // two places of the arrangement with one value would be two
            // places of the list with that value
            law_sort_is_stable(entries, key, reverse, v);
            lemma_two_with_value(sorted, key, v, i, j);
            lemma_at_most_one_with_value(entries, key, v);
        }
    }
}

/// Two places with the value `value` make the filter at least two long.
proof fn lemma_two_with_value(s: Seq<VenvInfo>, key: SortBy, value: int, i: int, j: int)
    requires
        0 <= i < j < s.len(),
        sort_value(key, s[i]@) == value,
        sort_value(key, s[j]@) == value,
    ensures
        with_value(s, key, value).len() >= 2,
    decreases s.len(),
{
    let pred = |e: VenvInfo| sort_value(key, e@) == value;
    reveal(Seq::filter);
    let shorter = s.drop_last();
    if j == s.len() - 1 {
        lemma_one_with_value(shorter, key, value, i);
    } else {
        lemma_two_with_value(shorter, key, value, i, j);
    }
}

/// One place with the value `value` makes the filter at least one long.
proof fn lemma_one_with_value(s: Seq<VenvInfo>, key: SortBy, value: int, i: int)
    requires
        0 <= i < s.len(),
        sort_value(key, s[i]@) == value,
    ensures
        with_value(s, key, value).len() >= 1,
    decreases s.len(),
{
    reveal(Seq::filter);
    let shorter = s.drop_last();
    if i < s.len() - 1 {
        lemma_one_with_value(shorter, key, value, i);
    }
}

/// In a list without ties at most one entry has a given value.
proof fn lemma_at_most_one_with_value(s: Seq<VenvInfo>, key: SortBy, value: int)
    requires
        has_distinct_values(s, key),
    ensures
        with_value(s, key, value).len() <= 1,
    decreases s.len(),
{
    let pred = |e: VenvInfo| sort_value(key, e@) == value;
    reveal(Seq::filter);
    if s.len() > 0 {
        let shorter = s.drop_last();
        assert(has_distinct_values(shorter, key)) by {
            assert forall|i: int, j: int|
                0 <= i < shorter.len() && 0 <= j < shorter.len() && i != j implies sort_value(
                key,
                #[trigger] shorter[i]@,
            ) != sort_value(key, #[trigger] shorter[j]@) by {
                assert(shorter[i] == s[i] && shorter[j] == s[j]);
            }
        }
        lemma_at_most_one_with_value(shorter, key, value);
        if pred(s.last()) {
            assert forall|i: int| 0 <= i < shorter.len() implies !pred(#[trigger] shorter[i]) by {
                assert(shorter[i] == s[i]);
                assert(s.last() == s[s.len() - 1]);
            }
            lemma_filter_none(shorter, pred);
        }
    }
}

/// What has to stand before every entry of a list goes to its front.
pub proof fn lemma_insert_at_front(sorted: Seq<VenvInfo>, x: VenvInfo, key: SortBy, reverse: bool)
    requires
        forall|i: int| 0 <= i < sorted.len() ==> orders_before(key, reverse, x@, #[trigger] sorted[i]@),
    ensures
        insert_position(sorted, x, key, reverse) == 0,
    decreases sorted.len(),
{
    if sorted.len() > 0 {
        let shorter = sorted.drop_last();
        assert(sorted.last() == sorted[sorted.len() - 1]);
        assert forall|i: int| 0 <= i < shorter.len() implies orders_before(
            key,
            reverse,
            x@,
            #[trigger] shorter[i]@,
        ) by {
            assert(shorter[i] == sorted[i]);
        }
        lemma_insert_at_front(shorter, x, key, reverse);
    }
}

/// Sorting a strictly ordered list the other way round turns it over.
pub proof fn lemma_resort_strictly_ordered(ordered: Seq<VenvInfo>, key: SortBy, reverse: bool)
    requires
        key != SortBy::Path,
        is_strictly_ordered(ordered, key, reverse),
    ensures
        stable_sorted(ordered, key, !reverse) == ordered.reverse(),
    decreases ordered.len(),
{
    if ordered.len() > 0 {
        let rest = ordered.drop_last();
        let x = ordered.last();
        assert(is_strictly_ordered(rest, key, reverse)) by {
            assert forall|i: int, j: int| 0 <= i < j < rest.len() implies if reverse {
                sort_value(key, #[trigger] rest[i]@) < sort_value(key, #[trigger] rest[j]@)
            } else {
                sort_value(key, rest[i]@) > sort_value(key, rest[j]@)
            } by {
                assert(rest[i] == ordered[i] && rest[j] == ordered[j]);
            }
        }
        lemma_resort_strictly_ordered(rest, key, reverse);
        let turned = rest.reverse();
        assert forall|i: int| 0 <= i < turned.len() implies orders_before(
            key,
            !reverse,
            x@,
            #[trigger] turned[i]@,
        ) by {
            let k = rest.len() - 1 - i;
            assert(turned[i] == ordered[k]);
            assert(x == ordered[ordered.len() - 1]);
            lemma_orders_by_value(key, !reverse, x@, turned[i]@);
        }
        lemma_insert_at_front(turned, x, key, !reverse);
        assert(turned.insert(0, x) =~= ordered.reverse());
    } else {
        assert(ordered.reverse() =~= ordered);
    }
}

/// Sorting a list by size or by one of the times and then sorting the result
/// the other way round gives the first result turned over, provided no two
/// entries of the list share the value sorted by.
pub proof fn law_reverse_turns_over(entries: Seq<VenvInfo>, key: SortBy, reverse: bool)
    requires
        key != SortBy::Path,
        has_distinct_values(entries, key),
    ensures
        stable_sorted(stable_sorted(entries, key, reverse), key, !reverse) == stable_sorted(
            entries,
            key,
            reverse,
        ).reverse(),
{
    lemma_distinct_sorted_strictly(entries, key, reverse);
    lemma_resort_strictly_ordered(stable_sorted(entries, key, reverse), key, reverse);
}

/// True when the entries that share a value stand among themselves in an
/// order that reads the same forwards and backwards, whatever the value.
pub open spec fn ties_read_both_ways(entries: Seq<VenvInfo>, key: SortBy) -> bool {
    forall|value: int| #[trigger]
        with_value(entries, key, value) == with_value(entries, key, value).reverse()
}

/// Filtering a list turned over gives the filtered list turned over.
pub proof fn lemma_filter_reverse(s: Seq<VenvInfo>, pred: spec_fn(VenvInfo) -> bool)
    ensures
        s.reverse().filter(pred) == s.filter(pred).reverse(),
    decreases s.len(),
{
    if s.len() > 0 {
        let shorter = s.drop_last();
        let x = s.last();
        lemma_filter_reverse(shorter, pred);
        lemma_filter_push(shorter, x, pred);
        assert(shorter.push(x) =~= s);
        assert(s.reverse() =~= seq![x] + shorter.reverse());
        Seq::filter_distributes_over_add(seq![x], shorter.reverse(), pred);
        lemma_filter_push(Seq::<VenvInfo>::empty(), x, pred);
        lemma_filter_none(Seq::<VenvInfo>::empty(), pred);
        assert(Seq::<VenvInfo>::empty().push(x) =~= seq![x]);
        if pred(x) {
            assert(seq![x].filter(pred) =~= seq![x]);
            assert(s.filter(pred).reverse() =~= seq![x] + shorter.filter(pred).reverse());
        } else {
            assert(seq![x].filter(pred) =~= Seq::<VenvInfo>::empty());
            assert(s.reverse().filter(pred) =~= shorter.reverse().filter(pred));
        }
    } else {
        lemma_filter_none(s, pred);
        assert(s.reverse() =~= s);
        assert(s.filter(pred).reverse() =~= s.filter(pred));
    }
}

/// An entry that passes a filter stands in the list that was filtered.
proof fn lemma_some_entry_with_value(s: Seq<VenvInfo>, key: SortBy, value: int) -> (i: int)
    requires
        with_value(s, key, value).len() >= 1,
    ensures
        0 <= i < s.len(),
        sort_value(key, s[i]@) == value,
    decreases s.len(),
{
    reveal(Seq::filter);
    if sort_value(key, s.last()@) == value {
        s.len() - 1
    } else {
        let i = lemma_some_entry_with_value(s.drop_last(), key, value);
        assert(s.drop_last()[i] == s[i]);
        i
    }
}

/// A list in order stays in order when its last entry is left out.
proof fn lemma_ordered_without_last(s: Seq<VenvInfo>, key: SortBy, reverse: bool)
    requires
        s.len() > 0,
        is_ordered(s, key, reverse),
    ensures
        is_ordered(s.drop_last(), key, reverse),
{
    let shorter = s.drop_last();
    assert forall|i: int, j: int| 0 <= i < j < shorter.len() implies if reverse {
        sort_value(key, #[trigger] shorter[i]@) <= sort_value(key, #[trigger] shorter[j]@)
    } else {
        sort_value(key, shorter[i]@) >= sort_value(key, shorter[j]@)
    } by {
        assert(shorter[i] == s[i] && shorter[j] == s[j]);
    }
}

/// Order and stability leave no choice: two lists that are both in order and
/// in which the entries of every value stand alike are the same list. The
/// arrangement that the sort gives is therefore the only one that is in
/// order and keeps ties in place.
pub proof fn law_stable_order_is_unique(
    x: Seq<VenvInfo>,
    y: Seq<VenvInfo>,
    key: SortBy,
    reverse: bool,
)
    requires
        is_ordered(x, key, reverse),
        is_ordered(y, key, reverse),
        forall|value: int| #[trigger] with_value(x, key, value) == with_value(y, key, value),
    ensures
        x == y,
    decreases x.len(),
{
    if x.len() == 0 {
        if y.len() > 0 {
            let v = sort_value(key, y[0]@);
            lemma_one_with_value(y, key, v, 0);
            assert(with_value(x, key, v) == with_value(y, key, v));
            x.lemma_filter_len(|e: VenvInfo| sort_value(key, e@) == v);
        }
        assert(x =~= y);
    } else {
        let v = sort_value(key, x.last()@);
        lemma_one_with_value(x, key, v, x.len() - 1);
        assert(with_value(x, key, v) == with_value(y, key, v));
        y.lemma_filter_len(|e: VenvInfo| sort_value(key, e@) == v);
        let w = sort_value(key, y.last()@);
        lemma_one_with_value(y, key, w, y.len() - 1);
        assert(with_value(x, key, w) == with_value(y, key, w));
        // each last value occurs in the other list, and the last value of a
        // list in order is its extreme
        let in_y = lemma_some_entry_with_value(y, key, v);
        let in_x = lemma_some_entry_with_value(x, key, w);
        assert(y.last() == y[y.len() - 1] && x.last() == x[x.len() - 1]);
        assert(v == w);
        // so the two lists end in the same entry
        assert(x.last() == y.last()) by {
            reveal(Seq::filter);
            assert(with_value(x, key, v).last() == x.last());
            assert(with_value(y, key, v).last() == y.last());
        }
        lemma_ordered_without_last(x, key, reverse);
        lemma_ordered_without_last(y, key, reverse);
        assert forall|value: int| #[trigger]
            with_value(x.drop_last(), key, value) == with_value(y.drop_last(), key, value) by {
            reveal(Seq::filter);
            assert(with_value(x, key, value) == with_value(y, key, value));
            if value == v {
                assert(with_value(x.drop_last(), key, value) =~= with_value(
                    x,
                    key,
                    value,
                ).drop_last());
                assert(with_value(y.drop_last(), key, value) =~= with_value(
                    y,
                    key,
                    value,
                ).drop_last());
            }
        }
        law_stable_order_is_unique(x.drop_last(), y.drop_last(), key, reverse);
        assert(x =~= x.drop_last().push(x.last()));
        assert(y =~= y.drop_last().push(y.last()));
    }
}

/// A list in order, turned over, is in the opposite order.
proof fn lemma_reverse_is_ordered(s: Seq<VenvInfo>, key: SortBy, reverse: bool)
    requires
        is_ordered(s, key, reverse),
    ensures
        is_ordered(s.reverse(), key, !reverse),
{
    let turned = s.reverse();
    assert forall|i: int, j: int| 0 <= i < j < turned.len() implies if !reverse {
        sort_value(key, #[trigger] turned[i]@) <= sort_value(key, #[trigger] turned[j]@)
    } else {
        sort_value(key, turned[i]@) >= sort_value(key, turned[j]@)
    } by {
        assert(turned[i] == s[s.len() - 1 - i] && turned[j] == s[s.len() - 1 - j]);
    }
}

/// Sorting a list by size or by one of the times and then sorting the result
/// the other way round gives the first result turned over exactly when the
/// entries that tie stand among themselves in an order that reads the same
/// both ways. Where entries tie otherwise, stability keeps them as they
/// stand, and the second result is not the first one turned over.
pub proof fn law_reverse_turns_over_exactly(entries: Seq<VenvInfo>, key: SortBy, reverse: bool)
    requires
        key != SortBy::Path,
    ensures
        ties_read_both_ways(entries, key) <==> stable_sorted(
            stable_sorted(entries, key, reverse),
            key,
            !reverse,
        ) == stable_sorted(entries, key, reverse).reverse(),
{
    let once = stable_sorted(entries, key, reverse);
    let twice = stable_sorted(once, key, !reverse);
    let turned = once.reverse();
    law_sorted_is_ordered(entries, key, reverse);
    law_sorted_is_ordered(once, key, !reverse);
    lemma_reverse_is_ordered(once, key, reverse);
    assert forall|value: int|
        with_value(twice, key, value) == with_value(entries, key, value) && with_value(
            turned,
            key,
            value,
        ) == with_value(entries, key, value).reverse() by {
        law_sort_is_stable(entries, key, reverse, value);
        law_sort_is_stable(once, key, !reverse, value);
        lemma_filter_reverse(once, |e: VenvInfo| sort_value(key, e@) == value);
    }
    if ties_read_both_ways(entries, key) {
        assert forall|value: int| #[trigger]
            with_value(twice, key, value) == with_value(turned, key, value) by {
            assert(with_value(entries, key, value) == with_value(entries, key, value).reverse());
        }
        law_stable_order_is_unique(twice, turned, key, !reverse);
    }
    if twice == turned {
        assert forall|value: int| #[trigger]
            with_value(entries, key, value) == with_value(entries, key, value).reverse() by {
            assert(with_value(twice, key, value) == with_value(entries, key, value));
        }
    }
}

} // verus!
