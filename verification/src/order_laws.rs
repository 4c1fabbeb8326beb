//! What holds of the stable arrangement of a list under any attribute whose
//! comparison is a total order.
//!
//! Sizes and times compare as numbers, and for them the comparison is a
//! total order beyond doubt. Paths compare as the standard library compares
//! them; that this comparison is a total order is what its `Ord` promises,
//! and the laws here hold of paths as far as that promise does.

use vstd::prelude::*;
use crate::sort_key::SortBy;
use crate::sorting::{insert_position, key_sign, lemma_insert_position, orders_before,
    stable_sorted};
use crate::sorting_laws::{lemma_filter_none, lemma_filter_push, lemma_filter_reverse};
use crate::venv_info::{VenvInfo, VenvRecord};

verus! {

/// True when the comparison on the attribute `key` is a total order: every
/// comparison gives one of three signs, turning a comparison round turns its
/// sign round, and both "before" and "neither before the other" carry over
/// from one pair to the next.
pub open spec fn compares_totally(key: SortBy) -> bool {
    &&& forall|a: VenvRecord, b: VenvRecord|
        #![trigger key_sign(key, a, b)]
        -1 <= key_sign(key, a, b) <= 1 && key_sign(key, b, a) == -key_sign(key, a, b)
    &&& forall|a: VenvRecord, b: VenvRecord, c: VenvRecord|
        #![trigger key_sign(key, a, b), key_sign(key, b, c)]
        key_sign(key, a, b) < 0 && key_sign(key, b, c) < 0 ==> key_sign(key, a, c) < 0
    &&& forall|a: VenvRecord, b: VenvRecord, c: VenvRecord|
        #![trigger key_sign(key, a, b), key_sign(key, b, c)]
        key_sign(key, a, b) == 0 && key_sign(key, b, c) == 0 ==> key_sign(key, a, c) == 0
}

/// True when neither of `a` and `b` has to stand before the other.
pub open spec fn ties(key: SortBy, a: VenvRecord, b: VenvRecord) -> bool {
    key_sign(key, a, b) == 0
}

/// True when no entry of the list has to stand before an earlier one.
pub open spec fn in_order(entries: Seq<VenvInfo>, key: SortBy, reverse: bool) -> bool {
    forall|i: int, j: int|
        0 <= i < j < entries.len() ==> !orders_before(
            key,
            reverse,
            #[trigger] entries[j]@,
            #[trigger] entries[i]@,
        )
}

/// The entries that tie with `with`, in the order in which they stand.
pub open spec fn tied_with(entries: Seq<VenvInfo>, key: SortBy, with: VenvRecord) -> Seq<VenvInfo> {
    entries.filter(|e: VenvInfo| ties(key, e@, with))
}

/// True when the entries that tie stand among themselves in an order that
/// reads the same forwards and backwards, whatever they tie with.
pub open spec fn tied_read_both_ways(entries: Seq<VenvInfo>, key: SortBy) -> bool {
    forall|with: VenvRecord| #[trigger]
        tied_with(entries, key, with) == tied_with(entries, key, with).reverse()
}

/// Sizes and times compare as numbers do: totally.
pub proof fn lemma_numbers_compare_totally(key: SortBy)
    requires
        key != SortBy::Path,
    ensures
        compares_totally(key),
{
}

/// What a total order means for standing before and for tying.
pub proof fn lemma_total_order(
    key: SortBy,
    reverse: bool,
    a: VenvRecord,
    b: VenvRecord,
    c: VenvRecord,
)
    requires
        compares_totally(key),
    ensures
        ties(key, a, a),
        ties(key, a, b) == ties(key, b, a),
        ties(key, a, b) <==> !orders_before(key, reverse, a, b) && !orders_before(
            key,
            reverse,
            b,
            a,
        ),
        orders_before(key, reverse, a, b) ==> !orders_before(key, reverse, b, a),
        orders_before(key, !reverse, a, b) == orders_before(key, reverse, b, a),
        ties(key, a, b) && ties(key, b, c) ==> ties(key, a, c),
        orders_before(key, reverse, a, b) && orders_before(key, reverse, b, c) ==> orders_before(
            key,
            reverse,
            a,
            c,
        ),
        orders_before(key, reverse, a, b) && ties(key, b, c) ==> orders_before(key, reverse, a, c),
        ties(key, a, b) && orders_before(key, reverse, b, c) ==> orders_before(key, reverse, a, c),
        !orders_before(key, reverse, a, b) && !orders_before(key, reverse, b, c)
            ==> !orders_before(key, reverse, a, c),
{
    let ab = key_sign(key, a, b);
    let ba = key_sign(key, b, a);
    let bc = key_sign(key, b, c);
    let cb = key_sign(key, c, b);
    let ac = key_sign(key, a, c);
    let ca = key_sign(key, c, a);
    let aa = key_sign(key, a, a);
    assert(ba == -ab && cb == -bc && ca == -ac && aa == -aa);
    // before and tie: if a is before b and b ties with c, then a is before c
    if ab < 0 && bc == 0 {
        if ac == 0 {
            // then c ties with a, and b with c, so b ties with a
            assert(key_sign(key, b, c) == 0 && key_sign(key, c, a) == 0);
        }
        if ac > 0 {
            // then c is before a, and a before b, so c is before b
            assert(key_sign(key, c, a) < 0 && key_sign(key, a, b) < 0);
        }
    }
    if ab > 0 && bc == 0 {
        if ac == 0 {
            assert(key_sign(key, b, c) == 0 && key_sign(key, c, a) == 0);
        }
        if ac < 0 {
            assert(key_sign(key, a, c) < 0 && key_sign(key, c, b) == 0);
            assert(key_sign(key, b, a) < 0 && key_sign(key, a, c) < 0);
        }
    }
    if ab == 0 && bc < 0 {
        if ac == 0 {
            assert(key_sign(key, c, a) == 0 && key_sign(key, a, b) == 0);
        }
        if ac > 0 {
            assert(key_sign(key, b, c) < 0 && key_sign(key, c, a) < 0);
        }
    }
    if ab == 0 && bc > 0 {
        if ac == 0 {
            assert(key_sign(key, c, a) == 0 && key_sign(key, a, b) == 0);
        }
        if ac < 0 {
            assert(key_sign(key, a, c) < 0 && key_sign(key, c, b) < 0);
        }
    }
    if ab > 0 && bc > 0 {
        assert(key_sign(key, c, b) < 0 && key_sign(key, b, a) < 0);
    }
}

/// Under a total order the arrangement is in order: no entry has to stand
/// before an earlier one.
pub proof fn law_arrangement_is_in_order(entries: Seq<VenvInfo>, key: SortBy, reverse: bool)
    requires
        compares_totally(key),
    ensures
        in_order(stable_sorted(entries, key, reverse), key, reverse),
    decreases entries.len(),
{
    if entries.len() > 0 {
        let rest = entries.drop_last();
        let x = entries.last();
        let front = stable_sorted(rest, key, reverse);
        let pos = insert_position(front, x, key, reverse);
        let full = front.insert(pos, x);
        law_arrangement_is_in_order(rest, key, reverse);
        lemma_insert_position(front, x, key, reverse);
        front.insert_ensures(pos, x);
        assert forall|i: int, j: int| 0 <= i < j < full.len() implies !orders_before(
            key,
            reverse,
            #[trigger] full[j]@,
            #[trigger] full[i]@,
        ) by {
            if j < pos {
                assert(full[i] == front[i] && full[j] == front[j]);
            } else if j == pos {
                // x does not stand before its neighbour, nor the neighbour
                // before anything in front of it
                assert(full[i] == front[i]);
                if i < pos - 1 {
                    lemma_total_order(key, reverse, x@, front[pos - 1]@, front[i]@);
                }
            } else if i < pos {
                assert(full[i] == front[i] && full[j] == front[j - 1]);
            } else if i == pos {
                assert(full[j] == front[j - 1]);
                lemma_total_order(key, reverse, x@, front[j - 1]@, x@);
            } else {
                assert(full[i] == front[i - 1] && full[j] == front[j - 1]);
            }
        }
    }
}

/// Under a total order the sort is stable: the entries that tie with one
/// another stand in the arrangement in the order in which they stood in the
/// list.
pub proof fn law_arrangement_is_stable(
    entries: Seq<VenvInfo>,
    key: SortBy,
    reverse: bool,
    with: VenvRecord,
)
    requires
        compares_totally(key),
    ensures
        tied_with(stable_sorted(entries, key, reverse), key, with) == tied_with(
            entries,
            key,
            with,
        ),
    decreases entries.len(),
{
    let pred = |e: VenvInfo| ties(key, e@, with);
    if entries.len() > 0 {
        let rest = entries.drop_last();
        let x = entries.last();
        let front = stable_sorted(rest, key, reverse);
        let pos = insert_position(front, x, key, reverse);
        let full = front.insert(pos, x);
        law_arrangement_is_stable(rest, key, reverse, with);
        lemma_insert_position(front, x, key, reverse);
        let head = front.subrange(0, pos);
        let tail = front.subrange(pos, front.len() as int);
        assert(front =~= head + tail);
        assert(full =~= head.push(x) + tail);
        Seq::filter_distributes_over_add(head, tail, pred);
        Seq::filter_distributes_over_add(head.push(x), tail, pred);
        lemma_filter_push(head, x, pred);
        lemma_filter_push(rest, x, pred);
        assert(rest.push(x) =~= entries);
        if pred(x) {
            assert forall|i: int| 0 <= i < tail.len() implies !pred(#[trigger] tail[i]) by {
                assert(tail[i] == front[pos + i]);
                // x stands before this entry, so the entry cannot tie with
                // what x ties with
                lemma_total_order(key, reverse, tail[i]@, with, x@);
                lemma_total_order(key, reverse, x@, tail[i]@, x@);
            }
            lemma_filter_none(tail, pred);
            assert(full.filter(pred) =~= head.filter(pred).push(x));
            assert(front.filter(pred) =~= head.filter(pred));
        }
        assert(full.filter(pred) =~= entries.filter(pred));
    } else {
        assert(stable_sorted(entries, key, reverse) =~= entries);
    }
}

/// An entry that ties with `with` makes the list of those that do at least
/// one long.
proof fn lemma_one_tied(s: Seq<VenvInfo>, key: SortBy, with: VenvRecord, i: int)
    requires
        0 <= i < s.len(),
        ties(key, s[i]@, with),
    ensures
        tied_with(s, key, with).len() >= 1,
    decreases s.len(),
{
    reveal(Seq::filter);
    if i < s.len() - 1 {
        lemma_one_tied(s.drop_last(), key, with, i);
    }
}

/// Where something ties with `with`, an entry of the list does.
proof fn lemma_some_tied(s: Seq<VenvInfo>, key: SortBy, with: VenvRecord) -> (i: int)
    requires
        tied_with(s, key, with).len() >= 1,
    ensures
        0 <= i < s.len(),
        ties(key, s[i]@, with),
    decreases s.len(),
{
    reveal(Seq::filter);
    if ties(key, s.last()@, with) {
        s.len() - 1
    } else {
        let i = lemma_some_tied(s.drop_last(), key, with);
        assert(s.drop_last()[i] == s[i]);
        i
    }
}

/// A list in order stays in order when its last entry is left out.
proof fn lemma_in_order_without_last(s: Seq<VenvInfo>, key: SortBy, reverse: bool)
    requires
        s.len() > 0,
        in_order(s, key, reverse),
    ensures
        in_order(s.drop_last(), key, reverse),
{
    let shorter = s.drop_last();
    assert forall|i: int, j: int| 0 <= i < j < shorter.len() implies !orders_before(
        key,
        reverse,
        #[trigger] shorter[j]@,
        #[trigger] shorter[i]@,
    ) by {
        assert(shorter[i] == s[i] && shorter[j] == s[j]);
    }
}

/// Under a total order, order and stability leave no choice: two lists that
/// are both in order and in which the entries that tie stand alike are the
/// same list.
pub proof fn law_arrangement_is_unique(
    x: Seq<VenvInfo>,
    y: Seq<VenvInfo>,
    key: SortBy,
    reverse: bool,
)
    requires
        compares_totally(key),
        in_order(x, key, reverse),
        in_order(y, key, reverse),
        forall|with: VenvRecord| #[trigger] tied_with(x, key, with) == tied_with(y, key, with),
    ensures
        x == y,
    decreases x.len(),
{
    if x.len() == 0 {
        if y.len() > 0 {
            let w = y[0]@;
            lemma_total_order(key, reverse, w, w, w);
            lemma_one_tied(y, key, w, 0);
            assert(tied_with(x, key, w) == tied_with(y, key, w));
            x.lemma_filter_len(|e: VenvInfo| ties(key, e@, w));
        }
        assert(x =~= y);
    } else {
        let v = x.last()@;
        lemma_total_order(key, reverse, v, v, v);
        lemma_one_tied(x, key, v, x.len() - 1);
        assert(tied_with(x, key, v) == tied_with(y, key, v));
        y.lemma_filter_len(|e: VenvInfo| ties(key, e@, v));
        let w = y.last()@;
        lemma_total_order(key, reverse, w, w, w);
        lemma_one_tied(y, key, w, y.len() - 1);
        assert(tied_with(x, key, w) == tied_with(y, key, w));
        let in_y = lemma_some_tied(y, key, v);
        let in_x = lemma_some_tied(x, key, w);
        assert(y.last() == y[y.len() - 1] && x.last() == x[x.len() - 1]);
        // the last entry of each list ties with an entry of the other, and
        // stands before none of its own list: so the two last entries tie
        assert(ties(key, v, w)) by {
            lemma_total_order(key, reverse, y[in_y]@, v, w);
            lemma_total_order(key, reverse, x[in_x]@, w, v);
            lemma_total_order(key, reverse, w, y[in_y]@, v);
            lemma_total_order(key, reverse, v, x[in_x]@, w);
            lemma_total_order(key, reverse, v, w, v);
        }
        assert(x.last() == y.last()) by {
            reveal(Seq::filter);
            lemma_total_order(key, reverse, w, v, v);
            assert(tied_with(x, key, v).last() == x.last());
            assert(tied_with(y, key, v).last() == y.last());
        }
        lemma_in_order_without_last(x, key, reverse);
        lemma_in_order_without_last(y, key, reverse);
        assert forall|with: VenvRecord| #[trigger]
            tied_with(x.drop_last(), key, with) == tied_with(y.drop_last(), key, with) by {
            reveal(Seq::filter);
            assert(tied_with(x, key, with) == tied_with(y, key, with));
            if ties(key, v, with) {
                assert(tied_with(x.drop_last(), key, with) =~= tied_with(x, key, with).drop_last());
                assert(tied_with(y.drop_last(), key, with) =~= tied_with(y, key, with).drop_last());
            }
        }
        law_arrangement_is_unique(x.drop_last(), y.drop_last(), key, reverse);
        assert(x =~= x.drop_last().push(x.last()));
        assert(y =~= y.drop_last().push(y.last()));
    }
}

/// A list in order, turned over, is in the opposite order.
proof fn lemma_turned_is_in_order(s: Seq<VenvInfo>, key: SortBy, reverse: bool)
    requires
        in_order(s, key, reverse),
    ensures
        in_order(s.reverse(), key, !reverse),
{
    let turned = s.reverse();
    assert forall|i: int, j: int| 0 <= i < j < turned.len() implies !orders_before(
        key,
        !reverse,
        #[trigger] turned[j]@,
        #[trigger] turned[i]@,
    ) by {
        assert(turned[i] == s[s.len() - 1 - i] && turned[j] == s[s.len() - 1 - j]);
    }
}

/// Under a total order, sorting a list and then sorting the result the other
/// way round gives the first result turned over exactly when the entries
/// that tie stand among themselves in an order that reads the same both
/// ways; in particular when no two entries tie. This holds for every
/// attribute, paths included, whose comparison is a total order.
pub proof fn law_reverse_turns_over_under_total_order(
    entries: Seq<VenvInfo>,
    key: SortBy,
    reverse: bool,
)
    requires
        compares_totally(key),
    ensures
        tied_read_both_ways(entries, key) <==> stable_sorted(
            stable_sorted(entries, key, reverse),
            key,
            !reverse,
        ) == stable_sorted(entries, key, reverse).reverse(),
{
    let once = stable_sorted(entries, key, reverse);
    let twice = stable_sorted(once, key, !reverse);
    let turned = once.reverse();
    law_arrangement_is_in_order(entries, key, reverse);
    law_arrangement_is_in_order(once, key, !reverse);
    lemma_turned_is_in_order(once, key, reverse);
    assert forall|with: VenvRecord|
        tied_with(twice, key, with) == tied_with(entries, key, with) && tied_with(
            turned,
            key,
            with,
        ) == tied_with(entries, key, with).reverse() by {
        law_arrangement_is_stable(entries, key, reverse, with);
        law_arrangement_is_stable(once, key, !reverse, with);
        lemma_filter_reverse(once, |e: VenvInfo| ties(key, e@, with));
    }
    if tied_read_both_ways(entries, key) {
        assert forall|with: VenvRecord| #[trigger]
            tied_with(twice, key, with) == tied_with(turned, key, with) by {
            assert(tied_with(entries, key, with) == tied_with(entries, key, with).reverse());
        }
        law_arrangement_is_unique(twice, turned, key, !reverse);
    }
    if twice == turned {
        assert forall|with: VenvRecord| #[trigger]
            tied_with(entries, key, with) == tied_with(entries, key, with).reverse() by {
            assert(tied_with(twice, key, with) == tied_with(entries, key, with));
        }
    }
}

} // verus!
