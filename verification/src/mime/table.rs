//! Association lists of texts: the model of the registry's tables.
//!
//! A table is a sequence of pairs of key and value. Where a key occurs more
//! than once the last pair counts, as in a map filled pair by pair.

use vstd::prelude::*;
use crate::text::same_text;

verus! {

/// The value that `entries` binds `key` to: that of the last pair with this
/// key, if there is one.
pub open spec fn binding(entries: Seq<(Seq<char>, Seq<char>)>, key: Seq<char>) -> Option<
    Seq<char>,
>
    decreases entries.len(),
{
    if entries.len() == 0 {
        None
    } else if entries.last().0 == key {
        Some(entries.last().1)
    } else {
        binding(entries.drop_last(), key)
    }
}

/// The table with key and value exchanged in every pair, in the same order.
pub open spec fn flipped(entries: Seq<(Seq<char>, Seq<char>)>) -> Seq<(Seq<char>, Seq<char>)> {
    Seq::new(entries.len(), |i: int| (entries[i].1, entries[i].0))
}

/// `a` comes before `b` in the order of texts, the two differing first at
/// position `k`: either `a` ends there and `b` goes on, or `a` has the
/// smaller character there.
pub open spec fn precedes_at(a: Seq<char>, b: Seq<char>, k: int) -> bool {
    &&& 0 <= k <= a.len()
    &&& k <= b.len()
    &&& forall|j: int| 0 <= j < k ==> a[j] == b[j]
    &&& if k == a.len() {
        k < b.len()
    } else {
        k < b.len() && a[k] < b[k]
    }
}

/// `a` comes strictly before `b` in the lexicographic order of texts.
pub open spec fn precedes(a: Seq<char>, b: Seq<char>) -> bool {
    exists|k: int| precedes_at(a, b, k)
}

/// From index `lo` to index `hi`, each key comes strictly before the next.
pub open spec fn ascending_between(entries: Seq<(Seq<char>, Seq<char>)>, lo: int, hi: int) -> bool
    decreases hi - lo,
{
    if hi <= lo {
        true
    } else {
        precedes(entries[hi - 1].0, entries[hi].0) && ascending_between(entries, lo, hi - 1)
    }
}

/// The keys stand in strictly ascending order: the order in which a sorted
/// map hands out its pairs.
pub open spec fn ascending(entries: Seq<(Seq<char>, Seq<char>)>) -> bool {
    ascending_between(entries, 0, entries.len() - 1)
}

/// No key occurs in two pairs.
pub open spec fn distinct_keys(entries: Seq<(Seq<char>, Seq<char>)>) -> bool {
    forall|i: int, j: int|
        0 <= i < j < entries.len() ==> (#[trigger] entries[i]).0 != (#[trigger] entries[j]).0
}

/// No text comes before itself.
pub proof fn lemma_precedes_irreflexive(a: Seq<char>)
    ensures
        !precedes(a, a),
{
}

/// The order of texts is transitive.
pub proof fn lemma_precedes_transitive(a: Seq<char>, b: Seq<char>, c: Seq<char>)
    requires
        precedes(a, b),
        precedes(b, c),
    ensures
        precedes(a, c),
{
    let k1 = choose|k: int| precedes_at(a, b, k);
    let k2 = choose|k: int| precedes_at(b, c, k);
    let k = if k1 <= k2 {
        k1
    } else {
        k2
    };
    assert(precedes_at(a, c, k));
}

/// Two ascending stretches that meet make one.
pub proof fn lemma_ascending_join(
    entries: Seq<(Seq<char>, Seq<char>)>,
    lo: int,
    mid: int,
    hi: int,
)
    requires
        lo <= mid <= hi,
        ascending_between(entries, lo, mid),
        ascending_between(entries, mid, hi),
    ensures
        ascending_between(entries, lo, hi),
    decreases hi - mid,
{
    if hi > mid {
        lemma_ascending_join(entries, lo, mid, hi - 1);
    }
}

/// In an ascending stretch every key comes before every later one.
pub proof fn lemma_ascending_pairs(entries: Seq<(Seq<char>, Seq<char>)>, lo: int, hi: int, i: int, j: int)
    requires
        ascending_between(entries, lo, hi),
        lo <= i < j <= hi,
    ensures
        precedes(entries[i].0, entries[j].0),
    decreases hi - lo,
{
    if j < hi {
        lemma_ascending_pairs(entries, lo, hi - 1, i, j);
    } else if i == hi - 1 {
    } else {
        lemma_ascending_pairs(entries, lo, hi - 1, i, hi - 1);
        lemma_precedes_transitive(entries[i].0, entries[hi - 1].0, entries[hi].0);
    }
}

/// Keys in ascending order are distinct.
pub proof fn lemma_ascending_distinct(entries: Seq<(Seq<char>, Seq<char>)>)
    requires
        ascending(entries),
    ensures
        distinct_keys(entries),
{
    assert forall|i: int, j: int| 0 <= i < j < entries.len() implies (#[trigger] entries[i]).0 != (
    #[trigger] entries[j]).0 by {
        lemma_ascending_pairs(entries, 0, entries.len() - 1, i, j);
        lemma_precedes_irreflexive(entries[i].0);
    }
}

/// A binding comes from a pair of the table.
pub proof fn lemma_binding_witness(entries: Seq<(Seq<char>, Seq<char>)>, key: Seq<char>) -> (i: int)
    requires
        binding(entries, key) is Some,
    ensures
        0 <= i < entries.len(),
        entries[i].0 == key,
        entries[i].1 == binding(entries, key)->0,
        forall|j: int| i < j < entries.len() ==> (#[trigger] entries[j]).0 != key,
    decreases entries.len(),
{
    if entries.last().0 == key {
        entries.len() - 1
    } else {
        let i = lemma_binding_witness(entries.drop_last(), key);
        assert forall|j: int| i < j < entries.len() implies (#[trigger] entries[j]).0 != key by {
            if j < entries.len() - 1 {
                assert(entries.drop_last()[j] == entries[j]);
            }
        }
        i
    }
}

/// A key that no pair holds is not bound, and the other way round.
pub proof fn lemma_binding_none(entries: Seq<(Seq<char>, Seq<char>)>, key: Seq<char>)
    ensures
        binding(entries, key) is None <==> forall|i: int|
            0 <= i < entries.len() ==> (#[trigger] entries[i]).0 != key,
    decreases entries.len(),
{
    if entries.len() > 0 {
        lemma_binding_none(entries.drop_last(), key);
        if entries.last().0 != key {
            if binding(entries, key) is None {
                assert forall|i: int| 0 <= i < entries.len() implies (#[trigger] entries[i]).0
                    != key by {
                    if i < entries.len() - 1 {
                        assert(entries.drop_last()[i] == entries[i]);
                    }
                }
            } else {
                let i = lemma_binding_witness(entries.drop_last(), key);
                assert(entries.drop_last()[i] == entries[i]);
            }
        }
    }
}

/// Where the keys are distinct, each pair's key is bound to that pair's value.
pub proof fn lemma_binding_of_pair(entries: Seq<(Seq<char>, Seq<char>)>, i: int)
    requires
        distinct_keys(entries),
        0 <= i < entries.len(),
    ensures
        binding(entries, entries[i].0) == Some(entries[i].1),
{
    lemma_binding_none(entries, entries[i].0);
    let j = lemma_binding_witness(entries, entries[i].0);
    if i < j {
        assert(entries[i].0 != entries[j].0);
    } else if j < i {
        assert(entries[j].0 != entries[i].0);
    }
}

/// In two tables put one after the other the second one's bindings come
/// first.
pub proof fn lemma_binding_concat(
    first: Seq<(Seq<char>, Seq<char>)>,
    second: Seq<(Seq<char>, Seq<char>)>,
    key: Seq<char>,
)
    ensures
        binding(first + second, key) == if binding(second, key) is Some {
            binding(second, key)
        } else {
            binding(first, key)
        },
    decreases second.len(),
{
    if second.len() == 0 {
        assert(first + second =~= first);
    } else {
        assert((first + second).drop_last() =~= first + second.drop_last());
        lemma_binding_concat(first, second.drop_last(), key);
    }
}

/// From place `lo` to place `hi` of `order`, the values of the pairs do
/// not descend, and where two neighbours have the same value, `pins` binds
/// this value.
pub open spec fn grouped_between(
    entries: Seq<(Seq<char>, Seq<char>)>,
    pins: Seq<(Seq<char>, Seq<char>)>,
    order: Seq<int>,
    lo: int,
    hi: int,
) -> bool
    decreases hi - lo,
{
    if hi <= lo {
        true
    } else {
        let a = entries[order[hi - 1]].1;
        let b = entries[order[hi]].1;
        &&& precedes(a, b) || (a == b && binding(pins, a) is Some)
        &&& grouped_between(entries, pins, order, lo, hi - 1)
    }
}

/// For each position from `lo` up to `hi`, `hi` left out, `place` says
/// where the position stands in `order`.
pub open spec fn placed_between(order: Seq<int>, place: Seq<int>, lo: int, hi: int) -> bool
    decreases hi - lo,
{
    if hi <= lo {
        true
    } else {
        &&& 0 <= place[hi - 1] < order.len()
        &&& order[place[hi - 1]] == hi - 1
        &&& placed_between(order, place, lo, hi - 1)
    }
}

/// Two grouped stretches that meet make one.
pub proof fn lemma_grouped_join(
    entries: Seq<(Seq<char>, Seq<char>)>,
    pins: Seq<(Seq<char>, Seq<char>)>,
    order: Seq<int>,
    lo: int,
    mid: int,
    hi: int,
)
    requires
        lo <= mid <= hi,
        grouped_between(entries, pins, order, lo, mid),
        grouped_between(entries, pins, order, mid, hi),
    ensures
        grouped_between(entries, pins, order, lo, hi),
    decreases hi - mid,
{
    if hi > mid {
        lemma_grouped_join(entries, pins, order, lo, mid, hi - 1);
    }
}

/// Two placed stretches that meet make one.
pub proof fn lemma_placed_join(order: Seq<int>, place: Seq<int>, lo: int, mid: int, hi: int)
    requires
        lo <= mid <= hi,
        placed_between(order, place, lo, mid),
        placed_between(order, place, mid, hi),
    ensures
        placed_between(order, place, lo, hi),
    decreases hi - mid,
{
    if hi > mid {
        lemma_placed_join(order, place, lo, mid, hi - 1);
    }
}

/// In a placed stretch each position stands where `place` says.
proof fn lemma_placed_at(order: Seq<int>, place: Seq<int>, lo: int, hi: int, i: int)
    requires
        placed_between(order, place, lo, hi),
        lo <= i < hi,
    ensures
        0 <= place[i] < order.len(),
        order[place[i]] == i,
    decreases hi - lo,
{
    if i < hi - 1 {
        lemma_placed_at(order, place, lo, hi - 1, i);
    }
}

/// In a grouped stretch two neighbours ascend, or they are equal and
/// bound.
proof fn lemma_grouped_at(
    entries: Seq<(Seq<char>, Seq<char>)>,
    pins: Seq<(Seq<char>, Seq<char>)>,
    order: Seq<int>,
    lo: int,
    hi: int,
    k: int,
)
    requires
        grouped_between(entries, pins, order, lo, hi),
        lo <= k < hi,
    ensures
        precedes(entries[order[k]].1, entries[order[k + 1]].1) || (entries[order[k]].1
            == entries[order[k + 1]].1 && binding(pins, entries[order[k]].1) is Some),
    decreases hi - lo,
{
    if k < hi - 1 {
        lemma_grouped_at(entries, pins, order, lo, hi - 1, k);
    }
}

/// In a grouped stretch no value comes before an earlier one.
proof fn lemma_grouped_pairs(
    entries: Seq<(Seq<char>, Seq<char>)>,
    pins: Seq<(Seq<char>, Seq<char>)>,
    order: Seq<int>,
    lo: int,
    hi: int,
    a: int,
    b: int,
)
    requires
        grouped_between(entries, pins, order, lo, hi),
        lo <= a <= b <= hi,
    ensures
        entries[order[a]].1 == entries[order[b]].1 || precedes(
            entries[order[a]].1,
            entries[order[b]].1,
        ),
    decreases b - a,
{
    if a < b {
        lemma_grouped_pairs(entries, pins, order, lo, hi, a, b - 1);
        lemma_grouped_at(entries, pins, order, lo, hi, b - 1);
        let x = entries[order[a]].1;
        let y = entries[order[b - 1]].1;
        let z = entries[order[b]].1;
        if precedes(x, y) && precedes(y, z) {
            lemma_precedes_transitive(x, y, z);
        }
    }
}

/// Where `order` lists all the positions of a table grouped by value, a
/// value that two pairs share is bound by `pins`.
pub proof fn lemma_shared_value_bound(
    entries: Seq<(Seq<char>, Seq<char>)>,
    pins: Seq<(Seq<char>, Seq<char>)>,
    order: Seq<int>,
    place: Seq<int>,
    i: int,
    j: int,
)
    requires
        order.len() == entries.len(),
        grouped_between(entries, pins, order, 0, entries.len() - 1),
        placed_between(order, place, 0, entries.len() as int),
        0 <= i < entries.len(),
        0 <= j < entries.len(),
        i != j,
        entries[i].1 == entries[j].1,
    ensures
        binding(pins, entries[i].1) is Some,
{
    let last = entries.len() - 1;
    lemma_placed_at(order, place, 0, entries.len() as int, i);
    lemma_placed_at(order, place, 0, entries.len() as int, j);
    let a = if place[i] < place[j] {
        place[i]
    } else {
        place[j]
    };
    let b = if place[i] < place[j] {
        place[j]
    } else {
        place[i]
    };
    assert(a < b);
    lemma_grouped_at(entries, pins, order, 0, last, a);
    lemma_grouped_pairs(entries, pins, order, 0, last, a + 1, b);
    let x = entries[order[a]].1;
    let y = entries[order[a + 1]].1;
    assert(entries[order[b]].1 == x);
    if precedes(x, y) {
        if precedes(y, x) {
            lemma_precedes_transitive(x, y, x);
        }
        lemma_precedes_irreflexive(x);
    }
}

/// The views of the pairs of a table of string slices.
pub open spec fn pairs_of(table: Seq<(&'static str, &'static str)>) -> Seq<(Seq<char>, Seq<char>)> {
    Seq::new(table.len(), |i: int| (table[i].0@, table[i].1@))
}

/// Looks `key` up among the keys of `table`; the last pair with this key
/// counts.
pub fn lookup(table: &[(&'static str, &'static str)], key: &str) -> (r: Option<&'static str>)
    ensures
        match r {
            Some(value) => binding(pairs_of(table@), key@) == Some(value@),
            None => binding(pairs_of(table@), key@) is None,
        },
{
    let ghost entries = pairs_of(table@);
    let mut i: usize = table.len();
    assert(entries.take(i as int) =~= entries);
    while i > 0
        invariant
            i <= table@.len(),
            entries == pairs_of(table@),
            binding(entries, key@) == binding(entries.take(i as int), key@),
        decreases i,
    {
        i = i - 1;
        proof {
            assert(entries.take(i + 1).last() == entries[i as int]);
            assert(entries.take(i + 1).drop_last() =~= entries.take(i as int));
        }
        if same_text(table[i].0, key) {
            return Some(table[i].1);
        }
    }
    assert(entries.take(0) =~= Seq::empty());
    None
}

/// Looks `value` up among the values of `table` and hands out the key that
/// stands with it; the last pair with this value counts.
pub fn lookup_key(table: &[(&'static str, &'static str)], value: &str) -> (r: Option<
    &'static str,
>)
    ensures
        match r {
            Some(key) => binding(flipped(pairs_of(table@)), value@) == Some(key@),
            None => binding(flipped(pairs_of(table@)), value@) is None,
        },
{
    let ghost entries = flipped(pairs_of(table@));
    let mut i: usize = table.len();
    assert(entries.take(i as int) =~= entries);
    while i > 0
        invariant
            i <= table@.len(),
            entries == flipped(pairs_of(table@)),
            binding(entries, value@) == binding(entries.take(i as int), value@),
        decreases i,
    {
        i = i - 1;
        proof {
            assert(entries.take(i + 1).last() == entries[i as int]);
            assert(entries.take(i + 1).drop_last() =~= entries.take(i as int));
        }
        if same_text(table[i].1, value) {
            return Some(table[i].0);
        }
    }
    assert(entries.take(0) =~= Seq::empty());
    None
}

} // verus!
