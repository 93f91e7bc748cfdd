//! Stable ordering of listings by a key: a rank, then a name compared
//! character by character in code point order.

use vstd::prelude::*;
use crate::text::{chars_le, lemma_seq_le_total, lemma_seq_le_transitive, seq_le};

verus! {

/// A sort key: entries of lower rank come first, and entries of one rank
/// come in the order of their names.
pub struct SortKey {
    pub rank: u8,
    pub name: Vec<char>,
}

/// A sort key as values.
pub open spec fn key_of(k: SortKey) -> (u8, Seq<char>) {
    (k.rank, k.name@)
}

/// The values of a sequence of keys.
pub open spec fn keys_of(ks: Seq<SortKey>) -> Seq<(u8, Seq<char>)> {
    ks.map_values(|k: SortKey| key_of(k))
}

/// `a` comes no later than `b`.
pub open spec fn key_le(a: (u8, Seq<char>), b: (u8, Seq<char>)) -> bool {
    a.0 < b.0 || (a.0 == b.0 && seq_le(a.1, b.1))
}

/// Any two keys are comparable.
pub proof fn lemma_key_le_total(a: (u8, Seq<char>), b: (u8, Seq<char>))
    ensures
        key_le(a, b) || key_le(b, a),
{
    lemma_seq_le_total(a.1, b.1);
}

/// The key order is transitive.
pub proof fn lemma_key_le_transitive(a: (u8, Seq<char>), b: (u8, Seq<char>), c: (u8, Seq<char>))
    requires
        key_le(a, b),
        key_le(b, c),
    ensures
        key_le(a, c),
{
    if a.0 == b.0 && b.0 == c.0 {
        lemma_seq_le_transitive(a.1, b.1, c.1);
    }
}

/// The position `j` occurs in `order`.
pub open spec fn appears(order: Seq<usize>, j: usize) -> bool {
    exists|a: int| 0 <= a < order.len() && #[trigger] order[a] == j
}

/// `order` holds the positions `0..keys.len()`, each once, such that their
/// keys come in non-decreasing order and positions with equal keys keep
/// their relative order: `order` is the stable sort of the positions.
pub open spec fn is_stable_order(keys: Seq<(u8, Seq<char>)>, order: Seq<usize>) -> bool {
    &&& order.len() == keys.len()
    &&& forall|a: int| 0 <= a < order.len() ==> #[trigger] order[a] < keys.len()
    &&& forall|a: int, b: int| 0 <= a < b < order.len() ==> order[a] != order[b]
    &&& forall|j: usize| j < keys.len() ==> #[trigger] appears(order, j)
    &&& forall|a: int, b: int|
        #![trigger order[a], order[b]]
        0 <= a < b < order.len() ==> key_le(keys[order[a] as int], keys[order[b] as int])
    &&& forall|a: int, b: int|
        #![trigger order[a], order[b]]
        0 <= a < b < order.len() && key_le(keys[order[b] as int], keys[order[a] as int])
            ==> order[a] < order[b]
}

/// Compares two keys.
pub fn key_le_exec(a: &SortKey, b: &SortKey) -> (r: bool)
    ensures
        r == key_le(key_of(*a), key_of(*b)),
{
    a.rank < b.rank || (a.rank == b.rank && chars_le(&a.name, &b.name))
}

/// The prefix invariant of insertion sorting: `o` orders the positions
/// below `n`.
pub open spec fn orders_prefix(keys: Seq<(u8, Seq<char>)>, o: Seq<usize>, n: int) -> bool {
    &&& o.len() == n
    &&& forall|a: int| 0 <= a < o.len() ==> #[trigger] o[a] < n
    &&& forall|a: int, b: int| 0 <= a < b < o.len() ==> o[a] != o[b]
    &&& forall|j: usize| j < n ==> #[trigger] appears(o, j)
    &&& forall|a: int, b: int|
        #![trigger o[a], o[b]]
        0 <= a < b < o.len() ==> key_le(keys[o[a] as int], keys[o[b] as int])
    &&& forall|a: int, b: int|
        #![trigger o[a], o[b]]
        0 <= a < b < o.len() && key_le(keys[o[b] as int], keys[o[a] as int]) ==> o[a] < o[b]
}

proof fn lemma_insert_position(keys: Seq<(u8, Seq<char>)>, o: Seq<usize>, n: usize, pos: int)
    requires
        n < keys.len(),
        orders_prefix(keys, o, n as int),
        0 <= pos <= n,
        pos > 0 ==> key_le(keys[o[pos - 1] as int], keys[n as int]),
        forall|a: int| pos <= a < n ==> !key_le(#[trigger] keys[o[a] as int], keys[n as int]),
    ensures
        orders_prefix(keys, o.insert(pos, n), n + 1),
{
    let o2 = o.insert(pos, n);
    assert(o2[pos] == n);
    assert forall|a: int| 0 <= a < o2.len() implies #[trigger] o2[a] < n + 1 by {
        if a < pos {
            assert(o2[a] == o[a]);
        } else if a > pos {
            assert(o2[a] == o[a - 1]);
        }
    }
    assert forall|j: usize| j < n + 1 implies #[trigger] appears(o2, j) by {
        if j == n {
            assert(o2[pos] == j);
        } else {
            assert(appears(o, j));
            let a = choose|a: int| 0 <= a < o.len() && #[trigger] o[a] == j;
            if a < pos {
                assert(o2[a] == j);
            } else {
                assert(o2[a + 1] == j);
            }
        }
    }
    assert forall|a: int, b: int| 0 <= a < b < o2.len() implies o2[a] != o2[b] by {
        if a < pos {
            assert(o2[a] == o[a]);
        } else if a > pos {
            assert(o2[a] == o[a - 1]);
        }
        if b < pos {
            assert(o2[b] == o[b]);
        } else if b > pos {
            assert(o2[b] == o[b - 1]);
        }
    }
    assert forall|a: int, b: int|
        #![trigger o2[a], o2[b]]
        0 <= a < b < o2.len() implies key_le(keys[o2[a] as int], keys[o2[b] as int]) && (key_le(
            keys[o2[b] as int],
            keys[o2[a] as int],
        ) ==> o2[a] < o2[b]) by {
        if b < pos {
            assert(o2[a] == o[a] && o2[b] == o[b]);
        } else if b == pos {
            assert(o2[a] == o[a]);
            if a < pos - 1 {
                assert(key_le(keys[o[a] as int], keys[o[pos - 1] as int]));
                lemma_key_le_transitive(keys[o[a] as int], keys[o[pos - 1] as int], keys[n as int]);
            }
        } else if a == pos {
            assert(o2[b] == o[b - 1]);
            lemma_key_le_total(keys[o[b - 1] as int], keys[n as int]);
        } else if a < pos {
            assert(o2[a] == o[a] && o2[b] == o[b - 1]);
        } else {
            assert(o2[a] == o[a - 1] && o2[b] == o[b - 1]);
        }
    }
}

/// The stable sort of the positions of `keys`.
pub fn stable_order(keys: &Vec<SortKey>) -> (order: Vec<usize>)
    ensures
        is_stable_order(keys_of(keys@), order@),
{
    let ghost kv = keys_of(keys@);
    let mut order: Vec<usize> = Vec::new();
    for i in 0..keys.len()
        invariant
            kv == keys_of(keys@),
            orders_prefix(kv, order@, i as int),
    {
        let mut pos: usize = i;
        while pos > 0 && !key_le_exec(&keys[order[pos - 1]], &keys[i])
            invariant
                0 <= pos <= i,
                order@.len() == i,
                i < keys@.len(),
                kv == keys_of(keys@),
                orders_prefix(kv, order@, i as int),
                forall|a: int| pos <= a < i ==> !key_le(#[trigger] kv[order@[a] as int], kv[i as int]),
            decreases pos,
        {
            pos = pos - 1;
        }
        proof {
            lemma_insert_position(kv, order@, i, pos as int);
        }
        order.insert(pos, i);
    }
    order
}

} // verus!
