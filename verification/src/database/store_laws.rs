//! What holds of a trie as [`AppDB`](super::AppDB) states it.

use super::db::lookup;
use super::trie::{no_entries, trie_root, with_entry};
use super::{with_entries, Entry};
use vstd::prelude::*;

verus! {

/// What was put in is found, and what was taken out is not: after `value`
/// (not empty) was put under `key`, the trie holds `value` there; after
/// `key` was taken out again, it holds nothing there.
pub proof fn lemma_insert_get_remove(entries: Map<Seq<u8>, Seq<u8>>, key: Seq<u8>, value: Seq<u8>)
    requires
        value.len() > 0,
    ensures
        lookup(with_entry(entries, key, value), key) == Some(value),
        lookup(with_entry(entries, key, value).remove(key), key) == None::<Seq<u8>>,
{
}

/// Whether no two entries of `data` have the same key.
pub open spec fn distinct_keys(data: Seq<Entry>) -> bool {
    forall|i: int, j: int| 0 <= i < j < data.len() ==> data[i].0 != data[j].0
}

/// Whether entry `i` of `data` puts a value under `key`.
pub open spec fn puts(data: Seq<Entry>, i: int, key: Seq<u8>) -> bool {
    0 <= i < data.len() && data[i].0 == key && data[i].1.len() > 0
}

/// The entries of `data` as a map from each key to its value. An entry
/// with an empty value puts nothing under its key.
pub open spec fn as_map(data: Seq<Entry>) -> Map<Seq<u8>, Seq<u8>> {
    Map::new(
        |k: Seq<u8>| exists|i: int| puts(data, i, k),
        |k: Seq<u8>| data[choose|i: int| puts(data, i, k)].1,
    )
}

/// Putting entries with distinct keys into the empty trie gives the map
/// from each key to its value.
pub proof fn lemma_entries_as_map(data: Seq<Entry>)
    requires
        distinct_keys(data),
    ensures
        with_entries(no_entries(), data) == as_map(data),
    decreases data.len(),
{
    if data.len() == 0 {
        assert(with_entries(no_entries(), data) =~= as_map(data));
    } else {
        let front = data.drop_last();
        let last = data.last();
        let n = data.len() - 1;
        lemma_entries_as_map(front);
        let m = with_entries(no_entries(), data);
        assert(m == with_entry(as_map(front), last.0, last.1));
        assert forall|k: Seq<u8>| m.contains_key(k) == as_map(data).contains_key(k) by {
            if as_map(front).contains_key(k) {
                let i = choose|i: int| puts(front, i, k);
                assert(puts(data, i, k));
                assert(data[i].0 != data[n].0);
            }
            if as_map(data).contains_key(k) {
                let i = choose|i: int| puts(data, i, k);
                if i < n {
                    assert(puts(front, i, k));
                }
            }
            if k == last.0 && last.1.len() > 0 {
                assert(puts(data, n, k));
            }
        }
        assert forall|k: Seq<u8>| m.contains_key(k) implies m[k] == as_map(data)[k] by {
            let i = choose|i: int| puts(data, i, k);
            if k == last.0 {
                assert(i == n);
            } else {
                let j = choose|j: int| puts(front, j, k);
                assert(data[j].0 == k);
                assert(i == j);
            }
        }
        assert(m =~= as_map(data));
    }
}

/// The root does not depend on the order of insertion: two sequences of
/// entries with distinct keys that hold the same entries, put into the
/// empty trie, give tries that hold the same and have the same root.
pub proof fn lemma_root_order_independent(a: Seq<Entry>, b: Seq<Entry>)
    requires
        distinct_keys(a),
        distinct_keys(b),
        a.to_multiset() == b.to_multiset(),
    ensures
        with_entries(no_entries(), a) == with_entries(no_entries(), b),
        trie_root(with_entries(no_entries(), a)) == trie_root(with_entries(no_entries(), b)),
{
    lemma_entries_as_map(a);
    lemma_entries_as_map(b);
    let ma = as_map(a);
    let mb = as_map(b);
    assert forall|k: Seq<u8>| ma.contains_key(k) == mb.contains_key(k) by {
        if ma.contains_key(k) {
            lemma_same_entry(a, b, k);
        }
        if mb.contains_key(k) {
            lemma_same_entry(b, a, k);
        }
    }
    assert forall|k: Seq<u8>| ma.contains_key(k) implies ma[k] == mb[k] by {
        lemma_same_entry(a, b, k);
    }
    assert(ma =~= mb);
}

/// An entry of one sequence is an entry of every sequence that holds the same entries.
proof fn lemma_same_entry(a: Seq<Entry>, b: Seq<Entry>, k: Seq<u8>)
    requires
        distinct_keys(a),
        distinct_keys(b),
        a.to_multiset() == b.to_multiset(),
        as_map(a).contains_key(k),
    ensures
        as_map(b).contains_key(k),
        as_map(b)[k] == as_map(a)[k],
{
    broadcast use vstd::seq_lib::group_to_multiset_ensures;

    let i = choose|i: int| puts(a, i, k);
    assert(a.to_multiset().count(a[i]) > 0);
    assert(b.to_multiset().count(a[i]) > 0);
    assert(b.contains(a[i]));
    let j = choose|j: int| 0 <= j < b.len() && b[j] == a[i];
    assert(puts(b, j, k));
    let j2 = choose|j: int| puts(b, j, k);
    assert(j2 == j);
}

} // verus!
