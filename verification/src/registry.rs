//! Keyed records kept in insertion order, and the map they denote.
//!
//! Both registries store their records in a vector in which no key occurs
//! twice. This module says which map such a sequence stands for and proves
//! how the map changes when the sequence does.

use vstd::prelude::*;
use crate::text::same_text;
use crate::time::{is_older_than, older_than, Timestamp};

verus! {

/// Why a registry refused to create a record.
#[derive(Clone, Copy, Debug, PartialEq, Eq, Structural)]
pub enum RegistryError {
    /// A record with the generated identifier is already present. Nothing
    /// was overwritten.
    IdCollision,
}

/// The key of the record at position `i`.
pub open spec fn key_at<V>(s: Seq<(Seq<char>, V)>, i: int) -> Seq<char> {
    s[i].0
}

/// No key occurs at two positions.
pub open spec fn distinct_keys<V>(s: Seq<(Seq<char>, V)>) -> bool {
    forall|i: int, j: int| 0 <= i < j < s.len() ==> key_at(s, i) != key_at(s, j)
}

/// Some record has key `k`.
pub open spec fn has_key<V>(s: Seq<(Seq<char>, V)>, k: Seq<char>) -> bool {
    exists|i: int| 0 <= i < s.len() && key_at(s, i) == k
}

/// A position at which key `k` occurs, where there is one.
pub open spec fn position_of<V>(s: Seq<(Seq<char>, V)>, k: Seq<char>) -> int {
    choose|i: int| 0 <= i < s.len() && key_at(s, i) == k
}

/// The map from each key to the value recorded with it.
pub open spec fn as_map<V>(s: Seq<(Seq<char>, V)>) -> Map<Seq<char>, V> {
    Map::new(|k: Seq<char>| has_key(s, k), |k: Seq<char>| s[position_of(s, k)].1)
}

/// The record at position `i` is what the map holds under its key.
pub proof fn lemma_lookup<V>(s: Seq<(Seq<char>, V)>, i: int)
    requires
        distinct_keys(s),
        0 <= i < s.len(),
    ensures
        as_map(s).contains_key(s[i].0),
        as_map(s)[s[i].0] == s[i].1,
{
    let k = s[i].0;
    assert(key_at(s, i) == k);
    let p = position_of(s, k);
    assert(0 <= p < s.len() && key_at(s, p) == k);
    if p < i {
        assert(key_at(s, p) != key_at(s, i));
    } else if i < p {
        assert(key_at(s, i) != key_at(s, p));
    }
}

/// A key that occurs at no position is not in the map.
pub proof fn lemma_absent<V>(s: Seq<(Seq<char>, V)>, k: Seq<char>)
    requires
        forall|i: int| 0 <= i < s.len() ==> key_at(s, i) != k,
    ensures
        !as_map(s).contains_key(k),
{
}

/// The empty sequence denotes the empty map.
pub proof fn lemma_empty<V>()
    ensures
        distinct_keys(Seq::<(Seq<char>, V)>::empty()),
        as_map(Seq::<(Seq<char>, V)>::empty()) == Map::<Seq<char>, V>::empty(),
{
    assert(as_map(Seq::<(Seq<char>, V)>::empty()) =~= Map::<Seq<char>, V>::empty());
}

/// Appending a record under a new key inserts it into the map.
pub proof fn lemma_push<V>(s: Seq<(Seq<char>, V)>, k: Seq<char>, v: V)
    requires
        distinct_keys(s),
        !as_map(s).contains_key(k),
    ensures
        distinct_keys(s.push((k, v))),
        as_map(s.push((k, v))) == as_map(s).insert(k, v),
{
    let t = s.push((k, v));
    assert forall|i: int, j: int| 0 <= i < j < t.len() implies key_at(t, i) != key_at(t, j) by {
        if j < s.len() {
            assert(key_at(s, i) != key_at(s, j));
        } else {
            assert(key_at(s, i) == key_at(t, i));
            if key_at(s, i) == k {
                assert(has_key(s, k));
            }
        }
    }
    assert forall|q: Seq<char>| as_map(t).contains_key(q) <==> as_map(s).insert(k, v).contains_key(
        q,
    ) by {
        if has_key(t, q) {
            let p = position_of(t, q);
            if p < s.len() {
                assert(key_at(s, p) == q);
            }
        }
        if has_key(s, q) {
            let p = position_of(s, q);
            assert(key_at(t, p) == q);
        }
        if q == k {
            assert(key_at(t, s.len() as int) == k);
        }
    }
    assert forall|q: Seq<char>| as_map(t).contains_key(q) implies as_map(t)[q] == as_map(s).insert(
        k,
        v,
    )[q] by {
        let p = position_of(t, q);
        lemma_lookup(t, p);
        if p < s.len() {
            assert(t[p] == s[p]);
            lemma_lookup(s, p);
        }
    }
    assert(as_map(t) =~= as_map(s).insert(k, v));
}

/// Replacing the value at position `i` replaces it in the map.
pub proof fn lemma_update<V>(s: Seq<(Seq<char>, V)>, i: int, v: V)
    requires
        distinct_keys(s),
        0 <= i < s.len(),
    ensures
        distinct_keys(s.update(i, (s[i].0, v))),
        as_map(s.update(i, (s[i].0, v))) == as_map(s).insert(s[i].0, v),
{
    let k = s[i].0;
    let t = s.update(i, (k, v));
    assert forall|a: int| 0 <= a < s.len() implies key_at(t, a) == key_at(s, a) by {}
    assert forall|a: int, b: int| 0 <= a < b < t.len() implies key_at(t, a) != key_at(t, b) by {
        assert(key_at(s, a) != key_at(s, b));
    }
    assert forall|q: Seq<char>| as_map(t).contains_key(q) <==> as_map(s).insert(k, v).contains_key(
        q,
    ) by {
        if has_key(t, q) {
            let p = position_of(t, q);
            assert(key_at(s, p) == q);
        }
        if has_key(s, q) {
            let p = position_of(s, q);
            assert(key_at(t, p) == q);
        }
        if q == k {
            assert(key_at(t, i) == k);
        }
    }
    assert forall|q: Seq<char>| as_map(t).contains_key(q) implies as_map(t)[q] == as_map(s).insert(
        k,
        v,
    )[q] by {
        let p = position_of(t, q);
        lemma_lookup(t, p);
        if p != i {
            assert(t[p] == s[p]);
            lemma_lookup(s, p);
            assert(key_at(s, p) == q);
            if p < i {
                assert(key_at(s, p) != key_at(s, i));
            } else {
                assert(key_at(s, i) != key_at(s, p));
            }
        }
    }
    assert(as_map(t) =~= as_map(s).insert(k, v));
}

/// Moving the last record into position `i` removes the key that stood
/// there from the map and leaves the rest as it was.
pub proof fn lemma_swap_remove<V>(s: Seq<(Seq<char>, V)>, i: int)
    requires
        distinct_keys(s),
        0 <= i < s.len(),
    ensures
        distinct_keys(s.update(i, s.last()).drop_last()),
        as_map(s.update(i, s.last()).drop_last()) == as_map(s).remove(s[i].0),
{
    let k = s[i].0;
    let n = s.len() - 1;
    let t = s.update(i, s.last()).drop_last();
    assert forall|a: int| 0 <= a < t.len() implies #[trigger] key_at(t, a) == key_at(
        s,
        if a == i { n } else { a },
    ) by {}
    assert forall|a: int, b: int| 0 <= a < b < t.len() implies key_at(t, a) != key_at(t, b) by {
        let sa = if a == i { n } else { a };
        let sb = if b == i { n } else { b };
        assert(key_at(t, a) == key_at(s, sa));
        assert(key_at(t, b) == key_at(s, sb));
        if sa < sb {
            assert(key_at(s, sa) != key_at(s, sb));
        } else {
            assert(key_at(s, sb) != key_at(s, sa));
        }
    }
    assert forall|q: Seq<char>| as_map(t).contains_key(q) <==> as_map(s).remove(k).contains_key(
        q,
    ) by {
        if has_key(t, q) {
            let p = position_of(t, q);
            let sp = if p == i { n } else { p };
            assert(key_at(t, p) == key_at(s, sp));
            assert(key_at(s, sp) == q);
            if sp < i {
                assert(key_at(s, sp) != key_at(s, i));
            } else if i < sp {
                assert(key_at(s, i) != key_at(s, sp));
            }
        }
        if has_key(s, q) && q != k {
            let p = position_of(s, q);
            if p == n {
                assert(key_at(t, i) == key_at(s, n));
            } else {
                assert(key_at(t, p) == key_at(s, p));
            }
        }
    }
    assert forall|q: Seq<char>| as_map(t).contains_key(q) implies as_map(t)[q] == as_map(s).remove(
        k,
    )[q] by {
        let p = position_of(t, q);
        let sp = if p == i { n } else { p };
        lemma_lookup(t, p);
        assert(t[p] == s[sp]);
        lemma_lookup(s, sp);
    }
    assert(as_map(t) =~= as_map(s).remove(k));
}

/// A value stored under a key.
pub(crate) struct Record<V> {
    pub(crate) key: String,
    pub(crate) value: V,
}

/// The keys and values of a vector of records, each by its view.
pub(crate) open spec fn pairs_of<V: View>(records: Seq<Record<V>>) -> Seq<(Seq<char>, V::V)> {
    Seq::new(records.len(), |i: int| (records[i].key@, records[i].value@))
}

/// No key is recorded twice.
pub(crate) open spec fn table_ok<V: View>(records: Seq<Record<V>>) -> bool {
    distinct_keys(pairs_of(records))
}

/// The map that the records denote.
pub(crate) open spec fn table_map<V: View>(records: Seq<Record<V>>) -> Map<Seq<char>, V::V> {
    as_map(pairs_of(records))
}

/// The position of the record under `key`, where there is one.
pub(crate) fn find<V: View>(records: &Vec<Record<V>>, key: &str) -> (found: Option<usize>)
    requires
        table_ok(records@),
    ensures
        match found {
            Some(i) => {
                &&& i < records@.len()
                &&& records@[i as int].key@ == key@
                &&& table_map(records@).contains_key(key@)
                &&& table_map(records@)[key@] == records@[i as int].value@
            },
            None => !table_map(records@).contains_key(key@),
        },
{
    let mut i: usize = 0;
    while i < records.len()
        invariant
            i <= records@.len(),
            table_ok(records@),
            forall|j: int| 0 <= j < i ==> key_at(pairs_of(records@), j) != key@,
        decreases records@.len() - i,
    {
        if same_text(records[i].key.as_str(), key) {
            proof {
                lemma_lookup(pairs_of(records@), i as int);
            }
            return Some(i);
        }
        i += 1;
    }
    proof {
        lemma_absent(pairs_of(records@), key@);
    }
    None
}

/// Adds a record under a key that is not in use.
pub(crate) fn append<V: View>(records: &mut Vec<Record<V>>, key: String, value: V)
    requires
        table_ok(old(records)@),
        !table_map(old(records)@).contains_key(key@),
    ensures
        table_ok(final(records)@),
        table_map(final(records)@) == table_map(old(records)@).insert(key@, value@),
{
    let ghost before = pairs_of(records@);
    proof {
        lemma_push(before, key@, value@);
    }
    records.push(Record { key, value });
    assert(pairs_of(records@) =~= before.push((key@, value@)));
}

/// Drops the record at position `i`; the last record takes its place.
pub(crate) fn discard<V: View>(records: &mut Vec<Record<V>>, i: usize)
    requires
        table_ok(old(records)@),
        i < old(records)@.len(),
    ensures
        table_ok(final(records)@),
        table_map(final(records)@) == table_map(old(records)@).remove(old(records)@[i as int].key@),
        final(records)@ == old(records)@.update(i as int, old(records)@.last()).drop_last(),
{
    let ghost before = pairs_of(records@);
    proof {
        lemma_swap_remove(before, i as int);
    }
    let _ = records.swap_remove(i);
    assert(pairs_of(records@) =~= before.update(i as int, before.last()).drop_last());
}

/// A stored value that carries the instant from which its age is counted.
pub(crate) trait Dated: View {
    /// That instant, read off the value's view.
    spec fn counted_from(v: Self::V) -> Timestamp;

    /// That instant.
    fn dated(&self) -> (t: Timestamp)
        ensures
            t == Self::counted_from(self@),
    ;
}

/// The records of `m` that are not older than `limit_secs` seconds at `now`,
/// each as it is.
pub(crate) open spec fn unexpired<V: Dated>(
    m: Map<Seq<char>, V::V>,
    limit_secs: u64,
    now: Timestamp,
) -> Map<Seq<char>, V::V> {
    Map::new(
        |k: Seq<char>| m.contains_key(k) && !older_than(now, V::counted_from(m[k]), limit_secs),
        |k: Seq<char>| m[k],
    )
}

/// Drops every record that is older than `limit_secs` seconds at `now` and
/// keeps every other record as it is.
pub(crate) fn sweep_records<V: Dated>(records: &mut Vec<Record<V>>, limit_secs: u64, now: Timestamp)
    requires
        table_ok(old(records)@),
    ensures
        table_ok(final(records)@),
        table_map(final(records)@) == unexpired::<V>(table_map(old(records)@), limit_secs, now),
{
    let ghost before = table_map(records@);
    let mut i: usize = 0;
    while i < records.len()
        invariant
            i <= records@.len(),
            table_ok(records@),
            forall|j: int|
                0 <= j < i ==> !older_than(
                    now,
                    V::counted_from((#[trigger] records@[j]).value@),
                    limit_secs,
                ),
            forall|k: Seq<char>| #[trigger]
                table_map(records@).contains_key(k) ==> before.contains_key(k) && table_map(
                    records@,
                )[k] == before[k],
            forall|k: Seq<char>|
                before.contains_key(k) && !older_than(now, V::counted_from(before[k]), limit_secs)
                    ==> #[trigger] table_map(records@).contains_key(k),
        decreases records@.len() - i,
    {
        if is_older_than(now, records[i].value.dated(), limit_secs) {
            proof {
                lemma_lookup(pairs_of(records@), i as int);
            }
            discard(records, i);
        } else {
            i += 1;
        }
    }
    proof {
        let kept = table_map(records@);
        assert forall|k: Seq<char>| kept.contains_key(k) implies !older_than(
            now,
            V::counted_from(before[k]),
            limit_secs,
        ) by {
            let p = position_of(pairs_of(records@), k);
            assert(key_at(pairs_of(records@), p) == k);
            lemma_lookup(pairs_of(records@), p);
            assert(kept[k] == records@[p].value@);
        }
        assert(kept =~= unexpired::<V>(before, limit_secs, now));
    }
}

} // verus!
