//! Ordered tables.
//!
//! A table is a sequence of entries in which no key occurs twice.  An entry
//! keeps the place at which its key was first put; putting a key again
//! replaces the value in place.  In contracts a table is the sequence of
//! its `(key, value)` pairs, the key taken by its model.

use vstd::prelude::*;
use crate::value::ImmutableString;
use crate::value::TypeId;

verus! {

/// The first index at which `key` occurs in `keys`, or the length of
/// `keys` if it occurs nowhere.
pub open spec fn first_index<K>(keys: Seq<K>, key: K) -> int
    decreases keys.len(),
{
    if keys.len() == 0 {
        0
    } else if keys[0] == key {
        0
    } else {
        1 + first_index(keys.drop_first(), key)
    }
}

/// The keys of a sequence of pairs, in order.
pub open spec fn keys_of<K, V>(entries: Seq<(K, V)>) -> Seq<K> {
    entries.map_values(|e: (K, V)| e.0)
}

/// Where `key` stands in `entries`, or the length of `entries` if it is
/// not there.
pub open spec fn position<K, V>(entries: Seq<(K, V)>, key: K) -> int {
    first_index(keys_of(entries), key)
}

/// Does `entries` hold `key`?
pub open spec fn contains_key<K, V>(entries: Seq<(K, V)>, key: K) -> bool {
    position(entries, key) < entries.len()
}

/// The value that `entries` holds for `key`, if any.
pub open spec fn lookup<K, V>(entries: Seq<(K, V)>, key: K) -> Option<V> {
    if contains_key(entries, key) {
        Some(entries[position(entries, key)].1)
    } else {
        None
    }
}

/// `entries` after `value` is put under `key`: in place of the old value
/// if the key is there, at the end if it is not.
pub open spec fn upsert<K, V>(entries: Seq<(K, V)>, key: K, value: V) -> Seq<(K, V)> {
    if contains_key(entries, key) {
        entries.update(position(entries, key), (key, value))
    } else {
        entries.push((key, value))
    }
}

/// `target` after every entry of `source` is put into it, in order: on a
/// key that both hold, the value of `source` stands.
pub open spec fn overwrite<K, V>(target: Seq<(K, V)>, source: Seq<(K, V)>) -> Seq<(K, V)>
    decreases source.len(),
{
    if source.len() == 0 {
        target
    } else {
        upsert(overwrite(target, source.drop_last()), source.last().0, source.last().1)
    }
}

/// `target` after every entry of `source` whose key it lacks is added, in
/// order: on a key that both hold, the value of `target` stands.
pub open spec fn fill<K, V>(target: Seq<(K, V)>, source: Seq<(K, V)>) -> Seq<(K, V)>
    decreases source.len(),
{
    if source.len() == 0 {
        target
    } else {
        let filled = fill(target, source.drop_last());
        if contains_key(filled, source.last().0) {
            filled
        } else {
            filled.push(source.last())
        }
    }
}

/// Does no key occur twice in `entries`?
pub open spec fn distinct_keys<K, V>(entries: Seq<(K, V)>) -> bool {
    keys_of(entries).no_duplicates()
}

/// `first_index` is in range, no earlier key is equal to `key`, and the
/// key at the index is, where there is one.
pub proof fn lemma_first_index<K>(keys: Seq<K>, key: K)
    ensures
        0 <= first_index(keys, key) <= keys.len(),
        forall|j: int| 0 <= j < first_index(keys, key) ==> keys[j] != key,
        first_index(keys, key) < keys.len() ==> keys[first_index(keys, key)] == key,
    decreases keys.len(),
{
    if keys.len() > 0 && keys[0] != key {
        let rest = keys.drop_first();
        lemma_first_index(rest, key);
        assert forall|j: int| 0 <= j < first_index(keys, key) implies keys[j] != key by {
            if j > 0 {
                assert(keys[j] == rest[j - 1]);
            }
        }
    }
}

/// An index that no equal key precedes, and at which the key stands or
/// the sequence ends, is the `first_index`.
pub proof fn lemma_first_index_is<K>(keys: Seq<K>, key: K, i: int)
    requires
        0 <= i <= keys.len(),
        forall|j: int| 0 <= j < i ==> keys[j] != key,
        i < keys.len() ==> keys[i] == key,
    ensures
        first_index(keys, key) == i,
    decreases keys.len(),
{
    if keys.len() > 0 && keys[0] != key {
        let rest = keys.drop_first();
        assert forall|j: int| 0 <= j < i - 1 implies rest[j] != key by {
            assert(rest[j] == keys[j + 1]);
        }
        lemma_first_index_is(rest, key, i - 1);
    }
}

/// What `position` says of a key: see [`lemma_first_index`].
pub proof fn lemma_position<K, V>(entries: Seq<(K, V)>, key: K)
    ensures
        0 <= position(entries, key) <= entries.len(),
        forall|j: int| 0 <= j < position(entries, key) ==> (#[trigger] entries[j]).0 != key,
        contains_key(entries, key) ==> entries[position(entries, key)].0 == key,
        !contains_key(entries, key) ==> forall|j: int|
            0 <= j < entries.len() ==> (#[trigger] entries[j]).0 != key,
{
    lemma_first_index(keys_of(entries), key);
    assert forall|j: int| 0 <= j < position(entries, key) implies (#[trigger] entries[j]).0
        != key by {
        assert(keys_of(entries)[j] == entries[j].0);
    }
}

/// With distinct keys, the entry at index `i` is the one that a lookup of
/// its key finds.
pub proof fn lemma_position_of_entry<K, V>(entries: Seq<(K, V)>, i: int)
    requires
        distinct_keys(entries),
        0 <= i < entries.len(),
    ensures
        position(entries, entries[i].0) == i,
        lookup(entries, entries[i].0) == Some(entries[i].1),
{
    let keys = keys_of(entries);
    assert forall|j: int| 0 <= j < i implies keys[j] != entries[i].0 by {
        assert(keys[i] == entries[i].0);
    }
    lemma_first_index_is(keys, entries[i].0, i);
}

/// Putting a key keeps the keys distinct; the key is there afterwards,
/// with the value put; every other key keeps its value.
pub proof fn lemma_upsert<K, V>(entries: Seq<(K, V)>, key: K, value: V)
    requires
        distinct_keys(entries),
    ensures
        distinct_keys(upsert(entries, key, value)),
        lookup(upsert(entries, key, value), key) == Some(value),
        forall|other: K|
            other != key ==> #[trigger] lookup(upsert(entries, key, value), other) == lookup(
                entries,
                other,
            ),
        upsert(entries, key, value).len() == if contains_key(entries, key) {
            entries.len()
        } else {
            entries.len() + 1
        },
{
    let after = upsert(entries, key, value);
    let p = position(entries, key);
    lemma_position(entries, key);
    assert forall|i: int, j: int|
        0 <= i < after.len() && 0 <= j < after.len() && i != j implies keys_of(after)[i]
        != keys_of(after)[j] by {
        if i < entries.len() && j < entries.len() {
            assert(keys_of(entries)[i] != keys_of(entries)[j]);
        }
    }
    assert forall|j: int| 0 <= j < p implies keys_of(after)[j] != key by {
        assert(entries[j].0 != key);
    }
    lemma_first_index_is(keys_of(after), key, p);
    assert forall|other: K| other != key implies #[trigger] lookup(after, other) == lookup(
        entries,
        other,
    ) by {
        let q = position(entries, other);
        lemma_position(entries, other);
        assert forall|j: int| 0 <= j < q implies keys_of(after)[j] != other by {
            assert(entries[j].0 != other);
        }
        if q < entries.len() {
            lemma_first_index_is(keys_of(after), other, q);
        } else {
            assert forall|j: int| 0 <= j < after.len() implies keys_of(after)[j] != other by {
                if j < entries.len() {
                    assert(entries[j].0 != other);
                }
            }
            lemma_first_index_is(keys_of(after), other, after.len() as int);
        }
    }
}

/// Overwriting keeps the keys distinct.
pub proof fn lemma_overwrite_distinct<K, V>(target: Seq<(K, V)>, source: Seq<(K, V)>)
    requires
        distinct_keys(target),
    ensures
        distinct_keys(overwrite(target, source)),
    decreases source.len(),
{
    if source.len() > 0 {
        lemma_overwrite_distinct(target, source.drop_last());
        lemma_upsert(overwrite(target, source.drop_last()), source.last().0, source.last().1);
    }
}

/// Filling keeps the keys distinct, adds nothing in front, and changes no
/// entry of the target.
pub proof fn lemma_fill<K, V>(target: Seq<(K, V)>, source: Seq<(K, V)>)
    requires
        distinct_keys(target),
    ensures
        distinct_keys(fill(target, source)),
        fill(target, source).len() >= target.len(),
        fill(target, source).subrange(0, target.len() as int) == target,
    decreases source.len(),
{
    if source.len() > 0 {
        let filled = fill(target, source.drop_last());
        lemma_fill(target, source.drop_last());
        let last = source.last();
        if !contains_key(filled, last.0) {
            lemma_position(filled, last.0);
            let after = filled.push(last);
            assert forall|i: int, j: int|
                0 <= i < after.len() && 0 <= j < after.len() && i != j implies keys_of(after)[i]
                != keys_of(after)[j] by {
                if i < filled.len() && j < filled.len() {
                    assert(keys_of(filled)[i] != keys_of(filled)[j]);
                } else if i < filled.len() {
                    assert(filled[i].0 != last.0);
                } else {
                    assert(filled[j].0 != last.0);
                }
            }
            assert(after.subrange(0, target.len() as int) == filled.subrange(
                0,
                target.len() as int,
            ));
        }
    } else {
        assert(target.subrange(0, target.len() as int) == target);
    }
}

/// `entries` with every value replaced by what `f` makes of it.
pub open spec fn map_pairs<K, V, W>(entries: Seq<(K, V)>, f: spec_fn(V) -> W) -> Seq<(K, W)> {
    entries.map_values(|e: (K, V)| (e.0, f(e.1)))
}

/// Replacing the values leaves every key where it is.
pub proof fn lemma_map_pairs_position<K, V, W>(entries: Seq<(K, V)>, f: spec_fn(V) -> W, key: K)
    ensures
        position(map_pairs(entries, f), key) == position(entries, key),
{
    assert(keys_of(map_pairs(entries, f)) =~= keys_of(entries));
}

/// Putting a value and then replacing the values is putting what `f`
/// makes of the value after replacing them.
pub proof fn lemma_map_pairs_upsert<K, V, W>(
    entries: Seq<(K, V)>,
    f: spec_fn(V) -> W,
    key: K,
    value: V,
)
    ensures
        map_pairs(upsert(entries, key, value), f) == upsert(map_pairs(entries, f), key, f(value)),
{
    lemma_map_pairs_position(entries, f, key);
    lemma_position(entries, key);
    assert(map_pairs(upsert(entries, key, value), f) =~= upsert(
        map_pairs(entries, f),
        key,
        f(value),
    ));
}

/// The entries of `entries` whose value `keep` holds of, in order.
pub open spec fn retain<K, V>(entries: Seq<(K, V)>, keep: spec_fn(V) -> bool) -> Seq<(K, V)>
    decreases entries.len(),
{
    if entries.len() == 0 {
        entries
    } else if keep(entries.last().1) {
        retain(entries.drop_last(), keep).push(entries.last())
    } else {
        retain(entries.drop_last(), keep)
    }
}

/// Does `holds` hold of every value in `entries`?
pub open spec fn all_values<K, V>(entries: Seq<(K, V)>, holds: spec_fn(V) -> bool) -> bool {
    forall|i: int| 0 <= i < entries.len() ==> holds((#[trigger] entries[i]).1)
}

/// Every entry that is retained is an entry of the table, and is kept;
/// the keys stay distinct.
pub proof fn lemma_retain<K, V>(entries: Seq<(K, V)>, keep: spec_fn(V) -> bool)
    ensures
        retain(entries, keep).len() <= entries.len(),
        forall|i: int|
            0 <= i < retain(entries, keep).len() ==> keep((#[trigger] retain(entries, keep)[i]).1)
                && entries.contains(retain(entries, keep)[i]),
        forall|j: int|
            0 <= j < entries.len() && keep(entries[j].1) ==> retain(entries, keep).contains(
                #[trigger] entries[j],
            ),
        distinct_keys(entries) ==> distinct_keys(retain(entries, keep)),
    decreases entries.len(),
{
    if entries.len() > 0 {
        let rest = entries.drop_last();
        let last = entries.last();
        lemma_retain(rest, keep);
        let kept = retain(entries, keep);
        let kept_rest = retain(rest, keep);
        assert forall|i: int| 0 <= i < kept.len() implies keep((#[trigger] kept[i]).1)
            && entries.contains(kept[i]) by {
            if i < kept_rest.len() {
                let j = choose|j: int| 0 <= j < rest.len() && rest[j] == kept_rest[i];
                assert(entries[j] == kept[i]);
            } else {
                assert(entries[entries.len() - 1] == kept[i]);
            }
        }
        assert forall|j: int| 0 <= j < entries.len() && keep(entries[j].1) implies kept.contains(
            #[trigger] entries[j],
        ) by {
            if j < rest.len() {
                assert(rest[j] == entries[j]);
                let i = choose|i: int| 0 <= i < kept_rest.len() && kept_rest[i] == rest[j];
                assert(kept[i] == entries[j]);
            } else {
                assert(kept[kept.len() - 1] == entries[j]);
            }
        }
        if distinct_keys(entries) {
            assert(keys_of(rest) =~= keys_of(entries).drop_last());
            assert(distinct_keys(rest));
            if keep(last.1) {
                assert forall|i: int, j: int|
                    0 <= i < kept.len() && 0 <= j < kept.len() && i != j implies keys_of(kept)[i]
                    != keys_of(kept)[j] by {
                    if i < kept_rest.len() && j < kept_rest.len() {
                        assert(keys_of(kept_rest)[i] != keys_of(kept_rest)[j]);
                    } else {
                        let inner = if i < kept_rest.len() {
                            i
                        } else {
                            j
                        };
                        let at = choose|at: int|
                            0 <= at < rest.len() && rest[at] == kept_rest[inner];
                        assert(keys_of(entries)[at] != keys_of(entries)[entries.len() - 1]);
                    }
                }
            }
        }
    }
}

/// What holds of every value of a table holds of every value after a
/// value of which it holds is put.
pub proof fn lemma_upsert_all_values<K, V>(
    entries: Seq<(K, V)>,
    key: K,
    value: V,
    holds: spec_fn(V) -> bool,
)
    requires
        all_values(entries, holds),
        holds(value),
    ensures
        all_values(upsert(entries, key, value), holds),
{
    lemma_position(entries, key);
    let after = upsert(entries, key, value);
    assert forall|i: int| 0 <= i < after.len() implies holds((#[trigger] after[i]).1) by {
        if i < entries.len() && i != position(entries, key) {
            assert(after[i] == entries[i]);
        }
    }
}

/// What holds of every value of two tables holds of every value after one
/// is written over the other.
pub proof fn lemma_overwrite_all_values<K, V>(
    target: Seq<(K, V)>,
    source: Seq<(K, V)>,
    holds: spec_fn(V) -> bool,
)
    requires
        all_values(target, holds),
        all_values(source, holds),
    ensures
        all_values(overwrite(target, source), holds),
    decreases source.len(),
{
    if source.len() > 0 {
        assert forall|i: int| 0 <= i < source.drop_last().len() implies holds(
            (#[trigger] source.drop_last()[i]).1,
        ) by {
            assert(source.drop_last()[i] == source[i]);
        }
        lemma_overwrite_all_values(target, source.drop_last(), holds);
        assert(holds(source[source.len() - 1].1));
        lemma_upsert_all_values(
            overwrite(target, source.drop_last()),
            source.last().0,
            source.last().1,
            holds,
        );
    }
}

/// What holds of every value of two tables holds of every value after one
/// is filled from the other.
pub proof fn lemma_fill_all_values<K, V>(
    target: Seq<(K, V)>,
    source: Seq<(K, V)>,
    holds: spec_fn(V) -> bool,
)
    requires
        all_values(target, holds),
        all_values(source, holds),
    ensures
        all_values(fill(target, source), holds),
    decreases source.len(),
{
    if source.len() > 0 {
        assert forall|i: int| 0 <= i < source.drop_last().len() implies holds(
            (#[trigger] source.drop_last()[i]).1,
        ) by {
            assert(source.drop_last()[i] == source[i]);
        }
        lemma_fill_all_values(target, source.drop_last(), holds);
        assert(holds(source[source.len() - 1].1));
        let filled = fill(target, source.drop_last());
        let after = fill(target, source);
        assert forall|i: int| 0 <= i < after.len() implies holds((#[trigger] after[i]).1) by {
            if i < filled.len() {
                assert(after[i] == filled[i]);
            }
        }
    }
}

/// The keys after a put depend on the keys before it and on the key put,
/// not on any value.
pub proof fn lemma_upsert_keys<K, V, W>(
    entries: Seq<(K, V)>,
    others: Seq<(K, W)>,
    key: K,
    value: V,
    other_value: W,
)
    requires
        keys_of(entries) == keys_of(others),
    ensures
        keys_of(upsert(entries, key, value)) == keys_of(upsert(others, key, other_value)),
        contains_key(entries, key) == contains_key(others, key),
        position(entries, key) == position(others, key),
{
    assert(entries.len() == keys_of(entries).len());
    assert(others.len() == keys_of(others).len());
    lemma_position(entries, key);
    lemma_position(others, key);
    let p = position(entries, key);
    let a = keys_of(upsert(entries, key, value));
    let b = keys_of(upsert(others, key, other_value));
    if contains_key(entries, key) {
        assert(upsert(entries, key, value) == entries.update(p, (key, value)));
        assert(upsert(others, key, other_value) == others.update(p, (key, other_value)));
        assert(a.len() == entries.len());
        assert(b.len() == entries.len());
        assert forall|i: int| 0 <= i < a.len() implies a[i] == b[i] by {
            assert(a[i] == entries.update(p, (key, value))[i].0);
            assert(b[i] == others.update(p, (key, other_value))[i].0);
            if i != p {
                assert(keys_of(entries)[i] == entries[i].0);
                assert(keys_of(others)[i] == others[i].0);
                assert(entries.update(p, (key, value))[i] == entries[i]);
                assert(others.update(p, (key, other_value))[i] == others[i]);
            }
        }
        assert(a =~= b);
    } else {
        assert(upsert(entries, key, value) == entries.push((key, value)));
        assert(upsert(others, key, other_value) == others.push((key, other_value)));
        assert(a.len() == entries.len() + 1);
        assert(b.len() == entries.len() + 1);
        assert forall|i: int| 0 <= i < a.len() implies a[i] == b[i] by {
            assert(a[i] == entries.push((key, value))[i].0);
            assert(b[i] == others.push((key, other_value))[i].0);
            if i < entries.len() {
                assert(keys_of(entries)[i] == entries[i].0);
                assert(keys_of(others)[i] == others[i].0);
                assert(entries.push((key, value))[i] == entries[i]);
                assert(others.push((key, other_value))[i] == others[i]);
            }
        }
        assert(a =~= b);
    }
}

/// A key is in the first `count + 1` entries if it is in the first
/// `count` or is the key of the entry after them.
pub proof fn lemma_contains_key_take<K, V>(entries: Seq<(K, V)>, count: int, key: K)
    requires
        0 <= count < entries.len(),
    ensures
        contains_key(entries.take(count + 1), key) <==> contains_key(entries.take(count), key)
            || entries[count].0 == key,
{
    let shorter = entries.take(count);
    let longer = entries.take(count + 1);
    lemma_position(shorter, key);
    lemma_position(longer, key);
    if contains_key(shorter, key) {
        let p = position(shorter, key);
        assert(longer[p] == shorter[p]);
    } else if entries[count].0 == key {
        assert(longer[count] == entries[count]);
    } else {
        if contains_key(longer, key) {
            let p = position(longer, key);
            if p < count {
                assert(shorter[p] == longer[p]);
            }
        }
    }
}

/// A key that no entry has is not in the table, and a key that some
/// entry has is.
pub proof fn lemma_contains_key<K, V>(entries: Seq<(K, V)>, key: K)
    ensures
        contains_key(entries, key) <==> exists|i: int|
            0 <= i < entries.len() && (#[trigger] entries[i]).0 == key,
{
    lemma_position(entries, key);
    if contains_key(entries, key) {
        assert(entries[position(entries, key)].0 == key);
    }
}

/// A key that tables are searched by.
pub trait TableKey: Sized {
    /// What the key is compared by.
    type Model;

    spec fn model(&self) -> Self::Model;

    /// Are the two keys the same key?
    fn same(&self, other: &Self) -> (r: bool)
        ensures
            r == (self.model() == other.model()),
    ;

    /// Another key that is the same key.
    fn duplicate(&self) -> (r: Self)
        ensures
            r.model() == self.model(),
    ;
}

impl TableKey for ImmutableString {
    type Model = Seq<char>;

    open spec fn model(&self) -> Seq<char> {
        self@
    }

    fn same(&self, other: &Self) -> (r: bool) {
        let a: &String = self;
        let b: &String = other;
        *a == *b
    }

    fn duplicate(&self) -> (r: Self) {
        self.clone()
    }
}

impl TableKey for u64 {
    type Model = u64;

    open spec fn model(&self) -> u64 {
        *self
    }

    fn same(&self, other: &Self) -> (r: bool) {
        *self == *other
    }

    fn duplicate(&self) -> (r: Self) {
        *self
    }
}

impl TableKey for TypeId {
    type Model = TypeId;

    open spec fn model(&self) -> TypeId {
        *self
    }

    fn same(&self, other: &Self) -> (r: bool) {
        self.id == other.id
    }

    fn duplicate(&self) -> (r: Self) {
        *self
    }
}

/// A value of which a copy is the value again.
pub trait Share: Sized {
    fn share(&self) -> (r: Self)
        ensures
            r == *self,
    ;
}

/// One entry of a table.
pub struct Entry<K, V> {
    pub key: K,
    pub value: V,
}

/// The pairs of a table, in order.
pub open spec fn pairs<K: TableKey, V>(entries: Seq<Entry<K, V>>) -> Seq<(K::Model, V)> {
    entries.map_values(|e: Entry<K, V>| (e.key.model(), e.value))
}

/// Finds `key`: the index of its entry, or the length of the table.
pub fn find<K: TableKey, V>(entries: &Vec<Entry<K, V>>, key: &K) -> (i: usize)
    ensures
        i == position(pairs(entries@), key.model()),
        i <= entries@.len(),
        i < entries@.len() ==> entries@[i as int].key.model() == key.model(),
{
    let mut i: usize = 0;
    while i < entries.len()
        invariant
            i <= entries@.len(),
            forall|j: int| 0 <= j < i ==> (#[trigger] entries@[j]).key.model() != key.model(),
        decreases entries@.len() - i,
    {
        if entries[i].key.same(key) {
            proof {
                lemma_first_index_is(keys_of(pairs(entries@)), key.model(), i as int);
            }
            return i;
        }
        i += 1;
    }
    proof {
        lemma_first_index_is(keys_of(pairs(entries@)), key.model(), i as int);
    }
    i
}

/// Puts `value` under `key`.
pub fn put<K: TableKey, V>(entries: &mut Vec<Entry<K, V>>, key: K, value: V)
    ensures
        pairs(final(entries)@) == upsert(pairs(old(entries)@), key.model(), value),
{
    let i = find(entries, &key);
    if i < entries.len() {
        entries.set(i, Entry { key, value });
        assert(pairs(entries@) =~= upsert(pairs(old(entries)@), key.model(), value));
    } else {
        entries.push(Entry { key, value });
        assert(pairs(entries@) =~= upsert(pairs(old(entries)@), key.model(), value));
    }
}

/// Puts a copy of every entry of `source` into `target`, in order.
pub fn put_all<K: TableKey, V: Share>(target: &mut Vec<Entry<K, V>>, source: &Vec<Entry<K, V>>)
    ensures
        pairs(final(target)@) == overwrite(pairs(old(target)@), pairs(source@)),
{
    let mut i: usize = 0;
    while i < source.len()
        invariant
            i <= source@.len(),
            pairs(target@) == overwrite(pairs(old(target)@), pairs(source@).take(i as int)),
        decreases source@.len() - i,
    {
        assert(pairs(source@).take(i + 1).drop_last() == pairs(source@).take(i as int));
        put(target, source[i].key.duplicate(), source[i].value.share());
        i += 1;
    }
    assert(pairs(source@).take(i as int) == pairs(source@));
}

/// Adds a copy of every entry of `source` whose key `target` lacks, in
/// order.
pub fn fill_all<K: TableKey, V: Share>(target: &mut Vec<Entry<K, V>>, source: &Vec<Entry<K, V>>)
    ensures
        pairs(final(target)@) == fill(pairs(old(target)@), pairs(source@)),
{
    let mut i: usize = 0;
    while i < source.len()
        invariant
            i <= source@.len(),
            pairs(target@) == fill(pairs(old(target)@), pairs(source@).take(i as int)),
        decreases source@.len() - i,
    {
        assert(pairs(source@).take(i + 1).drop_last() == pairs(source@).take(i as int));
        let at = find(target, &source[i].key);
        if at >= target.len() {
            let ghost before = pairs(target@);
            target.push(Entry { key: source[i].key.duplicate(), value: source[i].value.share() });
            assert(pairs(target@) =~= before.push(pairs(source@)[i as int]));
        }
        i += 1;
    }
    assert(pairs(source@).take(i as int) == pairs(source@));
}

} // verus!

verus! {

/// A copy of a table.
pub fn copy_entries<K: TableKey, V: Share>(entries: &Vec<Entry<K, V>>) -> (copy: Vec<Entry<K, V>>)
    ensures
        pairs(copy@) == pairs(entries@),
{
    let mut copy: Vec<Entry<K, V>> = Vec::new();
    let mut i: usize = 0;
    while i < entries.len()
        invariant
            i <= entries@.len(),
            pairs(copy@) == pairs(entries@).take(i as int),
        decreases entries@.len() - i,
    {
        let ghost before = pairs(copy@);
        copy.push(Entry { key: entries[i].key.duplicate(), value: entries[i].value.share() });
        assert(pairs(copy@) =~= before.push(pairs(entries@)[i as int]));
        assert(before.push(pairs(entries@)[i as int]) =~= pairs(entries@).take(i + 1));
        i += 1;
    }
    assert(pairs(entries@).take(i as int) == pairs(entries@));
    copy
}

} // verus!
