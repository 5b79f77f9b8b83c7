//! A small generic lookup engine over in-memory tables.
//!
//! Every entity is searched the same way: scan a table front to back and
//! take the first record whose key matches, mirroring a `first match wins`
//! filtered query.  The `Keyed` trait says what it means for a record to
//! match a key of a given kind, and `find_first` / `collect_matches` are
//! the two verified scans the whole facade is built from.

use vstd::prelude::*;

verus! {

/// A record that can be copied, with a contract that the copy equals the
/// original; derived `Clone` promises nothing to verified callers.
pub trait Duplicate: Sized {
    /// A copy that provably equals the original record.
    fn duplicate(&self) -> (r: Self)
        ensures
            r == *self,
    ;
}

/// A record that can be matched against a key of type `K`.
pub trait Keyed<K>: Sized {
    /// Whether this record matches the key.
    spec fn key_matches(&self, key: &K) -> bool;

    /// Decides `key_matches` executably.
    fn matches(&self, key: &K) -> (b: bool)
        ensures
            b == self.key_matches(key),
    ;
}

/// `i` is the position of the first record in `items` matching `key`.
pub open spec fn first_key_at<K, T: Keyed<K>>(items: Seq<T>, key: &K, i: int) -> bool {
    &&& 0 <= i < items.len()
    &&& items[i].key_matches(key)
    &&& forall|j: int| 0 <= j < i ==> !(#[trigger] items[j].key_matches(key))
}

/// Some record in `items` matches `key`.
pub open spec fn has_key<K, T: Keyed<K>>(items: Seq<T>, key: &K) -> bool {
    exists|i: int| 0 <= i < items.len() && (#[trigger] items[i].key_matches(key))
}

/// The subsequence of `items` matching `key`, in table order.
pub open spec fn key_matches_of<K, T: Keyed<K>>(items: Seq<T>, key: &K) -> Seq<T> {
    items.filter(|t: T| t.key_matches(key))
}

/// A record appended to a table that had no match for `key` becomes the
/// first match: a lookup right after such an insert finds exactly the
/// inserted record.
pub proof fn lemma_insert_then_find<K, T: Keyed<K>>(items: Seq<T>, key: &K, item: T)
    requires
        !has_key(items, key),
        item.key_matches(key),
    ensures
        first_key_at(items.push(item), key, items.len() as int),
{
    assert forall|j: int| 0 <= j < items.len() implies !(items.push(item)[j].key_matches(key)) by {
        assert(!(items[j].key_matches(key)));
    }
}

/// Scans `items` front to back and returns the index of the first record
/// matching `key`, if any.
pub fn find_first<K, T: Keyed<K>>(items: &Vec<T>, key: &K) -> (r: Option<usize>)
    ensures
        match r {
            Some(i) => first_key_at(items@, key, i as int),
            None => !has_key(items@, key),
        },
{
    let mut i: usize = 0;
    while i < items.len()
        invariant
            i <= items@.len(),
            forall|j: int| 0 <= j < i ==> !(#[trigger] items@[j].key_matches(key)),
        decreases items@.len() - i,
    {
        if items[i].matches(key) {
            return Some(i);
        }
        i = i + 1;
    }
    None
}

/// Copies a whole table, in order.
pub fn duplicate_all<T: Duplicate>(items: &Vec<T>) -> (r: Vec<T>)
    ensures
        r@ == items@,
{
    let mut out: Vec<T> = Vec::new();
    let mut i: usize = 0;
    while i < items.len()
        invariant
            i <= items@.len(),
            out@ == items@.subrange(0, i as int),
        decreases items@.len() - i,
    {
        let copied = items[i].duplicate();
        out.push(copied);
        proof {
            assert(items@.subrange(0, i + 1) =~= items@.subrange(0, i as int).push(
                items@[i as int],
            ));
        }
        i = i + 1;
    }
    proof {
        assert(items@.subrange(0, items@.len() as int) =~= items@);
    }
    out
}

/// Collects a copy of every record in `items` matching `key`, in table
/// order.
pub fn collect_matches<K, T: Keyed<K> + Duplicate>(items: &Vec<T>, key: &K) -> (r: Vec<T>)
    ensures
        r@ == key_matches_of(items@, key),
{
    let mut out: Vec<T> = Vec::new();
    let mut i: usize = 0;
    while i < items.len()
        invariant
            i <= items@.len(),
            out@ == key_matches_of(items@.subrange(0, i as int), key),
        decreases items@.len() - i,
    {
        if items[i].matches(key) {
            let copied = items[i].duplicate();
            out.push(copied);
        }
        proof {
            assert(items@.subrange(0, i + 1) =~= items@.subrange(0, i as int).push(
                items@[i as int],
            ));
            let pred = |t: T| t.key_matches(key);
            items@.subrange(0, i as int).lemma_filter_push(items@[i as int], pred);
        }
        i = i + 1;
    }
    proof {
        assert(items@.subrange(0, items@.len() as int) =~= items@);
    }
    out
}

} // verus!
