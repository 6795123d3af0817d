//! A small least-recently-used cache of previews, keyed by path.
use vstd::prelude::*;
use crate::domain::preview::{PreviewModel, PreviewModelView};
use lru::LruCache;
use std::num::NonZeroUsize;
use crate::paths::{path_key, path_key_of};
use std::collections::hash_map::RandomState;

verus! {

#[verifier::external_type_specification]
#[verifier::external_body]
#[verifier::reject_recursive_types(K)]
#[verifier::reject_recursive_types(V)]
#[verifier::reject_recursive_types(S)]
pub struct ExLruCache<K, V, S>(LruCache<K, V, S>);

/// The entries of an `lru::LruCache`, most recently used first.
pub uninterp spec fn lru_entries(c: LruCache<String, PreviewModel, RandomState>) -> Seq<(Seq<char>, PreviewModelView)>;

/// The capacity an `lru::LruCache` was made with.
pub uninterp spec fn lru_capacity(c: LruCache<String, PreviewModel, RandomState>) -> nat;

/// The position of the entry for `key`, if there is one.
pub open spec fn position_of(entries: Seq<(Seq<char>, PreviewModelView)>, key: Seq<char>) -> Option<int> {
    if exists|i: int| 0 <= i < entries.len() && entries[i].0 == key {
        Some(choose|i: int| 0 <= i < entries.len() && entries[i].0 == key)
    } else {
        None
    }
}

/// Whether no key occurs twice.
pub open spec fn keys_unique(entries: Seq<(Seq<char>, PreviewModelView)>) -> bool {
    forall|i: int, j: int| 0 <= i < j < entries.len() ==> entries[i].0 != entries[j].0
}

/// The entries after `key` is looked up: a hit moves to the front.
pub open spec fn entries_after_get(entries: Seq<(Seq<char>, PreviewModelView)>, key: Seq<char>) -> Seq<(Seq<char>, PreviewModelView)> {
    match position_of(entries, key) {
        Some(i) => seq![entries[i]] + entries.remove(i),
        None => entries,
    }
}

/// The entries after `key` is stored with `value` in a cache of capacity `cap`:
/// an existing entry is replaced and moves to the front; otherwise the new entry goes
/// to the front, evicting the least recently used one when the cache is full.
pub open spec fn entries_after_put(
    entries: Seq<(Seq<char>, PreviewModelView)>,
    cap: nat,
    key: Seq<char>,
    value: PreviewModelView,
) -> Seq<(Seq<char>, PreviewModelView)> {
    match position_of(entries, key) {
        Some(i) => seq![(key, value)] + entries.remove(i),
        None => if entries.len() >= cap {
            seq![(key, value)] + entries.drop_last()
        } else {
            seq![(key, value)] + entries
        },
    }
}

/// `LruCache::with_hasher`: an empty cache holding at most `capacity` entries.
#[verifier::external_body]
fn lru_new(capacity: usize) -> (c: LruCache<String, PreviewModel, RandomState>)
    requires
        capacity >= 1,
    ensures
        lru_entries(c) == Seq::<(Seq<char>, PreviewModelView)>::empty(),
        lru_capacity(c) == capacity,
{
    LruCache::with_hasher(NonZeroUsize::new(capacity).unwrap(), RandomState::new())
}

/// `LruCache::get` followed by a copy of the value found: a hit becomes the most recently used.
#[verifier::external_body]
fn lru_get(c: &mut LruCache<String, PreviewModel, RandomState>, key: &String) -> (r: Option<PreviewModel>)
    ensures
        lru_capacity(*final(c)) == lru_capacity(*old(c)),
        lru_entries(*final(c)) == entries_after_get(lru_entries(*old(c)), key@),
        match position_of(lru_entries(*old(c)), key@) {
            Some(i) => r matches Some(m) && m@ == lru_entries(*old(c))[i].1,
            None => r is None,
        },
{
    c.get(key).cloned()
}

/// `LruCache::put`.
#[verifier::external_body]
fn lru_put(c: &mut LruCache<String, PreviewModel, RandomState>, key: String, value: PreviewModel)
    ensures
        lru_capacity(*final(c)) == lru_capacity(*old(c)),
        lru_entries(*final(c)) == entries_after_put(
            lru_entries(*old(c)),
            lru_capacity(*old(c)),
            key@,
            value@,
        ),
{
    c.put(key, value);
}

/// Previews already loaded, keyed by path (compared by components).
#[derive(Debug)]
pub struct PreviewCache {
    inner: LruCache<String, PreviewModel, RandomState>,
}

pub struct PreviewCacheView {
    pub entries: Seq<(Seq<char>, PreviewModelView)>,
    pub capacity: nat,
}

impl View for PreviewCache {
    type V = PreviewCacheView;

    closed spec fn view(&self) -> PreviewCacheView {
        PreviewCacheView { entries: lru_entries(self.inner), capacity: lru_capacity(self.inner) }
    }
}

impl PreviewCache {
    /// An empty cache; a capacity of 0 is taken as 1.
    pub fn new(capacity: usize) -> (r: PreviewCache)
        ensures
            r@.entries == Seq::<(Seq<char>, PreviewModelView)>::empty(),
            r@.capacity == if capacity == 0 { 1 } else { capacity },
    {
        let cap = if capacity == 0 { 1 } else { capacity };
        PreviewCache { inner: lru_new(cap) }
    }

    /// The cached preview of `path`, which becomes the most recently used. Paths are
    /// compared as paths, by their components (`path_key`).
    pub fn get(&mut self, path: &String) -> (r: Option<PreviewModel>)
        ensures
            final(self)@.capacity == old(self)@.capacity,
            final(self)@.entries == entries_after_get(old(self)@.entries, path_key(path@)),
            match position_of(old(self)@.entries, path_key(path@)) {
                Some(i) => r matches Some(m) && m@ == old(self)@.entries[i].1,
                None => r is None,
            },
    {
        let key = path_key_of(path.as_str());
        lru_get(&mut self.inner, &key)
    }

    /// Stores the preview of `path`, under its key.
    pub fn put(&mut self, path: String, model: PreviewModel)
        ensures
            final(self)@.capacity == old(self)@.capacity,
            final(self)@.entries == entries_after_put(
                old(self)@.entries,
                old(self)@.capacity,
                path_key(path@),
                model@,
            ),
    {
        let key = path_key_of(path.as_str());
        lru_put(&mut self.inner, key, model);
    }
}

} // verus!
