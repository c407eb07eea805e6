//! The shared response cache: a mapping from request identities (fully
//! resolved URLs) to the raw response bodies obtained for them.
//!
//! [`CacheStore`] is the plain storage with exact contracts over its
//! abstract `Map` view.  [`SharedCache`] wraps one store in a
//! reference-counted, internally synchronized handle, so that every facade
//! constructed from the same root client reads and writes one storage
//! instance; all access goes through the lock for the full operation.

use std::sync::Arc;
use vstd::prelude::*;
use vstd::rwlock::{RwLock, RwLockPredicate};

verus! {

/// The abstract contents of a sequence of cache entries: later entries win,
/// though a well-formed store never holds a key twice.
pub open spec fn entries_map(s: Seq<(String, String)>) -> Map<Seq<char>, Seq<char>>
    decreases s.len(),
{
    if s.len() == 0 {
        Map::empty()
    } else {
        entries_map(s.drop_last()).insert(s.last().0@, s.last().1@)
    }
}

/// What a cache lookup yields on the abstract contents.
pub open spec fn cache_lookup(m: Map<Seq<char>, Seq<char>>, url: Seq<char>) -> Option<Seq<char>> {
    if m.contains_key(url) {
        Some(m[url])
    } else {
        None
    }
}

/// The raw response bodies fetched so far, keyed by request identity.
/// An entry is created on the first successful fetch for its identity and
/// is never removed or overwritten afterwards.
pub struct CacheStore {
    entries: Vec<(String, String)>,
}

impl View for CacheStore {
    type V = Map<Seq<char>, Seq<char>>;

    closed spec fn view(&self) -> Map<Seq<char>, Seq<char>> {
        entries_map(self.entries@)
    }
}

/// Every identity present at an entry index is present in the contents.
proof fn lemma_entry_in_map(s: Seq<(String, String)>, i: int)
    requires
        0 <= i < s.len(),
        forall|p: int, q: int| 0 <= p < q < s.len() ==> s[p].0@ != s[q].0@,
    ensures
        entries_map(s).contains_key(s[i].0@),
        entries_map(s)[s[i].0@] == s[i].1@,
    decreases s.len(),
{
    if i < s.len() - 1 {
        lemma_entry_in_map(s.drop_last(), i);
    }
}

/// An identity held by no entry is absent from the contents.
proof fn lemma_absent_from_map(s: Seq<(String, String)>, url: Seq<char>)
    requires
        forall|j: int| 0 <= j < s.len() ==> s[j].0@ != url,
    ensures
        !entries_map(s).contains_key(url),
    decreases s.len(),
{
    if s.len() > 0 {
        lemma_absent_from_map(s.drop_last(), url);
    }
}

/// Appending an entry inserts its pair into the contents.
proof fn lemma_push_inserts(s: Seq<(String, String)>, p: (String, String))
    ensures
        entries_map(s.push(p)) == entries_map(s).insert(p.0@, p.1@),
{
    assert(s.push(p).drop_last() =~= s);
    assert(s.push(p).last() == p);
}

impl CacheStore {
    /// A store is well formed when no identity appears twice.
    pub closed spec fn wf(&self) -> bool {
        forall|p: int, q: int|
            0 <= p < q < self.entries@.len() ==> self.entries@[p].0@ != self.entries@[q].0@
    }

    /// Creates an empty store.
    pub fn new() -> (r: CacheStore)
        ensures
            r.wf(),
            r@ == Map::<Seq<char>, Seq<char>>::empty(),
    {
        CacheStore { entries: Vec::new() }
    }

    /// Looks a request identity up: the stored raw body on a hit, and
    /// `None` exactly when the identity was never stored.
    pub fn get(&self, url: &str) -> (r: Option<String>)
        requires
            self.wf(),
        ensures
            r is None <==> cache_lookup(self@, url@) is None,
            r matches Some(b) ==> cache_lookup(self@, url@) == Some(b@),
    {
        let key: String = url.to_owned();
        let n = self.entries.len();
        let mut i: usize = 0;
        while i < n
            invariant
                n == self.entries@.len(),
                self.wf(),
                key@ == url@,
                forall|j: int| 0 <= j < i ==> self.entries@[j].0@ != url@,
            decreases n - i,
        {
            if self.entries[i].0 == key {
                proof {
                    lemma_entry_in_map(self.entries@, i as int);
                }
                return Some(self.entries[i].1.clone());
            }
            i += 1;
        }
        proof {
            lemma_absent_from_map(self.entries@, url@);
        }
        None
    }

    /// Records the raw body fetched for a request identity.  A body already
    /// stored for that identity stays: no entry is ever overwritten.
    pub fn insert(&mut self, url: String, body: String)
        requires
            old(self).wf(),
        ensures
            final(self).wf(),
            final(self)@ == (if old(self)@.contains_key(url@) {
                old(self)@
            } else {
                old(self)@.insert(url@, body@)
            }),
    {
        match self.get(url.as_str()) {
            Some(_) => {},
            None => {
                proof {
                    assert forall|j: int| 0 <= j < self.entries@.len() implies self.entries@[j].0@
                        != url@ by {
                        if self.entries@[j].0@ == url@ {
                            lemma_entry_in_map(self.entries@, j);
                        }
                    }
                    lemma_push_inserts(self.entries@, (url, body));
                }
                self.entries.push((url, body));
            },
        }
    }
}

/// The lock invariant of a shared cache: the store stays well formed.
pub struct CachePred {}

impl RwLockPredicate<CacheStore> for CachePred {
    open spec fn inv(self, v: CacheStore) -> bool {
        v.wf()
    }
}

/// A reference-counted handle to one internally synchronized [`CacheStore`].
/// Handles made by [`SharedCache::clone_handle`] share the same underlying
/// storage, so identical identities fetched through any of them are only
/// fetched once across the process.
pub struct SharedCache {
    inner: Arc<RwLock<CacheStore, CachePred>>,
}

impl SharedCache {
    /// Creates a handle to a fresh, empty storage instance.
    pub fn new() -> SharedCache {
        let store = CacheStore::new();
        SharedCache { inner: Arc::new(RwLock::new(store, Ghost(CachePred {}))) }
    }

    /// A new handle to the same underlying storage, not an independent copy.
    pub fn clone_handle(&self) -> SharedCache {
        SharedCache { inner: self.inner.clone() }
    }

    /// The lock guarding the storage, for the dispatch layer, which must
    /// perform a read-modify-write as one operation.  Whatever is released
    /// into it must satisfy the store invariant, so no caller can break it.
    pub(crate) fn lock(&self) -> &RwLock<CacheStore, CachePred> {
        &*self.inner
    }

    /// Looks a request identity up under the lock.  What comes back is the
    /// raw body some dispatch stored for exactly that identity, or `None`
    /// when none had been stored when the lock was held.
    pub fn get(&self, url: &str) -> Option<String> {
        let read = (&*self.inner).acquire_read();
        let r = read.borrow().get(url);
        read.release_read();
        r
    }

    /// Records a raw body for a request identity under the lock, held for
    /// the full read-modify-write.  A body already stored for the identity
    /// is kept: entries are never overwritten or removed.
    pub fn put(&self, url: String, body: String) {
        let (mut store, handle) = (&*self.inner).acquire_write();
        store.insert(url, body);
        handle.release_write(store);
    }
}

} // verus!
