//! A time-to-live cache keyed by strings, on a clock that the caller reads.
use crate::chars::same_str;
use vstd::prelude::*;

verus! {

/// A cached value and the instant, in milliseconds, from which it is stale.
#[derive(Clone, Debug)]
pub struct CacheEntry<V> {
    pub key: String,
    pub value: V,
    pub expires_at: u64,
}

/// A store of values by key, each valid for a fixed time after it was
/// inserted. Stale entries are dropped when they are looked up. Times are
/// milliseconds on a clock that the caller reads.
#[derive(Clone, Debug)]
pub struct ExpiringCache<V> {
    pub ttl: u64,
    pub entries: Vec<CacheEntry<V>>,
}

/// The index of the first entry with key `key`.
pub open spec fn find_key<V>(entries: Seq<CacheEntry<V>>, key: Seq<char>, from: int) -> Option<int>
    decreases entries.len() - from,
{
    if from < 0 || from >= entries.len() {
        None
    } else if entries[from].key@ == key {
        Some(from)
    } else {
        find_key(entries, key, from + 1)
    }
}

proof fn lemma_find_key<V>(entries: Seq<CacheEntry<V>>, key: Seq<char>, from: int)
    ensures
        find_key(entries, key, from) matches Some(i) ==> 0 <= from <= i < entries.len()
            && entries[i].key@ == key,
    decreases entries.len() - from,
{
    if 0 <= from < entries.len() && entries[from].key@ != key {
        lemma_find_key(entries, key, from + 1);
    }
}

impl<V: Clone> ExpiringCache<V> {
    /// An empty cache whose entries live `ttl` milliseconds.
    pub fn new(ttl: u64) -> (r: ExpiringCache<V>)
        ensures
            r.ttl == ttl,
            r.entries@.len() == 0,
    {
        ExpiringCache { ttl, entries: Vec::new() }
    }

    fn position(&self, key: &str) -> (r: Option<usize>)
        ensures
            match r {
                Some(i) => find_key(self.entries@, key@, 0) == Some(i as int),
                None => find_key(self.entries@, key@, 0) is None,
            },
            r matches Some(i) ==> i < self.entries@.len(),
    {
        proof {
            lemma_find_key(self.entries@, key@, 0);
        }
        let mut i: usize = 0;
        while i < self.entries.len()
            invariant
                i <= self.entries@.len(),
                find_key(self.entries@, key@, 0) == find_key(self.entries@, key@, i as int),
            decreases self.entries@.len() - i,
        {
            if same_str(self.entries[i].key.as_str(), key) {
                return Some(i);
            }
            i = i + 1;
        }
        None
    }

    /// The value under `key` if it is still fresh at `now`. A stale entry
    /// is removed.
    pub fn get(&mut self, key: &str, now: u64) -> (r: Option<V>)
        ensures
            final(self).ttl == old(self).ttl,
            match find_key(old(self).entries@, key@, 0) {
                Some(i) => if now < old(self).entries@[i].expires_at {
                    &&& r matches Some(v) && cloned(old(self).entries@[i].value, v)
                    &&& final(self).entries@ == old(self).entries@
                } else {
                    &&& r is None
                    &&& final(self).entries@ == old(self).entries@.remove(i)
                },
                None => r is None && final(self).entries@ == old(self).entries@,
            },
    {
        match self.position(key) {
            Some(i) => {
                if now < self.entries[i].expires_at {
                    Some(self.entries[i].value.clone())
                } else {
                    self.entries.remove(i);
                    None
                }
            },
            None => None,
        }
    }

    /// Stores `value` under `key`, fresh until `now + ttl`, replacing an
    /// entry with the same key.
    pub fn insert(&mut self, key: String, value: V, now: u64)
        requires
            now + old(self).ttl <= u64::MAX,
        ensures
            final(self).ttl == old(self).ttl,
            match find_key(old(self).entries@, key@, 0) {
                Some(i) => final(self).entries@ == old(self).entries@.update(
                    i,
                    CacheEntry { key, value, expires_at: (now + old(self).ttl) as u64 },
                ),
                None => final(self).entries@ == old(self).entries@.push(
                    CacheEntry { key, value, expires_at: (now + old(self).ttl) as u64 },
                ),
            },
    {
        let expires_at = now + self.ttl;
        match self.position(key.as_str()) {
            Some(i) => {
                self.entries.set(i, CacheEntry { key, value, expires_at });
            },
            None => {
                self.entries.push(CacheEntry { key, value, expires_at });
            },
        }
    }
}

} // verus!
