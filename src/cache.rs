use vstd::prelude::*;

use crate::tls::TlsType;

verus! {

/// A table keyed by URL: each key stands at most once, and the most recent
/// write for a key wins.
pub struct UrlTable<V> {
    entries: Vec<(String, V)>,
}

impl<V: Copy> UrlTable<V> {
    /// The table as a map from URL to value.
    pub closed spec fn view(self) -> Map<Seq<char>, V> {
        Map::new(
            |k: Seq<char>| exists|i: int| 0 <= i < self.entries@.len() && self.entries@[i].0@ == k,
            |k: Seq<char>|
                self.entries@[choose|i: int| 0 <= i < self.entries@.len() && self.entries@[i].0@ == k].1,
        )
    }

    /// No key is held twice.
    pub closed spec fn wf(self) -> bool {
        forall|i: int, j: int|
            0 <= i < self.entries@.len() && 0 <= j < self.entries@.len() && i != j
                ==> self.entries@[i].0@ != self.entries@[j].0@
    }

    proof fn lemma_view_at(self, i: int)
        requires
            self.wf(),
            0 <= i < self.entries@.len(),
        ensures
            self@.contains_key(self.entries@[i].0@),
            self@[self.entries@[i].0@] == self.entries@[i].1,
    {
        let k = self.entries@[i].0@;
        assert(exists|j: int| 0 <= j < self.entries@.len() && self.entries@[j].0@ == k);
        let c = choose|j: int| 0 <= j < self.entries@.len() && self.entries@[j].0@ == k;
        assert(c == i);
    }

    pub fn new() -> (r: Self)
        ensures
            r.wf(),
            r@ == Map::<Seq<char>, V>::empty(),
    {
        let r = UrlTable { entries: Vec::new() };
        assert(r@ =~= Map::<Seq<char>, V>::empty());
        r
    }

    /// Position of `key` in the table, if it is held.
    fn find(&self, key: &str) -> (r: Option<usize>)
        requires
            self.wf(),
        ensures
            match r {
                Some(i) => i < self.entries@.len() && self.entries@[i as int].0@ == key@,
                None => !self@.contains_key(key@),
            },
    {
        let wanted = String::from_str(key);
        let mut i: usize = 0;
        while i < self.entries.len()
            invariant
                i <= self.entries@.len(),
                wanted@ == key@,
                forall|j: int| 0 <= j < i ==> self.entries@[j].0@ != key@,
            decreases self.entries@.len() - i,
        {
            if self.entries[i].0 == wanted {
                return Some(i);
            }
            i = i + 1;
        }
        None
    }

    /// The value held for `key`.
    pub fn get(&self, key: &str) -> (r: Option<V>)
        requires
            self.wf(),
        ensures
            r == (if self@.contains_key(key@) { Some(self@[key@]) } else { None::<V> }),
    {
        match self.find(key) {
            Some(i) => {
                proof {
                    self.lemma_view_at(i as int);
                }
                Some(self.entries[i].1)
            },
            None => None,
        }
    }

    /// Stores `value` for `key`, replacing what was held for it.
    pub fn upsert(&mut self, key: &str, value: V)
        requires
            old(self).wf(),
        ensures
            final(self).wf(),
            final(self)@ == old(self)@.insert(key@, value),
    {
        let ghost pre = *self;
        match self.find(key) {
            Some(i) => {
                let k = self.entries[i].0.clone();
                self.entries.set(i, (k, value));
                proof {
                    UrlTable::lemma_write_at(pre, *self, i as int, key@, value);
                }
            },
            None => {
                self.entries.push((String::from_str(key), value));
                proof {
                    UrlTable::lemma_write_at(pre, *self, pre.entries@.len() as int, key@, value);
                }
            },
        }
    }

    /// Writing `(key, value)` at position `i`, either over the entry for `key`
    /// or at the end, inserts `key` into the map view.
    proof fn lemma_write_at(pre: Self, post: Self, i: int, key: Seq<char>, value: V)
        requires
            pre.wf(),
            post.wf(),
            0 <= i <= pre.entries@.len(),
            post.entries@.len() == if i < pre.entries@.len() { pre.entries@.len() } else { pre.entries@.len() + 1 },
            i < pre.entries@.len() ==> pre.entries@[i].0@ == key,
            post.entries@[i].0@ == key,
            post.entries@[i].1 == value,
            forall|j: int| 0 <= j < post.entries@.len() && j != i ==> post.entries@[j] == pre.entries@[j],
        ensures
            post@ == pre@.insert(key, value),
    {
        assert forall|k2: Seq<char>| #[trigger] post@.contains_key(k2)
            == pre@.insert(key, value).contains_key(k2) by {
            if post@.contains_key(k2) {
                let j = choose|j: int| 0 <= j < post.entries@.len() && post.entries@[j].0@ == k2;
                if j != i {
                    pre.lemma_view_at(j);
                }
            }
            if pre@.contains_key(k2) {
                let j = choose|j: int| 0 <= j < pre.entries@.len() && pre.entries@[j].0@ == k2;
                post.lemma_view_at(j);
            }
            if k2 == key {
                post.lemma_view_at(i);
            }
        }
        assert forall|k2: Seq<char>| #[trigger] post@.contains_key(k2)
            implies post@[k2] == pre@.insert(key, value)[k2] by {
            let j = choose|j: int| 0 <= j < post.entries@.len() && post.entries@[j].0@ == k2;
            post.lemma_view_at(j);
            if j != i {
                pre.lemma_view_at(j);
            }
        }
        assert(post@ =~= pre@.insert(key, value));
    }
}

/// What a table holds for `key`, if anything.
pub open spec fn lookup<V>(m: Map<Seq<char>, V>, key: Seq<char>) -> Option<V> {
    if m.contains_key(key) {
        Some(m[key])
    } else {
        None
    }
}

/// A remembered working configuration for one URL.
#[derive(Clone, Copy, Debug, PartialEq, Eq)]
pub struct CacheEntry {
    pub tls_type: TlsType,
    /// `Some(true)`: invalid certificates are accepted; `Some(false)`: strict
    /// validation; `None`: not decided yet.
    pub accept_invalid_cert: Option<bool>,
}

/// Remembers, per URL, the TLS implementation and the certificate policy of
/// the last successful probe. The two settings are written independently.
pub struct BackendCache {
    tls_types: UrlTable<TlsType>,
    cert_modes: UrlTable<bool>,
}

impl BackendCache {
    /// The TLS implementation remembered for each URL.
    pub closed spec fn tls_types(self) -> Map<Seq<char>, TlsType> {
        self.tls_types@
    }

    /// The certificate policy remembered for each URL (`true`: accept invalid).
    pub closed spec fn cert_modes(self) -> Map<Seq<char>, bool> {
        self.cert_modes@
    }

    pub closed spec fn wf(self) -> bool {
        self.tls_types.wf() && self.cert_modes.wf()
    }

    /// An empty cache.
    pub fn new() -> (r: Self)
        ensures
            r.wf(),
            r.tls_types() == Map::<Seq<char>, TlsType>::empty(),
            r.cert_modes() == Map::<Seq<char>, bool>::empty(),
    {
        BackendCache { tls_types: UrlTable::new(), cert_modes: UrlTable::new() }
    }

    /// The TLS implementation remembered for `url`.
    pub fn get_cached_tls_type(&self, url: &str) -> (r: Option<TlsType>)
        requires
            self.wf(),
        ensures
            r == lookup(self.tls_types(), url@),
    {
        self.tls_types.get(url)
    }

    /// The certificate policy remembered for `url`.
    pub fn get_cached_tls_accept_invalid_cert(&self, url: &str) -> (r: Option<bool>)
        requires
            self.wf(),
        ensures
            r == lookup(self.cert_modes(), url@),
    {
        self.cert_modes.get(url)
    }

    /// The entry for `url`: present once a TLS implementation is remembered
    /// for it, with the certificate policy if that is remembered too.
    pub fn get_entry(&self, url: &str) -> (r: Option<CacheEntry>)
        requires
            self.wf(),
        ensures
            r == (match lookup(self.tls_types(), url@) {
                Some(t) => Some(CacheEntry { tls_type: t, accept_invalid_cert: lookup(self.cert_modes(), url@) }),
                None => None::<CacheEntry>,
            }),
    {
        match self.tls_types.get(url) {
            Some(t) => Some(CacheEntry { tls_type: t, accept_invalid_cert: self.cert_modes.get(url) }),
            None => None,
        }
    }

    /// Remembers `tls_type` for `url`; other URLs and all certificate
    /// policies are left as they were.
    pub fn upsert_tls_type(&mut self, url: &str, tls_type: TlsType)
        requires
            old(self).wf(),
        ensures
            final(self).wf(),
            final(self).tls_types() == old(self).tls_types().insert(url@, tls_type),
            final(self).cert_modes() == old(self).cert_modes(),
    {
        self.tls_types.upsert(url, tls_type);
    }

    /// Remembers the certificate policy for `url`; other URLs and all TLS
    /// implementations are left as they were.
    pub fn upsert_tls_accept_invalid_cert(&mut self, url: &str, accept_invalid_cert: bool)
        requires
            old(self).wf(),
        ensures
            final(self).wf(),
            final(self).tls_types() == old(self).tls_types(),
            final(self).cert_modes() == old(self).cert_modes().insert(url@, accept_invalid_cert),
    {
        self.cert_modes.upsert(url, accept_invalid_cert);
    }
}

} // verus!
