//! In-memory cache store: opaque payloads under string keys, each with the
//! time it was stored and a time to live. Expiry is checked on every read.

use vstd::prelude::*;

verus! {

/// What a key holds: the payload bytes and the window in which they may be
/// served, `stored_at ..= stored_at + ttl`.
pub ghost struct Stored {
    pub payload: Seq<u8>,
    pub stored_at: int,
    pub ttl: int,
}

/// An entry is served at `now` unless `now > stored_at + ttl`.
pub open spec fn is_live(s: Stored, now: int) -> bool {
    now <= s.stored_at + s.ttl
}

/// What a read of `key` at `now` returns on a store whose contents are `m`.
pub open spec fn served(m: Map<Seq<char>, Stored>, key: Seq<char>, now: int) -> Option<Seq<u8>> {
    if m.contains_key(key) && is_live(m[key], now) {
        Some(m[key].payload)
    } else {
        None
    }
}

/// The contents after a write: the key holds the new entry, all others are kept.
pub open spec fn written(
    m: Map<Seq<char>, Stored>,
    key: Seq<char>,
    payload: Seq<u8>,
    ttl: int,
    now: int,
) -> Map<Seq<char>, Stored> {
    m.insert(key, Stored { payload, stored_at: now, ttl })
}

/// A write is served from the moment it is made until its time to live has
/// elapsed, and is absent from then on, whatever the key held before.
pub proof fn lemma_written_expires(
    m: Map<Seq<char>, Stored>,
    key: Seq<char>,
    payload: Seq<u8>,
    ttl: int,
    now: int,
    t: int,
)
    requires
        now <= t,
    ensures
        t <= now + ttl ==> served(written(m, key, payload, ttl, now), key, t) == Some(payload),
        t > now + ttl ==> served(written(m, key, payload, ttl, now), key, t) == None::<Seq<u8>>,
{
}

/// One stored entry.
pub struct Entry {
    pub key: String,
    pub payload: Vec<u8>,
    pub stored_at: u64,
    pub ttl: u64,
}

impl Entry {
    pub open spec fn stored(&self) -> Stored {
        Stored { payload: self.payload@, stored_at: self.stored_at as int, ttl: self.ttl as int }
    }
}

/// No two of `entries` share a key.
pub open spec fn keys_unique(entries: Seq<Entry>) -> bool {
    forall|i: int, j: int|
        0 <= i < entries.len() && 0 <= j < entries.len() && i != j ==> #[trigger] entries[i].key@
            != #[trigger] entries[j].key@
}

/// What `entries` hold, key by key.
pub open spec fn contents(entries: Seq<Entry>) -> Map<Seq<char>, Stored> {
    Map::new(
        |k: Seq<char>| exists|i: int| 0 <= i < entries.len() && entries[i].key@ == k,
        |k: Seq<char>| entries[choose|i: int| 0 <= i < entries.len() && entries[i].key@ == k].stored(),
    )
}

proof fn lemma_contents_at(entries: Seq<Entry>, i: int)
    requires
        keys_unique(entries),
        0 <= i < entries.len(),
    ensures
        contents(entries).contains_key(entries[i].key@),
        contents(entries)[entries[i].key@] == entries[i].stored(),
{
    let k = entries[i].key@;
    assert(contents(entries).contains_key(k));
    let j = choose|j: int| 0 <= j < entries.len() && entries[j].key@ == k;
    assert(i == j);
}

/// Index of the entry under `key`, if any.
fn position(entries: &Vec<Entry>, key: &String) -> (r: Option<usize>)
    ensures
        match r {
            Some(i) => i < entries@.len() && entries@[i as int].key@ == key@,
            None => !contents(entries@).contains_key(key@),
        },
{
    let mut i: usize = 0;
    while i < entries.len()
        invariant
            i <= entries@.len(),
            forall|j: int| 0 <= j < i ==> entries@[j].key@ != key@,
        decreases entries@.len() - i,
    {
        if entries[i].key == *key {
            return Some(i);
        }
        i = i + 1;
    }
    None
}

/// The cache store.
pub struct CacheStore {
    entries: Vec<Entry>,
}

impl CacheStore {
    #[verifier::type_invariant]
    closed spec fn inv(&self) -> bool {
        keys_unique(self.entries@)
    }

    /// The contents: each key with what it holds.
    pub closed spec fn view(&self) -> Map<Seq<char>, Stored> {
        contents(self.entries@)
    }

    /// An empty store.
    pub fn new() -> (r: CacheStore)
        ensures
            r.view() == Map::<Seq<char>, Stored>::empty(),
    {
        let r = CacheStore { entries: Vec::new() };
        assert(r.view() =~= Map::<Seq<char>, Stored>::empty());
        r
    }

    /// The payload under `key` at time `now`; absent when there is none or it
    /// has expired.
    pub fn get(&self, key: &String, now: u64) -> (r: Option<&Vec<u8>>)
        ensures
            match r {
                Some(p) => served(self.view(), key@, now as int) == Some(p@),
                None => served(self.view(), key@, now as int) == None::<Seq<u8>>,
            },
    {
        proof {
            use_type_invariant(self);
        }
        match position(&self.entries, key) {
            None => None,
            Some(i) => {
                proof {
                    lemma_contents_at(self.entries@, i as int);
                }
                let e = &self.entries[i];
                if now as u128 <= e.stored_at as u128 + e.ttl as u128 {
                    Some(&e.payload)
                } else {
                    None
                }
            },
        }
    }

    /// Stores `payload` under `key` at time `now` for `ttl`, replacing any
    /// earlier entry and its time to live.
    pub fn put(&mut self, key: String, payload: Vec<u8>, ttl: u64, now: u64)
        ensures
            final(self).view() == written(old(self).view(), key@, payload@, ttl as int, now as int),
    {
        let mut taken = CacheStore::new();
        core::mem::swap(self, &mut taken);
        proof {
            use_type_invariant(&taken);
        }
        let ghost k = key@;
        let ghost p = payload@;
        let ghost before = taken.entries@;
        let ghost target = written(contents(before), k, p, ttl as int, now as int);
        let mut entries = taken.entries;
        let entry = Entry { key, payload, stored_at: now, ttl };
        match position(&entries, &entry.key) {
            Some(i) => {
                entries.set(i, entry);
                proof {
                    assert forall|j: int| 0 <= j < entries@.len()
                        implies entries@[j].key@ == before[j].key@ by {}
                    assert(keys_unique(entries@));
                    assert forall|kk: Seq<char>| #[trigger] contents(entries@).contains_key(kk)
                        == target.contains_key(kk) by {
                        if kk == k {
                            lemma_contents_at(entries@, i as int);
                        } else if contents(before).contains_key(kk) {
                            let j = choose|j: int| 0 <= j < before.len() && before[j].key@ == kk;
                            assert(entries@[j].key@ == kk);
                        } else if contents(entries@).contains_key(kk) {
                            let j = choose|j: int| 0 <= j < entries@.len() && entries@[j].key@ == kk;
                            assert(before[j].key@ == kk);
                        }
                    }
                    assert forall|kk: Seq<char>| #[trigger] contents(entries@).contains_key(kk)
                        implies contents(entries@)[kk] == target[kk] by {
                        let j = choose|j: int| 0 <= j < entries@.len() && entries@[j].key@ == kk;
                        lemma_contents_at(entries@, j);
                        if kk != k {
                            lemma_contents_at(before, j);
                        } else {
                            lemma_contents_at(entries@, i as int);
                        }
                    }
                    assert(contents(entries@) =~= target);
                }
            },
            None => {
                entries.push(entry);
                proof {
                    let n = before.len() as int;
                    assert(keys_unique(entries@));
                    assert forall|kk: Seq<char>| #[trigger] contents(entries@).contains_key(kk)
                        == target.contains_key(kk) by {
                        if kk == k {
                            lemma_contents_at(entries@, n);
                        } else if contents(before).contains_key(kk) {
                            let j = choose|j: int| 0 <= j < before.len() && before[j].key@ == kk;
                            assert(entries@[j].key@ == kk);
                        } else if contents(entries@).contains_key(kk) {
                            let j = choose|j: int| 0 <= j < entries@.len() && entries@[j].key@ == kk;
                            assert(before[j].key@ == kk);
                        }
                    }
                    assert forall|kk: Seq<char>| #[trigger] contents(entries@).contains_key(kk)
                        implies contents(entries@)[kk] == target[kk] by {
                        let j = choose|j: int| 0 <= j < entries@.len() && entries@[j].key@ == kk;
                        lemma_contents_at(entries@, j);
                        if kk != k {
                            lemma_contents_at(before, j);
                        }
                    }
                    assert(contents(entries@) =~= target);
                }
            },
        }
        *self = CacheStore { entries };
    }
}

} // verus!
