//! An in-memory key-value store of session records with a fixed expiry per
//! entry. Expiry is lazy: an entry whose deadline has passed is treated as
//! absent by every read, and reads never extend a deadline.

use vstd::prelude::*;

verus! {

/// What a session record holds: the owning user and the client address seen
/// when the session was issued.
pub struct SessionData {
    pub user_id: i32,
    pub ip: String,
}

/// The mathematical value of a `SessionData`.
pub struct SessionView {
    pub user_id: i32,
    pub ip: Seq<char>,
}

impl View for SessionData {
    type V = SessionView;

    open spec fn view(&self) -> SessionView {
        SessionView { user_id: self.user_id, ip: self.ip@ }
    }
}

/// A stored record together with the instant (in seconds) from which it is
/// no longer visible.
pub struct StoredView {
    pub record: SessionView,
    pub expires_at: u64,
}

/// The record stored under `key` that is still live at `now`, if any.
pub open spec fn live_record(m: Map<Seq<char>, StoredView>, key: Seq<char>, now: u64) -> Option<
    SessionView,
> {
    if m.contains_key(key) && now < m[key].expires_at {
        Some(m[key].record)
    } else {
        None
    }
}

/// The view of an optional record.
pub open spec fn opt_view(r: Option<SessionData>) -> Option<SessionView> {
    match r {
        Some(d) => Some(d@),
        None => None,
    }
}

struct Entry {
    key: String,
    data: SessionData,
    expires_at: u64,
}

impl Entry {
    spec fn stored(&self) -> StoredView {
        StoredView { record: self.data@, expires_at: self.expires_at }
    }
}

/// Session records keyed by string, each with its own deadline.
pub struct MemoryStore {
    entries: Vec<Entry>,
    model: Ghost<Map<Seq<char>, StoredView>>,
}

impl View for MemoryStore {
    type V = Map<Seq<char>, StoredView>;

    closed spec fn view(&self) -> Map<Seq<char>, StoredView> {
        self.model@
    }
}

impl MemoryStore {
    /// The entries agree with the model: keys are unique, every entry is in
    /// the model with its value, and every key of the model has an entry.
    pub closed spec fn wf(&self) -> bool {
        &&& forall|i: int, j: int|
            0 <= i < j < self.entries@.len() ==> #[trigger] self.entries@[i].key@
                != #[trigger] self.entries@[j].key@
        &&& forall|i: int|
            0 <= i < self.entries@.len() ==> self.model@.contains_key(
                #[trigger] self.entries@[i].key@,
            ) && self.model@[self.entries@[i].key@] == self.entries@[i].stored()
        &&& forall|k: Seq<char>|
            #[trigger] self.model@.contains_key(k) ==> exists|i: int|
                0 <= i < self.entries@.len() && #[trigger] self.entries@[i].key@ == k
    }

    /// An empty store.
    pub fn new() -> (r: MemoryStore)
        ensures
            r.wf(),
            r@ == Map::<Seq<char>, StoredView>::empty(),
    {
        MemoryStore { entries: Vec::new(), model: Ghost(Map::empty()) }
    }

    /// The position of the entry under `key`, if there is one.
    fn position(&self, key: &String) -> (r: Option<usize>)
        requires
            self.wf(),
        ensures
            match r {
                Some(i) => i < self.entries@.len() && self.entries@[i as int].key@ == key@,
                None => !self@.contains_key(key@),
            },
    {
        let mut i: usize = 0;
        while i < self.entries.len()
            invariant
                self.wf(),
                i <= self.entries@.len(),
                forall|j: int| 0 <= j < i ==> #[trigger] self.entries@[j].key@ != key@,
            decreases self.entries@.len() - i,
        {
            if self.entries[i].key == *key {
                return Some(i);
            }
            i = i + 1;
        }
        None
    }

    /// The record under `key` if it is live at `now`. Reading changes
    /// nothing: in particular it does not extend the deadline.
    pub fn get(&self, key: &String, now: u64) -> (r: Option<SessionData>)
        requires
            self.wf(),
        ensures
            opt_view(r) == live_record(self@, key@, now),
    {
        match self.position(key) {
            Some(i) => {
                let e = &self.entries[i];
                if now < e.expires_at {
                    Some(SessionData { user_id: e.data.user_id, ip: e.data.ip.clone() })
                } else {
                    None
                }
            },
            None => None,
        }
    }

    /// Removes the entry under `key`. Removing an absent key succeeds and
    /// changes nothing.
    pub fn delete(&mut self, key: &String)
        requires
            old(self).wf(),
        ensures
            final(self).wf(),
            final(self)@ == old(self)@.remove(key@),
    {
        match self.position(key) {
            Some(i) => {
                let ghost old_entries = self.entries@;
                self.entries.remove(i);
                self.model = Ghost(self.model@.remove(key@));
                assert forall|j: int| 0 <= j < self.entries@.len() implies self.model@.contains_key(
                    #[trigger] self.entries@[j].key@,
                ) && self.model@[self.entries@[j].key@] == self.entries@[j].stored() by {
                    if j < i {
                        assert(self.entries@[j] == old_entries[j]);
                    } else {
                        assert(self.entries@[j] == old_entries[j + 1]);
                    }
                }
                assert forall|k: Seq<char>| #[trigger] self.model@.contains_key(k) implies exists|
                    j: int,
                | 0 <= j < self.entries@.len() && #[trigger] self.entries@[j].key@ == k by {
                    let j = choose|j: int| 0 <= j < old_entries.len() && #[trigger] old_entries[j].key@ == k;
                    if j < i {
                        assert(self.entries@[j] == old_entries[j]);
                    } else {
                        assert(j != i);
                        assert(self.entries@[j - 1] == old_entries[j]);
                    }
                }
            },
            None => {
                assert(self.model@.remove(key@) =~= self.model@);
            },
        }
    }

    /// Stores `value` under `key` with the deadline `now + ttl`, replacing
    /// whatever the key held before.
    pub fn put(&mut self, key: String, value: SessionData, ttl: u64, now: u64)
        requires
            old(self).wf(),
            now + ttl <= u64::MAX,
        ensures
            final(self).wf(),
            final(self)@ == old(self)@.insert(
                key@,
                StoredView { record: value@, expires_at: (now + ttl) as u64 },
            ),
    {
        self.delete(&key);
        let ghost before = self.entries@;
        let ghost k = key@;
        let e = Entry { key, data: value, expires_at: now + ttl };
        let ghost st = e.stored();
        self.entries.push(e);
        self.model = Ghost(self.model@.insert(k, st));
        assert forall|i: int, j: int|
            0 <= i < j < self.entries@.len() implies #[trigger] self.entries@[i].key@
            != #[trigger] self.entries@[j].key@ by {
            if j == before.len() {
                assert(self.entries@[i] == before[i]);
            }
        }
        assert forall|i: int| 0 <= i < self.entries@.len() implies self.model@.contains_key(
            #[trigger] self.entries@[i].key@,
        ) && self.model@[self.entries@[i].key@] == self.entries@[i].stored() by {
            if i < before.len() {
                assert(self.entries@[i] == before[i]);
            }
        }
        assert forall|q: Seq<char>| #[trigger] self.model@.contains_key(q) implies exists|
            j: int,
        | 0 <= j < self.entries@.len() && #[trigger] self.entries@[j].key@ == q by {
            if q == k {
                assert(self.entries@[before.len() as int].key@ == q);
            } else {
                let j = choose|j: int| 0 <= j < before.len() && #[trigger] before[j].key@ == q;
                assert(self.entries@[j] == before[j]);
            }
        }
    }
}

/// Deleting a key twice leaves the store as deleting it once, and deleting
/// a key that is absent changes nothing.
pub proof fn lemma_delete_idempotent(m: Map<Seq<char>, StoredView>, key: Seq<char>)
    ensures
        m.remove(key).remove(key) == m.remove(key),
        !m.contains_key(key) ==> m.remove(key) == m,
{
    assert(m.remove(key).remove(key) =~= m.remove(key));
    if !m.contains_key(key) {
        assert(m.remove(key) =~= m);
    }
}

} // verus!
