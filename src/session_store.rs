use vstd::prelude::*;
use crate::ctx::UserId;
use crate::session_key::SessionKey;

verus! {

/// A session as the store holds it: its user and the second at which it
/// stops being live.
#[derive(Clone, Copy, Debug, PartialEq, Eq, Structural)]
pub struct SessionEntry {
    pub user_id: UserId,
    pub expires_at: u64,
}

/// The second at which a session touched at `now` with lifetime `ttl`
/// expires (the clock saturates instead of wrapping).
pub open spec fn expiry(now: u64, ttl: u64) -> u64 {
    if now + ttl > u64::MAX {
        u64::MAX
    } else {
        (now + ttl) as u64
    }
}

/// The user of the live session stored under `key` at second `now`.
pub open spec fn live_session(m: Map<Seq<char>, SessionEntry>, key: Seq<char>, now: u64) -> Option<
    UserId,
> {
    if m.contains_key(key) && now < m[key].expires_at {
        Some(m[key].user_id)
    } else {
        None
    }
}

/// Create-if-missing: a live session is left alone and `false` returned;
/// otherwise the key now names `user_id` for `ttl` seconds.
pub open spec fn set_if_absent_effect(
    m: Map<Seq<char>, SessionEntry>,
    key: Seq<char>,
    user_id: UserId,
    ttl: u64,
    now: u64,
) -> (Map<Seq<char>, SessionEntry>, bool) {
    if live_session(m, key, now) is Some {
        (m, false)
    } else {
        (m.insert(key, SessionEntry { user_id, expires_at: expiry(now, ttl) }), true)
    }
}

/// Read and renew: a live session gets a full new lifetime and its user is
/// returned; anything else under the key is gone.
pub open spec fn get_and_refresh_effect(
    m: Map<Seq<char>, SessionEntry>,
    key: Seq<char>,
    ttl: u64,
    now: u64,
) -> (Map<Seq<char>, SessionEntry>, Option<UserId>) {
    match live_session(m, key, now) {
        Some(user_id) => (
            m.insert(key, SessionEntry { user_id, expires_at: expiry(now, ttl) }),
            Some(user_id),
        ),
        None => (m.remove(key), None),
    }
}

/// One stored session.
struct SessionRecord {
    key: String,
    entry: SessionEntry,
}

/// An in-process session store mapping session keys to users, with sliding
/// expiration. Time is given by the caller, in seconds.
pub struct SessionStore {
    records: Vec<SessionRecord>,
    contents: Ghost<Map<Seq<char>, SessionEntry>>,
}

impl View for SessionStore {
    type V = Map<Seq<char>, SessionEntry>;

    closed spec fn view(&self) -> Map<Seq<char>, SessionEntry> {
        self.contents@
    }
}

impl SessionStore {
    /// Each record stands for one entry of the view and each entry for one
    /// record; no two records share a key.
    pub closed spec fn well_formed(&self) -> bool {
        &&& forall|i: int|
            0 <= i < self.records.len() ==> #[trigger] self.contents@.contains_key(
                self.records[i].key@,
            ) && self.contents@[self.records[i].key@] == self.records[i].entry
        &&& forall|i: int, j: int|
            0 <= i < self.records.len() && 0 <= j < self.records.len() && i != j
                ==> #[trigger] self.records[i].key@ != #[trigger] self.records[j].key@
        &&& forall|k: Seq<char>| #[trigger]
            self.contents@.contains_key(k) ==> exists|i: int|
                0 <= i < self.records.len() && #[trigger] self.records[i].key@ == k
    }

    /// An empty store.
    pub fn new() -> (r: SessionStore)
        ensures
            r.well_formed(),
            r@ == Map::<Seq<char>, SessionEntry>::empty(),
    {
        SessionStore { records: Vec::new(), contents: Ghost(Map::empty()) }
    }

    /// Where the record of `key` stands, if there is one.
    fn find(&self, key: &String) -> (r: Option<usize>)
        requires
            self.well_formed(),
        ensures
            r matches Some(i) ==> i < self.records.len() && self.records[i as int].key@ == key@,
            r is None ==> !self@.contains_key(key@),
    {
        let mut i: usize = 0;
        while i < self.records.len()
            invariant
                self.well_formed(),
                i <= self.records.len(),
                forall|j: int| 0 <= j < i ==> #[trigger] self.records[j].key@ != key@,
            decreases self.records.len() - i,
        {
            if self.records[i].key == *key {
                return Some(i);
            }
            i = i + 1;
        }
        None
    }

    /// Drops the record at `i`.
    fn remove_at(&mut self, i: usize)
        requires
            old(self).well_formed(),
            i < old(self).records.len(),
        ensures
            final(self).well_formed(),
            final(self)@ == old(self)@.remove(old(self).records[i as int].key@),
    {
        let ghost key = self.records[i as int].key@;
        let ghost old_records = self.records@;
        self.records.remove(i);
        self.contents = Ghost(self.contents@.remove(key));
        assert forall|k: Seq<char>| #[trigger] self.contents@.contains_key(k) implies exists|j: int|
            0 <= j < self.records.len() && #[trigger] self.records[j].key@ == k by {
            let j0 = choose|j: int| 0 <= j < old_records.len() && #[trigger] old_records[j].key@ == k;
            assert(j0 != i);
            if j0 < i {
                assert(self.records[j0].key@ == k);
            } else {
                assert(self.records[j0 - 1].key@ == k);
            }
        }
    }

    /// Adds a record for a key that has none.
    fn push_new(&mut self, key: String, entry: SessionEntry)
        requires
            old(self).well_formed(),
            !old(self)@.contains_key(key@),
        ensures
            final(self).well_formed(),
            final(self)@ == old(self)@.insert(key@, entry),
    {
        let ghost k = key@;
        let ghost n = self.records.len();
        let ghost old_records = self.records@;
        let ghost old_contents = self.contents@;
        self.records.push(SessionRecord { key, entry });
        self.contents = Ghost(self.contents@.insert(k, entry));
        assert forall|k2: Seq<char>| #[trigger] self.contents@.contains_key(k2) implies exists|j: int|
            0 <= j < self.records.len() && #[trigger] self.records[j].key@ == k2 by {
            if k2 == k {
                assert(self.records[n as int].key@ == k2);
            } else {
                assert(old_contents.contains_key(k2));
                let j0 = choose|j: int| 0 <= j < old_records.len() && #[trigger] old_records[j].key@ == k2;
                assert(self.records[j0].key@ == k2);
            }
        }
    }

    /// Stores `key -> user_id` for `ttl` seconds unless a live session is
    /// already stored under `key`; says whether it stored.
    pub fn set_if_absent(&mut self, key: &SessionKey, user_id: UserId, ttl: u64, now: u64) -> (r: bool)
        requires
            old(self).well_formed(),
        ensures
            final(self).well_formed(),
            (final(self)@, r) == set_if_absent_effect(old(self)@, key@, user_id, ttl, now),
    {
        let text = key.as_str().to_owned();
        let entry = SessionEntry { user_id, expires_at: now.saturating_add(ttl) };
        match self.find(&text) {
            Some(i) => {
                if now < self.records[i].entry.expires_at {
                    return false;
                }
                self.remove_at(i);
                self.push_new(text, entry);
                true
            },
            None => {
                self.push_new(text, entry);
                true
            },
        }
    }

    /// The user of the live session under `key`, whose lifetime starts over
    /// with `ttl` seconds; `None` when there is none.
    pub fn get_and_refresh(&mut self, key: &SessionKey, ttl: u64, now: u64) -> (r: Option<UserId>)
        requires
            old(self).well_formed(),
        ensures
            final(self).well_formed(),
            (final(self)@, r) == get_and_refresh_effect(old(self)@, key@, ttl, now),
    {
        let text = key.as_str().to_owned();
        match self.find(&text) {
            Some(i) => {
                let entry = self.records[i].entry;
                self.remove_at(i);
                if now < entry.expires_at {
                    let renewed = SessionEntry {
                        user_id: entry.user_id,
                        expires_at: now.saturating_add(ttl),
                    };
                    self.push_new(text, renewed);
                    Some(entry.user_id)
                } else {
                    None
                }
            },
            None => {
                proof {
                    assert(self@.remove(key@) == self@);
                }
                None
            },
        }
    }

    /// Removes whatever is stored under `key`; an absent key is no error.
    pub fn delete(&mut self, key: &SessionKey)
        requires
            old(self).well_formed(),
        ensures
            final(self).well_formed(),
            final(self)@ == old(self)@.remove(key@),
    {
        let text = key.as_str().to_owned();
        match self.find(&text) {
            Some(i) => self.remove_at(i),
            None => {
                proof {
                    assert(self@.remove(key@) == self@);
                }
            },
        }
    }
}

} // verus!
