//! The session record and the data it carries.

use crate::config::SessionConfig;
use crate::time::{
    is_clock_reading, max_instant, now_utc, offset_of, remaining_secs, whole_seconds_between, Timestamp, Ttl,
    NANOS_PER_SEC,
};
use vstd::prelude::*;

verus! {

#[verifier::external_type_specification]
#[verifier::external_body]
pub struct ExJsonValue(serde_json::Value);

/// The key/value data of a session: text keys, each at most once, mapped
/// to JSON values.
pub struct SessionData {
    entries: Vec<(String, serde_json::Value)>,
    contents: Ghost<Map<Seq<char>, serde_json::Value>>,
}

/// `entries` lists each key of `contents` exactly once, with its value.
spec fn entries_match(
    entries: Seq<(String, serde_json::Value)>,
    contents: Map<Seq<char>, serde_json::Value>,
) -> bool {
    &&& forall|i: int, j: int|
        0 <= i < j < entries.len() ==> #[trigger] entries[i].0@ != #[trigger] entries[j].0@
    &&& forall|i: int|
        0 <= i < entries.len() ==> #[trigger] contents.contains_key(entries[i].0@)
            && contents[entries[i].0@] == entries[i].1
    &&& forall|k: Seq<char>|
        #[trigger] contents.contains_key(k) ==> exists|i: int|
            0 <= i < entries.len() && #[trigger] entries[i].0@ == k
}

impl SessionData {
    #[verifier::type_invariant]
    spec fn consistent(self) -> bool {
        entries_match(self.entries@, self.contents@)
    }

    /// No data.
    pub fn new() -> (r: SessionData)
        ensures
            r@ == Map::<Seq<char>, serde_json::Value>::empty(),
    {
        SessionData { entries: Vec::new(), contents: Ghost(Map::empty()) }
    }

    /// The index of the entry under `key`, if there is one.
    fn find(&self, key: &str) -> (r: Option<usize>)
        ensures
            r is Some <==> self@.contains_key(key@),
            r matches Some(i) ==> i < self.entries@.len() && self.entries@[i as int].0@ == key@,
    {
        proof {
            use_type_invariant(self);
        }
        let wanted = key.to_owned();
        let mut i: usize = 0;
        while i < self.entries.len()
            invariant
                i <= self.entries@.len(),
                wanted@ == key@,
                self.consistent(),
                forall|j: int| 0 <= j < i ==> self.entries@[j].0@ != key@,
            decreases self.entries@.len() - i,
        {
            if self.entries[i].0 == wanted {
                proof {
                    assert(self.contents@.contains_key(self.entries@[i as int].0@));
                }
                return Some(i);
            }
            i = i + 1;
        }
        proof {
            if self@.contains_key(key@) {
                let j = choose|j: int| 0 <= j < self.entries@.len() && self.entries@[j].0@ == key@;
                assert(self.entries@[j].0@ == key@);
            }
        }
        None
    }

    /// Whether there is a value under `key`.
    pub fn contains_key(&self, key: &str) -> (r: bool)
        ensures
            r == self@.contains_key(key@),
    {
        self.find(key).is_some()
    }

    /// The value under `key`.
    pub fn get(&self, key: &str) -> (r: Option<&serde_json::Value>)
        ensures
            r is Some <==> self@.contains_key(key@),
            r matches Some(v) ==> *v == self@[key@],
    {
        proof {
            use_type_invariant(self);
        }
        match self.find(key) {
            Some(i) => Some(&self.entries[i].1),
            None => None,
        }
    }

    /// Put `value` under `key`, replacing what was there.
    pub fn insert(&mut self, key: &str, value: serde_json::Value)
        ensures
            final(self)@ == old(self)@.insert(key@, value),
    {
        proof {
            use_type_invariant(&*self);
        }
        let ghost old_contents = self@;
        let ghost old_entries = self.entries@;
        match self.find(key) {
            Some(i) => {
                let k = key.to_owned();
                let mut taken = SessionData::new();
                std::mem::swap(&mut taken, self);
                let SessionData { entries: mut entries, contents: _ } = taken;
                assert(entries@ == old_entries);
                entries.set(i, (k, value));
                let ghost new_contents = old_contents.insert(key@, value);
                proof {
                    assert forall|a: int, b: int|
                        0 <= a < b < entries@.len() implies #[trigger] entries@[a].0@
                        != #[trigger] entries@[b].0@ by {
                        assert(entries@[a].0@ == old_entries[a].0@);
                        assert(entries@[b].0@ == old_entries[b].0@);
                    }
                    assert forall|j: int| 0 <= j < entries@.len() implies #[trigger] new_contents.contains_key(
                        entries@[j].0@,
                    ) && new_contents[entries@[j].0@] == entries@[j].1 by {
                        if j != i {
                            assert(old_entries[j].0@ != key@);
                        }
                    }
                    assert forall|k2: Seq<char>| #[trigger] new_contents.contains_key(k2) implies exists|j: int|
                        0 <= j < entries@.len() && #[trigger] entries@[j].0@ == k2 by {
                        if k2 == key@ {
                            assert(entries@[i as int].0@ == k2);
                        } else {
                            let j = choose|j: int| 0 <= j < old_entries.len() && #[trigger] old_entries[j].0@ == k2;
                            assert(entries@[j].0@ == k2);
                        }
                    }
                }
                assert(entries_match(entries@, new_contents));
                *self = SessionData { entries, contents: Ghost(new_contents) };
            },
            None => {
                let k = key.to_owned();
                let mut taken = SessionData::new();
                std::mem::swap(&mut taken, self);
                let SessionData { entries: mut entries, contents: _ } = taken;
                assert(entries@ == old_entries);
                entries.push((k, value));
                let ghost new_contents = old_contents.insert(key@, value);
                proof {
                    let n = old_entries.len() as int;
                    assert forall|a: int, b: int|
                        0 <= a < b < entries@.len() implies #[trigger] entries@[a].0@
                        != #[trigger] entries@[b].0@ by {
                        assert(entries@[a] == old_entries[a]);
                        if b < n {
                            assert(entries@[b] == old_entries[b]);
                        } else {
                            assert(old_contents.contains_key(old_entries[a].0@));
                        }
                    }
                    assert forall|j: int| 0 <= j < entries@.len() implies #[trigger] new_contents.contains_key(
                        entries@[j].0@,
                    ) && new_contents[entries@[j].0@] == entries@[j].1 by {
                        if j < n {
                            assert(old_entries[j].0@ != key@);
                        }
                    }
                    assert forall|k2: Seq<char>| #[trigger] new_contents.contains_key(k2) implies exists|j: int|
                        0 <= j < entries@.len() && #[trigger] entries@[j].0@ == k2 by {
                        if k2 == key@ {
                            assert(entries@[n].0@ == k2);
                        } else {
                            let j = choose|j: int| 0 <= j < old_entries.len() && #[trigger] old_entries[j].0@ == k2;
                            assert(entries@[j].0@ == k2);
                        }
                    }
                }
                assert(entries_match(entries@, new_contents));
                *self = SessionData { entries, contents: Ghost(new_contents) };
            },
        }
    }

    /// Take out the value under `key`, if there is one.
    pub fn remove(&mut self, key: &str) -> (r: Option<serde_json::Value>)
        ensures
            r is Some <==> old(self)@.contains_key(key@),
            r matches Some(v) ==> v == old(self)@[key@],
            final(self)@ == old(self)@.remove(key@),
    {
        proof {
            use_type_invariant(&*self);
        }
        let ghost old_contents = self@;
        let ghost old_entries = self.entries@;
        match self.find(key) {
            Some(i) => {
                let mut taken = SessionData::new();
                std::mem::swap(&mut taken, self);
                let SessionData { entries: mut entries, contents: _ } = taken;
                assert(entries@ == old_entries);
                let (_, v) = entries.remove(i);
                let ghost new_contents = old_contents.remove(key@);
                proof {
                    assert forall|a: int, b: int|
                        0 <= a < b < entries@.len() implies #[trigger] entries@[a].0@
                        != #[trigger] entries@[b].0@ by {
                        let a0 = if a < i { a } else { a + 1 };
                        let b0 = if b < i { b } else { b + 1 };
                        assert(entries@[a] == old_entries[a0]);
                        assert(entries@[b] == old_entries[b0]);
                    }
                    assert forall|j: int| 0 <= j < entries@.len() implies #[trigger] new_contents.contains_key(
                        entries@[j].0@,
                    ) && new_contents[entries@[j].0@] == entries@[j].1 by {
                        let j0 = if j < i { j } else { j + 1 };
                        assert(entries@[j] == old_entries[j0]);
                        assert(j0 != i);
                    }
                    assert forall|k2: Seq<char>| #[trigger] new_contents.contains_key(k2) implies exists|j: int|
                        0 <= j < entries@.len() && #[trigger] entries@[j].0@ == k2 by {
                        let j0 = choose|j: int| 0 <= j < old_entries.len() && #[trigger] old_entries[j].0@ == k2;
                        assert(j0 != i);
                        let j = if j0 < i { j0 } else { j0 - 1 };
                        assert(entries@[j] == old_entries[j0]);
                    }
                }
                assert(entries_match(entries@, new_contents));
                *self = SessionData { entries, contents: Ghost(new_contents) };
                Some(v)
            },
            None => {
                proof {
                    assert(old_contents.remove(key@) =~= old_contents);
                }
                None
            },
        }
    }

    /// Remove every value.
    pub fn clear(&mut self)
        ensures
            final(self)@ == Map::<Seq<char>, serde_json::Value>::empty(),
    {
        *self = SessionData::new();
    }

    /// The keys, each once.
    pub fn keys(&self) -> (r: Vec<&String>)
        ensures
            r@.len() == self@.dom().len(),
            forall|i: int| 0 <= i < r@.len() ==> #[trigger] self@.contains_key(r@[i]@),
            forall|k: Seq<char>|
                #[trigger] self@.contains_key(k) ==> exists|i: int| 0 <= i < r@.len() && r@[i]@ == k,
            forall|i: int, j: int| 0 <= i < j < r@.len() ==> #[trigger] r@[i]@ != #[trigger] r@[j]@,
    {
        proof {
            use_type_invariant(self);
        }
        let mut r: Vec<&String> = Vec::new();
        let mut i: usize = 0;
        while i < self.entries.len()
            invariant
                i <= self.entries@.len(),
                r@.len() == i,
                forall|j: int| 0 <= j < i ==> r@[j]@ == #[trigger] self.entries@[j].0@,
            decreases self.entries@.len() - i,
        {
            r.push(&self.entries[i].0);
            i = i + 1;
        }
        proof {
            let ks = r@.map_values(|s: &String| s@);
            assert forall|j: int| 0 <= j < r@.len() implies #[trigger] self@.contains_key(r@[j]@) by {
                assert(r@[j]@ == self.entries@[j].0@);
            }
            assert forall|k: Seq<char>| #[trigger] self@.contains_key(k) implies exists|j: int|
                0 <= j < r@.len() && r@[j]@ == k by {
                let j = choose|j: int| 0 <= j < self.entries@.len() && #[trigger] self.entries@[j].0@ == k;
                assert(r@[j]@ == k);
            }
            assert forall|a: int, b: int| 0 <= a < b < r@.len() implies #[trigger] r@[a]@
                != #[trigger] r@[b]@ by {
                assert(r@[a]@ == self.entries@[a].0@);
                assert(r@[b]@ == self.entries@[b].0@);
            }
            assert(ks.no_duplicates()) by {
                assert forall|a: int, b: int| 0 <= a < ks.len() && 0 <= b < ks.len() && a != b implies ks[a] != ks[b] by {
                    assert(r@[a]@ == self.entries@[a].0@);
                    assert(r@[b]@ == self.entries@[b].0@);
                }
            }
            assert(ks.to_set() =~= self@.dom()) by {
                assert forall|k: Seq<char>| ks.to_set().contains(k) <==> self@.dom().contains(k) by {
                    if self@.dom().contains(k) {
                        let j = choose|j: int| 0 <= j < self.entries@.len() && #[trigger] self.entries@[j].0@ == k;
                        assert(ks[j] == k);
                    }
                    if ks.to_set().contains(k) {
                        let j = choose|j: int| 0 <= j < ks.len() && ks[j] == k;
                        assert(self@.contains_key(r@[j]@));
                    }
                }
            }
            ks.unique_seq_to_set();
        }
        r
    }
}

/// A copy of `v` (`serde_json::Value`'s derived `Clone`, which copies
/// every part of the value).
#[verifier::external_body]
fn clone_value(v: &serde_json::Value) -> (r: serde_json::Value)
    ensures
        r == *v,
{
    v.clone()
}

impl Clone for SessionData {
    fn clone(&self) -> (r: Self)
        ensures
            r@ == self@,
    {
        proof {
            use_type_invariant(self);
        }
        let mut entries: Vec<(String, serde_json::Value)> = Vec::new();
        let mut i: usize = 0;
        while i < self.entries.len()
            invariant
                i <= self.entries@.len(),
                entries@.len() == i,
                forall|j: int| 0 <= j < i ==> (#[trigger] entries@[j]).0@ == self.entries@[j].0@
                    && entries@[j].1 == self.entries@[j].1,
            decreases self.entries@.len() - i,
        {
            let key = self.entries[i].0.clone();
            let value = clone_value(&self.entries[i].1);
            entries.push((key, value));
            i = i + 1;
        }
        proof {
            assert(entries_match(entries@, self.contents@)) by {
                assert forall|a: int, b: int|
                    0 <= a < b < entries@.len() implies #[trigger] entries@[a].0@
                    != #[trigger] entries@[b].0@ by {
                    assert(self.entries@[a].0@ != self.entries@[b].0@);
                }
                assert forall|j: int| 0 <= j < entries@.len() implies #[trigger] self.contents@.contains_key(
                    entries@[j].0@,
                ) && self.contents@[entries@[j].0@] == entries@[j].1 by {
                    assert(self.contents@.contains_key(self.entries@[j].0@));
                }
                assert forall|k: Seq<char>| #[trigger] self.contents@.contains_key(k) implies exists|j: int|
                    0 <= j < entries@.len() && #[trigger] entries@[j].0@ == k by {
                    let j = choose|j: int| 0 <= j < self.entries@.len() && #[trigger] self.entries@[j].0@ == k;
                    assert(entries@[j].0@ == k);
                }
            }
        }
        SessionData { entries, contents: Ghost(self.contents@) }
    }
}

impl View for SessionData {
    type V = Map<Seq<char>, serde_json::Value>;

    closed spec fn view(&self) -> Map<Seq<char>, serde_json::Value> {
        self.contents@
    }
}

/// Whether `c` is a digit or a lower-case letter `a` to `f`.
pub open spec fn is_lower_hex_digit(c: char) -> bool {
    ('0' <= c && c <= '9') || ('a' <= c && c <= 'f')
}

/// Whether `s` is a UUID in hyphenated lower-case form, such as
/// `936da01f-9abd-4d9d-80c7-02af85c822a8`: 36 characters, hyphens at
/// positions 8, 13, 18 and 23, lower-case hex digits elsewhere.
pub open spec fn is_hyphenated_uuid(s: Seq<char>) -> bool {
    &&& s.len() == 36
    &&& forall|i: int|
        0 <= i < 36 ==> if i == 8 || i == 13 || i == 18 || i == 23 {
            #[trigger] s[i] == '-'
        } else {
            is_lower_hex_digit(s[i])
        }
}

/// Whether `s` is a random (version 4, RFC 4122 variant) UUID in hyphenated
/// lower-case form.
pub open spec fn is_random_uuid(s: Seq<char>) -> bool {
    &&& is_hyphenated_uuid(s)
    &&& s[14] == '4'
    &&& (s[19] == '8' || s[19] == '9' || s[19] == 'a' || s[19] == 'b')
}

/// Generate a new unique session ID.
///
/// Calls `uuid::Uuid::new_v4` and formats the result with its `Display`
/// impl. The contract claims only the shape of the text, which `uuid`'s
/// source shows (`Display` writes the hyphenated lower-case form and
/// `new_v4` fixes the version and variant bits); which random value comes
/// back is left unsaid.
#[verifier::external_body]
pub fn generate_session_id() -> (r: String)
    ensures
        is_random_uuid(r@),
{
    uuid::Uuid::new_v4().to_string()
}

/// Session data structure.
///
/// Contains all session information including metadata and user data.
#[derive(Clone)]
pub struct Session {
    /// Unique session identifier
    pub id: String,
    /// Session data as key-value pairs
    pub data: SessionData,
    /// Session creation timestamp
    pub created_at: Timestamp,
    /// Last access timestamp
    pub last_accessed_at: Timestamp,
    /// Session expiration timestamp
    pub expires_at: Timestamp,
    /// User agent (optional)
    pub user_agent: Option<String>,
    /// IP address (optional)
    pub ip_address: Option<String>,
}

/// Whether `s` is the session that [`Session::new`] builds for `id` and
/// `ttl` when the clock reads `now`: no data, created and last accessed at
/// `now`, expiring `ttl` later.
pub open spec fn is_fresh_session(s: Session, id: Seq<char>, ttl: Ttl, now: Timestamp) -> bool {
    &&& s.id@ == id
    &&& s.data@ == Map::<Seq<char>, serde_json::Value>::empty()
    &&& s.created_at == now
    &&& s.last_accessed_at == now
    &&& s.expires_at@ == now@ + offset_of(ttl@)
    &&& s.user_agent is None
    &&& s.ip_address is None
}

/// Whether `s` has expired when the clock reads `now`: `now` lies strictly
/// after its expiration.
pub open spec fn expired_at(s: Session, now: Timestamp) -> bool {
    now@ > s.expires_at@
}

/// What [`Session::extend_at`] does to `old`, giving `new` and the result
/// `r`, when the clock reads `now`.
pub open spec fn extend_outcome(old: Session, new: Session, ttl: Ttl, now: Timestamp, r: bool) -> bool {
    &&& r <==> now@ + offset_of(ttl@) <= max_instant()
    &&& r ==> extended_at(old, new, ttl, now)
    &&& !r ==> new == old
}

/// `old` with its expiration moved to `ttl` after `now`.
pub open spec fn extended_at(old: Session, new: Session, ttl: Ttl, now: Timestamp) -> bool {
    &&& new.expires_at@ == now@ + offset_of(ttl@)
    &&& new == (Session { expires_at: new.expires_at, ..old })
}

/// The data that inserting, into empty data, the value that `data` holds
/// under each key of `keys` in turn builds.
pub open spec fn rebuilt_data(
    keys: Seq<Seq<char>>,
    data: Map<Seq<char>, serde_json::Value>,
) -> Map<Seq<char>, serde_json::Value>
    decreases keys.len(),
{
    if keys.len() == 0 {
        Map::empty()
    } else {
        rebuilt_data(keys.drop_last(), data).insert(keys.last(), data[keys.last()])
    }
}

/// Session data is rebuilt exactly by inserting, into empty data, the value
/// under each of its keys, in any order: what [`SessionData::keys`] and
/// [`SessionData::get`] read out, [`SessionData::insert`] puts back.
pub proof fn data_rebuilds_from_its_keys(
    keys: Seq<Seq<char>>,
    data: Map<Seq<char>, serde_json::Value>,
)
    requires
        keys.to_set() == data.dom(),
    ensures
        rebuilt_data(keys, data) == data,
{
    lemma_rebuilt_restricts(keys, data);
    assert(data.restrict(keys.to_set()) =~= data);
}

proof fn lemma_rebuilt_restricts(keys: Seq<Seq<char>>, data: Map<Seq<char>, serde_json::Value>)
    requires
        keys.to_set().subset_of(data.dom()),
    ensures
        rebuilt_data(keys, data) == data.restrict(keys.to_set()),
    decreases keys.len(),
{
    if keys.len() > 0 {
        let init = keys.drop_last();
        assert(init.to_set().subset_of(data.dom())) by {
            assert forall|k: Seq<char>| init.to_set().contains(k) implies data.dom().contains(k) by {
                let i = choose|i: int| 0 <= i < init.len() && init[i] == k;
                assert(keys[i] == k);
                assert(keys.to_set().contains(k));
            }
        }
        lemma_rebuilt_restricts(init, data);
        assert(keys.to_set() =~= init.to_set().insert(keys.last())) by {
            assert forall|k: Seq<char>| keys.to_set().contains(k) <==> init.to_set().insert(keys.last()).contains(k) by {
                if keys.to_set().contains(k) && k != keys.last() {
                    let i = choose|i: int| 0 <= i < keys.len() && keys[i] == k;
                    assert(i != keys.len() - 1);
                    assert(init[i] == k);
                }
                if init.to_set().contains(k) {
                    let i = choose|i: int| 0 <= i < init.len() && init[i] == k;
                    assert(keys[i] == k);
                }
                if k == keys.last() {
                    assert(keys[keys.len() - 1] == k);
                }
            }
        }
        assert(keys.to_set().contains(keys.last())) by {
            assert(keys[keys.len() - 1] == keys.last());
        }
        assert(rebuilt_data(keys, data) =~= data.restrict(keys.to_set()));
    } else {
        assert(data.restrict(keys.to_set()) =~= Map::empty());
    }
}

/// A session is not expired at the moment it is created.
pub proof fn fresh_session_is_live(s: Session, id: Seq<char>, ttl: Ttl, now: Timestamp)
    requires
        is_fresh_session(s, id, ttl, now),
    ensures
        !expired_at(s, now),
{
}

/// A session created with a TTL has, at its creation, the whole seconds of
/// that TTL left (a TTL too long to add counts as zero).
pub proof fn fresh_session_has_its_ttl_left(s: Session, id: Seq<char>, ttl: Ttl, now: Timestamp)
    requires
        is_fresh_session(s, id, ttl, now),
    ensures
        remaining_secs(now@, s.expires_at@) == offset_of(ttl@) / (NANOS_PER_SEC as int),
{
    assert(whole_seconds_between(now@, s.expires_at@) == offset_of(ttl@) / (NANOS_PER_SEC as int));
    assert(offset_of(ttl@) / (NANOS_PER_SEC as int) >= 0) by (nonlinear_arith)
        requires
            offset_of(ttl@) >= 0,
    ;
}

/// A session extended when the clock reads `now` is not expired at `now`,
/// and keeps its ID, data and other timestamps.
pub proof fn extended_session_is_live(old: Session, new: Session, ttl: Ttl, now: Timestamp)
    requires
        extended_at(old, new, ttl, now),
    ensures
        !expired_at(new, now),
        new.id == old.id,
        new.data == old.data,
        new.created_at == old.created_at,
        new.last_accessed_at == old.last_accessed_at,
{
}

/// After a value is set under a key, reading that key gives the value, and
/// every other key reads as before.
pub proof fn value_reads_back_after_set(
    data: Map<Seq<char>, serde_json::Value>,
    key: Seq<char>,
    value: serde_json::Value,
    other: Seq<char>,
)
    ensures
        data.insert(key, value).contains_key(key),
        data.insert(key, value)[key] == value,
        other != key ==> (data.insert(key, value).contains_key(other) == data.contains_key(other)),
        other != key && data.contains_key(other) ==> data.insert(key, value)[other] == data[other],
{
}

/// After a key is removed, it is absent, and every other key reads as
/// before.
pub proof fn value_is_gone_after_remove(
    data: Map<Seq<char>, serde_json::Value>,
    key: Seq<char>,
    other: Seq<char>,
)
    ensures
        !data.remove(key).contains_key(key),
        other != key ==> (data.remove(key).contains_key(other) == data.contains_key(other)),
        other != key && data.contains_key(other) ==> data.remove(key)[other] == data[other],
{
}

impl Session {
    /// A session with the given ID whose clock starts at `now` and that
    /// expires `ttl` later; `None` when that expiration lies past the latest
    /// representable instant.
    pub fn new_at(id: &str, ttl: Ttl, now: Timestamp) -> (r: Option<Session>)
        ensures
            r is Some <==> now@ + offset_of(ttl@) <= max_instant(),
            r matches Some(s) ==> is_fresh_session(s, id@, ttl, now),
    {
        match now.checked_add_ttl(ttl) {
            Some(expires_at) => Some(
                Session {
                    id: id.to_owned(),
                    data: SessionData::new(),
                    created_at: now,
                    last_accessed_at: now,
                    expires_at,
                    user_agent: None,
                    ip_address: None,
                },
            ),
            None => None,
        }
    }

    /// Create a new session with the given ID and TTL, starting now.
    ///
    /// `None` when the expiration would lie past the latest representable
    /// instant, which only a TTL of hundreds of millennia can cause.
    pub fn new(id: &str, ttl: Ttl) -> (r: Option<Session>)
        ensures
            r matches Some(s) ==> is_fresh_session(s, id@, ttl, s.created_at),
            r matches Some(s) ==> is_clock_reading(s.created_at),
            r is None ==> offset_of(ttl@) > 0,
    {
        Session::new_at(id, ttl, now_utc())
    }

    /// Whether the session has expired when the clock reads `now`.
    pub fn is_expired_at(&self, now: Timestamp) -> (r: bool)
        ensures
            r == expired_at(*self, now),
    {
        now.is_after(&self.expires_at)
    }

    /// Check if the session has expired.
    pub fn is_expired(&self) -> (r: bool)
        ensures
            exists|now: Timestamp| is_clock_reading(now) && r == #[trigger] expired_at(*self, now),
    {
        let now = now_utc();
        let r = self.is_expired_at(now);
        assert(is_clock_reading(now) && r == expired_at(*self, now));
        r
    }

    /// The session, unless it has expired when the clock reads `now`.
    pub fn unless_expired_at(self, now: Timestamp) -> (r: Option<Session>)
        ensures
            r is None <==> expired_at(self, now),
            r matches Some(s) ==> s == self,
    {
        if self.is_expired_at(now) {
            None
        } else {
            Some(self)
        }
    }

    /// The session, unless it has expired.
    pub fn unless_expired(self) -> (r: Option<Session>)
        ensures
            exists|now: Timestamp| {
                &&& is_clock_reading(now)
                &&& r is None <==> #[trigger] expired_at(self, now)
                &&& r matches Some(s) ==> s == self
            },
    {
        let now = now_utc();
        let ghost this = self;
        let r = self.unless_expired_at(now);
        assert(is_clock_reading(now) && (r is None <==> expired_at(this, now)));
        r
    }

    /// Get a value from the session data.
    pub fn get(&self, key: &str) -> (r: Option<&serde_json::Value>)
        ensures
            r is Some <==> self.data@.contains_key(key@),
            r matches Some(v) ==> *v == self.data@[key@],
    {
        self.data.get(key)
    }

    /// Set a value in the session data.
    pub fn set(&mut self, key: &str, value: serde_json::Value)
        ensures
            final(self).data@ == old(self).data@.insert(key@, value),
            *final(self) == (Session { data: final(self).data, ..*old(self) }),
    {
        self.data.insert(key, value);
    }

    /// Remove a value from the session data.
    pub fn remove(&mut self, key: &str) -> (r: Option<serde_json::Value>)
        ensures
            r is Some <==> old(self).data@.contains_key(key@),
            r matches Some(v) ==> v == old(self).data@[key@],
            final(self).data@ == old(self).data@.remove(key@),
            *final(self) == (Session { data: final(self).data, ..*old(self) }),
    {
        self.data.remove(key)
    }

    /// Check if a key exists in the session data.
    pub fn contains(&self, key: &str) -> (r: bool)
        ensures
            r == self.data@.contains_key(key@),
    {
        self.data.contains_key(key)
    }

    /// Get all keys in the session data, each once.
    pub fn keys(&self) -> (r: Vec<&String>)
        ensures
            r@.len() == self.data@.dom().len(),
            forall|i: int| 0 <= i < r@.len() ==> #[trigger] self.data@.contains_key(r@[i]@),
            forall|k: Seq<char>|
                #[trigger] self.data@.contains_key(k) ==> exists|i: int|
                    0 <= i < r@.len() && r@[i]@ == k,
            forall|i: int, j: int| 0 <= i < j < r@.len() ==> #[trigger] r@[i]@ != #[trigger] r@[j]@,
    {
        self.data.keys()
    }

    /// Clear all session data.
    pub fn clear(&mut self)
        ensures
            final(self).data@ == Map::<Seq<char>, serde_json::Value>::empty(),
            *final(self) == (Session { data: final(self).data, ..*old(self) }),
    {
        self.data.clear();
    }

    /// Set the last accessed timestamp to `now`.
    pub fn touch_at(&mut self, now: Timestamp)
        ensures
            *final(self) == (Session { last_accessed_at: now, ..*old(self) }),
    {
        self.last_accessed_at = now;
    }

    /// Update the last accessed timestamp to a reading of the system clock.
    pub fn touch(&mut self)
        ensures
            is_clock_reading(final(self).last_accessed_at),
            *final(self) == (Session { last_accessed_at: final(self).last_accessed_at, ..*old(self) }),
    {
        self.touch_at(now_utc());
    }

    /// Move the expiration to `ttl` after `now`; `false`, with the session
    /// unchanged, when that lies past the latest representable instant.
    pub fn extend_at(&mut self, ttl: Ttl, now: Timestamp) -> (r: bool)
        ensures
            extend_outcome(*old(self), *final(self), ttl, now, r),
    {
        match now.checked_add_ttl(ttl) {
            Some(t) => {
                self.expires_at = t;
                true
            },
            None => false,
        }
    }

    /// Extend the session expiration to `ttl` from now; `false`, with the
    /// session unchanged, when that lies past the latest representable
    /// instant.
    pub fn extend(&mut self, ttl: Ttl) -> (r: bool)
        ensures
            exists|now: Timestamp|
                is_clock_reading(now) && #[trigger] extend_outcome(*old(self), *final(self), ttl, now, r),
    {
        let now = now_utc();
        self.extend_at(ttl, now)
    }

    /// Set user agent.
    pub fn with_user_agent(self, user_agent: &str) -> (r: Session)
        ensures
            r.user_agent matches Some(u) && u@ == user_agent@,
            r == (Session { user_agent: r.user_agent, ..self }),
    {
        Session { user_agent: Some(user_agent.to_owned()), ..self }
    }

    /// Set IP address.
    pub fn with_ip_address(self, ip_address: &str) -> (r: Session)
        ensures
            r.ip_address matches Some(a) && a@ == ip_address@,
            r == (Session { ip_address: r.ip_address, ..self }),
    {
        Session { ip_address: Some(ip_address.to_owned()), ..self }
    }
}

impl SessionConfig {
    /// A new session under a freshly generated ID, with the TTL asked for
    /// (or the default) cut down to the maximum, starting now; `None` when
    /// its expiration would lie past the latest representable instant.
    pub fn new_session(&self, ttl: Option<Ttl>) -> (r: Option<Session>)
        ensures
            r matches Some(s) ==> {
                &&& is_random_uuid(s.id@)
                &&& is_fresh_session(s, s.id@, self.effective_ttl_spec(ttl), s.created_at)
                &&& is_clock_reading(s.created_at)
            },
            r is None ==> offset_of(self.effective_ttl_spec(ttl)@) > 0,
    {
        let session_id = generate_session_id();
        let ttl = self.effective_ttl(ttl);
        Session::new(session_id.as_str(), ttl)
    }
}

} // verus!
