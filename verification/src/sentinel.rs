//! The sentinel cache: short-lived marks that say "already done".

use vstd::prelude::*;
use vstd::hash_map::StringHashMap;

verus! {

/// Milliseconds since the Unix epoch.
pub type Millis = i64;

/// What the cache remembers under a key.
#[derive(Clone, Copy, Debug, PartialEq, Eq, Structural)]
pub struct SentinelMark {
    pub value: bool,
    pub expires_at: Millis,
}

/// An in-memory key/TTL store.
pub struct SentinelCache {
    entries: StringHashMap<SentinelMark>,
}

/// The moment an entry written at `now` with a time to live of
/// `ttl_seconds` expires.  It never passes the largest moment there is.
pub open spec fn expiry(now: Millis, ttl_seconds: u64) -> Millis {
    if now + 1000 * ttl_seconds > i64::MAX {
        i64::MAX
    } else {
        (now + 1000 * ttl_seconds) as i64
    }
}

/// Whether a mark still counts at `now`: it says `true` and has not expired.
pub open spec fn mark_holds(mark: SentinelMark, now: Millis) -> bool {
    mark.value && now < mark.expires_at
}

/// Whether the marks say at `now` that the work under `key` is done.
/// An absent or expired entry says no.
pub open spec fn sentinel_present(
    marks: Map<Seq<char>, SentinelMark>,
    key: Seq<char>,
    now: Millis,
) -> bool {
    marks.contains_key(key) && mark_holds(marks[key], now)
}

/// What a reading of the cache means for the task: a backend that failed
/// to answer counts as "not done", so that the task runs.
pub open spec fn reading_means_done(reading: Option<bool>) -> bool {
    reading == Some(true)
}

/// Turns a reading of the cache into the decision to skip.
pub fn reading_says_done(reading: Option<bool>) -> (done: bool)
    ensures
        done == reading_means_done(reading),
{
    match reading {
        Some(value) => value,
        None => false,
    }
}

/// Computes the moment of expiry.
pub fn expires_at(now: Millis, ttl_seconds: u64) -> (at: Millis)
    ensures
        at == expiry(now, ttl_seconds),
        now <= at,
{
    let wide: i128 = now as i128 + 1000 * (ttl_seconds as i128);
    if wide > i64::MAX as i128 {
        i64::MAX
    } else {
        wide as i64
    }
}

impl View for SentinelCache {
    type V = Map<Seq<char>, SentinelMark>;

    closed spec fn view(&self) -> Map<Seq<char>, SentinelMark> {
        self.entries@
    }
}

impl SentinelCache {
    /// An empty cache.
    pub fn new() -> (cache: SentinelCache)
        ensures
            cache@ == Map::<Seq<char>, SentinelMark>::empty(),
    {
        SentinelCache { entries: StringHashMap::new() }
    }

    /// Whether the cache says at `now` that the work under `key` is done.
    pub fn get_bool(&self, key: &str, now: Millis) -> (done: bool)
        ensures
            done == sentinel_present(self@, key@, now),
    {
        match self.entries.get(key) {
            Some(mark) => mark.value && now < mark.expires_at,
            None => false,
        }
    }

    /// What the cache holds under `key`, expired or not.
    pub fn peek(&self, key: &str) -> (mark: Option<SentinelMark>)
        ensures
            mark is Some <==> self@.contains_key(key@),
            mark matches Some(m) ==> m == self@[key@],
    {
        match self.entries.get(key) {
            Some(mark) => Some(*mark),
            None => None,
        }
    }

    /// Writes `value` under `key`, to expire `ttl_seconds` after `now`.
    /// An earlier entry under the key is replaced.
    pub fn set(&mut self, key: &str, value: bool, ttl_seconds: u64, now: Millis)
        ensures
            final(self)@ == old(self)@.insert(
                key@,
                SentinelMark { value, expires_at: expiry(now, ttl_seconds) },
            ),
    {
        let mark = SentinelMark { value, expires_at: expires_at(now, ttl_seconds) };
        self.entries.insert(String::from_str(key), mark);
    }

    /// Forgets every entry.
    pub fn clear(&mut self)
        ensures
            final(self)@ == Map::<Seq<char>, SentinelMark>::empty(),
    {
        self.entries.clear();
    }
}

} // verus!
