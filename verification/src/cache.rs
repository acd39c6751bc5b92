//! The redirect cache: short code to target and expiry, kept either in
//! this process or by an outside service that is told what to store.

use crate::errors::RusError;
use crate::time::{time_of, whole_seconds, Timestamp, CLOCK_LIMIT_SECS};
use vstd::hash_map::StringHashMap;
use vstd::prelude::*;

verus! {

/// A cached target and the time from which it must no longer be served;
/// an entry without such a time never expires.
#[derive(Debug, Clone)]
pub struct CacheEntry {
    pub long_url: String,
    pub expires_at: Option<Timestamp>,
}

/// What an entry says: the target's characters and the expiry in
/// nanoseconds since the start of 1970.
pub struct CacheEntryView {
    pub long_url: Seq<char>,
    pub expires_at: Option<int>,
}

/// Whether something that expires at `expires` is still good at `now`:
/// what never expires is, and what expires is until its expiry has come.
pub open spec fn live_at(expires: Option<int>, now: int) -> bool {
    match expires {
        Some(expiry) => now < expiry,
        None => true,
    }
}

impl View for CacheEntry {
    type V = CacheEntryView;

    open spec fn view(&self) -> CacheEntryView {
        CacheEntryView { long_url: self.long_url@, expires_at: time_of(self.expires_at) }
    }
}

impl CacheEntryView {
    /// An entry may be served only while the time is before its expiry.
    pub open spec fn is_live_at(self, now: int) -> bool {
        live_at(self.expires_at, now)
    }
}

/// The target that a read of `key` at time `now` finds among `entries`:
/// that of the entry under `key` if there is one and it is still live.
pub open spec fn live_target(
    entries: Map<Seq<char>, CacheEntryView>,
    key: Seq<char>,
    now: int,
) -> Option<Seq<char>> {
    if entries.contains_key(key) && entries[key].is_live_at(now) {
        Some(entries[key].long_url)
    } else {
        None
    }
}

/// The time to live, in whole seconds, of an entry that expires at
/// `expires` and is written at `now`; `None` where it never expires and
/// where no whole second is left.
pub open spec fn ttl_seconds(expires: Option<int>, now: int) -> Option<int> {
    match expires {
        Some(expiry) => if whole_seconds(expiry - now) > 0 {
            Some(whole_seconds(expiry - now))
        } else {
            None
        },
        None => None,
    }
}

/// The characters of an optional string.
pub open spec fn text_of(s: Option<String>) -> Option<Seq<char>> {
    match s {
        Some(s) => Some(s@),
        None => None,
    }
}

/// The cache, in one of its two forms.
pub enum Cache {
    /// The entries live in this process.
    InMemory(StringHashMap<CacheEntry>),
    /// The entries live in the service at this address; the caller sends
    /// it what `try_get` and `add_entry` ask for.
    Redis(String),
}

/// What a read of the cache comes to.
#[derive(Debug, PartialEq, Eq)]
pub enum CacheRead {
    /// The cache has answered: the target, or nothing.
    Answer(Option<String>),
    /// The caller is to ask the service for the key.
    AskService,
}

/// What a write to the cache comes to.
#[derive(Debug, PartialEq, Eq)]
pub enum CacheWrite {
    /// The entry is now in this process's cache.
    Stored,
    /// The entry had expired already: nothing was stored.
    Skipped,
    /// The caller is to store the value in the service for good.
    SetForever { key: String, value: String },
    /// The caller is to store the value in the service for `seconds` seconds.
    SetEx { key: String, value: String, seconds: u64 },
}

/// What a read says, over characters.
pub enum CacheReadView {
    Answer(Option<Seq<char>>),
    AskService,
}

/// What a write says, over characters.
pub enum CacheWriteView {
    Stored,
    Skipped,
    SetForever { key: Seq<char>, value: Seq<char> },
    SetEx { key: Seq<char>, value: Seq<char>, seconds: int },
}

impl View for CacheRead {
    type V = CacheReadView;

    open spec fn view(&self) -> CacheReadView {
        match *self {
            CacheRead::Answer(target) => CacheReadView::Answer(text_of(target)),
            CacheRead::AskService => CacheReadView::AskService,
        }
    }
}

impl View for CacheWrite {
    type V = CacheWriteView;

    open spec fn view(&self) -> CacheWriteView {
        match *self {
            CacheWrite::Stored => CacheWriteView::Stored,
            CacheWrite::Skipped => CacheWriteView::Skipped,
            CacheWrite::SetForever { key, value } => CacheWriteView::SetForever { key: key@, value: value@ },
            CacheWrite::SetEx { key, value, seconds } => CacheWriteView::SetEx {
                key: key@,
                value: value@,
                seconds: seconds as int,
            },
        }
    }
}

/// What the service is to be told for an entry that expires at `expires`
/// and is written at `now`: to keep it for its whole seconds to live, or,
/// where it never expires or no whole second is left, to keep it for good.
pub open spec fn service_write(
    key: Seq<char>,
    value: Seq<char>,
    expires: Option<int>,
    now: int,
) -> CacheWriteView {
    match ttl_seconds(expires, now) {
        Some(seconds) => CacheWriteView::SetEx { key, value, seconds },
        None => CacheWriteView::SetForever { key, value },
    }
}

/// Whether something that expires at `expires` is still good at `now`.
pub fn still_live(expires: &Option<Timestamp>, now: &Timestamp) -> (r: bool)
    ensures
        r == live_at(time_of(*expires), now@),
{
    match expires {
        Some(expiry) => now.is_before(expiry),
        None => true,
    }
}

impl Cache {
    /// The entries that this process holds; none for the service's form.
    pub open spec fn entries(&self) -> Map<Seq<char>, CacheEntryView> {
        match *self {
            Cache::InMemory(data) => data@.map_values(|e: CacheEntry| e@),
            Cache::Redis(_) => Map::empty(),
        }
    }

    /// What a read of `key` at time `now` comes to.
    pub open spec fn read_at(&self, key: Seq<char>, now: int) -> CacheReadView {
        match *self {
            Cache::InMemory(_) => CacheReadView::Answer(live_target(self.entries(), key, now)),
            Cache::Redis(_) => CacheReadView::AskService,
        }
    }

    /// What a write at time `now` comes to.
    pub open spec fn write_at(
        &self,
        key: Seq<char>,
        value: Seq<char>,
        expires: Option<int>,
        now: int,
    ) -> CacheWriteView {
        match *self {
            Cache::InMemory(_) => if live_at(expires, now) {
                CacheWriteView::Stored
            } else {
                CacheWriteView::Skipped
            },
            Cache::Redis(_) => service_write(key, value, expires, now),
        }
    }

    /// The entries that this process holds after a write at time `now`.
    pub open spec fn entries_after(
        &self,
        key: Seq<char>,
        value: Seq<char>,
        expires: Option<int>,
        now: int,
    ) -> Map<Seq<char>, CacheEntryView> {
        if self is InMemory && live_at(expires, now) {
            self.entries().insert(key, CacheEntryView { long_url: value, expires_at: expires })
        } else {
            self.entries()
        }
    }

    /// An empty cache in this process.
    pub fn in_memory() -> (cache: Cache)
        ensures
            cache is InMemory,
            cache.entries() == Map::<Seq<char>, CacheEntryView>::empty(),
    {
        let cache = Cache::InMemory(StringHashMap::new());
        assert(cache.entries() =~= Map::<Seq<char>, CacheEntryView>::empty());
        cache
    }

    /// Reads `key` at time `now`. An entry of this process is served only
    /// while `now` is before its expiry; for the service's form the caller
    /// is sent to ask.
    pub fn try_get_at(&self, key: &String, now: &Timestamp) -> (r: CacheRead)
        ensures
            r@ == self.read_at(key@, now@),
    {
        match self {
            Cache::InMemory(data) => {
                match data.get(key.as_str()) {
                    Some(entry) => {
                        if still_live(&entry.expires_at, now) {
                            CacheRead::Answer(Some(entry.long_url.clone()))
                        } else {
                            CacheRead::Answer(None)
                        }
                    },
                    None => CacheRead::Answer(None),
                }
            },
            Cache::Redis(_) => CacheRead::AskService,
        }
    }

    /// Reads `key` at the time that the clock shows.
    pub fn try_get(&self, key: &String) -> (r: CacheRead)
        ensures
            exists|now: int|
                0 <= now < CLOCK_LIMIT_SECS * 1_000_000_000 && r@ == #[trigger] self.read_at(
                    key@,
                    now,
                ),
    {
        let now = Timestamp::now();
        self.try_get_at(key, &now)
    }

    /// Writes `value` under `key`, to expire at `expires` or never, at
    /// time `now`. This process's cache stores the entry, over any older
    /// one, only if it has not expired by `now`. The service's form is left
    /// as it is and the caller is told what to send.
    pub fn add_entry_at(
        &mut self,
        key: String,
        value: String,
        expires: Option<Timestamp>,
        now: &Timestamp,
    ) -> (r: CacheWrite)
        ensures
            r@ == old(self).write_at(key@, value@, time_of(expires), now@),
            final(self).entries() == old(self).entries_after(
                key@,
                value@,
                time_of(expires),
                now@,
            ),
            *old(self) is InMemory <==> *final(self) is InMemory,
            *old(self) is Redis ==> *final(self) == *old(self),
    {
        match self {
            Cache::InMemory(data) => {
                if still_live(&expires, now) {
                    let ghost before = data@;
                    let ghost entry = CacheEntryView {
                        long_url: value@,
                        expires_at: time_of(expires),
                    };
                    data.insert(key, CacheEntry { long_url: value, expires_at: expires });
                    assert(data@.map_values(|e: CacheEntry| e@) =~= before.map_values(
                        |e: CacheEntry| e@,
                    ).insert(key@, entry));
                    CacheWrite::Stored
                } else {
                    CacheWrite::Skipped
                }
            },
            Cache::Redis(_) => {
                let left = match expires {
                    Some(expiry) => expiry.seconds_after(now),
                    None => None,
                };
                match left {
                    Some(seconds) => CacheWrite::SetEx { key, value, seconds },
                    None => CacheWrite::SetForever { key, value },
                }
            },
        }
    }

    /// Writes `value` under `key`, to expire at `expires` or never, at
    /// the time that the clock shows.
    pub fn add_entry(&mut self, key: String, value: String, expires: Option<Timestamp>) -> (r:
        CacheWrite)
        ensures
            exists|now: int|
                0 <= now < CLOCK_LIMIT_SECS * 1_000_000_000 && r@ == #[trigger] old(self).write_at(
                    key@,
                    value@,
                    time_of(expires),
                    now,
                ) && final(self).entries() == old(self).entries_after(
                    key@,
                    value@,
                    time_of(expires),
                    now,
                ),
            *old(self) is InMemory <==> *final(self) is InMemory,
            *old(self) is Redis ==> *final(self) == *old(self),
    {
        let now = Timestamp::now();
        self.add_entry_at(key, value, expires, &now)
    }

    /// What a read of the service comes to: its reply, and nothing where
    /// the service could not be reached or failed.
    pub fn service_answer(reply: Result<Option<String>, String>) -> (r: Option<String>)
        ensures
            r == match reply {
                Ok(target) => target,
                Err(_) => None::<String>,
            },
    {
        match reply {
            Ok(target) => target,
            Err(_) => None,
        }
    }

    /// What a write to the service comes to: the service's failure is
    /// reported as a failure of the cache.
    pub fn service_outcome(reply: Result<(), String>) -> (r: Result<(), RusError>)
        ensures
            r == match reply {
                Ok(()) => Ok::<(), RusError>(()),
                Err(report) => Err::<(), RusError>(RusError::Redis(report)),
            },
    {
        match reply {
            Ok(()) => Ok(()),
            Err(report) => Err(RusError::Redis(report)),
        }
    }

    /// The cache for a configured service address: the service's form
    /// where there is an address and it `opens`, else an empty cache in
    /// this process.
    pub fn select(redis_url: Option<String>, opens: bool) -> (cache: Cache)
        ensures
            redis_url is Some && opens ==> cache == Cache::Redis(redis_url->0),
            !(redis_url is Some && opens) ==> cache is InMemory && cache.entries() == Map::<
                Seq<char>,
                CacheEntryView,
            >::empty(),
    {
        match redis_url {
            Some(url) => {
                if opens {
                    Cache::Redis(url)
                } else {
                    Cache::in_memory()
                }
            },
            None => Cache::in_memory(),
        }
    }
}

/// Whether `redis::Client::open` accepts `url` as the address of a service.
pub uninterp spec fn redis_opens(url: Seq<char>) -> bool;

/// Asks `redis::Client::open` whether `url` is an address that it takes.
/// The call reads the address and connects to nothing, so the answer is
/// fixed by the characters of `url`.
#[verifier::external_body]
fn redis_url_opens(url: &str) -> (r: bool)
    ensures
        r == redis_opens(url@),
{
    redis::Client::open(url).is_ok()
}

/// The cache that the configuration asks for: the service's form where an
/// address is configured and `redis::Client::open` accepts it, else an
/// empty cache in this process.
pub fn create_cache(redis_url: Option<String>) -> (cache: Cache)
    ensures
        redis_url is Some && redis_opens(redis_url->0@) ==> cache == Cache::Redis(redis_url->0),
        !(redis_url is Some && redis_opens(redis_url->0@)) ==> cache is InMemory && cache.entries()
            == Map::<Seq<char>, CacheEntryView>::empty(),
{
    let opens = match &redis_url {
        Some(url) => redis_url_opens(url.as_str()),
        None => false,
    };
    Cache::select(redis_url, opens)
}

/// No entry is served once the time has reached its expiry: whatever a
/// read of this process's cache answers is the target of an entry under
/// the key that is still live.
pub proof fn lemma_served_entries_are_live(cache: Cache, key: Seq<char>, now: int)
    requires
        cache is InMemory,
    ensures
        cache.read_at(key, now) is Answer,
        cache.read_at(key, now)->Answer_0 is Some ==> {
            &&& cache.entries().contains_key(key)
            &&& cache.entries()[key].expires_at is Some ==> now < cache.entries()[key].expires_at->0
            &&& cache.read_at(key, now)->Answer_0 == Some(cache.entries()[key].long_url)
        },
        cache.entries().contains_key(key) && cache.entries()[key].expires_at is Some && now
            >= cache.entries()[key].expires_at->0 ==> cache.read_at(key, now)
            == CacheReadView::Answer(None),
{
}

/// What a write to this process's cache does to later reads. The written
/// key answers with the new value until the new expiry, and for good
/// where there is none, whatever it held before, if the write came before
/// that expiry; a write that came later changes no answer. Reads of other
/// keys are never changed.
pub proof fn lemma_write_then_read(
    cache: Cache,
    key: Seq<char>,
    value: Seq<char>,
    expires: Option<int>,
    written: int,
    other: Seq<char>,
    read: int,
)
    requires
        cache is InMemory,
        other != key,
    ensures
        ({
            let after = cache.entries_after(key, value, expires, written);
            &&& live_at(expires, written) ==> live_target(after, key, read) == if live_at(
                expires,
                read,
            ) {
                Some(value)
            } else {
                None
            }
            &&& !live_at(expires, written) ==> live_target(after, key, read) == live_target(
                cache.entries(),
                key,
                read,
            )
            &&& live_target(after, other, read) == live_target(cache.entries(), other, read)
        }),
{
}

} // verus!
