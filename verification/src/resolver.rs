//! Redirect resolution: from a short code to its target, first by the
//! cache and then by the durable store, with the work that is left for
//! the background once the answer is known.

use crate::cache::{
    live_at, live_target, text_of, Cache, CacheEntryView, CacheRead, CacheReadView, CacheWrite,
};
use crate::errors::RusError;
use crate::model::{Model, ModelView};
use crate::time::{time_of, Timestamp, CLOCK_LIMIT_SECS};
use vstd::prelude::*;

verus! {

/// The answer to a redirect request.
#[derive(Debug, PartialEq, Eq)]
pub enum RedirectOutcome {
    /// The code leads to this target.
    Found(String),
    /// No redirection answers to the code.
    NotFound,
}

/// An entry that is to be written to the cache in the background, to
/// expire at `expires`, or never where there is no such time.
#[derive(Debug, PartialEq, Eq)]
pub struct CacheFill {
    pub key: String,
    pub value: String,
    pub expires: Option<Timestamp>,
}

/// The answer and what is left to do after it. Nothing of what is left
/// is waited for, and none of it can change the answer.
#[derive(Debug, PartialEq, Eq)]
pub struct Resolution {
    pub outcome: RedirectOutcome,
    /// Whether the last access of the code's redirection is to be refreshed.
    pub touch: bool,
    /// The entry with which the cache is to be filled, if any.
    pub fill: Option<CacheFill>,
}

/// Where a redirect request stands.
#[derive(Debug, PartialEq, Eq)]
pub enum Redirect {
    /// The cache is a service: the caller asks it for the code and comes
    /// back with `redirect_cached`.
    AskService,
    /// The cache had nothing: the caller asks the durable store for the
    /// code and comes back with `redirect_stored`.
    AskStore,
    /// The request is answered.
    Respond(Resolution),
    /// The durable store failed.
    Fail(RusError),
}

/// What the caller brings back to a request that sent it to ask.
#[derive(Debug, PartialEq, Eq)]
pub enum RedirectEvent {
    /// The cache service's answer for the code: a target, or nothing,
    /// which is also what a service that fails has answered.
    Cached(Option<String>),
    /// The durable store's answer for the code: a row, none, or the
    /// report of its failure.
    Stored(Result<Option<Model>, String>),
}

/// An event over characters.
pub enum RedirectEventView {
    Cached(Option<Seq<char>>),
    Stored(Result<Option<ModelView>, String>),
}

/// An outcome over characters.
pub enum RedirectOutcomeView {
    Found(Seq<char>),
    NotFound,
}

/// A cache fill over characters and nanoseconds.
pub struct CacheFillView {
    pub key: Seq<char>,
    pub value: Seq<char>,
    pub expires: Option<int>,
}

/// A resolution over characters.
pub struct ResolutionView {
    pub outcome: RedirectOutcomeView,
    pub touch: bool,
    pub fill: Option<CacheFillView>,
}

/// A request's standing over characters.
pub enum RedirectView {
    AskService,
    AskStore,
    Respond(ResolutionView),
    Fail(RusError),
}

impl View for RedirectOutcome {
    type V = RedirectOutcomeView;

    open spec fn view(&self) -> RedirectOutcomeView {
        match *self {
            RedirectOutcome::Found(target) => RedirectOutcomeView::Found(target@),
            RedirectOutcome::NotFound => RedirectOutcomeView::NotFound,
        }
    }
}

impl View for CacheFill {
    type V = CacheFillView;

    open spec fn view(&self) -> CacheFillView {
        CacheFillView { key: self.key@, value: self.value@, expires: time_of(self.expires) }
    }
}

impl View for Resolution {
    type V = ResolutionView;

    open spec fn view(&self) -> ResolutionView {
        ResolutionView {
            outcome: self.outcome@,
            touch: self.touch,
            fill: match self.fill {
                Some(fill) => Some(fill@),
                None => None,
            },
        }
    }
}

impl View for RedirectEvent {
    type V = RedirectEventView;

    open spec fn view(&self) -> RedirectEventView {
        match *self {
            RedirectEvent::Cached(target) => RedirectEventView::Cached(text_of(target)),
            RedirectEvent::Stored(found) => RedirectEventView::Stored(store_reply(found)),
        }
    }
}

impl View for Redirect {
    type V = RedirectView;

    open spec fn view(&self) -> RedirectView {
        match *self {
            Redirect::AskService => RedirectView::AskService,
            Redirect::AskStore => RedirectView::AskStore,
            Redirect::Respond(resolution) => RedirectView::Respond(resolution@),
            Redirect::Fail(error) => RedirectView::Fail(error),
        }
    }
}

/// The answer from the cache: the target is found, its last access is to
/// be refreshed, and the cache needs nothing.
pub open spec fn served_from_cache(target: Seq<char>) -> ResolutionView {
    ResolutionView { outcome: RedirectOutcomeView::Found(target), touch: true, fill: None }
}

/// The answer from a row of the durable store: its long URL is found, its
/// last access is to be refreshed, and the cache is to be filled with the
/// code, the long URL and the row's expiration, so that the entry of a
/// row that never expires never expires either.
pub open spec fn served_from_store(code: Seq<char>, row: ModelView) -> ResolutionView {
    ResolutionView {
        outcome: RedirectOutcomeView::Found(row.long_url),
        touch: true,
        fill: Some(
            CacheFillView { key: code, value: row.long_url, expires: row.expiration_date },
        ),
    }
}

/// The answer where neither cache nor store knows the code.
pub open spec fn unknown_code() -> ResolutionView {
    ResolutionView { outcome: RedirectOutcomeView::NotFound, touch: false, fill: None }
}

/// Where a request stands once the cache has been read.
pub open spec fn after_cache(read: CacheReadView) -> RedirectView {
    match read {
        CacheReadView::Answer(Some(target)) => RedirectView::Respond(served_from_cache(target)),
        CacheReadView::Answer(None) => RedirectView::AskStore,
        CacheReadView::AskService => RedirectView::AskService,
    }
}

/// The store's answer over views.
pub open spec fn store_reply(found: Result<Option<Model>, String>) -> Result<
    Option<ModelView>,
    String,
> {
    match found {
        Ok(Some(row)) => Ok(Some(row@)),
        Ok(None) => Ok(None),
        Err(report) => Err(report),
    }
}

/// Where a request for `code` stands once the durable store has answered.
pub open spec fn after_store(
    code: Seq<char>,
    found: Result<Option<ModelView>, String>,
) -> RedirectView {
    match found {
        Ok(Some(row)) => RedirectView::Respond(served_from_store(code, row)),
        Ok(None) => RedirectView::Respond(unknown_code()),
        Err(report) => RedirectView::Fail(RusError::Database(report)),
    }
}

/// Where a request for `code` that stands at `standing` stands after
/// `event`. The service's answer moves a request that waits for the
/// service, and the store's answer one that waits for the store; any
/// other event leaves the request where it stands, so that a request that
/// is answered or has failed stays so.
pub open spec fn after_event(
    standing: RedirectView,
    code: Seq<char>,
    event: RedirectEventView,
) -> RedirectView {
    match (standing, event) {
        (RedirectView::AskService, RedirectEventView::Cached(target)) => after_cache(
            CacheReadView::Answer(target),
        ),
        (RedirectView::AskStore, RedirectEventView::Stored(found)) => after_store(code, found),
        _ => standing,
    }
}

/// Takes the cache's answer for a code: a target answers the request, and
/// nothing sends the caller on to the durable store.
pub fn redirect_cached(cached: Option<String>) -> (r: Redirect)
    ensures
        r@ == after_cache(CacheReadView::Answer(text_of(cached))),
{
    match cached {
        Some(target) => Redirect::Respond(
            Resolution { outcome: RedirectOutcome::Found(target), touch: true, fill: None },
        ),
        None => Redirect::AskStore,
    }
}

/// Begins the request for `code` at time `now` by reading the cache.
pub fn redirect_at(cache: &Cache, code: &String, now: &Timestamp) -> (r: Redirect)
    ensures
        r@ == after_cache(cache.read_at(code@, now@)),
{
    match cache.try_get_at(code, now) {
        CacheRead::Answer(cached) => redirect_cached(cached),
        CacheRead::AskService => Redirect::AskService,
    }
}

/// Begins the request for `code` at the time that the clock shows.
pub fn redirect(cache: &Cache, code: &String) -> (r: Redirect)
    ensures
        exists|now: int|
            0 <= now < CLOCK_LIMIT_SECS * 1_000_000_000 && r@ == after_cache(
                #[trigger] cache.read_at(code@, now),
            ),
{
    let now = Timestamp::now();
    redirect_at(cache, code, &now)
}

/// Takes the durable store's answer for `code`: a row answers the request
/// with its long URL and leaves the cache fill and the refresh of the last
/// access for the background, no row answers it with `NotFound`, and a
/// failure of the store ends it.
pub fn redirect_stored(code: &String, found: Result<Option<Model>, String>) -> (r: Redirect)
    ensures
        r@ == after_store(code@, store_reply(found)),
{
    match found {
        Ok(Some(row)) => {
            let fill = CacheFill {
                key: code.clone(),
                value: row.long_url.clone(),
                expires: row.expiration_date,
            };
            Redirect::Respond(
                Resolution {
                    outcome: RedirectOutcome::Found(row.long_url),
                    touch: true,
                    fill: Some(fill),
                },
            )
        },
        Ok(None) => Redirect::Respond(
            Resolution { outcome: RedirectOutcome::NotFound, touch: false, fill: None },
        ),
        Err(report) => Redirect::Fail(RusError::Database(report)),
    }
}

/// Moves the request for `code` that stands at `standing` on by `event`.
pub fn redirect_step(standing: Redirect, code: &String, event: RedirectEvent) -> (r: Redirect)
    ensures
        r@ == after_event(standing@, code@, event@),
{
    match standing {
        Redirect::AskService => match event {
            RedirectEvent::Cached(target) => redirect_cached(target),
            RedirectEvent::Stored(_) => Redirect::AskService,
        },
        Redirect::AskStore => match event {
            RedirectEvent::Stored(found) => redirect_stored(code, found),
            RedirectEvent::Cached(_) => Redirect::AskStore,
        },
        Redirect::Respond(resolution) => Redirect::Respond(resolution),
        Redirect::Fail(error) => Redirect::Fail(error),
    }
}

/// Writes a fill to the cache at time `now`.
pub fn populate_at(cache: &mut Cache, fill: CacheFill, now: &Timestamp) -> (r: CacheWrite)
    ensures
        r@ == old(cache).write_at(fill@.key, fill@.value, fill@.expires, now@),
        final(cache).entries() == old(cache).entries_after(
            fill@.key,
            fill@.value,
            fill@.expires,
            now@,
        ),
        *old(cache) is InMemory <==> *final(cache) is InMemory,
        *old(cache) is Redis ==> *final(cache) == *old(cache),
{
    cache.add_entry_at(fill.key, fill.value, fill.expires, now)
}

/// Writes a fill to the cache at the time that the clock shows.
pub fn populate(cache: &mut Cache, fill: CacheFill) -> (r: CacheWrite)
    ensures
        exists|now: int|
            0 <= now < CLOCK_LIMIT_SECS * 1_000_000_000 && r@ == #[trigger] old(cache).write_at(
                fill@.key,
                fill@.value,
                fill@.expires,
                now,
            ) && final(cache).entries() == old(cache).entries_after(
                fill@.key,
                fill@.value,
                fill@.expires,
                now,
            ),
        *old(cache) is InMemory <==> *final(cache) is InMemory,
        *old(cache) is Redis ==> *final(cache) == *old(cache),
{
    let now = Timestamp::now();
    populate_at(cache, fill, &now)
}

/// Where a request for `code` stands after the cache has been read and,
/// if the cache sent it on, the durable store has answered with `found`.
/// The store's answer counts only where the request reaches the store.
pub open spec fn resolution(
    read: CacheReadView,
    code: Seq<char>,
    found: Result<Option<ModelView>, String>,
) -> RedirectView {
    match after_cache(read) {
        RedirectView::AskStore => after_store(code, found),
        standing => standing,
    }
}

/// A request is over after at most two events: from where the read of a
/// cache of this process leaves it, the store's answer ends it, and it
/// ends as `resolution` says; once it is over, no event moves it.
pub proof fn lemma_steps_end_the_request(
    cache: Cache,
    code: Seq<char>,
    now: int,
    found: Result<Option<ModelView>, String>,
    later: RedirectEventView,
)
    requires
        cache is InMemory,
    ensures
        ({
            let begun = after_cache(cache.read_at(code, now));
            let ended = after_event(begun, code, RedirectEventView::Stored(found));
            &&& ended == resolution(cache.read_at(code, now), code, found)
            &&& ended is Respond || ended is Fail
            &&& after_event(ended, code, later) == ended
        }),
{
}

/// A cache of this process that holds a live entry for a code answers the
/// request with the entry's target and asks for the last access to be
/// refreshed, whatever the durable store would answer and also where it
/// fails: the store is not asked.
pub proof fn lemma_live_entry_answers(
    cache: Cache,
    code: Seq<char>,
    now: int,
    found: Result<Option<ModelView>, String>,
)
    requires
        cache is InMemory,
        cache.entries().contains_key(code),
        cache.entries()[code].is_live_at(now),
    ensures
        after_cache(cache.read_at(code, now)) == RedirectView::Respond(
            served_from_cache(cache.entries()[code].long_url),
        ),
        resolution(cache.read_at(code, now), code, found) == RedirectView::Respond(
            served_from_cache(cache.entries()[code].long_url),
        ),
{
}

/// The same where the cache is a service: a target that the service
/// answers ends the request at once, whatever the durable store would
/// answer, and where the service answers nothing, or fails, which counts
/// as nothing, the request goes on to the store.
pub proof fn lemma_service_answer_decides(
    cache: Cache,
    code: Seq<char>,
    now: int,
    target: Seq<char>,
    found: Result<Option<ModelView>, String>,
)
    requires
        cache is Redis,
    ensures
        after_cache(cache.read_at(code, now)) == RedirectView::AskService,
        ({
            let begun = after_cache(cache.read_at(code, now));
            let hit = after_event(begun, code, RedirectEventView::Cached(Some(target)));
            let miss = after_event(begun, code, RedirectEventView::Cached(None));
            &&& hit == RedirectView::Respond(served_from_cache(target))
            &&& after_event(hit, code, RedirectEventView::Stored(found)) == hit
            &&& miss == RedirectView::AskStore
            &&& after_event(miss, code, RedirectEventView::Stored(found)) == after_store(
                code,
                found,
            )
        }),
{
}

/// An entry that has expired counts for nothing: the request goes on to
/// the durable store and ends exactly as it does from a cache without the
/// entry, and from an empty one.
pub proof fn lemma_expired_entry_is_absent(
    cache: Cache,
    bare: Cache,
    code: Seq<char>,
    now: int,
    found: Result<Option<ModelView>, String>,
)
    requires
        cache is InMemory,
        bare is InMemory,
        cache.entries().contains_key(code),
        !cache.entries()[code].is_live_at(now),
        bare.entries() == cache.entries().remove(code) || bare.entries() == Map::<
            Seq<char>,
            CacheEntryView,
        >::empty(),
    ensures
        after_cache(cache.read_at(code, now)) == RedirectView::AskStore,
        resolution(cache.read_at(code, now), code, found) == after_store(code, found),
        resolution(cache.read_at(code, now), code, found) == resolution(
            bare.read_at(code, now),
            code,
            found,
        ),
{
}

/// A code that the cache of this process does not hold and for which the
/// durable store has a row that has not expired: the request is answered
/// with the row's long URL, and the last access is to be refreshed. Once
/// the fill that the answer brings is written, while the row's expiration
/// has not come, the cache holds an entry for the code, and every read
/// before the expiration, or at any time where the row has none, is
/// answered from it with the same long URL.
pub proof fn lemma_miss_fills_cache(
    cache: Cache,
    code: Seq<char>,
    row: ModelView,
    now: int,
    written: int,
    read: int,
)
    requires
        cache is InMemory,
        !cache.entries().contains_key(code),
        row.short_url == code,
        !row.is_expired_at(now),
        live_at(row.expiration_date, written),
        live_at(row.expiration_date, read),
    ensures
        resolution(cache.read_at(code, now), code, Ok(Some(row))) == RedirectView::Respond(
            served_from_store(code, row),
        ),
        served_from_store(code, row).outcome == RedirectOutcomeView::Found(row.long_url),
        served_from_store(code, row).touch,
        served_from_store(code, row).fill is Some,
        ({
            let fill = served_from_store(code, row).fill->0;
            let filled = cache.entries_after(fill.key, fill.value, fill.expires, written);
            &&& filled.contains_key(code)
            &&& live_target(filled, code, read) == Some(row.long_url)
            &&& after_cache(CacheReadView::Answer(live_target(filled, code, read)))
                == RedirectView::Respond(served_from_cache(row.long_url))
        }),
{
}

} // verus!
