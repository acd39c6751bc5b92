use rus_core::cache::{Cache, CacheRead, CacheWrite};
use rus_core::errors::RusError;
use rus_core::model::Model;
use rus_core::resolver::{
    populate, populate_at, redirect, redirect_at, redirect_cached, redirect_step, redirect_stored,
    CacheFill, Redirect, RedirectEvent, RedirectOutcome, Resolution,
};
use rus_core::time::Timestamp;

fn at(secs: i64) -> Timestamp {
    Timestamp::from_secs(secs)
}

fn text(s: &str) -> String {
    s.to_string()
}

fn row(id: i32, code: &str, target: &str, expires: Option<i64>) -> Model {
    Model {
        id,
        long_url: text(target),
        short_url: text(code),
        creation_date: at(10),
        expiration_date: expires.map(at),
        last_access_date: at(10),
        ip_address: text("127.0.0.1"),
    }
}

fn found(target: &str) -> Redirect {
    Redirect::Respond(Resolution {
        outcome: RedirectOutcome::Found(text(target)),
        touch: true,
        fill: None,
    })
}

#[test]
fn a_cached_target_answers_at_once() {
    assert_eq!(redirect_cached(Some(text("https://example.com/a"))), found("https://example.com/a"));
}

#[test]
fn nothing_cached_sends_to_the_store() {
    assert_eq!(redirect_cached(None), Redirect::AskStore);
}

#[test]
fn a_live_entry_answers_without_the_store() {
    let mut cache = Cache::in_memory();
    cache.add_entry_at(text("abc123"), text("https://example.com/a"), Some(at(500)), &at(100));
    assert_eq!(redirect_at(&cache, &text("abc123"), &at(200)), found("https://example.com/a"));
}

#[test]
fn an_expired_entry_falls_through_like_an_empty_cache() {
    let mut cache = Cache::in_memory();
    cache.add_entry_at(text("abc123"), text("https://example.com/a"), Some(at(500)), &at(100));
    let empty = Cache::in_memory();
    for now in [500, 501, 10_000] {
        assert_eq!(redirect_at(&cache, &text("abc123"), &at(now)), Redirect::AskStore);
        assert_eq!(
            redirect_at(&cache, &text("abc123"), &at(now)),
            redirect_at(&empty, &text("abc123"), &at(now))
        );
    }
}

#[test]
fn the_service_form_sends_to_the_service() {
    let cache = Cache::Redis(text("redis://127.0.0.1/"));
    assert_eq!(redirect_at(&cache, &text("abc123"), &at(200)), Redirect::AskService);
    assert_eq!(redirect(&cache, &text("abc123")), Redirect::AskService);
}

#[test]
fn redirect_reads_the_clock() {
    let mut cache = Cache::in_memory();
    cache.add_entry(text("abc123"), text("https://example.com/a"), Some(at(4_000_000_000)));
    assert_eq!(redirect(&cache, &text("abc123")), found("https://example.com/a"));
    assert_eq!(redirect(&cache, &text("zzzzzz")), Redirect::AskStore);
}

#[test]
fn a_stored_row_answers_and_leaves_work() {
    let stored = row(7, "abc123", "https://example.com/a", Some(500));
    assert_eq!(
        redirect_stored(&text("abc123"), Ok(Some(stored))),
        Redirect::Respond(Resolution {
            outcome: RedirectOutcome::Found(text("https://example.com/a")),
            touch: true,
            fill: Some(CacheFill {
                key: text("abc123"),
                value: text("https://example.com/a"),
                expires: Some(at(500)),
            }),
        })
    );
}

#[test]
fn a_row_without_expiration_is_cached_without_expiry() {
    let stored = row(7, "abc123", "https://example.com/a", None);
    assert_eq!(
        redirect_stored(&text("abc123"), Ok(Some(stored))),
        Redirect::Respond(Resolution {
            outcome: RedirectOutcome::Found(text("https://example.com/a")),
            touch: true,
            fill: Some(CacheFill {
                key: text("abc123"),
                value: text("https://example.com/a"),
                expires: None,
            }),
        })
    );
}

#[test]
fn an_unknown_code_is_not_found() {
    assert_eq!(
        redirect_stored(&text("abc123"), Ok(None)),
        Redirect::Respond(Resolution { outcome: RedirectOutcome::NotFound, touch: false, fill: None })
    );
}

#[test]
fn a_failing_store_fails_the_request() {
    assert_eq!(
        redirect_stored(&text("abc123"), Err(text("connection lost"))),
        Redirect::Fail(RusError::Database(text("connection lost")))
    );
}

#[test]
fn a_miss_fills_the_cache_for_the_next_request() {
    let mut cache = Cache::in_memory();
    let code = text("abc123");
    assert_eq!(redirect_at(&cache, &code, &at(100)), Redirect::AskStore);
    let stored = row(7, "abc123", "https://example.com/a", Some(500));
    let resolution = match redirect_stored(&code, Ok(Some(stored))) {
        Redirect::Respond(resolution) => resolution,
        other => panic!("{:?}", other),
    };
    assert_eq!(resolution.outcome, RedirectOutcome::Found(text("https://example.com/a")));
    assert!(resolution.touch);
    assert_eq!(populate_at(&mut cache, resolution.fill.unwrap(), &at(101)), CacheWrite::Stored);
    assert_eq!(redirect_at(&cache, &code, &at(102)), found("https://example.com/a"));
    assert_eq!(redirect_at(&cache, &code, &at(500)), Redirect::AskStore);
}

#[test]
fn a_stale_entry_serves_the_old_target_until_it_expires() {
    // The store has a new long URL for the code; the cache is not told.
    let mut cache = Cache::in_memory();
    let code = text("abc123");
    cache.add_entry_at(code.clone(), text("https://example.com/old"), Some(at(500)), &at(100));
    assert_eq!(redirect_at(&cache, &code, &at(200)), found("https://example.com/old"));
    assert_eq!(redirect_at(&cache, &code, &at(500)), Redirect::AskStore);
    let updated = row(7, "abc123", "https://example.com/new", Some(900));
    let resolution = match redirect_stored(&code, Ok(Some(updated))) {
        Redirect::Respond(resolution) => resolution,
        other => panic!("{:?}", other),
    };
    populate_at(&mut cache, resolution.fill.unwrap(), &at(501));
    assert_eq!(redirect_at(&cache, &code, &at(600)), found("https://example.com/new"));
}

#[test]
fn populate_reads_the_clock() {
    let mut cache = Cache::in_memory();
    let ahead = CacheFill { key: text("abc123"), value: text("https://example.com/a"), expires: Some(at(4_000_000_000)) };
    assert_eq!(populate(&mut cache, ahead), CacheWrite::Stored);
    let behind = CacheFill { key: text("old111"), value: text("https://example.com/o"), expires: Some(at(1)) };
    assert_eq!(populate(&mut cache, behind), CacheWrite::Skipped);
    assert_eq!(
        cache.try_get(&text("abc123")),
        CacheRead::Answer(Some(text("https://example.com/a")))
    );
}

#[test]
fn populate_tells_the_service_what_to_store() {
    let mut cache = Cache::Redis(text("redis://127.0.0.1/"));
    let fill = CacheFill { key: text("abc123"), value: text("https://example.com/a"), expires: Some(at(160)) };
    assert_eq!(
        populate_at(&mut cache, fill, &at(100)),
        CacheWrite::SetEx { key: text("abc123"), value: text("https://example.com/a"), seconds: 60 }
    );
    let never = CacheFill { key: text("abc123"), value: text("https://example.com/a"), expires: None };
    assert_eq!(
        populate_at(&mut cache, never, &at(100)),
        CacheWrite::SetForever { key: text("abc123"), value: text("https://example.com/a") }
    );
}

#[test]
fn a_step_takes_the_answer_that_the_request_waits_for() {
    let code = text("abc123");
    assert_eq!(
        redirect_step(Redirect::AskService, &code, RedirectEvent::Cached(Some(text("https://example.com/a")))),
        found("https://example.com/a")
    );
    assert_eq!(
        redirect_step(Redirect::AskService, &code, RedirectEvent::Cached(None)),
        Redirect::AskStore
    );
    assert_eq!(
        redirect_step(Redirect::AskStore, &code, RedirectEvent::Stored(Ok(None))),
        Redirect::Respond(Resolution { outcome: RedirectOutcome::NotFound, touch: false, fill: None })
    );
    assert_eq!(
        redirect_step(Redirect::AskStore, &code, RedirectEvent::Stored(Err(text("down")))),
        Redirect::Fail(RusError::Database(text("down")))
    );
    assert_eq!(
        redirect_step(
            Redirect::AskStore,
            &code,
            RedirectEvent::Stored(Ok(Some(row(7, "abc123", "https://example.com/a", Some(500)))))
        ),
        redirect_stored(&code, Ok(Some(row(7, "abc123", "https://example.com/a", Some(500)))))
    );
}

#[test]
fn a_step_ignores_an_answer_that_was_not_asked_for() {
    let code = text("abc123");
    assert_eq!(
        redirect_step(Redirect::AskService, &code, RedirectEvent::Stored(Ok(None))),
        Redirect::AskService
    );
    assert_eq!(
        redirect_step(Redirect::AskStore, &code, RedirectEvent::Cached(Some(text("https://example.com/a")))),
        Redirect::AskStore
    );
    for event in [
        RedirectEvent::Cached(None),
        RedirectEvent::Cached(Some(text("https://example.com/b"))),
        RedirectEvent::Stored(Ok(None)),
        RedirectEvent::Stored(Err(text("down"))),
    ] {
        assert_eq!(redirect_step(found("https://example.com/a"), &code, event), found("https://example.com/a"));
    }
    assert_eq!(
        redirect_step(Redirect::Fail(RusError::Database(text("down"))), &code, RedirectEvent::Stored(Ok(None))),
        Redirect::Fail(RusError::Database(text("down")))
    );
}

#[test]
fn a_request_through_the_service_takes_two_steps_at_most() {
    let cache = Cache::Redis(text("redis://127.0.0.1/"));
    let code = text("abc123");
    let begun = redirect_at(&cache, &code, &at(100));
    assert_eq!(begun, Redirect::AskService);
    // The service cannot be reached: that is a miss.
    let missed = redirect_step(begun, &code, RedirectEvent::Cached(Cache::service_answer(Err(text("refused")))));
    assert_eq!(missed, Redirect::AskStore);
    let ended = redirect_step(
        missed,
        &code,
        RedirectEvent::Stored(Ok(Some(row(7, "abc123", "https://example.com/a", Some(500))))),
    );
    match ended {
        Redirect::Respond(resolution) => {
            assert_eq!(resolution.outcome, RedirectOutcome::Found(text("https://example.com/a")));
            assert!(resolution.touch);
            assert!(resolution.fill.is_some());
        }
        other => panic!("{:?}", other),
    }
}

#[test]
fn a_row_that_never_expires_fills_the_cache_for_good() {
    let mut cache = Cache::in_memory();
    let code = text("abc123");
    let stored = row(7, "abc123", "https://example.com/a", None);
    let resolution = match redirect_stored(&code, Ok(Some(stored))) {
        Redirect::Respond(resolution) => resolution,
        other => panic!("{:?}", other),
    };
    assert_eq!(populate_at(&mut cache, resolution.fill.unwrap(), &at(101)), CacheWrite::Stored);
    assert_eq!(redirect_at(&cache, &code, &at(102)), found("https://example.com/a"));
    assert_eq!(redirect_at(&cache, &code, &at(i64::MAX)), found("https://example.com/a"));
}
