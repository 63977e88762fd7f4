use chrono::NaiveDateTime;
use cur::freshness::UtcInstant;
use cur::refresh::{RefreshAction, RefreshError, RefreshEvent, RefreshState};

const FETCHED: &str = "<Cube><Cube time='2023-07-13'><Cube currency='USD' rate='1.1'/></Cube></Cube>";
const OLD: &str = "<Cube><Cube time='2023-07-11'><Cube currency='USD' rate='1.2'/></Cube></Cube>";

fn at(text: &str) -> UtcInstant {
    let parsed = NaiveDateTime::parse_from_str(text, "%Y-%m-%dT%H:%M:%S").unwrap();
    UtcInstant::from_unix_seconds(parsed.and_utc().timestamp())
}

#[test]
fn missing_cache_fetches_writes_and_uses() {
    let now = at("2023-07-13T16:00:00");
    let (state, action) = RefreshState::start().step(RefreshEvent::CacheRead(None), now);
    assert!(matches!(action, RefreshAction::Fetch));
    let (state, action) = state.step(RefreshEvent::Fetched(Some(FETCHED.to_string())), now);
    match action {
        RefreshAction::WriteCache(text) => assert_eq!(text, FETCHED),
        other => panic!("expected a cache write, got {:?}", other),
    }
    let (state, action) = state.step(RefreshEvent::Persisted(true), now);
    match action {
        RefreshAction::UseRates(doc) => {
            assert_eq!(doc.time, "2023-07-13");
            assert_eq!(doc.rates.len(), 2);
            assert_eq!(doc.rates[1].currency, "USD");
            assert_eq!(doc.rates[1].rate, "1.1");
        }
        other => panic!("expected rates, got {:?}", other),
    }
    assert!(matches!(state, RefreshState::Finished));
    let (_, action) = state.step(RefreshEvent::Fetched(Some(FETCHED.to_string())), now);
    assert!(matches!(action, RefreshAction::Abort(RefreshError::OutOfOrder)));
}

#[test]
fn fresh_cache_is_used_without_fetching() {
    let now = at("2023-07-13T16:00:00");
    let (state, action) =
        RefreshState::start().step(RefreshEvent::CacheRead(Some(FETCHED.to_string())), now);
    assert!(matches!(state, RefreshState::Finished));
    match action {
        RefreshAction::UseRates(doc) => assert_eq!(doc.time, "2023-07-13"),
        other => panic!("expected rates, got {:?}", other),
    }
}

#[test]
fn stale_or_broken_cache_is_refetched() {
    let now = at("2023-07-13T16:00:00");
    let (_, action) = RefreshState::start().step(RefreshEvent::CacheRead(Some(OLD.to_string())), now);
    assert!(matches!(action, RefreshAction::Fetch));
    let (_, action) =
        RefreshState::start().step(RefreshEvent::CacheRead(Some("<Cube>".to_string())), now);
    assert!(matches!(action, RefreshAction::Fetch));
    let undated = "<Cube><Cube currency='USD' rate='1.1'/></Cube>";
    let (_, action) =
        RefreshState::start().step(RefreshEvent::CacheRead(Some(undated.to_string())), now);
    assert!(matches!(action, RefreshAction::Fetch));
}

#[test]
fn failures_abort() {
    let now = at("2023-07-13T16:00:00");
    let (_, action) = RefreshState::Fetching.step(RefreshEvent::Fetched(None), now);
    assert!(matches!(action, RefreshAction::Abort(RefreshError::Network)));
    let (_, action) =
        RefreshState::Fetching.step(RefreshEvent::Fetched(Some("<Cube>".to_string())), now);
    assert!(matches!(action, RefreshAction::Abort(RefreshError::MalformedDocument)));
    let (state, _) =
        RefreshState::Fetching.step(RefreshEvent::Fetched(Some(FETCHED.to_string())), now);
    let (_, action) = state.step(RefreshEvent::Persisted(false), now);
    assert!(matches!(action, RefreshAction::Abort(RefreshError::CacheWrite)));
    let (_, action) = RefreshState::start().step(RefreshEvent::Persisted(true), now);
    assert!(matches!(action, RefreshAction::Abort(RefreshError::OutOfOrder)));
}
