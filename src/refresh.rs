//! Getting a trustworthy rate table: use the cached document while it is
//! fresh, else fetch a new one, store it and use it. The caller performs each
//! action and reports what came of it; nothing is retried.
use crate::document::{parse_xml, parsed_document, RateDocument};
use crate::freshness::{day_of, is_data_fresh, is_fresh_day, publication_instant, UtcInstant};
use vstd::prelude::*;

verus! {

/// Where the work of getting a rate table stands.
#[derive(Debug)]
pub enum RefreshState {
    /// The cached document is being read.
    CheckingCache,
    /// A new document is being fetched.
    Fetching,
    /// The fetched document, already read, is being stored in the cache.
    Persisting(RateDocument),
    /// Nothing is left to do.
    Finished,
}

/// What came of the last action.
#[derive(Debug)]
pub enum RefreshEvent {
    /// The cache's contents, or `None` where it could not be read.
    CacheRead(Option<String>),
    /// The fetched document, or `None` where the fetch failed.
    Fetched(Option<String>),
    /// Whether the cache was written.
    Persisted(bool),
}

/// Why no rate table could be had.
#[derive(Debug, PartialEq, Eq, Structural)]
pub enum RefreshError {
    /// The fetch failed.
    Network,
    /// The fetched document is not well-formed.
    MalformedDocument,
    /// The cache could not be written.
    CacheWrite,
    /// An event came that the current state does not wait for.
    OutOfOrder,
}

/// What to do next.
#[derive(Debug)]
pub enum RefreshAction {
    /// Fetch a new document.
    Fetch,
    /// Replace the cache's contents with this document.
    WriteCache(String),
    /// Use these rates.
    UseRates(RateDocument),
    /// Stop without rates.
    Abort(RefreshError),
}

/// The cached document `raw` is well-formed, states a date, and that date is
/// fresh at `now`.
pub open spec fn cache_is_usable(raw: Seq<char>, now: int) -> bool {
    match parsed_document(raw) {
        Some(doc) => match publication_instant(doc.0) {
            Some(p) => is_fresh_day(now, day_of(p as int)),
            None => false,
        },
        None => false,
    }
}

/// One step: from `state`, on `event`, at `now`, to `next` with `action`.
pub open spec fn refresh_step(
    state: RefreshState,
    event: RefreshEvent,
    now: int,
    next: RefreshState,
    action: RefreshAction,
) -> bool {
    match (state, event) {
        (RefreshState::CheckingCache, RefreshEvent::CacheRead(Some(raw))) => if cache_is_usable(
            raw@,
            now,
        ) {
            next is Finished && (action matches RefreshAction::UseRates(d) && parsed_document(
                raw@,
            ) == Some(d@))
        } else {
            next is Fetching && action is Fetch
        },
        (RefreshState::CheckingCache, RefreshEvent::CacheRead(None)) => next is Fetching
            && action is Fetch,
        (RefreshState::Fetching, RefreshEvent::Fetched(Some(raw))) => match parsed_document(
            raw@,
        ) {
            Some(v) => (next matches RefreshState::Persisting(d) && d@ == v) && (
            action matches RefreshAction::WriteCache(w) && w@ == raw@),
            None => next is Finished && action == RefreshAction::Abort(
                RefreshError::MalformedDocument,
            ),
        },
        (RefreshState::Fetching, RefreshEvent::Fetched(None)) => next is Finished && action
            == RefreshAction::Abort(RefreshError::Network),
        (RefreshState::Persisting(d), RefreshEvent::Persisted(true)) => next is Finished
            && action == RefreshAction::UseRates(d),
        (RefreshState::Persisting(_), RefreshEvent::Persisted(false)) => next is Finished
            && action == RefreshAction::Abort(RefreshError::CacheWrite),
        _ => next is Finished && action == RefreshAction::Abort(RefreshError::OutOfOrder),
    }
}

impl RefreshState {
    /// The first state: the caller reads the cache and reports its contents.
    pub fn start() -> (r: RefreshState)
        ensures
            r is CheckingCache,
    {
        RefreshState::CheckingCache
    }

    /// The next state and the action to perform, on `event` at `now`.
    pub fn step(self, event: RefreshEvent, now: UtcInstant) -> (r: (RefreshState, RefreshAction))
        ensures
            refresh_step(self, event, now.seconds as int, r.0, r.1),
    {
        match (self, event) {
            (RefreshState::CheckingCache, RefreshEvent::CacheRead(Some(raw))) => {
                match parse_xml(raw) {
                    Some(doc) => {
                        let time = doc.time.clone();
                        match is_data_fresh(now, time) {
                            Some(true) => (RefreshState::Finished, RefreshAction::UseRates(doc)),
                            _ => (RefreshState::Fetching, RefreshAction::Fetch),
                        }
                    },
                    None => (RefreshState::Fetching, RefreshAction::Fetch),
                }
            },
            (RefreshState::CheckingCache, RefreshEvent::CacheRead(None)) => {
                (RefreshState::Fetching, RefreshAction::Fetch)
            },
            (RefreshState::Fetching, RefreshEvent::Fetched(Some(raw))) => {
                let copy = raw.clone();
                match parse_xml(raw) {
                    Some(doc) => (RefreshState::Persisting(doc), RefreshAction::WriteCache(copy)),
                    None => (
                        RefreshState::Finished,
                        RefreshAction::Abort(RefreshError::MalformedDocument),
                    ),
                }
            },
            (RefreshState::Fetching, RefreshEvent::Fetched(None)) => {
                (RefreshState::Finished, RefreshAction::Abort(RefreshError::Network))
            },
            (RefreshState::Persisting(doc), RefreshEvent::Persisted(written)) => {
                if written {
                    (RefreshState::Finished, RefreshAction::UseRates(doc))
                } else {
                    (RefreshState::Finished, RefreshAction::Abort(RefreshError::CacheWrite))
                }
            },
            _ => (RefreshState::Finished, RefreshAction::Abort(RefreshError::OutOfOrder)),
        }
    }
}

/// With no readable cache, the work takes one fetch and one cache write of
/// the fetched text, then uses the rates that the fetched text states; after
/// that every event is out of order, so nothing more is fetched or written.
pub proof fn lemma_missing_cache_fetches_once(
    now: UtcInstant,
    raw: String,
    s1: RefreshState,
    a1: RefreshAction,
    s2: RefreshState,
    a2: RefreshAction,
    s3: RefreshState,
    a3: RefreshAction,
    later: RefreshEvent,
    s4: RefreshState,
    a4: RefreshAction,
)
    requires
        parsed_document(raw@) is Some,
        refresh_step(
            RefreshState::CheckingCache,
            RefreshEvent::CacheRead(None),
            now.seconds as int,
            s1,
            a1,
        ),
        refresh_step(s1, RefreshEvent::Fetched(Some(raw)), now.seconds as int, s2, a2),
        refresh_step(s2, RefreshEvent::Persisted(true), now.seconds as int, s3, a3),
        refresh_step(s3, later, now.seconds as int, s4, a4),
    ensures
        a1 is Fetch,
        a2 matches RefreshAction::WriteCache(w) && w@ == raw@,
        a3 matches RefreshAction::UseRates(d) && parsed_document(raw@) == Some(d@),
        s4 is Finished,
        a4 == RefreshAction::Abort(RefreshError::OutOfOrder),
{
}

} // verus!
