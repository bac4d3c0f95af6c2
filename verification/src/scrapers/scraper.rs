//! Trait definition for a scraper, and the rule that every scraper follows
//! to resolve a reference to its data.
//!
//! The rule is written down twice. [`outcome`] says what a resolution
//! returns, given what the cache held and what the source gave.
//! [`State::step`] is the same rule as a small machine, for a caller that
//! has its own way of waiting on the cache and on the source: it is told
//! what the cache held, what the source gave and whether the cache took the
//! new data, one event at a time, and answers each event with what to do
//! next. [`Scraper::get_data`] follows the rule with blocking calls.
//!
//! The two do not carry the same laws. Both return [`outcome`]. The laws
//! below are laws of the machine: they count what it asks for, and so show
//! that the source is asked at most once, and not at all after a fresh
//! entry. The contract of [`Scraper::get_data`] states its result, and that
//! the cache was asked to take what the source gave; of calls that it does
//! not make it states nothing.
use vstd::prelude::*;

use crate::errors::{AppError, AppResult};

verus! {

/// Where a resolution stands.
pub enum State<D> {
    /// Waiting to hear what the cache holds.
    Lookup,
    /// Waiting for the source. `fallback` is the stale cache entry, if there
    /// was one: it is served if the source fails.
    Scraping { fallback: Option<D> },
    /// Waiting for the cache to take the data that the source gave.
    Storing { data: D },
    /// The result has been handed out.
    Done,
}

/// What the outside world reports to a resolution.
pub enum Event<D> {
    /// The cache was read. `Ok(None)` says that it holds no entry; the flag
    /// beside an entry says whether the entry is fresh.
    CacheRead(AppResult<Option<(D, bool)>>),
    /// The source was asked.
    Scraped(AppResult<D>),
    /// The cache was asked to take the scraped data.
    Stored(AppResult<()>),
}

/// What a resolution asks for in answer to an event.
pub enum Action<D> {
    /// Ask the source, and report with [`Event::Scraped`].
    Scrape,
    /// Write the data of [`State::Storing`] to the cache, and report with
    /// [`Event::Stored`].
    Store,
    /// The resolution is over, with this result.
    Return(AppResult<D>),
}

/// The entry that a cache read gave as fresh, if it gave one.
pub open spec fn fresh_entry<D>(cached: AppResult<Option<(D, bool)>>) -> Option<D> {
    match cached {
        Ok(Some((data, true))) => Some(data),
        _ => None,
    }
}

/// The entry that a cache read gave as stale, if it gave one. A failed read
/// gives none.
pub open spec fn stale_entry<D>(cached: AppResult<Option<(D, bool)>>) -> Option<D> {
    match cached {
        Ok(Some((data, false))) => Some(data),
        _ => None,
    }
}

/// What a resolution returns when the source is not asked or has failed:
/// the stale entry if there is one, else the error of the source.
pub open spec fn without_source<D>(fallback: Option<D>, err: AppError) -> AppResult<D> {
    match fallback {
        Some(data) => Ok(data),
        None => Err(err),
    }
}

/// What a resolution returns, given what the cache held and what the source
/// gives when it is asked: a fresh entry as it is; else what the source
/// gave; else, the source having failed, the stale entry; else the error of
/// the source. Whether the cache takes the new data changes nothing.
pub open spec fn outcome<D>(cached: AppResult<Option<(D, bool)>>, scraped: AppResult<D>)
    -> AppResult<D> {
    match fresh_entry(cached) {
        Some(data) => Ok(data),
        None => match scraped {
            Ok(data) => Ok(data),
            Err(err) => without_source(stale_entry(cached), err),
        },
    }
}

/// The state after `event` and the answer to it, or `None` where the state
/// does not wait for such an event.
pub open spec fn next<D>(state: State<D>, event: Event<D>) -> Option<(State<D>, Action<D>)> {
    match (state, event) {
        (State::Lookup, Event::CacheRead(cached)) => match fresh_entry(cached) {
            Some(data) => Some((State::Done, Action::Return(Ok(data)))),
            None => Some((State::Scraping { fallback: stale_entry(cached) }, Action::Scrape)),
        },
        (State::Scraping { fallback }, Event::Scraped(Ok(data))) => Some(
            (State::Storing { data }, Action::Store),
        ),
        (State::Scraping { fallback }, Event::Scraped(Err(err))) => Some(
            (State::Done, Action::Return(without_source(fallback, err))),
        ),
        (State::Storing { data }, Event::Stored(_)) => Some(
            (State::Done, Action::Return(Ok(data))),
        ),
        _ => None,
    }
}

/// The state after a run of events, and the answers to them in order, or
/// `None` where an event came that the state then did not wait for.
pub open spec fn run<D>(state: State<D>, events: Seq<Event<D>>) -> Option<
    (State<D>, Seq<Action<D>>),
>
    decreases events.len(),
{
    if events.len() == 0 {
        Some((state, Seq::empty()))
    } else {
        match next(state, events[0]) {
            None => None,
            Some((after, action)) => match run(after, events.skip(1)) {
                None => None,
                Some((last, actions)) => Some((last, seq![action] + actions)),
            },
        }
    }
}

/// How many times `actions` asks the source.
pub open spec fn scrapes<D>(actions: Seq<Action<D>>) -> nat
    decreases actions.len(),
{
    if actions.len() == 0 {
        0
    } else {
        scrapes(actions.skip(1)) + if actions[0] is Scrape {
            1nat
        } else {
            0nat
        }
    }
}

/// How many times a resolution in `state` may still ask the source.
pub open spec fn scrapes_left<D>(state: State<D>) -> nat {
    match state {
        State::Lookup => 1,
        _ => 0,
    }
}

impl<D> State<D> {
    /// Advance by one event: the state after it and what to do next, or
    /// `None` where this state does not wait for such an event.
    pub fn step(self, event: Event<D>) -> (stepped: Option<(State<D>, Action<D>)>)
        ensures
            stepped == next(self, event),
    {
        match (self, event) {
            (State::Lookup, Event::CacheRead(cached)) => match cached {
                Ok(Some((data, true))) => Some((State::Done, Action::Return(Ok(data)))),
                Ok(Some((data, false))) => Some(
                    (State::Scraping { fallback: Some(data) }, Action::Scrape),
                ),
                _ => Some((State::Scraping { fallback: None }, Action::Scrape)),
            },
            (State::Scraping { fallback }, Event::Scraped(scraped)) => match scraped {
                Ok(data) => Some((State::Storing { data }, Action::Store)),
                Err(err) => match fallback {
                    Some(data) => Some((State::Done, Action::Return(Ok(data)))),
                    None => Some((State::Done, Action::Return(Err(err)))),
                },
            },
            (State::Storing { data }, Event::Stored(_)) => Some(
                (State::Done, Action::Return(Ok(data))),
            ),
            _ => None,
        }
    }

    /// The data that waits to be written to the cache, if the state is
    /// [`State::Storing`].
    pub fn pending(&self) -> (data: Option<&D>)
        ensures
            data.is_some() == (*self is Storing),
            data matches Some(d) ==> self matches State::Storing { data: held } && *d == held,
    {
        match self {
            State::Storing { data } => Some(data),
            _ => None,
        }
    }
}

/// An answer put before others adds to their scrapes the one it may be.
proof fn lemma_scrapes_of_prepended<D>(action: Action<D>, actions: Seq<Action<D>>)
    ensures
        scrapes(seq![action] + actions) == scrapes(actions) + if action is Scrape {
            1nat
        } else {
            0nat
        },
{
    assert((seq![action] + actions).skip(1) =~= actions);
}

/// A run asks the source no more often than its first state allows.
proof fn lemma_scrapes_bounded<D>(state: State<D>, events: Seq<Event<D>>)
    requires
        run(state, events) is Some,
    ensures
        scrapes(run(state, events).unwrap().1) <= scrapes_left(state),
    decreases events.len(),
{
    if events.len() > 0 {
        let (after, action) = next(state, events[0]).unwrap();
        let (last, actions) = run(after, events.skip(1)).unwrap();
        lemma_scrapes_bounded(after, events.skip(1));
        lemma_scrapes_of_prepended(action, actions);
    }
}

/// A state that has handed out its result waits for no further event.
proof fn lemma_done_is_final<D>(events: Seq<Event<D>>)
    requires
        run(State::<D>::Done, events) is Some,
    ensures
        events.len() == 0,
        run(State::<D>::Done, events) == Some((State::<D>::Done, Seq::<Action<D>>::empty())),
{
}

/// Single scrape: whatever events come, a resolution asks the source at most
/// once.
pub proof fn law_single_scrape<D>(events: Seq<Event<D>>)
    requires
        run(State::<D>::Lookup, events) is Some,
    ensures
        scrapes(run(State::<D>::Lookup, events).unwrap().1) <= 1,
{
    lemma_scrapes_bounded(State::<D>::Lookup, events);
}

/// Fresh-hit short-circuit: a resolution that hears of a fresh cache entry
/// returns that entry at once. It never asks the source, and it waits for no
/// further event.
pub proof fn law_fresh_hit_short_circuit<D>(data: D, events: Seq<Event<D>>)
    requires
        events.len() > 0,
        events[0] == Event::CacheRead(Ok(Some((data, true)))),
        run(State::<D>::Lookup, events) is Some,
    ensures
        events.len() == 1,
        run(State::<D>::Lookup, events) == Some(
            (State::<D>::Done, seq![Action::Return(Ok(data))]),
        ),
        scrapes(run(State::<D>::Lookup, events).unwrap().1) == 0,
{
    lemma_done_is_final(events.skip(1));
    let answers = seq![Action::<D>::Return(Ok(data))];
    assert(answers + Seq::<Action<D>>::empty() =~= answers);
    lemma_scrapes_of_prepended(Action::<D>::Return(Ok(data)), Seq::empty());
}

/// Fallback law: where the cache held a stale entry and the source fails,
/// the resolution returns the stale entry, and the error of the source goes
/// no further.
pub proof fn law_stale_entry_covers_failed_scrape<D>(data: D, err: AppError)
    ensures
        run(
            State::<D>::Lookup,
            seq![Event::CacheRead(Ok(Some((data, false)))), Event::Scraped(Err(err))],
        ) == Some((State::<D>::Done, seq![Action::<D>::Scrape, Action::Return(Ok(data))])),
{
    let events = seq![Event::<D>::CacheRead(Ok(Some((data, false)))), Event::Scraped(Err(err))];
    lemma_two_events(events);
}

/// No-fallback propagation: where the cache held no entry, or could not be
/// read, and the source fails, the resolution returns the error of the
/// source unchanged.
pub proof fn law_failed_scrape_without_entry<D>(
    cached: AppResult<Option<(D, bool)>>,
    err: AppError,
)
    requires
        cached is Err || cached == Ok::<Option<(D, bool)>, AppError>(None),
    ensures
        run(State::<D>::Lookup, seq![Event::CacheRead(cached), Event::Scraped(Err(err))]) == Some(
            (State::<D>::Done, seq![Action::<D>::Scrape, Action::Return(Err(err))]),
        ),
{
    let events = seq![Event::<D>::CacheRead(cached), Event::Scraped(Err(err))];
    lemma_two_events(events);
}

/// Cache-write isolation: once the source has given data, the resolution
/// returns that data, whether the cache took it or not.
pub proof fn law_cache_write_isolation<D>(
    cached: AppResult<Option<(D, bool)>>,
    data: D,
    stored: AppResult<()>,
)
    requires
        fresh_entry(cached) is None,
    ensures
        run(
            State::<D>::Lookup,
            seq![Event::CacheRead(cached), Event::Scraped(Ok(data)), Event::Stored(stored)],
        ) == Some(
            (State::<D>::Done, seq![Action::<D>::Scrape, Action::Store, Action::Return(Ok(data))]),
        ),
{
    let events = seq![
        Event::<D>::CacheRead(cached),
        Event::Scraped(Ok(data)),
        Event::Stored(stored),
    ];
    lemma_three_events(events);
}

/// What a run is, one step at a time.
proof fn lemma_run_unfolds<D>(state: State<D>, events: Seq<Event<D>>)
    ensures
        events.len() == 0 ==> run(state, events) == Some((state, Seq::<Action<D>>::empty())),
        events.len() > 0 ==> run(state, events) == match next(state, events[0]) {
            None => None,
            Some((after, action)) => match run(after, events.skip(1)) {
                None => None,
                Some((last, actions)) => Some((last, seq![action] + actions)),
            },
        },
{
}

/// A run of two events from the start is two steps.
proof fn lemma_two_events<D>(events: Seq<Event<D>>)
    requires
        events.len() == 2,
    ensures
        run(State::<D>::Lookup, events) == match next(State::<D>::Lookup, events[0]) {
            None => None,
            Some((first, a)) => match next(first, events[1]) {
                None => None,
                Some((second, b)) => Some((second, seq![a, b])),
            },
        },
{
    let rest = events.skip(1);
    assert(rest[0] == events[1]);
    lemma_run_unfolds(State::<D>::Lookup, events);
    if let Some((first, a)) = next(State::<D>::Lookup, events[0]) {
        lemma_run_unfolds(first, rest);
        if let Some((second, b)) = next(first, events[1]) {
            lemma_run_unfolds(second, rest.skip(1));
            assert(seq![b] + Seq::<Action<D>>::empty() =~= seq![b]);
            assert(seq![a] + seq![b] =~= seq![a, b]);
        }
    }
}

/// A run of three events from the start is three steps.
proof fn lemma_three_events<D>(events: Seq<Event<D>>)
    requires
        events.len() == 3,
    ensures
        run(State::<D>::Lookup, events) == match next(State::<D>::Lookup, events[0]) {
            None => None,
            Some((first, a)) => match next(first, events[1]) {
                None => None,
                Some((second, b)) => match next(second, events[2]) {
                    None => None,
                    Some((third, c)) => Some((third, seq![a, b, c])),
                },
            },
        },
{
    let rest = events.skip(1);
    let last = rest.skip(1);
    assert(rest[0] == events[1]);
    assert(last[0] == events[2]);
    lemma_run_unfolds(State::<D>::Lookup, events);
    if let Some((first, a)) = next(State::<D>::Lookup, events[0]) {
        lemma_run_unfolds(first, rest);
        if let Some((second, b)) = next(first, events[1]) {
            lemma_run_unfolds(second, last);
            if let Some((third, c)) = next(second, events[2]) {
                lemma_run_unfolds(third, last.skip(1));
                assert(seq![c] + Seq::<Action<D>>::empty() =~= seq![c]);
                assert(seq![b] + seq![c] =~= seq![b, c]);
                assert(seq![a] + seq![b, c] =~= seq![a, b, c]);
            }
        }
    }
}

/// How often a run of up to three answers asks the source.
proof fn lemma_scrapes_of_few<D>(a: Action<D>, b: Action<D>, c: Action<D>)
    ensures
        scrapes(seq![a]) == if a is Scrape {
            1nat
        } else {
            0nat
        },
        scrapes(seq![a, b]) == scrapes(seq![b]) + scrapes(seq![a]),
        scrapes(seq![a, b, c]) == scrapes(seq![b, c]) + scrapes(seq![a]),
{
    lemma_scrapes_of_prepended(a, Seq::empty());
    assert(seq![a] + Seq::<Action<D>>::empty() =~= seq![a]);
    lemma_scrapes_of_prepended(a, seq![b]);
    assert(seq![a] + seq![b] =~= seq![a, b]);
    lemma_scrapes_of_prepended(a, seq![b, c]);
    assert(seq![a] + seq![b, c] =~= seq![a, b, c]);
}

/// Every resolution that runs to its end returns [`outcome`] of what the
/// cache held and what the source gave: the last answer is that result, and
/// the source was asked exactly where the cache held no fresh entry.
pub proof fn law_run_returns_outcome<D>(events: Seq<Event<D>>)
    requires
        run(State::<D>::Lookup, events) matches Some((State::Done, _)),
    ensures
        events.len() >= 1,
        events[0] matches Event::CacheRead(cached) && match fresh_entry(cached) {
            Some(data) => {
                &&& events.len() == 1
                &&& run(State::<D>::Lookup, events).unwrap().1 == seq![
                    Action::<D>::Return(Ok(data)),
                ]
            },
            None => {
                &&& events.len() >= 2
                &&& events[1] matches Event::Scraped(scraped)
                &&& run(State::<D>::Lookup, events).unwrap().1.last() == Action::Return(
                    outcome(cached, scraped),
                )
                &&& scrapes(run(State::<D>::Lookup, events).unwrap().1) == 1
            },
        },
{
    lemma_run_unfolds(State::<D>::Lookup, events);
    let (first, a) = next(State::<D>::Lookup, events[0]).unwrap();
    let rest = events.skip(1);
    let cached = events[0]->CacheRead_0;
    if fresh_entry(cached) is Some {
        law_fresh_hit_short_circuit(fresh_entry(cached).unwrap(), events);
    } else {
        lemma_run_unfolds(first, rest);
        assert(rest[0] == events[1]);
        let (second, b) = next(first, events[1]).unwrap();
        let last = rest.skip(1);
        lemma_run_unfolds(second, last);
        match events[1] {
            Event::Scraped(Ok(data)) => {
                assert(last[0] == events[2]);
                let (third, c) = next(second, last[0]).unwrap();
                lemma_run_unfolds(third, last.skip(1));
                lemma_done_is_final(last.skip(1));
                lemma_three_events(events);
                lemma_scrapes_of_few(a, b, c);
                lemma_scrapes_of_few(b, c, c);
                lemma_scrapes_of_few(c, c, c);
            },
            Event::Scraped(Err(err)) => {
                lemma_done_is_final(last);
                lemma_two_events(events);
                lemma_scrapes_of_few(a, b, b);
                lemma_scrapes_of_few(b, b, b);
            },
            _ => {},
        }
    }
}

/// A source of data of one kind, with a cache in front of it.
///
/// `Data` is what is resolved, and `Ref` is what it is asked for by.
pub trait Scraper<Data, Ref> {
    /// Retrieve cached data from the database.
    ///
    /// If data is not found in the cache, None should be returned. Otherwise, this returns the
    /// cached data, and a boolean indicating whether the entry is "fresh" (doesn't need to be
    /// updated) or not.
    ///
    /// # Arguments:
    /// * `reference` - The reference to the data that is to be retrieved
    fn get_cached_data(&self, reference: &Ref) -> AppResult<Option<(Data, bool)>>;

    /// Cache data into the database.
    ///
    /// # Arguments:
    /// * `data` - The data that is to be cached
    /// * `reference` - The reference to the data that is to be retrieved
    fn cache_data(&self, data: &Data, reference: &Ref) -> AppResult<()>;

    /// Scrape data from the source.
    ///
    /// # Arguments:
    /// * `reference` - The reference to the data that is to be retrieved
    fn scrape_data(&self, reference: &Ref) -> AppResult<Data>;

    /// Cache data while handling exceptions.
    ///
    /// Since caching failure is not fatal, it is ignored: the cache is asked
    /// to take `data` under `reference`, and what it answers goes no
    /// further.
    ///
    /// # Arguments:
    /// * `data` - The data that is to be cached
    /// * `reference` - The reference to the data that is to be retrieved
    fn safely_cache_data(&self, data: &Data, reference: &Ref)
        ensures
            exists|stored: AppResult<()>| #[trigger]
                call_ensures(Self::cache_data, (self, data, reference), stored),
    {
        let _ = self.cache_data(data, reference);
    }

    /// Retrieve the data, either from the source or from cache.
    ///
    /// # Arguments
    /// * `reference` - The reference to the data that is to be retrieved
    ///
    /// The result is [`outcome`] of something that the cache read of this
    /// scraper may give and, where that is no fresh entry, of something that
    /// its scrape may give. Where the scrape gave data, the cache was asked
    /// to take that data under `reference`, and gave some answer.
    ///
    /// The contract speaks of the calls that are made, through what they
    /// gave. It cannot speak of calls that are not made: that the source is
    /// not asked where the cache held a fresh entry, and is asked no more
    /// than once, is shown of [`State::step`] by the laws of this module,
    /// and here it is what the body does.
    fn get_data(&self, reference: &Ref) -> (result: AppResult<Data>)
        ensures
            exists|cached: AppResult<Option<(Data, bool)>>| #[trigger]
                call_ensures(Self::get_cached_data, (self, reference), cached) && match fresh_entry(
                    cached,
                ) {
                    Some(data) => result == Ok::<Data, AppError>(data),
                    None => exists|scraped: AppResult<Data>| #[trigger]
                        call_ensures(Self::scrape_data, (self, reference), scraped) && result
                            == outcome(cached, scraped) && (scraped matches Ok(data)
                            ==> exists|stored: AppResult<()>| #[trigger]
                            call_ensures(Self::cache_data, (self, &data, reference), stored)),
                },
    {
        let cached = self.get_cached_data(reference);
        let stale_data = match cached {
            Ok(Some((data, true))) => {
                return Ok(data);
            },
            Ok(Some((data, false))) => Some(data),
            Ok(None) => None,
            // Better to re-scrape now than fail, so the error goes no further.
            Err(_) => None,
        };

        let scraped = self.scrape_data(reference);
        let err = match scraped {
            Ok(data) => {
                self.safely_cache_data(&data, reference);
                return Ok(data);
            },
            Err(err) => err,
        };

        // Scraping failed for some reason, so use the "stale" cache entry, if available.
        match stale_data {
            // No stale cache entry exists, so raise the scraping error.
            None => Err(err),
            // Return the "stale" cache entry
            Some(data) => Ok(data),
        }
    }
}

} // verus!
