//! Scraper to get info on the latest comic
use vstd::prelude::*;
use vstd::string::*;

use crate::client::{status_class, Response, StatusClass};
use crate::constants::LATEST_DATE_REFRESH;
use crate::datetime::{
    Date, Timestamp, EPOCH_DAY, MAX_DAY, MIN_DAY, NANOS_PER_SEC, SECS_PER_HOUR,
};
use crate::document::{bytes_debug_text, debug_text};
use crate::errors::{AppError, AppErrorView, AppResult};
use crate::scrapers::comics::{comic_path, comic_path_of};
use crate::scrapers::scraper::{next, Action, Event, Scraper, State};

verus! {

/// Key for storing the latest date in the DB
pub const LATEST_DATE_KEY: &'static str = "latest-date";

/// What is said of an answer of the source that is neither a page nor a
/// redirect, before the body of the answer
pub const UNEXPECTED: &'static str = "Couldn't scrape latest date: ";

/// Values stored for the latest date
#[derive(Clone, Copy, Debug, PartialEq, Eq)]
pub struct LatestDateInfo {
    /// The latest date for which a comic is known to exist
    pub date: Date,
    /// When the source was last asked for it
    pub last_check: Timestamp,
}

/// Whether a date that was checked at `last_check` is fresh at `now`, where
/// a date stays fresh for `window_secs` seconds after it was checked.
pub open spec fn is_fresh_at(last_check: Timestamp, now: Timestamp, window_secs: int) -> bool {
    last_check@ >= now@ - window_secs * NANOS_PER_SEC
}

/// What the cache holds for the latest date, as the scraper is to see it at
/// `now`: the date, and whether it was checked within the last
/// `window_secs` seconds.
pub open spec fn cached_latest_of(
    info: Option<LatestDateInfo>,
    now: Timestamp,
    window_secs: int,
) -> Option<(Date, bool)> {
    match info {
        Some(info) => Some((info.date, is_fresh_at(info.last_check, now, window_secs))),
        None => None,
    }
}

/// The latest date as the answer of the source to a request for the comic
/// of `today` shows it, with the result held as day numbers. A redirect
/// says that today has no comic yet, so the latest is that of yesterday. A
/// success says that the latest is that of today. Any other status is an
/// error that carries the body, written out as a byte string.
pub open spec fn latest_of_response(today: int, status: u16, body: Seq<u8>) -> Result<
    int,
    AppErrorView,
> {
    match status_class(status) {
        StatusClass::Redirect => Ok(today - 1),
        StatusClass::Success => Ok(today),
        StatusClass::Unexpected => Err(AppErrorView::Scrape(UNEXPECTED@ + debug_text(body))),
    }
}

/// A scraped date, or the error in place of it, as a day number and as the
/// characters that the error holds.
pub open spec fn scraped_view(scraped: AppResult<Date>) -> Result<int, AppErrorView> {
    match scraped {
        Ok(date) => Ok(date@),
        Err(err) => Err(err@),
    }
}

impl LatestDateInfo {
    /// The entry to store for `date` when the source was asked at `now`.
    pub fn new(date: Date, now: Timestamp) -> (info: LatestDateInfo)
        ensures
            info.date == date,
            info.last_check == now,
    {
        LatestDateInfo { date, last_check: now }
    }

    /// Whether the entry is fresh at `now`, where an entry stays fresh for
    /// `window_secs` seconds after it was checked.
    pub fn is_fresh(&self, now: &Timestamp, window_secs: i64) -> (fresh: bool)
        ensures
            fresh == is_fresh_at(self.last_check, *now, window_secs as int),
    {
        self.last_check.is_within(window_secs, now)
    }
}

/// What the cache holds for the latest date, as the scraper is to see it at
/// `now`.
///
/// In the rare case that the latest date entry wasn't found in the cache, None is returned.
/// The boolean return flag indicates whether the cache entry is fresh (i.e. it was updated
/// within the last `LATEST_DATE_REFRESH` hours) or not.
pub fn cached_latest(info: Option<LatestDateInfo>, now: &Timestamp) -> (cached: Option<
    (Date, bool),
>)
    ensures
        cached == cached_latest_of(info, *now, LATEST_DATE_REFRESH * SECS_PER_HOUR),
{
    match info {
        Some(info) => {
            let fresh = info.is_fresh(now, LATEST_DATE_REFRESH * SECS_PER_HOUR);
            Some((info.date, fresh))
        },
        None => None,
    }
}

/// The key under which the latest date is cached: [`LATEST_DATE_KEY`] as a
/// string of JSON.
pub fn cache_key() -> (key: String)
    ensures
        key@ == "\""@ + LATEST_DATE_KEY@ + "\""@,
{
    String::from_str("\"").concat(LATEST_DATE_KEY).concat("\"")
}

/// The path to ask the source for, to learn whether `today` has a comic.
pub fn probe_path(today: &Date) -> (path: String)
    ensures
        path@ == comic_path_of(today@),
{
    comic_path(today)
}

/// Read the latest date out of the answer that the source gave to a request
/// for [`probe_path`] of `today`.
///
/// Where the answer is a redirect, `today` must have a day before it that
/// can be represented. Every day that [`curr_date`](crate::datetime::curr_date)
/// gives has one.
pub fn scrape_response(today: &Date, response: &Response) -> (scraped: AppResult<Date>)
    requires
        status_class(response.status) == StatusClass::Redirect ==> today@ > MIN_DAY,
    ensures
        scraped_view(scraped) == latest_of_response(today@, response.status, response.body@),
{
    match response.class() {
        StatusClass::Redirect => {
            // Redirected to homepage, implying that there's no comic for this date. There must
            // be a comic for the previous date, so use that.
            match today.pred_opt() {
                Some(date) => Ok(date),
                // Ruled out: `today` has a day before it.
                None => Ok(*today),
            }
        },
        StatusClass::Success => Ok(*today),
        StatusClass::Unexpected => {
            let body = bytes_debug_text(response.body.as_slice());
            Err(AppError::Scrape(String::from_str(UNEXPECTED).concat(body.as_str())))
        },
    }
}

/// Redirect probe: asked for the comic of today, a source that redirects
/// says that the latest comic is that of yesterday, and a source that
/// answers with success says that it is that of today. For every day that
/// the clock can give, yesterday is a day that can be represented.
pub proof fn law_redirect_probe(today: int, status: u16, body: Seq<u8>)
    ensures
        status_class(status) == StatusClass::Redirect ==> latest_of_response(today, status, body)
            == Ok::<int, AppErrorView>(today - 1),
        status_class(status) == StatusClass::Success ==> latest_of_response(today, status, body)
            == Ok::<int, AppErrorView>(today),
        status_class(status) == StatusClass::Unexpected ==> latest_of_response(
            today,
            status,
            body,
        ) is Err,
        EPOCH_DAY <= today <= MAX_DAY ==> today > MIN_DAY && Date::is_day_number(today - 1),
{
}

/// An entry that was checked longer ago than the window allows is stale:
/// the scraper asks the source again, and keeps the date of the entry to
/// fall back on.
pub proof fn law_old_entry_is_stale(info: LatestDateInfo, now: Timestamp, window_secs: int)
    requires
        info.last_check@ < now@ - window_secs * NANOS_PER_SEC,
    ensures
        cached_latest_of(Some(info), now, window_secs) == Some((info.date, false)),
        next(
            State::<Date>::Lookup,
            Event::CacheRead(Ok(cached_latest_of(Some(info), now, window_secs))),
        ) == Some((State::Scraping { fallback: Some(info.date) }, Action::<Date>::Scrape)),
{
}

/// Struct to scrape the date of the latest comic.
///
/// This scraper returns that date. `S` reads and writes the cache and asks
/// the source.
pub struct LatestDateScraper<S: Scraper<Date, ()>> {
    inner: S,
}

impl<S: Scraper<Date, ()>> LatestDateScraper<S> {
    /// What reads and writes the cache and asks the source.
    pub closed spec fn inner(&self) -> &S {
        &self.inner
    }

    /// Initialize a latest date scraper.
    pub fn new(inner: S) -> (scraper: Self)
        ensures
            *scraper.inner() == inner,
    {
        Self { inner }
    }

    /// Retrieve the date of the latest comic.
    pub fn get_latest_date(&self) -> (latest: AppResult<Date>)
        ensures
            call_ensures(S::get_data, (self.inner(), &()), latest),
    {
        self.inner.get_data(&())
    }

    /// Update the latest date in the cache.
    ///
    /// # Arguments
    /// * `date` - The date of the latest comic
    pub fn update_latest_date(&self, date: &Date) -> (updated: AppResult<()>)
        ensures
            call_ensures(S::cache_data, (self.inner(), date, &()), updated),
    {
        self.inner.cache_data(date, &())
    }
}

} // verus!
