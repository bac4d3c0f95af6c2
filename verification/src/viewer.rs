//! The viewer: how a request for the comic of a date is answered.
//!
//! A request names a date and says whether the latest comic may stand in
//! where the date has none. The comic of the date and the latest date are
//! looked up side by side. The answer is the comic that is shown, the date
//! that it belongs to, and the latest date as it is known after the request:
//! a comic that turns out to be newer than the latest date moves that date
//! forward.
//!
//! As with the scrapers, the rule is written down twice. [`outcome`] says
//! how a request ends, given what its lookups gave. [`Stage::step`] is the
//! same rule as a machine, for a caller that waits on the lookups in its own
//! way: it is told what the lookups gave and answers with what to do next.
//! [`Viewer::get_comic_info`] follows the rule with blocking calls, one
//! lookup after the other.
//!
//! Both end in [`outcome`]. The laws below are laws of the machine: they
//! say what it asks for at each step. The contract of
//! [`Viewer::get_comic_info`] states its outcome, and that the cache was
//! asked to take a latest date that moved; of calls that it does not make
//! it states nothing.
use vstd::prelude::*;
use vstd::string::*;

use crate::constants::SRC_DATE_FMT;
use crate::datetime::{formatted_date, Date};
use crate::errors::{AppError, AppErrorView, AppResult};
use crate::scrapers::comics::{ComicData, ComicScraper};
use crate::scrapers::latest::LatestDateScraper;
use crate::scrapers::scraper::Scraper;

verus! {

/// The answer to a request that found a comic to show.
#[derive(Clone, Debug, PartialEq, Eq)]
pub struct ContentResolution {
    /// The comic that is shown
    pub record: ComicData,
    /// The date of the comic that is shown
    pub shown_date: Date,
    /// The latest date for which a comic is known to exist
    pub frontier_date: Date,
}

/// How a request ended.
#[derive(Clone, Debug, PartialEq, Eq)]
pub enum Outcome {
    /// There is a comic to show.
    Resolved(ContentResolution),
    /// The date that was asked for has no comic, and no other was to stand
    /// in for it.
    NotFound(Date),
    /// The latest date, which was to stand in, has no comic: the latest date
    /// is wrong, in the cache or at the source.
    NoLatestComic(Date),
    /// A lookup failed.
    Failed(AppError),
}

/// Where a request stands.
pub enum Stage {
    /// Waiting for the comic of the date that was asked for, and for the
    /// latest date.
    Lookup { requested: Date, show_latest: bool },
    /// Waiting for the comic of the latest date, which stands in.
    Fallback { frontier: Date },
    /// Waiting for the cache to take the new latest date.
    Updating { resolution: ContentResolution },
    /// The outcome has been handed out.
    Done,
}

/// What the outside world reports to a request.
pub enum Report {
    /// Both first lookups are over.
    LookedUp { content: AppResult<Option<ComicData>>, frontier: AppResult<Date> },
    /// The lookup of the comic of the latest date is over.
    FellBack(AppResult<Option<ComicData>>),
    /// The cache was asked to take the new latest date.
    FrontierUpdated(AppResult<()>),
}

/// What a request asks for in answer to a report.
pub enum Request {
    /// Look up the comic of this date, and report with [`Report::FellBack`].
    FetchComic(Date),
    /// Write this date to the cache as the latest date, and report with
    /// [`Report::FrontierUpdated`].
    UpdateFrontier(Date),
    /// The request is over, with this outcome.
    Finish(Outcome),
}

/// The step that follows once there is a comic to show: where its date is
/// later than the latest date that was looked up, the latest date becomes
/// that of the comic and is written to the cache; else the request is over.
pub open spec fn reconciled(record: ComicData, shown: Date, frontier: Date) -> (Stage, Request) {
    if shown@ > frontier@ {
        (
            Stage::Updating {
                resolution: ContentResolution { record, shown_date: shown, frontier_date: shown },
            },
            Request::UpdateFrontier(shown),
        )
    } else {
        (
            Stage::Done,
            Request::Finish(
                Outcome::Resolved(
                    ContentResolution { record, shown_date: shown, frontier_date: frontier },
                ),
            ),
        )
    }
}

/// The step that follows the two first lookups. A failed lookup ends the
/// request, that of the comic before that of the latest date. A comic that
/// was found is shown. Where there is none, the latest date stands in if the
/// request allows it; else the request ends as not found.
pub open spec fn looked_up(
    requested: Date,
    show_latest: bool,
    content: AppResult<Option<ComicData>>,
    frontier: AppResult<Date>,
) -> (Stage, Request) {
    match (content, frontier) {
        (Err(err), _) => (Stage::Done, Request::Finish(Outcome::Failed(err))),
        (Ok(_), Err(err)) => (Stage::Done, Request::Finish(Outcome::Failed(err))),
        (Ok(Some(record)), Ok(frontier)) => reconciled(record, requested, frontier),
        (Ok(None), Ok(frontier)) => if show_latest {
            (Stage::Fallback { frontier }, Request::FetchComic(frontier))
        } else {
            (Stage::Done, Request::Finish(Outcome::NotFound(requested)))
        },
    }
}

/// The outcome once the comic of the latest date was looked up to stand in.
pub open spec fn fell_back(frontier: Date, content: AppResult<Option<ComicData>>) -> Outcome {
    match content {
        Err(err) => Outcome::Failed(err),
        Ok(None) => Outcome::NoLatestComic(frontier),
        Ok(Some(record)) => Outcome::Resolved(
            ContentResolution { record, shown_date: frontier, frontier_date: frontier },
        ),
    }
}

/// The stage after `report` and the answer to it, or `None` where the stage
/// does not wait for such a report.
pub open spec fn next(stage: Stage, report: Report) -> Option<(Stage, Request)> {
    match (stage, report) {
        (Stage::Lookup { requested, show_latest }, Report::LookedUp { content, frontier }) => Some(
            looked_up(requested, show_latest, content, frontier),
        ),
        (Stage::Fallback { frontier }, Report::FellBack(content)) => Some(
            (Stage::Done, Request::Finish(fell_back(frontier, content))),
        ),
        (Stage::Updating { resolution }, Report::FrontierUpdated(_)) => Some(
            (Stage::Done, Request::Finish(Outcome::Resolved(resolution))),
        ),
        _ => None,
    }
}

/// How a request ends, given what each lookup gives when it is made.
/// `stand_in` is what the lookup of the comic of the latest date gives; it
/// counts only where that lookup is made. Whether the cache takes a new
/// latest date changes nothing.
pub open spec fn outcome(
    requested: Date,
    show_latest: bool,
    content: AppResult<Option<ComicData>>,
    frontier: AppResult<Date>,
    stand_in: AppResult<Option<ComicData>>,
) -> Outcome {
    match (content, frontier) {
        (Err(err), _) => Outcome::Failed(err),
        (Ok(_), Err(err)) => Outcome::Failed(err),
        (Ok(Some(record)), Ok(frontier)) => Outcome::Resolved(
            ContentResolution {
                record,
                shown_date: requested,
                frontier_date: if requested@ > frontier@ {
                    requested
                } else {
                    frontier
                },
            },
        ),
        (Ok(None), Ok(frontier)) => if show_latest {
            fell_back(frontier, stand_in)
        } else {
            Outcome::NotFound(requested)
        },
    }
}

/// Whether a request with these first lookups goes on to look up the comic
/// of the latest date.
pub open spec fn falls_back(
    show_latest: bool,
    content: AppResult<Option<ComicData>>,
    frontier: AppResult<Date>,
) -> bool {
    show_latest && content == Ok::<Option<ComicData>, AppError>(None) && frontier is Ok
}

/// Whether a request with these first lookups moves the latest date: the
/// comic of the date that was asked for was found, and that date is later
/// than the latest date that was looked up.
pub open spec fn moves_frontier(
    requested: Date,
    content: AppResult<Option<ComicData>>,
    frontier: AppResult<Date>,
) -> bool {
    content matches Ok(Some(_)) && frontier matches Ok(latest) && requested@ > latest@
}

impl Stage {
    /// The stage in which a request for the comic of `requested` starts.
    pub fn start(requested: Date, show_latest: bool) -> (stage: Stage)
        ensures
            stage == (Stage::Lookup { requested, show_latest }),
    {
        Stage::Lookup { requested, show_latest }
    }

    /// Advance by one report: the stage after it and what to do next, or
    /// `None` where this stage does not wait for such a report.
    pub fn step(self, report: Report) -> (stepped: Option<(Stage, Request)>)
        ensures
            stepped == next(self, report),
    {
        match (self, report) {
            (Stage::Lookup { requested, show_latest }, Report::LookedUp { content, frontier }) => {
                let record = match content {
                    Err(err) => {
                        return Some((Stage::Done, Request::Finish(Outcome::Failed(err))));
                    },
                    Ok(record) => record,
                };
                let frontier = match frontier {
                    Err(err) => {
                        return Some((Stage::Done, Request::Finish(Outcome::Failed(err))));
                    },
                    Ok(frontier) => frontier,
                };
                match record {
                    Some(record) => Some(reconcile(record, requested, frontier)),
                    None => if show_latest {
                        Some((Stage::Fallback { frontier }, Request::FetchComic(frontier)))
                    } else {
                        Some((Stage::Done, Request::Finish(Outcome::NotFound(requested))))
                    },
                }
            },
            (Stage::Fallback { frontier }, Report::FellBack(content)) => {
                let outcome = match content {
                    Err(err) => Outcome::Failed(err),
                    // The latest date, either from the cache or by scraping, is wrong.
                    Ok(None) => Outcome::NoLatestComic(frontier),
                    Ok(Some(record)) => Outcome::Resolved(
                        ContentResolution { record, shown_date: frontier, frontier_date: frontier },
                    ),
                };
                Some((Stage::Done, Request::Finish(outcome)))
            },
            (Stage::Updating { resolution }, Report::FrontierUpdated(_)) => Some(
                (Stage::Done, Request::Finish(Outcome::Resolved(resolution))),
            ),
            _ => None,
        }
    }
}

/// The step that follows once there is a comic to show.
pub fn reconcile(record: ComicData, shown: Date, frontier: Date) -> (step: (Stage, Request))
    ensures
        step == reconciled(record, shown, frontier),
{
    if shown.is_after(&frontier) {
        (
            Stage::Updating {
                resolution: ContentResolution { record, shown_date: shown, frontier_date: shown },
            },
            Request::UpdateFrontier(shown),
        )
    } else {
        (
            Stage::Done,
            Request::Finish(
                Outcome::Resolved(
                    ContentResolution { record, shown_date: shown, frontier_date: frontier },
                ),
            ),
        )
    }
}

/// What is said of a date that has no comic.
pub open spec fn not_found_message(days: int) -> Seq<char> {
    "No comic found for "@ + formatted_date(days, SRC_DATE_FMT@)
}

/// What is said of a latest date that has no comic.
pub open spec fn no_latest_message(days: int) -> Seq<char> {
    "No comic found for the latest date: "@ + formatted_date(days, SRC_DATE_FMT@)
}

impl Outcome {
    /// The outcome as a result: a date without a comic is the error
    /// `NotFound`, and a latest date without a comic is the error `Internal`.
    pub fn into_result(self) -> (result: AppResult<ContentResolution>)
        ensures
            match self {
                Outcome::Resolved(resolution) => result == Ok::<ContentResolution, AppError>(
                    resolution,
                ),
                Outcome::NotFound(date) => result matches Err(err) && err@
                    == AppErrorView::NotFound(not_found_message(date@)),
                Outcome::NoLatestComic(date) => result matches Err(err) && err@
                    == AppErrorView::Internal(no_latest_message(date@)),
                Outcome::Failed(failure) => result == Err::<ContentResolution, AppError>(failure),
            },
    {
        match self {
            Outcome::Resolved(resolution) => Ok(resolution),
            Outcome::NotFound(date) => {
                let day = date.to_src_string();
                Err(
                    AppError::NotFound(
                        String::from_str("No comic found for ").concat(day.as_str()),
                    ),
                )
            },
            Outcome::NoLatestComic(date) => {
                let day = date.to_src_string();
                Err(
                    AppError::Internal(
                        String::from_str("No comic found for the latest date: ").concat(
                            day.as_str(),
                        ),
                    ),
                )
            },
            Outcome::Failed(err) => Err(err),
        }
    }
}

/// Reconciliation: a comic that is found for a date later than the latest
/// date makes its date the latest, and a write of that date to the cache is
/// asked for. Whether the write succeeds changes nothing in what is
/// returned.
pub proof fn law_newer_comic_moves_the_frontier(
    record: ComicData,
    requested: Date,
    show_latest: bool,
    frontier: Date,
    updated: AppResult<()>,
)
    requires
        requested@ > frontier@,
    ensures
        ({
            let resolution = ContentResolution {
                record,
                shown_date: requested,
                frontier_date: requested,
            };
            let start = Stage::Lookup { requested, show_latest };
            let report = Report::LookedUp { content: Ok(Some(record)), frontier: Ok(frontier) };
            &&& next(start, report) == Some(
                (Stage::Updating { resolution }, Request::UpdateFrontier(requested)),
            )
            &&& next(Stage::Updating { resolution }, Report::FrontierUpdated(updated)) == Some(
                (Stage::Done, Request::Finish(Outcome::Resolved(resolution))),
            )
        }),
{
}

/// A comic that is found for a date no later than the latest date leaves
/// the latest date as it is, and nothing is written.
pub proof fn law_older_comic_keeps_the_frontier(
    record: ComicData,
    requested: Date,
    show_latest: bool,
    frontier: Date,
)
    requires
        requested@ <= frontier@,
    ensures
        next(
            Stage::Lookup { requested, show_latest },
            Report::LookedUp { content: Ok(Some(record)), frontier: Ok(frontier) },
        ) == Some(
            (
                Stage::Done,
                Request::Finish(
                    Outcome::Resolved(
                        ContentResolution {
                            record,
                            shown_date: requested,
                            frontier_date: frontier,
                        },
                    ),
                ),
            ),
        ),
{
}

/// A date without a comic ends the request as not found where the latest
/// comic may not stand in; where it may, the comic of the latest date is
/// looked up and, if there is one, is shown under the latest date.
pub proof fn law_missing_date(
    requested: Date,
    show_latest: bool,
    frontier: Date,
    stand_in: ComicData,
)
    ensures
        ({
            let start = Stage::Lookup { requested, show_latest };
            let report = Report::LookedUp { content: Ok(None), frontier: Ok(frontier) };
            if show_latest {
                &&& next(start, report) == Some(
                    (Stage::Fallback { frontier }, Request::FetchComic(frontier)),
                )
                &&& next(Stage::Fallback { frontier }, Report::FellBack(Ok(Some(stand_in))))
                    == Some(
                    (
                        Stage::Done,
                        Request::Finish(
                            Outcome::Resolved(
                                ContentResolution {
                                    record: stand_in,
                                    shown_date: frontier,
                                    frontier_date: frontier,
                                },
                            ),
                        ),
                    ),
                )
                &&& next(Stage::Fallback { frontier }, Report::FellBack(Ok(None))) == Some(
                    (Stage::Done, Request::Finish(Outcome::NoLatestComic(frontier))),
                )
            } else {
                next(start, report) == Some(
                    (Stage::Done, Request::Finish(Outcome::NotFound(requested))),
                )
            }
        }),
{
}

/// The latest date that a request returns is never earlier than the one
/// that it looked up, nor than the date of the comic that it shows.
pub proof fn law_frontier_never_moves_back(
    requested: Date,
    show_latest: bool,
    content: AppResult<Option<ComicData>>,
    frontier: Date,
    stand_in: AppResult<Option<ComicData>>,
)
    ensures
        outcome(requested, show_latest, content, Ok(frontier), stand_in) matches Outcome::Resolved(
            resolution,
        ) ==> resolution.frontier_date@ >= frontier@ && resolution.frontier_date@
            >= resolution.shown_date@,
{
}

/// Every request ends in [`outcome`] of what its lookups gave: either the
/// first step ends it, or the first step asks for one thing more and the
/// step after that ends it, whatever that one thing gives.
pub proof fn law_requests_end_in_outcome(
    requested: Date,
    show_latest: bool,
    content: AppResult<Option<ComicData>>,
    frontier: AppResult<Date>,
    stand_in: AppResult<Option<ComicData>>,
    updated: AppResult<()>,
)
    ensures
        ({
            let start = Stage::Lookup { requested, show_latest };
            let end = outcome(requested, show_latest, content, frontier, stand_in);
            match next(start, Report::LookedUp { content, frontier }) {
                Some((_, Request::Finish(first))) => first == end,
                Some((stage, Request::FetchComic(latest))) => {
                    &&& falls_back(show_latest, content, frontier)
                    &&& frontier == Ok::<Date, AppError>(latest)
                    &&& next(stage, Report::FellBack(stand_in)) == Some(
                        (Stage::Done, Request::Finish(end)),
                    )
                },
                Some((stage, Request::UpdateFrontier(latest))) => {
                    &&& latest == requested
                    &&& next(stage, Report::FrontierUpdated(updated)) == Some(
                        (Stage::Done, Request::Finish(end)),
                    )
                },
                None => false,
            }
        }),
{
}

/// The viewer: a scraper for comics and a scraper for the latest date.
pub struct Viewer<C: Scraper<ComicData, Date>, L: Scraper<Date, ()>> {
    /// The scraper for comics given date
    comic_scraper: ComicScraper<C>,
    /// The scraper for the latest date
    latest_date_scraper: LatestDateScraper<L>,
}

impl<C: Scraper<ComicData, Date>, L: Scraper<Date, ()>> Viewer<C, L> {
    /// The scraper for comics.
    pub closed spec fn comics(&self) -> &ComicScraper<C> {
        &self.comic_scraper
    }

    /// The scraper for the latest date.
    pub closed spec fn latest(&self) -> &LatestDateScraper<L> {
        &self.latest_date_scraper
    }

    /// Initialize all necessary stuff for the viewer.
    pub fn new(comics: C, latest: L) -> (viewer: Self)
        ensures
            *viewer.comics().inner() == comics,
            *viewer.latest().inner() == latest,
    {
        Self {
            comic_scraper: ComicScraper::new(comics),
            latest_date_scraper: LatestDateScraper::new(latest),
        }
    }

    /// Whether `info` is how a request ends when its lookups give `content`,
    /// `frontier` and, where the comic of the latest date is looked up,
    /// `stand_in`; whether these are things that the lookups of this viewer
    /// may give; and whether, where the request moves the latest date, the
    /// cache was asked to take the new latest date and gave some answer.
    pub open spec fn answers(
        &self,
        date: Date,
        show_latest: bool,
        content: AppResult<Option<ComicData>>,
        frontier: AppResult<Date>,
        stand_in: AppResult<Option<ComicData>>,
        info: Outcome,
    ) -> bool {
        &&& call_ensures(ComicScraper::<C>::get_comic_data, (self.comics(), &date), content)
        &&& call_ensures(LatestDateScraper::<L>::get_latest_date, (self.latest(),), frontier)
        &&& falls_back(show_latest, content, frontier) ==> call_ensures(
            ComicScraper::<C>::get_comic_data,
            (self.comics(), &frontier->Ok_0),
            stand_in,
        )
        &&& moves_frontier(date, content, frontier) ==> exists|updated: AppResult<()>| #[trigger]
            call_ensures(
                LatestDateScraper::<L>::update_latest_date,
                (self.latest(), &date),
                updated,
            )
        &&& info == outcome(date, show_latest, content, frontier, stand_in)
    }

    /// Get the info about the requested comic.
    ///
    /// The outcome is [`outcome`] of something that each lookup of this
    /// viewer may give: that of the comic of `date`, that of the latest
    /// date, and, where it is made, that of the comic of the latest date.
    /// Where the comic that was found is newer than the latest date, the
    /// cache was asked to take its date as the latest date; what the cache
    /// answered changes nothing.
    ///
    /// The contract speaks of the calls that are made, through what they
    /// gave. That no cache write is asked for where the latest date stays
    /// is shown of [`Stage::step`], and here it is what the body does. The
    /// two first lookups are made in turn here; a caller that can wait on
    /// both at once drives [`Stage::step`] instead.
    ///
    /// # Arguments
    /// * `date` - The date of the requested comic
    /// * `show_latest` - Whether the latest comic is to stand in where
    ///                   `date` has no comic
    pub fn get_comic_info(&self, date: &Date, show_latest: bool) -> (info: Outcome)
        ensures
            exists|
                content: AppResult<Option<ComicData>>,
                frontier: AppResult<Date>,
                stand_in: AppResult<Option<ComicData>>,
            | #[trigger]
                self.answers(*date, show_latest, content, frontier, stand_in, info),
    {
        let content = self.comic_scraper.get_comic_data(date);
        let frontier = self.latest_date_scraper.get_latest_date();
        let ghost first = content;
        let ghost known = frontier;

        let record = match content {
            Err(err) => {
                assert(self.answers(*date, show_latest, first, known, first, Outcome::Failed(err)));
                return Outcome::Failed(err);
            },
            Ok(record) => record,
        };
        let latest = match frontier {
            Err(err) => {
                assert(self.answers(*date, show_latest, first, known, first, Outcome::Failed(err)));
                return Outcome::Failed(err);
            },
            Ok(latest) => latest,
        };

        match record {
            Some(record) => {
                let frontier_date = if date.is_after(&latest) {
                    // The answer does not wait on the cache: a failed write is dropped.
                    let _ = self.latest_date_scraper.update_latest_date(date);
                    *date
                } else {
                    latest
                };
                let info = Outcome::Resolved(
                    ContentResolution { record, shown_date: *date, frontier_date },
                );
                assert(self.answers(*date, show_latest, first, known, first, info));
                info
            },
            None => if show_latest {
                let stand_in = self.comic_scraper.get_comic_data(&latest);
                let ghost given = stand_in;
                let info = match stand_in {
                    Err(err) => Outcome::Failed(err),
                    // The latest date, either from the cache or by scraping, is wrong.
                    Ok(None) => Outcome::NoLatestComic(latest),
                    Ok(Some(record)) => Outcome::Resolved(
                        ContentResolution { record, shown_date: latest, frontier_date: latest },
                    ),
                };
                assert(self.answers(*date, show_latest, first, known, given, info));
                info
            } else {
                assert(self.answers(*date, show_latest, first, known, first, Outcome::NotFound(*date)));
                Outcome::NotFound(*date)
            },
        }
    }

    /// Retrieve the date of the latest comic.
    pub fn get_frontier(&self) -> (latest: AppResult<Date>)
        ensures
            call_ensures(LatestDateScraper::<L>::get_latest_date, (self.latest(),), latest),
    {
        self.latest_date_scraper.get_latest_date()
    }
}

} // verus!
