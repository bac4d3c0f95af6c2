use std::cell::{Cell, RefCell};

use dilbert_viewer::datetime::Date;
use dilbert_viewer::errors::{AppError, AppResult};
use dilbert_viewer::pages::page_for;
use dilbert_viewer::scrapers::comics::ComicData;
use dilbert_viewer::scrapers::scraper::Scraper;
use dilbert_viewer::viewer::{
    reconcile, ContentResolution, Outcome, Report, Request, Stage, Viewer,
};

/// Enum for the state of `Viewer::get_comic_info`.
#[derive(Clone, Copy, PartialEq, Eq)]
enum GetComicInfoState {
    /// Comic info.
    Found,
    /// Comic info is missing, and no redirection is to be done.
    MissingComic,
    /// Crashes with a miscellaneous error.
    Fail,
}

/// Mock of the comic scraper: it holds the comics that exist, by date.
struct MockComics {
    state: GetComicInfoState,
    comics: Vec<(Date, ComicData)>,
    lookups: Cell<u32>,
}

impl Scraper<ComicData, Date> for MockComics {
    fn get_cached_data(&self, _date: &Date) -> AppResult<Option<(ComicData, bool)>> {
        Ok(None)
    }

    fn cache_data(&self, _data: &ComicData, _date: &Date) -> AppResult<()> {
        Ok(())
    }

    fn scrape_data(&self, date: &Date) -> AppResult<ComicData> {
        self.lookups.set(self.lookups.get() + 1);
        if self.state == GetComicInfoState::Fail {
            return Err(AppError::Scrape("Manual error".into()));
        }
        match self.comics.iter().find(|(known, _)| known == date) {
            Some((_, data)) => Ok(data.clone()),
            None => Err(AppError::NotFound(format!("Comic for {} not found", date.to_src_string()))),
        }
    }
}

/// Mock of the latest date scraper: it holds the cached latest date, and takes updates.
struct MockLatest {
    latest: RefCell<AppResult<Date>>,
    update_works: bool,
    updates: RefCell<Vec<Date>>,
}

impl Scraper<Date, ()> for MockLatest {
    fn get_cached_data(&self, _ref: &()) -> AppResult<Option<(Date, bool)>> {
        match &*self.latest.borrow() {
            Ok(date) => Ok(Some((*date, true))),
            Err(_) => Ok(None),
        }
    }

    fn cache_data(&self, date: &Date, _ref: &()) -> AppResult<()> {
        self.updates.borrow_mut().push(*date);
        if self.update_works {
            *self.latest.borrow_mut() = Ok(*date);
            Ok(())
        } else {
            Err(AppError::Db("Manual error".into()))
        }
    }

    fn scrape_data(&self, _ref: &()) -> AppResult<Date> {
        self.latest.borrow().clone()
    }
}

fn ymd(year: i32, month: u32, day: u32) -> Date {
    Date::from_ymd_opt(year, month, day).expect("Invalid test parameters")
}

fn comic(title: &str) -> ComicData {
    ComicData { title: title.into(), img_url: String::new(), img_width: 0, img_height: 0 }
}

fn mock_latest(latest: AppResult<Date>, update_works: bool) -> MockLatest {
    MockLatest { latest: RefCell::new(latest), update_works, updates: RefCell::new(Vec::new()) }
}

/// Get a `Viewer` whose scrapers have been mocked, along with the data it works with.
///
/// # Arguments
/// * `state` - The state denoting the behaviour of the viewer's scrapers
///
/// # Returns
/// * The "mocked" viewer
/// * The test comic date
/// * The test comic data
fn get_mock_viewer(state: GetComicInfoState) -> (Viewer<MockComics, MockLatest>, Date, ComicData) {
    let comic_date = ymd(2000, 1, 1);
    let comic_data = comic("");
    let comics = match state {
        GetComicInfoState::Found => vec![(comic_date, comic_data.clone())],
        _ => Vec::new(),
    };
    let mock_comic_scraper = MockComics { state, comics, lookups: Cell::new(0) };
    let viewer = Viewer::new(mock_comic_scraper, mock_latest(Ok(comic_date), true));
    (viewer, comic_date, comic_data)
}

/// Test the comic info retrieval by the viewer.
///
/// # Arguments
/// * `state` - The state denoting the behaviour of the viewer's scrapers
fn check_get_comic_info(state: GetComicInfoState) {
    let is_missing = state == GetComicInfoState::MissingComic;
    let (viewer, comic_date, comic_data) = get_mock_viewer(state);
    match viewer.get_comic_info(&comic_date, false).into_result() {
        Ok(resolution) => {
            assert_eq!(resolution.record, comic_data, "Viewer returned wrong comic data");
        }
        Err(AppError::NotFound(..)) if is_missing => {}
        Err(err) => panic!("Viewer failed to get info: {}", err.message()),
    };
}

#[test]
fn test_get_comic_info() {
    // comic exists
    check_get_comic_info(GetComicInfoState::Found);
    // missing comic
    check_get_comic_info(GetComicInfoState::MissingComic);
}

/// Test the comic info serving.
///
/// # Arguments
/// * `state` - The state denoting the behaviour of the viewer's scrapers
fn check_serve_comic(state: GetComicInfoState) {
    let expected_status = match state {
        GetComicInfoState::Found => 200,
        GetComicInfoState::MissingComic => 404,
        GetComicInfoState::Fail => 500,
    };

    let (viewer, comic_date, _) = get_mock_viewer(state);
    let page = page_for(&comic_date, viewer.get_comic_info(&comic_date, false));
    assert_eq!(page.status(), expected_status);
}

#[test]
fn test_serve_comic() {
    // comic exists
    check_serve_comic(GetComicInfoState::Found);
    // missing comic
    check_serve_comic(GetComicInfoState::MissingComic);
    // crash
    check_serve_comic(GetComicInfoState::Fail);
}

#[test]
/// A comic that is found for a date after the cached latest date moves the latest date, and a
/// cache update for the new latest date is attempted.
fn test_reconciliation_moves_the_frontier() {
    let requested = ymd(2020, 1, 5);
    let frontier = ymd(2020, 1, 1);
    let comics = MockComics {
        state: GetComicInfoState::Found,
        comics: vec![(requested, comic("new"))],
        lookups: Cell::new(0),
    };
    let viewer = Viewer::new(comics, mock_latest(Ok(frontier), true));

    let info = viewer.get_comic_info(&requested, false);
    assert_eq!(
        info,
        Outcome::Resolved(ContentResolution {
            record: comic("new"),
            shown_date: requested,
            frontier_date: requested,
        })
    );
    // The update reached the cache.
    assert_eq!(viewer.get_frontier(), Ok(requested));
}

#[test]
fn test_reconciliation_does_not_depend_on_the_cache_update() {
    let requested = ymd(2020, 1, 5);
    let frontier = ymd(2020, 1, 1);
    let comics = MockComics {
        state: GetComicInfoState::Found,
        comics: vec![(requested, comic("new"))],
        lookups: Cell::new(0),
    };
    let viewer = Viewer::new(comics, mock_latest(Ok(frontier), false));

    let info = viewer.get_comic_info(&requested, true);
    assert_eq!(
        info,
        Outcome::Resolved(ContentResolution {
            record: comic("new"),
            shown_date: requested,
            frontier_date: requested,
        })
    );
    // The update failed, so the cache still holds the old date.
    assert_eq!(viewer.get_frontier(), Ok(frontier));
}

#[test]
fn test_reconciliation_machine_asks_for_the_update() {
    let requested = ymd(2020, 1, 5);
    let frontier = ymd(2020, 1, 1);
    let start = Stage::start(requested, false);
    let report = Report::LookedUp { content: Ok(Some(comic("new"))), frontier: Ok(frontier) };
    let (stage, request) = start.step(report).expect("the request waits for its lookups");
    assert!(matches!(request, Request::UpdateFrontier(date) if date == requested));
    for updated in [Ok(()), Err(AppError::Db("Manual error".into()))] {
        let stage = match &stage {
            Stage::Updating { resolution } => Stage::Updating { resolution: resolution.clone() },
            _ => panic!("the request is to wait for the update"),
        };
        let (end, request) = stage.step(Report::FrontierUpdated(updated)).unwrap();
        assert!(matches!(end, Stage::Done));
        match request {
            Request::Finish(info) => assert_eq!(
                info,
                Outcome::Resolved(ContentResolution {
                    record: comic("new"),
                    shown_date: requested,
                    frontier_date: requested,
                })
            ),
            _ => panic!("the request is to end"),
        }
    }
}

#[test]
fn test_older_comic_keeps_the_frontier() {
    let frontier = ymd(2020, 1, 5);
    for requested in [ymd(2020, 1, 1), frontier] {
        let comics = MockComics {
            state: GetComicInfoState::Found,
            comics: vec![(requested, comic("old"))],
            lookups: Cell::new(0),
        };
        let latest = mock_latest(Ok(frontier), true);
        let viewer = Viewer::new(comics, latest);
        assert_eq!(
            viewer.get_comic_info(&requested, false),
            Outcome::Resolved(ContentResolution {
                record: comic("old"),
                shown_date: requested,
                frontier_date: frontier,
            })
        );
        assert_eq!(viewer.get_frontier(), Ok(frontier));
    }
}

#[test]
fn test_reconcile() {
    let earlier = ymd(2020, 1, 1);
    let later = ymd(2020, 1, 5);
    let (stage, request) = reconcile(comic("a"), later, earlier);
    assert!(matches!(request, Request::UpdateFrontier(date) if date == later));
    assert!(matches!(
        stage,
        Stage::Updating { resolution } if resolution == ContentResolution {
            record: comic("a"),
            shown_date: later,
            frontier_date: later,
        }
    ));
    for (shown, frontier) in [(earlier, later), (later, later)] {
        let (stage, request) = reconcile(comic("a"), shown, frontier);
        assert!(matches!(stage, Stage::Done));
        assert!(matches!(
            request,
            Request::Finish(Outcome::Resolved(resolution)) if resolution == ContentResolution {
                record: comic("a"),
                shown_date: shown,
                frontier_date: frontier,
            }
        ));
    }
}

#[test]
/// A date in the future without a comic: not found where the latest comic may not stand in.
fn test_missing_date_is_not_found() {
    let requested = ymd(2099, 1, 1);
    let frontier = ymd(2020, 1, 1);
    let comics = MockComics {
        state: GetComicInfoState::MissingComic,
        comics: vec![(frontier, comic("latest"))],
        lookups: Cell::new(0),
    };
    let viewer = Viewer::new(comics, mock_latest(Ok(frontier), true));
    let info = viewer.get_comic_info(&requested, false);
    assert_eq!(info, Outcome::NotFound(requested));
    assert_eq!(
        info.into_result(),
        Err(AppError::NotFound("No comic found for 2099-01-01".into()))
    );
}

#[test]
/// A date in the future without a comic: the latest comic stands in where it may, and its date
/// is the date that is shown.
fn test_missing_date_shows_the_latest_comic() {
    let requested = ymd(2099, 1, 1);
    let frontier = ymd(2020, 1, 1);
    let comics = MockComics {
        state: GetComicInfoState::MissingComic,
        comics: vec![(frontier, comic("latest"))],
        lookups: Cell::new(0),
    };
    let viewer = Viewer::new(comics, mock_latest(Ok(frontier), true));
    assert_eq!(
        viewer.get_comic_info(&requested, true),
        Outcome::Resolved(ContentResolution {
            record: comic("latest"),
            shown_date: frontier,
            frontier_date: frontier,
        })
    );
    // The frontier did not move, so nothing was written.
    assert_eq!(viewer.get_frontier(), Ok(frontier));
}

#[test]
/// The latest date without a comic is an invariant violation, and is never swallowed.
fn test_latest_date_without_comic_is_an_internal_error() {
    let requested = ymd(2099, 1, 1);
    let frontier = ymd(2020, 1, 1);
    let comics =
        MockComics { state: GetComicInfoState::MissingComic, comics: Vec::new(), lookups: Cell::new(0) };
    let viewer = Viewer::new(comics, mock_latest(Ok(frontier), true));
    let info = viewer.get_comic_info(&requested, true);
    assert_eq!(info, Outcome::NoLatestComic(frontier));
    assert_eq!(page_for(&requested, info.clone()).status(), 500);
    assert_eq!(
        info.into_result(),
        Err(AppError::Internal("No comic found for the latest date: 2020-01-01".into()))
    );
}

#[test]
fn test_failed_lookups_fail_the_request() {
    let requested = ymd(2020, 1, 1);
    // The comic lookup fails.
    let comics =
        MockComics { state: GetComicInfoState::Fail, comics: Vec::new(), lookups: Cell::new(0) };
    let viewer = Viewer::new(comics, mock_latest(Ok(requested), true));
    assert_eq!(
        viewer.get_comic_info(&requested, true),
        Outcome::Failed(AppError::Scrape("Manual error".into()))
    );
    // The latest date lookup fails.
    let comics = MockComics {
        state: GetComicInfoState::Found,
        comics: vec![(requested, comic("a"))],
        lookups: Cell::new(0),
    };
    let viewer = Viewer::new(comics, mock_latest(Err(AppError::Scrape("No date".into())), true));
    assert_eq!(
        viewer.get_comic_info(&requested, false),
        Outcome::Failed(AppError::Scrape("No date".into()))
    );
    assert_eq!(viewer.get_frontier(), Err(AppError::Scrape("No date".into())));
}

/// Step the machine once and hand back the request, with whether the stage after it is `Done`.
fn step_once(stage: Stage, report: Report) -> (Stage, Request) {
    stage.step(report).expect("the stage waits for this report")
}

#[test]
fn test_machine_first_step() {
    let requested = ymd(2020, 1, 3);
    let frontier = ymd(2020, 1, 5);
    let failure = AppError::Scrape("a".into());
    let other = AppError::Db("b".into());

    // Both lookups failed: the failure of the comic lookup comes first.
    let (stage, request) = step_once(
        Stage::start(requested, true),
        Report::LookedUp { content: Err(failure.clone()), frontier: Err(other.clone()) },
    );
    assert!(matches!(stage, Stage::Done));
    assert!(matches!(request, Request::Finish(Outcome::Failed(err)) if err == failure));

    let (_, request) = step_once(
        Stage::start(requested, true),
        Report::LookedUp { content: Ok(None), frontier: Err(other.clone()) },
    );
    assert!(matches!(request, Request::Finish(Outcome::Failed(err)) if err == other));

    let (_, request) = step_once(
        Stage::start(requested, false),
        Report::LookedUp { content: Ok(None), frontier: Ok(frontier) },
    );
    assert!(matches!(request, Request::Finish(Outcome::NotFound(date)) if date == requested));

    let (stage, request) = step_once(
        Stage::start(requested, true),
        Report::LookedUp { content: Ok(None), frontier: Ok(frontier) },
    );
    assert!(matches!(stage, Stage::Fallback { frontier: date } if date == frontier));
    assert!(matches!(request, Request::FetchComic(date) if date == frontier));
}

#[test]
fn test_machine_fallback_step() {
    let frontier = ymd(2020, 1, 5);
    let (stage, request) =
        step_once(Stage::Fallback { frontier }, Report::FellBack(Ok(Some(comic("latest")))));
    assert!(matches!(stage, Stage::Done));
    assert!(matches!(
        request,
        Request::Finish(Outcome::Resolved(resolution)) if resolution == ContentResolution {
            record: comic("latest"),
            shown_date: frontier,
            frontier_date: frontier,
        }
    ));
    let (_, request) = step_once(Stage::Fallback { frontier }, Report::FellBack(Ok(None)));
    assert!(matches!(request, Request::Finish(Outcome::NoLatestComic(date)) if date == frontier));
    let failure = AppError::Scrape("a".into());
    let (_, request) =
        step_once(Stage::Fallback { frontier }, Report::FellBack(Err(failure.clone())));
    assert!(matches!(request, Request::Finish(Outcome::Failed(err)) if err == failure));
}

#[test]
fn test_machine_refuses_reports_out_of_turn() {
    let date = ymd(2020, 1, 5);
    let resolution =
        ContentResolution { record: comic("a"), shown_date: date, frontier_date: date };
    assert!(Stage::start(date, true).step(Report::FellBack(Ok(None))).is_none());
    assert!(Stage::start(date, true).step(Report::FrontierUpdated(Ok(()))).is_none());
    assert!(Stage::Fallback { frontier: date }.step(Report::FrontierUpdated(Ok(()))).is_none());
    assert!(Stage::Fallback { frontier: date }
        .step(Report::LookedUp { content: Ok(None), frontier: Ok(date) })
        .is_none());
    assert!(Stage::Updating { resolution: resolution.clone() }
        .step(Report::FellBack(Ok(None)))
        .is_none());
    assert!(Stage::Updating { resolution }
        .step(Report::LookedUp { content: Ok(None), frontier: Ok(date) })
        .is_none());
    assert!(Stage::Done.step(Report::FellBack(Ok(None))).is_none());
    assert!(Stage::Done.step(Report::FrontierUpdated(Ok(()))).is_none());
    assert!(Stage::Done.step(Report::LookedUp { content: Ok(None), frontier: Ok(date) }).is_none());
}

#[test]
fn test_outcome_into_result() {
    let date = ymd(2020, 1, 5);
    let resolution =
        ContentResolution { record: comic("a"), shown_date: date, frontier_date: date };
    assert_eq!(Outcome::Resolved(resolution.clone()).into_result(), Ok(resolution));
    assert_eq!(
        Outcome::NotFound(date).into_result(),
        Err(AppError::NotFound("No comic found for 2020-01-05".into()))
    );
    assert_eq!(
        Outcome::NoLatestComic(date).into_result(),
        Err(AppError::Internal("No comic found for the latest date: 2020-01-05".into()))
    );
    assert_eq!(
        Outcome::Failed(AppError::Pool("p".into())).into_result(),
        Err(AppError::Pool("p".into()))
    );
}
