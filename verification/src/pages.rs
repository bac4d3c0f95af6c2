//! The pages that are served: what each of them shows, before it is
//! rendered.
use vstd::prelude::*;
use vstd::string::*;

use crate::client::request_url;
use crate::constants::{
    APP_URL, DISP_DATE_FMT, FIRST_COMIC, REPO_URL, SRC_BASE_URL, SRC_DATE_FMT,
};
use crate::datetime::{
    formatted_date, parse_error_text, parsed_day_number, str_to_date, Date,
};
use crate::errors::{AppError, AppErrorView, AppResult};
use crate::scrapers::comics::{comic_path, comic_path_of, ComicData};
use crate::templates::{ComicTemplate, ErrorTemplate, NotFoundTemplate};
use crate::viewer::{no_latest_message, Outcome};

verus! {

/// The day number of the comic before that of day `date`, where the first
/// comic is that of day `first`: the day before, but never one before the
/// first comic.
pub open spec fn previous_of(date: int, first: int) -> int {
    if date > first {
        date - 1
    } else {
        first
    }
}

/// The day number of the comic after that of day `date`, where the latest
/// comic is that of day `latest`: the day after, but never one after the
/// latest comic.
pub open spec fn next_of(date: int, latest: int) -> int {
    if date < latest {
        date + 1
    } else {
        latest
    }
}

/// The links of a page never lead out of the range from the first comic to
/// the latest: where the first comic is no later than the latest, the day to
/// go back to is no earlier than the first comic, the day to go on to is no
/// later than the latest, and from a day within the range both are within
/// it.
pub proof fn law_links_stay_in_range(date: int, first: int, latest: int)
    requires
        first <= latest,
    ensures
        first <= previous_of(date, first),
        next_of(date, latest) <= latest,
        first <= date <= latest ==> previous_of(date, first) <= latest && first <= next_of(
            date,
            latest,
        ),
        previous_of(date, first) <= date || date < first,
        date <= next_of(date, latest) || latest < date,
{
}

/// The date to go back to from the comic of `date`.
pub fn previous_comic(date: &Date, first: &Date) -> (previous: Date)
    ensures
        previous@ == previous_of(date@, first@),
{
    proof {
        use_type_invariant(first);
        first.lemma_day_number_in_range();
    }
    if date.is_after(first) {
        match date.pred_opt() {
            Some(previous) => previous,
            None => *first,
        }
    } else {
        *first
    }
}

/// The date to go on to from the comic of `date`.
pub fn next_comic(date: &Date, latest: &Date) -> (next: Date)
    ensures
        next@ == next_of(date@, latest@),
{
    proof {
        use_type_invariant(latest);
        latest.lemma_day_number_in_range();
    }
    if date.is_before(latest) {
        match date.succ_opt() {
            Some(next) => next,
            None => *latest,
        }
    } else {
        *latest
    }
}

/// Whether `template` is the page of the comic `data` of the day `date`,
/// where the first comic is that of day `first` and the latest that of day
/// `latest`.
pub open spec fn is_comic_page(
    template: ComicTemplate,
    date: int,
    data: ComicData,
    first: int,
    latest: int,
) -> bool {
    &&& template.data == data
    &&& template.date_disp@ == formatted_date(date, DISP_DATE_FMT@)
    &&& template.date@ == formatted_date(date, SRC_DATE_FMT@)
    &&& template.first_comic@ == FIRST_COMIC@
    &&& template.previous_comic@ == formatted_date(previous_of(date, first), SRC_DATE_FMT@)
    &&& template.next_comic@ == formatted_date(next_of(date, latest), SRC_DATE_FMT@)
    &&& template.disable_left_nav == (date == first)
    &&& template.disable_right_nav == (date == latest)
    &&& template.permalink@ == SRC_BASE_URL@ + "/"@ + comic_path_of(date)
    &&& template.app_url@ == APP_URL@
    &&& template.repo_url@ == REPO_URL@
}

/// Whether `template` is the page for a missing comic: that of the day
/// `date`, or, without a day, for an address that leads nowhere.
pub open spec fn is_not_found_page(template: NotFoundTemplate, date: Option<int>) -> bool {
    &&& template.repo_url@ == REPO_URL@
    &&& match date {
        Some(date) => template.date matches Some(text) && text@ == formatted_date(
            date,
            SRC_DATE_FMT@,
        ),
        None => template.date is None,
    }
}

/// Whether `template` is the page for the error `err`.
pub open spec fn is_error_page(template: ErrorTemplate, err: AppErrorView) -> bool {
    &&& template.repo_url@ == REPO_URL@
    &&& template.error@ == err.message()
}

/// The page of a comic.
///
/// Fails where the date of the first comic, as this crate holds it, cannot
/// be read.
///
/// # Arguments
/// * `date` - The date of the comic
/// * `comic_data` - The scraped comic data
/// * `latest_comic` - The date of the latest comic
pub fn comic_template(date: &Date, comic_data: ComicData, latest_comic: &Date) -> (page: AppResult<
    ComicTemplate,
>)
    ensures
        match parsed_day_number(FIRST_COMIC@, SRC_DATE_FMT@) {
            Some(first) => page matches Ok(template) && is_comic_page(
                template,
                date@,
                comic_data,
                first,
                latest_comic@,
            ),
            None => page matches Err(AppError::DateParse(_)),
        },
{
    let first_comic = match str_to_date(FIRST_COMIC, SRC_DATE_FMT) {
        Ok(first_comic) => first_comic,
        Err(err) => {
            return Err(AppError::DateParse(parse_error_text(&err)));
        },
    };

    // Links to previous and next comics
    let previous_comic = previous_comic(date, &first_comic).to_src_string();
    let next_comic = next_comic(date, latest_comic).to_src_string();
    let path = comic_path(date);

    Ok(
        ComicTemplate {
            data: comic_data,
            date_disp: date.to_display_string(),
            date: date.to_src_string(),
            first_comic: String::from_str(FIRST_COMIC),
            previous_comic,
            next_comic,
            disable_left_nav: date.num_days_from_ce() == first_comic.num_days_from_ce(),
            disable_right_nav: date.num_days_from_ce() == latest_comic.num_days_from_ce(),
            permalink: request_url(SRC_BASE_URL, path.as_str()),
            app_url: String::from_str(APP_URL),
            repo_url: String::from_str(REPO_URL),
        },
    )
}

/// The page for a missing comic or an address that leads nowhere.
///
/// # Arguments
/// * `date` - The date of the requested comic, if available. This must be a valid date for
///            which a comic doesn't exist.
pub fn not_found_template(date: Option<&Date>) -> (template: NotFoundTemplate)
    ensures
        is_not_found_page(
            template,
            match date {
                Some(date) => Some(date@),
                None => None,
            },
        ),
{
    let date_str = match date {
        Some(date) => Some(date.to_src_string()),
        None => None,
    };
    NotFoundTemplate { date: date_str, repo_url: String::from_str(REPO_URL) }
}

/// The page for an internal server error.
///
/// # Arguments
/// * `err` - The actual internal server error
pub fn error_template(err: &AppError) -> (template: ErrorTemplate)
    ensures
        is_error_page(template, err@),
{
    ErrorTemplate { error: err.message(), repo_url: String::from_str(REPO_URL) }
}

/// A page to serve, before it is rendered.
#[derive(Clone, Debug, PartialEq, Eq)]
pub enum Page {
    /// The page of a comic
    Comic(ComicTemplate),
    /// The page for a missing comic
    NotFound(NotFoundTemplate),
    /// The page for an internal server error
    Error(ErrorTemplate),
}

impl Page {
    /// The HTTP status to serve the page with.
    pub fn status(&self) -> (status: u16)
        ensures
            status == match self {
                Page::Comic(_) => 200u16,
                Page::NotFound(_) => 404u16,
                Page::Error(_) => 500u16,
            },
    {
        match self {
            Page::Comic(_) => 200,
            Page::NotFound(_) => 404,
            Page::Error(_) => 500,
        }
    }
}

/// The page that answers a request for the comic of `date` that ended in
/// `info`. A comic that was found is shown, with links that stay between
/// the first comic and the latest. A date without a comic gets the page for
/// a missing comic. Anything else gets the page for an error.
pub fn page_for(date: &Date, info: Outcome) -> (page: Page)
    ensures
        match info {
            Outcome::Resolved(resolution) => match parsed_day_number(
                FIRST_COMIC@,
                SRC_DATE_FMT@,
            ) {
                Some(first) => page matches Page::Comic(template) && is_comic_page(
                    template,
                    resolution.shown_date@,
                    resolution.record,
                    first,
                    resolution.frontier_date@,
                ),
                None => page matches Page::Error(template) && template.repo_url@ == REPO_URL@,
            },
            Outcome::NotFound(missing) => page matches Page::NotFound(template)
                && is_not_found_page(template, Some(date@)),
            Outcome::NoLatestComic(latest) => page matches Page::Error(template) && is_error_page(
                template,
                AppErrorView::Internal(no_latest_message(latest@)),
            ),
            Outcome::Failed(err) => if err is NotFound {
                page matches Page::NotFound(template) && is_not_found_page(template, Some(date@))
            } else {
                page matches Page::Error(template) && is_error_page(template, err@)
            },
        },
{
    let resolution = match info.into_result() {
        Ok(resolution) => resolution,
        Err(AppError::NotFound(_)) => {
            return Page::NotFound(not_found_template(Some(date)));
        },
        Err(err) => {
            return Page::Error(error_template(&err));
        },
    };
    match comic_template(&resolution.shown_date, resolution.record, &resolution.frontier_date) {
        Ok(template) => Page::Comic(template),
        Err(err) => Page::Error(error_template(&err)),
    }
}

} // verus!
