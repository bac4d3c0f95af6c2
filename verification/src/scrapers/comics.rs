//! Scraper to get info for requested comics
use vstd::prelude::*;
use vstd::string::*;
use vstd::utf8::*;

use crate::client::{status_class, Response, StatusClass};
use crate::constants::{SRC_COMIC_PREFIX, SRC_DATE_FMT};
use crate::datetime::{formatted_date, Date};
use crate::document::{
    attribute_of_class, bytes_debug_text, count_tags, debug_text, first_attributes_by_class,
    first_text_by_class,
    decimal_i32, decode_entities, document_error_text, entities_decoded, parse_i32, tag_count,
    text_of_class, utf8_text, MAX_NESTING, TOO_LONG,
};
use crate::errors::{AppError, AppErrorView, AppResult};
use crate::scrapers::scraper::{
    fresh_entry, law_fresh_hit_short_circuit, outcome, run, scrapes, stale_entry, Action, Event,
    Scraper, State,
};

verus! {

/// Class of the one element that holds the title of a comic
pub const TITLE_CLASS: &'static str = "comic-title-name";

/// Class of the one tag that holds the image of a comic
pub const IMG_CLASS: &'static str = "img-comic";

/// Attribute of the image tag that holds the width of the image
pub const WIDTH_ATTR: &'static str = "width";

/// Attribute of the image tag that holds the height of the image
pub const HEIGHT_ATTR: &'static str = "height";

/// Attribute of the image tag that holds the URL of the image
pub const SRC_ATTR: &'static str = "src";

/// What is said of a page that opens more tags than a page is searched
/// with
pub const TOO_NESTED: &'static str = "Error in scraping: the page holds too many tags";

/// What is said of a page without an image tag
pub const NO_IMAGE: &'static str = "Error in scraping the image's details";

/// What is said of an image tag without a width that is a number of 1 or
/// more
pub const NO_WIDTH: &'static str = "Error in scraping the image's width";

/// What is said of an image tag without a height that is a number of 1 or
/// more
pub const NO_HEIGHT: &'static str = "Error in scraping the image's height";

/// What is said of an image tag without a URL
pub const NO_URL: &'static str = "Error in scraping the image's URL";

/// What is said of a page that is no text
pub const NOT_UTF8: &'static str = "Response is not UTF-8";

/// What is said of an answer of the source that is neither a page nor a
/// redirect, before the body of the answer
pub const UNEXPECTED: &'static str = "Couldn't scrape comic: ";

/// What is shown of a comic
///
/// The width and the height of an image are positive. A comic that was
/// scraped is held to that; see [`scrape_document`].
#[derive(Clone, Debug, PartialEq, Eq)]
pub struct ComicData {
    /// The title of the comic
    pub title: String,
    /// The URL to the comic image
    pub img_url: String,
    /// The width of the image
    pub img_width: i32,
    /// The height of the image
    pub img_height: i32,
}

/// A comic with each text as the characters it holds.
pub struct ComicDataView {
    pub title: Seq<char>,
    pub img_url: Seq<char>,
    pub img_width: int,
    pub img_height: int,
}

impl View for ComicData {
    type V = ComicDataView;

    open spec fn view(&self) -> ComicDataView {
        ComicDataView {
            title: self.title@,
            img_url: self.img_url@,
            img_width: self.img_width as int,
            img_height: self.img_height as int,
        }
    }
}

/// A scraped comic, or the error in place of it, with each text as the
/// characters it holds.
pub open spec fn scraped_view(scraped: AppResult<ComicData>) -> Result<
    ComicDataView,
    AppErrorView,
> {
    match scraped {
        Ok(data) => Ok(data@),
        Err(err) => Err(err@),
    }
}

/// The path of the comic of the day with day number `days`, below the base
/// URL of the source.
pub open spec fn comic_path_of(days: int) -> Seq<char> {
    SRC_COMIC_PREFIX@ + formatted_date(days, SRC_DATE_FMT@)
}

/// The key under which the comic of the day with day number `days` is
/// cached: the date as the source writes it, as a string of JSON.
pub open spec fn cache_key_of(days: int) -> Seq<char> {
    "\""@ + formatted_date(days, SRC_DATE_FMT@) + "\""@
}

/// What is said of a day for which the source has no comic.
pub open spec fn missing_message(days: int) -> Seq<char> {
    "Comic for "@ + formatted_date(days, SRC_DATE_FMT@) + " not found"@
}

/// The size that `text` writes: a number of 1 or more. A text that writes
/// no number, or writes zero or a number below it, is no size.
pub open spec fn size_of(text: Seq<char>) -> Option<i32> {
    match decimal_i32(text) {
        Some(number) if number >= 1 => Some(number),
        _ => None,
    }
}

/// The size in the attribute `name` of the image tag of `document`. The
/// outer `None` says that the page has no image tag, the inner `None` that
/// the attribute is missing or is no size.
pub open spec fn image_number(document: Seq<char>, name: Seq<char>) -> Option<Option<i32>> {
    match attribute_of_class(document, IMG_CLASS@, name) {
        None => None,
        Some(None) => Some(None),
        Some(Some(text)) => Some(size_of(text)),
    }
}

/// The comic that the page `document` shows. A page of more bytes than the
/// parser takes, or that opens more than [`MAX_NESTING`] tags, shows none.
/// The title is the decoded text of the title element, and empty where there
/// is no such element. The image tag must be there, and must give a width
/// and a height that are numbers of 1 or more and a URL: where one of them
/// fails, the error says which, the first that fails in this order.
pub open spec fn comic_of_document(document: Seq<char>) -> Result<ComicDataView, AppErrorView> {
    if encode_utf8(document).len() > u32::MAX {
        Err(AppErrorView::HtmlParse(TOO_LONG@))
    } else if tag_count(encode_utf8(document)) > MAX_NESTING {
        Err(AppErrorView::Scrape(TOO_NESTED@))
    } else {
        let title = match text_of_class(document, TITLE_CLASS@) {
            Some(text) => entities_decoded(text),
            None => Seq::empty(),
        };
        match image_number(document, WIDTH_ATTR@) {
            None => Err(AppErrorView::Scrape(NO_IMAGE@)),
            Some(None) => Err(AppErrorView::Scrape(NO_WIDTH@)),
            Some(Some(width)) => match image_number(document, HEIGHT_ATTR@) {
                None => Err(AppErrorView::Scrape(NO_IMAGE@)),
                Some(None) => Err(AppErrorView::Scrape(NO_HEIGHT@)),
                Some(Some(height)) => match attribute_of_class(document, IMG_CLASS@, SRC_ATTR@) {
                    None => Err(AppErrorView::Scrape(NO_IMAGE@)),
                    Some(None) => Err(AppErrorView::Scrape(NO_URL@)),
                    Some(Some(url)) => Ok(
                        ComicDataView {
                            title,
                            img_url: url,
                            img_width: width as int,
                            img_height: height as int,
                        },
                    ),
                },
            },
        }
    }
}

/// The comic that the answer of the source shows for the day with day
/// number `days`. A redirect says that there is no comic for the day. A
/// success carries the page of the comic, which must be UTF-8. Any other
/// status is an error that carries the body, written out as a byte string.
pub open spec fn comic_of_response(days: int, status: u16, body: Seq<u8>) -> Result<
    ComicDataView,
    AppErrorView,
> {
    match status_class(status) {
        StatusClass::Redirect => Err(AppErrorView::NotFound(missing_message(days))),
        StatusClass::Unexpected => Err(AppErrorView::Scrape(UNEXPECTED@ + debug_text(body))),
        StatusClass::Success => if valid_utf8(body) {
            comic_of_document(decode_utf8(body))
        } else {
            Err(AppErrorView::Scrape(NOT_UTF8@))
        },
    }
}

/// What the cache holds for a comic, as the scraper is to see it: a comic
/// of the past never changes, so an entry is always fresh.
pub open spec fn cached_comic_of(entry: Option<ComicData>) -> Option<(ComicData, bool)> {
    match entry {
        Some(data) => Some((data, true)),
        None => None,
    }
}

/// A resolved comic as its callers see it: that the source has no comic for
/// the day is no error to them, but an absence.
pub open spec fn found_or_missing_of(resolved: AppResult<ComicData>) -> AppResult<
    Option<ComicData>,
> {
    match resolved {
        Ok(data) => Ok(Some(data)),
        Err(AppError::NotFound(_)) => Ok(None),
        Err(err) => Err(err),
    }
}

/// The path of the comic of `date`, below the base URL of the source.
pub fn comic_path(date: &Date) -> (path: String)
    ensures
        path@ == comic_path_of(date@),
{
    let day = date.to_src_string();
    String::from_str(SRC_COMIC_PREFIX).concat(day.as_str())
}

/// The key under which the comic of `date` is cached.
pub fn cache_key(date: &Date) -> (key: String)
    ensures
        key@ == cache_key_of(date@),
{
    let day = date.to_src_string();
    String::from_str("\"").concat(day.as_str()).concat("\"")
}

/// The error for a page without what `message` names.
fn scrape_error(message: &str) -> (err: AppError)
    ensures
        err@ == AppErrorView::Scrape(message@),
{
    AppError::Scrape(String::from_str(message))
}

/// The error for a page that the parser refused.
fn parse_error(err: &tl::ParseError) -> (failure: AppError)
    ensures
        failure@ == AppErrorView::HtmlParse(TOO_LONG@),
{
    AppError::HtmlParse(document_error_text(err))
}

/// The size that an attribute holds, if there is the attribute and it holds
/// a number of 1 or more.
fn read_size(attribute: Option<String>) -> (size: Option<i32>)
    ensures
        size == match attribute {
            Some(text) => size_of(text@),
            None => None,
        },
        size matches Some(number) ==> number >= 1,
{
    match attribute {
        Some(text) => match parse_i32(text.as_str()) {
            Some(number) if number >= 1 => Some(number),
            _ => None,
        },
        None => None,
    }
}

/// A comic that a page shows has an image of a positive width and height.
pub proof fn law_scraped_sizes_are_positive(document: Seq<char>)
    ensures
        comic_of_document(document) matches Ok(comic) ==> comic.img_width >= 1 && comic.img_height
            >= 1,
{
}

/// Read the comic out of the page `content`.
pub fn scrape_document(content: &str) -> (scraped: AppResult<ComicData>)
    ensures
        scraped_view(scraped) == comic_of_document(content@),
        scraped matches Ok(comic) ==> comic.img_width > 0 && comic.img_height > 0,
{
    // The image element is the only tag with the class "img-comic"
    let image = match first_attributes_by_class(
        content,
        IMG_CLASS,
        WIDTH_ATTR,
        HEIGHT_ATTR,
        SRC_ATTR,
    ) {
        Err(err) => {
            return Err(parse_error(&err));
        },
        Ok(image) => image,
    };

    // Gathering the title goes as deep down the stack as the page nests, so a page that could
    // nest too deep is turned away.
    if count_tags(content) > MAX_NESTING {
        return Err(scrape_error(TOO_NESTED));
    }

    // The title element is the only tag with the class "comic-title-name"
    let title = match first_text_by_class(content, TITLE_CLASS) {
        Err(err) => {
            return Err(parse_error(&err));
        },
        Ok(Some(text)) => decode_entities(text.as_str()),
        // Some comics don't have a title. This is mostly for older comics.
        Ok(None) => String::new(),
    };

    let (width, height, src) = match image {
        Some(attrs) => attrs,
        None => {
            return Err(scrape_error(NO_IMAGE));
        },
    };

    // The image width is the "width" attribute of the image element
    let img_width = match read_size(width) {
        Some(width) => width,
        None => {
            return Err(scrape_error(NO_WIDTH));
        },
    };

    // The image height is the "height" attribute of the image element
    let img_height = match read_size(height) {
        Some(height) => height,
        None => {
            return Err(scrape_error(NO_HEIGHT));
        },
    };

    // The image URL is the "src" attribute of the image element
    let img_url = match src {
        Some(url) => url,
        None => {
            return Err(scrape_error(NO_URL));
        },
    };

    Ok(ComicData { title, img_url, img_width, img_height })
}

/// Read the comic of `date` out of the answer that the source gave to a
/// request for [`comic_path`] of that date.
pub fn scrape_response(date: &Date, response: &Response) -> (scraped: AppResult<ComicData>)
    ensures
        scraped_view(scraped) == comic_of_response(date@, response.status, response.body@),
        scraped matches Ok(comic) ==> comic.img_width > 0 && comic.img_height > 0,
{
    match response.class() {
        StatusClass::Redirect => {
            // Redirected to homepage, implying that there's no comic for this date
            let day = date.to_src_string();
            let message = String::from_str("Comic for ").concat(day.as_str()).concat(" not found");
            Err(AppError::NotFound(message))
        },
        StatusClass::Unexpected => {
            let body = bytes_debug_text(response.body.as_slice());
            Err(AppError::Scrape(String::from_str(UNEXPECTED).concat(body.as_str())))
        },
        StatusClass::Success => match utf8_text(response.body.as_slice()) {
            Err(_) => Err(scrape_error(NOT_UTF8)),
            Ok(content) => {
                proof {
                    encode_utf8_decode_utf8(content@);
                }
                scrape_document(content)
            },
        },
    }
}

/// What the cache holds for a comic, as the scraper is to see it.
pub fn cached_comic(entry: Option<ComicData>) -> (cached: Option<(ComicData, bool)>)
    ensures
        cached == cached_comic_of(entry),
{
    match entry {
        // Entry should always be fresh.
        Some(data) => Some((data, true)),
        None => None,
    }
}

/// A resolved comic as its callers see it.
pub fn found_or_missing(resolved: AppResult<ComicData>) -> (comic: AppResult<Option<ComicData>>)
    ensures
        comic == found_or_missing_of(resolved),
{
    match resolved {
        Ok(comic_data) => Ok(Some(comic_data)),
        Err(AppError::NotFound(_)) => Ok(None),
        Err(err) => Err(err),
    }
}

/// Redirect semantics: where the source answers the request for a comic
/// with a redirect, the comic resolves to an absence and never to an error;
/// to a cached comic, that is, where the cache holds one, and to `None`
/// where it holds none.
pub proof fn law_redirect_is_absence(
    date: Date,
    status: u16,
    body: Seq<u8>,
    cached: AppResult<Option<(ComicData, bool)>>,
    scraped: AppResult<ComicData>,
)
    requires
        status_class(status) == StatusClass::Redirect,
        scraped_view(scraped) == comic_of_response(date@, status, body),
    ensures
        found_or_missing_of(outcome(cached, scraped)) is Ok,
        fresh_entry(cached) is None && stale_entry(cached) is None ==> found_or_missing_of(
            outcome(cached, scraped),
        ) == Ok::<Option<ComicData>, AppError>(None),
{
}

/// A comic that the cache holds is served as it is, and the source is not
/// asked: read back from the cache, the comic is a fresh entry, so the
/// resolution is over at its first step, returns the comic, and asks for
/// nothing; and its callers get that comic.
pub proof fn law_cached_comic_needs_no_source(comic: ComicData)
    ensures
        cached_comic_of(Some(comic)) == Some((comic, true)),
        run(State::<ComicData>::Lookup, seq![Event::CacheRead(Ok(cached_comic_of(Some(comic))))])
            == Some((State::<ComicData>::Done, seq![Action::<ComicData>::Return(Ok(comic))])),
        scrapes(seq![Action::<ComicData>::Return(Ok(comic))]) == 0,
        forall|scraped: AppResult<ComicData>|
            found_or_missing_of(#[trigger] outcome(Ok(cached_comic_of(Some(comic))), scraped))
                == Ok::<Option<ComicData>, AppError>(Some(comic)),
{
    let events = seq![Event::<ComicData>::CacheRead(Ok(cached_comic_of(Some(comic))))];
    assert(events.skip(1).len() == 0);
    assert(run(State::<ComicData>::Done, events.skip(1)) is Some);
    assert(run(State::<ComicData>::Lookup, events) is Some);
    law_fresh_hit_short_circuit(comic, events);
}

/// Struct for a comic scraper
///
/// This scraper takes a date as input and returns the info about the comic.
/// `S` reads and writes the cache and asks the source.
pub struct ComicScraper<S: Scraper<ComicData, Date>> {
    inner: S,
}

impl<S: Scraper<ComicData, Date>> ComicScraper<S> {
    /// What reads and writes the cache and asks the source.
    pub closed spec fn inner(&self) -> &S {
        &self.inner
    }

    /// Initialize a comics scraper.
    pub fn new(inner: S) -> (scraper: Self)
        ensures
            *scraper.inner() == inner,
    {
        Self { inner }
    }

    /// Retrieve the data for the requested comic.
    ///
    /// # Arguments
    /// * `date` - The date of the requested comic
    pub fn get_comic_data(&self, date: &Date) -> (comic: AppResult<Option<ComicData>>)
        ensures
            exists|resolved: AppResult<ComicData>| #[trigger]
                call_ensures(S::get_data, (self.inner(), date), resolved) && comic
                    == found_or_missing_of(resolved),
    {
        found_or_missing(self.inner.get_data(date))
    }
}

} // verus!
