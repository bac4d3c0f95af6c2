//! Custom error definitions
use vstd::prelude::*;
use vstd::string::*;

verus! {

/// Errors of the HTTP client, each with the text of what the client reported
#[derive(Clone, Debug, PartialEq, Eq)]
pub enum HttpError {
    /// Error sending a request
    SendRequest(String),
    /// Error processing the response payload
    Payload(String),
}

/// Errors in minifying, each with the text of what the minifier reported
#[derive(Clone, Debug, PartialEq, Eq)]
pub enum MinificationError {
    /// Error minifying HTML
    Html(String),
    /// Error minifying CSS
    Css(String),
}

/// All errors raised by the viewer app
///
/// An error that began in another crate is held as the text of what that
/// crate reported.
#[derive(Clone, Debug, PartialEq, Eq)]
pub enum AppError {
    /// Errors when acquiring a connection from the DB pool
    Pool(String),
    /// Errors when executing a DB query
    Db(String),
    /// Errors when serializing/deserializing a DB query argument/result
    Serde(String),
    /// Errors when building an HTTP client, or when making HTTP requests
    Http(HttpError),
    /// Errors in parsing dates
    DateParse(String),
    /// Errors in HTML parsing
    HtmlParse(String),
    /// Errors in building HTML templates
    Template(String),
    /// Errors in parsing UTF-8 from files
    Utf8(String),
    /// Errors in minifying HTML/CSS
    Minify(MinificationError),
    /// Miscellaneous internal errors
    Internal(String),
    /// Errors in scraping info from the source
    Scrape(String),
    /// Errors when no comic exists for a given date
    NotFound(String),
}

/// Convenient alias for results with viewer app errors
pub type AppResult<T> = Result<T, AppError>;

/// What an [`HttpError`] says, with each text as the characters it holds.
pub enum HttpErrorView {
    SendRequest(Seq<char>),
    Payload(Seq<char>),
}

/// What a [`MinificationError`] says, with each text as the characters it holds.
pub enum MinificationErrorView {
    Html(Seq<char>),
    Css(Seq<char>),
}

/// What an [`AppError`] says, with each text as the characters it holds.
pub enum AppErrorView {
    Pool(Seq<char>),
    Db(Seq<char>),
    Serde(Seq<char>),
    Http(HttpErrorView),
    DateParse(Seq<char>),
    HtmlParse(Seq<char>),
    Template(Seq<char>),
    Utf8(Seq<char>),
    Minify(MinificationErrorView),
    Internal(Seq<char>),
    Scrape(Seq<char>),
    NotFound(Seq<char>),
}

impl View for HttpError {
    type V = HttpErrorView;

    open spec fn view(&self) -> HttpErrorView {
        match *self {
            HttpError::SendRequest(text) => HttpErrorView::SendRequest(text@),
            HttpError::Payload(text) => HttpErrorView::Payload(text@),
        }
    }
}

impl View for MinificationError {
    type V = MinificationErrorView;

    open spec fn view(&self) -> MinificationErrorView {
        match *self {
            MinificationError::Html(text) => MinificationErrorView::Html(text@),
            MinificationError::Css(text) => MinificationErrorView::Css(text@),
        }
    }
}

impl View for AppError {
    type V = AppErrorView;

    open spec fn view(&self) -> AppErrorView {
        match *self {
            AppError::Pool(text) => AppErrorView::Pool(text@),
            AppError::Db(text) => AppErrorView::Db(text@),
            AppError::Serde(text) => AppErrorView::Serde(text@),
            AppError::Http(err) => AppErrorView::Http(err@),
            AppError::DateParse(text) => AppErrorView::DateParse(text@),
            AppError::HtmlParse(text) => AppErrorView::HtmlParse(text@),
            AppError::Template(text) => AppErrorView::Template(text@),
            AppError::Utf8(text) => AppErrorView::Utf8(text@),
            AppError::Minify(err) => AppErrorView::Minify(err@),
            AppError::Internal(text) => AppErrorView::Internal(text@),
            AppError::Scrape(text) => AppErrorView::Scrape(text@),
            AppError::NotFound(text) => AppErrorView::NotFound(text@),
        }
    }
}

impl HttpErrorView {
    /// The text that describes the error.
    pub open spec fn message(self) -> Seq<char> {
        match self {
            HttpErrorView::SendRequest(text) => "Error sending request: "@ + text,
            HttpErrorView::Payload(text) => "Error parsing payload: "@ + text,
        }
    }
}

impl MinificationErrorView {
    /// The text that describes the error.
    pub open spec fn message(self) -> Seq<char> {
        match self {
            MinificationErrorView::Html(text) => "Error minifying HTML: "@ + text,
            MinificationErrorView::Css(text) => "Error minifying CSS: "@ + text,
        }
    }
}

impl AppErrorView {
    /// The text that describes the error.
    pub open spec fn message(self) -> Seq<char> {
        match self {
            AppErrorView::Pool(text) => "Error acquiring DB connection: "@ + text,
            AppErrorView::Db(text) => "Database error: "@ + text,
            AppErrorView::Serde(text) => "(De)serialization error: "@ + text,
            AppErrorView::Http(err) => "HTTP client error: "@ + err.message(),
            AppErrorView::DateParse(text) => "Error parsing date: "@ + text,
            AppErrorView::HtmlParse(text) => "HTML parse error: "@ + text,
            AppErrorView::Template(text) => "Error building HTML template: "@ + text,
            AppErrorView::Utf8(text) => "Error parsing UTF-8: "@ + text,
            AppErrorView::Minify(err) => "Minification error: "@ + err.message(),
            AppErrorView::Internal(text) => "Internal error: "@ + text,
            AppErrorView::Scrape(text) => "Scraping error: "@ + text,
            AppErrorView::NotFound(text) => text,
        }
    }
}

/// `prefix` followed by `text`.
fn prefixed(prefix: &str, text: &str) -> (joined: String)
    ensures
        joined@ == prefix@ + text@,
{
    String::from_str(prefix).concat(text)
}

impl HttpError {
    /// The text that describes the error.
    pub fn message(&self) -> (text: String)
        ensures
            text@ == self@.message(),
    {
        match self {
            HttpError::SendRequest(text) => prefixed("Error sending request: ", text.as_str()),
            HttpError::Payload(text) => prefixed("Error parsing payload: ", text.as_str()),
        }
    }
}

impl MinificationError {
    /// The text that describes the error.
    pub fn message(&self) -> (text: String)
        ensures
            text@ == self@.message(),
    {
        match self {
            MinificationError::Html(text) => prefixed("Error minifying HTML: ", text.as_str()),
            MinificationError::Css(text) => prefixed("Error minifying CSS: ", text.as_str()),
        }
    }
}

impl AppError {
    /// The text that describes the error.
    pub fn message(&self) -> (text: String)
        ensures
            text@ == self@.message(),
    {
        match self {
            AppError::Pool(text) => prefixed("Error acquiring DB connection: ", text.as_str()),
            AppError::Db(text) => prefixed("Database error: ", text.as_str()),
            AppError::Serde(text) => prefixed("(De)serialization error: ", text.as_str()),
            AppError::Http(err) => {
                let inner = err.message();
                prefixed("HTTP client error: ", inner.as_str())
            },
            AppError::DateParse(text) => prefixed("Error parsing date: ", text.as_str()),
            AppError::HtmlParse(text) => prefixed("HTML parse error: ", text.as_str()),
            AppError::Template(text) => prefixed("Error building HTML template: ", text.as_str()),
            AppError::Utf8(text) => prefixed("Error parsing UTF-8: ", text.as_str()),
            AppError::Minify(err) => {
                let inner = err.message();
                prefixed("Minification error: ", inner.as_str())
            },
            AppError::Internal(text) => prefixed("Internal error: ", text.as_str()),
            AppError::Scrape(text) => prefixed("Scraping error: ", text.as_str()),
            AppError::NotFound(text) => text.clone(),
        }
    }
}

} // verus!
