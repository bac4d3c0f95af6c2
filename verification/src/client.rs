//! What a request to the source comes back with, as far as the scrapers
//! read it.
use vstd::prelude::*;
use vstd::string::*;

verus! {

/// The answer of the source to one request. Redirects are not followed, so
/// the status is the one that the source itself gave.
#[derive(Clone, Debug, PartialEq, Eq)]
pub struct Response {
    /// The HTTP status code
    pub status: u16,
    /// The bytes of the body
    pub body: Vec<u8>,
}

/// What a status code says to a scraper.
#[derive(Clone, Copy, Debug, PartialEq, Eq, Structural)]
pub enum StatusClass {
    /// The source has what was asked for.
    Success,
    /// The source points elsewhere: it has nothing for what was asked for.
    Redirect,
    /// Anything else.
    Unexpected,
}

/// The class of the status code `status`: 200 to 299 is a success, 300 to
/// 399 a redirect.
pub open spec fn status_class(status: u16) -> StatusClass {
    if 200 <= status < 300 {
        StatusClass::Success
    } else if 300 <= status < 400 {
        StatusClass::Redirect
    } else {
        StatusClass::Unexpected
    }
}

/// The address of `path` below the base URL `base_url`.
pub fn request_url(base_url: &str, path: &str) -> (url: String)
    ensures
        url@ == base_url@ + "/"@ + path@,
{
    String::from_str(base_url).concat("/").concat(path)
}

impl Response {
    /// The class of the status of the response.
    pub fn class(&self) -> (class: StatusClass)
        ensures
            class == status_class(self.status),
    {
        if 200 <= self.status && self.status < 300 {
            StatusClass::Success
        } else if 300 <= self.status && self.status < 400 {
            StatusClass::Redirect
        } else {
            StatusClass::Unexpected
        }
    }
}

} // verus!
