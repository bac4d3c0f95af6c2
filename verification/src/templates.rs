//! Contains structs for HTML templates
//!
//! A template holds what a page shows. Rendering it is left to the caller.
use vstd::prelude::*;

use crate::scrapers::comics::ComicData;

verus! {

/// The main template for a comic
#[derive(Clone, Debug, PartialEq, Eq)]
pub struct ComicTemplate {
    /// The scraped comic data
    pub data: ComicData,
    /// The date of the comic, formatted for display
    pub date_disp: String,
    // All date formats should conform to the format given by `crate::constants::SRC_DATE_FMT`.
    /// The date of the comic
    pub date: String,
    /// The date of the first comic
    pub first_comic: String,
    /// The date of the previous comic, if available
    pub previous_comic: String,
    /// The date of the next comic, if available
    pub next_comic: String,
    /// Whether to disable navigation to previous comics
    pub disable_left_nav: bool,
    /// Whether to disable navigation to next comics
    pub disable_right_nav: bool,
    /// Link to the comic at the source
    pub permalink: String,
    /// Link to the app where this code is deployed
    pub app_url: String,
    /// Link to the repo where this code is hosted
    pub repo_url: String,
}

/// The template for a 404 not found page
#[derive(Clone, Debug, PartialEq, Eq)]
pub struct NotFoundTemplate {
    /// The date of the requested comic, if available
    pub date: Option<String>,
    /// Link to the repo where this code is hosted
    pub repo_url: String,
}

/// The template for a 500 internal server error page
#[derive(Clone, Debug, PartialEq, Eq)]
pub struct ErrorTemplate {
    /// The error message of the internal server error
    pub error: String,
    /// Link to the repo where this code is hosted
    pub repo_url: String,
}

} // verus!
