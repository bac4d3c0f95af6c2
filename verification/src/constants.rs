//! All constants used by the viewer
use vstd::prelude::*;

verus! {

// ==================================================
// Date formats
// ==================================================
/// Date of the first ever comic
pub const FIRST_COMIC: &'static str = "1989-04-16";

/// Date of the last available comic
pub const LAST_COMIC: &'static str = "2023-03-09";

/// Date format used for URLs on the source
pub const SRC_DATE_FMT: &'static str = "%Y-%m-%d";

/// Date format used for display with the comic
pub const DISP_DATE_FMT: &'static str = "%A %B %d, %Y";

// ==================================================
// Parameters for scraping from the source
// ==================================================
/// Timeout (in seconds) for getting a response
pub const RESP_TIMEOUT: u64 = 10;

/// Number of hours for which a stored latest date counts as fresh
pub const LATEST_DATE_REFRESH: i64 = 2;

// ==================================================
// Parameters for caching to the database
// ==================================================
/// Limit for connections to the cache database
pub const MAX_DB_CONN: usize = 19;

/// Timeout (in seconds) for a single database operation
pub const DB_TIMEOUT: u64 = 3;

// ==================================================
// Miscellaneous
// ==================================================
/// Base URL of the source
pub const SRC_BASE_URL: &'static str = "https://web.archive.org/web/https://dilbert.com";

/// URL path prefix for each comic on the source
pub const SRC_COMIC_PREFIX: &'static str = "strip/";

/// Link to the public version of this app
pub const APP_URL: &'static str = "https://dilbert-viewer.herokuapp.com/";

/// Link to the public version of the repository
pub const REPO_URL: &'static str = "https://github.com/rharish101/dilbert-viewer";

/// URL path for static files
pub const STATIC_URL: &'static str = "/";

/// Location of static files
pub const STATIC_DIR: &'static str = "static/";

/// Content security policy
pub const CSP: &'static str = "default-src 'none';img-src assets.amuniversal.com dilbert.com web.archive.org;style-src 'self' cdn.jsdelivr.net";

} // verus!
