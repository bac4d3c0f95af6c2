//! The scrapers: the rule by which data is taken from the cache or from the
//! source, and the two kinds of data that are resolved by it.
pub mod comics;
pub mod latest;
pub mod scraper;
