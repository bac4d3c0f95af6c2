//! A viewer for a daily comic strip: it resolves a date to the comic of that
//! day, serving from a cache where it can and scraping the source where it
//! must, and keeps track of the latest date for which a comic exists.
//!
//! The library holds the rules: when a cache entry is served, when the
//! source is asked, what a page of the source says, and how a request is
//! answered. It reads no cache and sends no request. Its callers do both
//! and hand the outcomes to the functions here, either through the
//! [`scrapers::scraper::Scraper`] trait or step by step.
pub mod client;
pub mod constants;
pub mod datetime;
pub mod document;
pub mod errors;
pub mod handlers;
pub mod minify;
pub mod pages;
pub mod scrapers;
pub mod templates;
pub mod viewer;
