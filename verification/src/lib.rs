//! Address construction and page extraction for the yandanshe.com manga catalogue.
//!
//! The crate turns a reader's filter selection into the site's listing
//! addresses and turns the text scraped from a fetched page into catalogue
//! entries, manga details, chapters and pages. Fetching and HTML querying are
//! left to the caller; every function here works on plain values.

pub mod chapter;
pub mod deep_link;
pub mod detail;
pub mod error;
pub mod filter;
pub mod listing;
pub mod manga;
pub mod page;
pub mod pattern;
pub mod query;
pub mod selector;
pub mod setting;
pub mod text;
pub mod translate;
pub mod url;
