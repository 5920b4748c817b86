//! Client-side logic for a remote web-scraping service: request planning,
//! response classification, the poll-and-paginate engine for long-running
//! jobs, and the text formatting used by the tool facade.

pub mod batch_scrape;
pub mod client;
pub mod crawl;
pub mod document;
pub mod engine;
pub mod error;
pub mod json;
pub mod map;
pub mod scrape;
pub mod search;
pub mod status;
pub mod tools;
