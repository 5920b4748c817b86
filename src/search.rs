//! Web search: the request and how its answer is read.
use crate::error::{FirecrawlAPIError, FirecrawlError};
use crate::scrape::ScrapeOptions;
use vstd::prelude::*;
use vstd::string::StringExecFns;

verus! {

/// One search hit.
#[derive(Clone, Debug, PartialEq, Eq)]
pub struct SearchResult {
    pub url: String,
    pub title: String,
    pub description: String,
}

/// Location to search from.
#[derive(Clone, Debug, PartialEq, Eq, Default)]
pub struct LocationOptions {
    pub country: Option<String>,
    pub languages: Option<Vec<String>>,
}

/// How a search is run.
#[derive(Clone, Debug, PartialEq, Eq, Default)]
pub struct SearchOptions {
    pub limit: Option<u32>,
    pub lang: Option<String>,
    pub country: Option<String>,
    /// Time-based filter.
    pub tbs: Option<String>,
    pub filter: Option<String>,
    pub location: Option<LocationOptions>,
    /// Where given, each hit is also scraped with these options.
    pub scrape_options: Option<ScrapeOptions>,
    pub max_results: Option<usize>,
}

impl SearchOptions {
    pub open spec fn is_unset(self) -> bool {
        &&& self.limit is None
        &&& self.lang is None
        &&& self.country is None
        &&& self.tbs is None
        &&& self.filter is None
        &&& self.location is None
        &&& self.scrape_options is None
        &&& self.max_results is None
    }
}

/// The body of a search request.
#[derive(Clone, Debug, PartialEq, Eq)]
pub struct SearchRequestBody {
    pub query: String,
    pub options: SearchOptions,
}

impl SearchRequestBody {
    /// The request for `query`, with the given options or none.
    pub fn new(query: String, options: Option<SearchOptions>) -> (r: SearchRequestBody)
        ensures
            r.query == query,
            match options {
                Some(o) => r.options == o,
                None => r.options.is_unset(),
            },
    {
        let options = match options {
            Some(o) => o,
            None => SearchOptions {
                limit: None,
                lang: None,
                country: None,
                tbs: None,
                filter: None,
                location: None,
                scrape_options: None,
                max_results: None,
            },
        };
        SearchRequestBody { query, options }
    }
}

/// A search as a tool caller asks for it.
#[derive(Clone, Debug, PartialEq, Eq)]
pub struct SearchInput {
    pub query: String,
    pub options: SearchOptions,
}

/// The service's answer to a search.
#[derive(Clone, Debug, PartialEq, Eq)]
pub struct SearchResponse {
    pub success: bool,
    pub data: Option<Vec<SearchResult>>,
    pub error: Option<String>,
}

impl SearchResponse {
    /// The hits, none where the answer lists none; an answer that reports
    /// failure is an API error carrying the service's message.
    pub fn into_results(self) -> (r: Result<Vec<SearchResult>, FirecrawlError>)
        ensures
            !self.success <==> r is Err,
            r matches Ok(hits) ==> hits@ == match self.data {
                Some(d) => d@,
                None => Seq::empty(),
            },
            r matches Err(e) ==> e matches FirecrawlError::APIError(action, body) && action@
                == "search request failed"@ && body.details is None && body.error@ == match self.error {
                Some(m) => m@,
                None => Seq::empty(),
            },
    {
        if !self.success {
            let message = match self.error {
                Some(m) => m,
                None => String::new(),
            };
            return Err(
                FirecrawlError::APIError(
                    String::from_str("search request failed"),
                    FirecrawlAPIError { error: message, details: None },
                ),
            );
        }
        match self.data {
            Some(d) => Ok(d),
            None => Ok(Vec::new()),
        }
    }
}

} // verus!
