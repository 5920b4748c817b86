//! URL discovery: the request and how its answer is read.
use crate::error::{FirecrawlAPIError, FirecrawlError};
use vstd::prelude::*;
use vstd::string::StringExecFns;

verus! {

/// How URLs are discovered.
#[derive(Clone, Debug, PartialEq, Eq, Default)]
pub struct MapOptions {
    /// Only URLs matching this term.
    pub search: Option<String>,
    pub ignore_sitemap: Option<bool>,
    pub sitemap_only: Option<bool>,
    pub include_subdomains: Option<bool>,
    /// At most this many URLs.
    pub limit: Option<u32>,
    /// Milliseconds before the service gives up.
    pub timeout: Option<u32>,
}

impl MapOptions {
    pub open spec fn is_unset(self) -> bool {
        &&& self.search is None
        &&& self.ignore_sitemap is None
        &&& self.sitemap_only is None
        &&& self.include_subdomains is None
        &&& self.limit is None
        &&& self.timeout is None
    }
}

/// The body of a map request.
#[derive(Clone, Debug, PartialEq, Eq)]
pub struct MapRequestBody {
    pub url: String,
    pub options: MapOptions,
}

impl MapRequestBody {
    /// The request for `url`, with the given options or none.
    pub fn new(url: String, options: Option<MapOptions>) -> (r: MapRequestBody)
        ensures
            r.url == url,
            match options {
                Some(o) => r.options == o,
                None => r.options.is_unset(),
            },
    {
        let options = match options {
            Some(o) => o,
            None => MapOptions {
                search: None,
                ignore_sitemap: None,
                sitemap_only: None,
                include_subdomains: None,
                limit: None,
                timeout: None,
            },
        };
        MapRequestBody { url, options }
    }
}

/// A map as a tool caller asks for it.
#[derive(Clone, Debug, PartialEq, Eq)]
pub struct MapUrlInput {
    pub url: String,
    pub options: MapOptions,
}

/// The service's answer to a map request.
#[derive(Clone, Debug, PartialEq, Eq)]
pub struct MapResponse {
    pub success: Option<bool>,
    pub links: Option<Vec<String>>,
    pub error: Option<String>,
}

impl MapResponse {
    /// The links found, none where the answer lists none; an answer that
    /// reports failure is an API error carrying the service's message.
    pub fn into_links(self) -> (r: Result<Vec<String>, FirecrawlError>)
        ensures
            self.success == Some(false) <==> r is Err,
            r matches Ok(links) ==> links@ == match self.links {
                Some(l) => l@,
                None => Seq::empty(),
            },
            r matches Err(e) ==> e matches FirecrawlError::APIError(action, body) && action@
                == "map request failed"@ && body.details is None && body.error@ == match self.error {
                Some(m) => m@,
                None => Seq::empty(),
            },
    {
        if let Some(false) = self.success {
            let message = match self.error {
                Some(m) => m,
                None => String::new(),
            };
            return Err(
                FirecrawlError::APIError(
                    String::from_str("map request failed"),
                    FirecrawlAPIError { error: message, details: None },
                ),
            );
        }
        match self.links {
            Some(l) => Ok(l),
            None => Ok(Vec::new()),
        }
    }
}

} // verus!
