//! The client's configuration and what it decides about each request: the
//! URL it goes to, its headers, and how its response turns into a result.
//! Sending the request is left to whoever holds the HTTP connection.
use crate::error::{FirecrawlAPIError, FirecrawlError};
use vstd::prelude::*;
use vstd::string::StringExecFns;

verus! {

/// The public cloud service.
pub const CLOUD_API_URL: &'static str = "https://api.firecrawl.dev";

/// The kinds of long-running job.
#[derive(Clone, Copy, Debug, PartialEq, Eq, Structural)]
pub enum JobKind {
    Crawl,
    BatchScrape,
}

impl JobKind {
    /// The endpoint path jobs of this kind are submitted to.
    pub open spec fn path_spec(self) -> Seq<char> {
        match self {
            JobKind::Crawl => "crawl"@,
            JobKind::BatchScrape => "batch/scrape"@,
        }
    }

    /// Whether the service can report a job of this kind as cancelled.
    pub fn has_cancelled_state(self) -> (r: bool)
        ensures
            r == (self == JobKind::Crawl),
    {
        match self {
            JobKind::Crawl => true,
            JobKind::BatchScrape => false,
        }
    }
}

/// The full URL of an endpoint path under a base URL.
pub open spec fn endpoint_spec(base: Seq<char>, path: Seq<char>) -> Seq<char> {
    base + "/v1/"@ + path
}

/// The URL of a status check: by job identifier, or with a cursor. A crawl's
/// cursor is itself the URL of the next page; a batch's goes as a query
/// parameter.
pub open spec fn status_url_spec(
    base: Seq<char>,
    kind: JobKind,
    id: Seq<char>,
    cursor: Option<Seq<char>>,
) -> Seq<char> {
    let by_id = endpoint_spec(base, kind.path_spec()) + "/"@ + id;
    match cursor {
        None => by_id,
        Some(c) => match kind {
            JobKind::Crawl => c,
            JobKind::BatchScrape => by_id + "?cursor="@ + c,
        },
    }
}

/// A header as a (name, value) pair of strings.
pub open spec fn header_views(h: Seq<(String, String)>) -> Seq<(Seq<char>, Seq<char>)> {
    h.map_values(|p: (String, String)| (p.0@, p.1@))
}

/// The headers of a request: the JSON content type, the bearer token where a
/// key is configured, and the idempotency key where one is given.
pub open spec fn headers_spec(api_key: Option<Seq<char>>, idempotency_key: Option<Seq<char>>) -> Seq<
    (Seq<char>, Seq<char>),
> {
    let base = seq![("Content-Type"@, "application/json"@)];
    let with_auth = match api_key {
        Some(k) => base.push(("Authorization"@, "Bearer "@ + k)),
        None => base,
    };
    match idempotency_key {
        Some(i) => with_auth.push(("x-idempotency-key"@, i)),
        None => with_auth,
    }
}

/// Where the service lives and the key to use with it.
#[derive(Clone, Debug)]
pub struct FirecrawlApp {
    api_key: Option<String>,
    api_url: String,
}

/// The body of a response, as far as it could be read.
pub enum ResponseBody<T> {
    /// The body had the shape that was asked for.
    Expected(T),
    /// The body was a structured API error.
    ApiError(FirecrawlAPIError),
    /// The body could not be read: because it did not decode
    /// (`decode_error`), or because the transfer failed.
    Unreadable { decode_error: bool, message: String },
}

/// Whether an HTTP status code is in the success class.
pub open spec fn is_success_spec(status: u16) -> bool {
    200 <= status < 300
}

/// What a response means. On a success status the expected body is the
/// result, and any other body is a protocol error. On any other status a
/// structured error body is an API error, and anything else a failed request.
pub open spec fn response_result_spec<T>(
    action: String,
    status: u16,
    status_text: String,
    body: ResponseBody<T>,
) -> Result<T, FirecrawlError> {
    if is_success_spec(status) {
        match body {
            ResponseBody::Expected(t) => Ok(t),
            ResponseBody::ApiError(e) => Err(FirecrawlError::ResponseParseError(e.error)),
            ResponseBody::Unreadable { decode_error, message } => if decode_error {
                Err(FirecrawlError::ResponseParseError(message))
            } else {
                Err(FirecrawlError::HttpError(action, message))
            },
        }
    } else {
        match body {
            ResponseBody::ApiError(e) => Err(FirecrawlError::APIError(action, e)),
            _ => Err(FirecrawlError::HttpRequestFailed(action, status, status_text)),
        }
    }
}

/// Whether an HTTP status code is in the success class.
pub fn is_success_status(status: u16) -> (r: bool)
    ensures
        r == is_success_spec(status),
{
    200 <= status && status < 300
}

/// Turns a response into the result of the request made for `action`.
pub fn handle_response<T>(action: String, status: u16, status_text: String, body: ResponseBody<T>) -> (r:
    Result<T, FirecrawlError>)
    ensures
        r == response_result_spec(action, status, status_text, body),
{
    if is_success_status(status) {
        match body {
            ResponseBody::Expected(t) => Ok(t),
            ResponseBody::ApiError(e) => Err(FirecrawlError::ResponseParseError(e.error)),
            ResponseBody::Unreadable { decode_error, message } => {
                if decode_error {
                    Err(FirecrawlError::ResponseParseError(message))
                } else {
                    Err(FirecrawlError::HttpError(action, message))
                }
            },
        }
    } else {
        match body {
            ResponseBody::ApiError(e) => Err(FirecrawlError::APIError(action, e)),
            _ => Err(FirecrawlError::HttpRequestFailed(action, status, status_text)),
        }
    }
}

impl FirecrawlApp {
    pub closed spec fn api_key_spec(&self) -> Option<Seq<char>> {
        match self.api_key {
            Some(k) => Some(k@),
            None => None,
        }
    }

    pub closed spec fn api_url_spec(&self) -> Seq<char> {
        self.api_url@
    }

    /// A client of the cloud service with the given key.
    pub fn new(api_key: &str) -> (r: Result<FirecrawlApp, FirecrawlError>)
        ensures
            r matches Ok(app) && app.api_url_spec() == CLOUD_API_URL@ && app.api_key_spec() == Some(
                api_key@,
            ),
    {
        FirecrawlApp::new_selfhosted(CLOUD_API_URL, Some(api_key))
    }

    /// A client of the service at `api_url`. The cloud service cannot be used
    /// without a key: asking for it without one is a configuration error.
    pub fn new_selfhosted(api_url: &str, api_key: Option<&str>) -> (r: Result<
        FirecrawlApp,
        FirecrawlError,
    >)
        ensures
            (api_url@ == CLOUD_API_URL@ && api_key is None) <==> r is Err,
            r matches Err(e) ==> e matches FirecrawlError::APIError(action, body) && action@
                == "Configuration"@ && body.error@ == "API key is required for cloud service"@
                && body.details is None,
            r matches Ok(app) ==> app.api_url_spec() == api_url@ && app.api_key_spec() == match api_key {
                Some(k) => Some(k@),
                None => None,
            },
    {
        let url = String::from_str(api_url);
        let cloud = String::from_str(CLOUD_API_URL);
        if url == cloud && api_key.is_none() {
            return Err(
                FirecrawlError::APIError(
                    String::from_str("Configuration"),
                    FirecrawlAPIError {
                        error: String::from_str("API key is required for cloud service"),
                        details: None,
                    },
                ),
            );
        }
        let api_key = match api_key {
            Some(k) => Some(String::from_str(k)),
            None => None,
        };
        Ok(FirecrawlApp { api_key, api_url: url })
    }

    /// The configured key, if any.
    pub fn api_key(&self) -> (r: Option<String>)
        ensures
            match r {
                Some(k) => self.api_key_spec() == Some(k@),
                None => self.api_key_spec() is None,
            },
    {
        match &self.api_key {
            Some(k) => Some(k.clone()),
            None => None,
        }
    }

    /// The base URL of the service.
    pub fn api_url(&self) -> (r: String)
        ensures
            r@ == self.api_url_spec(),
    {
        self.api_url.clone()
    }

    /// The headers of a request.
    pub fn prepare_headers(&self, idempotency_key: Option<&String>) -> (r: Vec<(String, String)>)
        ensures
            header_views(r@) == headers_spec(
                self.api_key_spec(),
                match idempotency_key {
                    Some(i) => Some(i@),
                    None => None,
                },
            ),
    {
        let mut headers: Vec<(String, String)> = Vec::new();
        headers.push((String::from_str("Content-Type"), String::from_str("application/json")));
        match &self.api_key {
            Some(k) => {
                let mut value = String::from_str("Bearer ");
                value.append(k.as_str());
                headers.push((String::from_str("Authorization"), value));
            },
            None => {},
        }
        match idempotency_key {
            Some(i) => {
                headers.push((String::from_str("x-idempotency-key"), i.clone()));
            },
            None => {},
        }
        assert(header_views(headers@) =~= headers_spec(
            self.api_key_spec(),
            match idempotency_key {
                Some(i) => Some(i@),
                None => None,
            },
        ));
        headers
    }

    /// The URL of an endpoint of the service, such as `scrape` or `map`.
    pub fn endpoint(&self, path: &str) -> (r: String)
        ensures
            r@ == endpoint_spec(self.api_url_spec(), path@),
    {
        let mut url = self.api_url.clone();
        url.append("/v1/");
        url.append(path);
        url
    }

    /// The URL jobs of a kind are submitted to.
    pub fn submit_url(&self, kind: JobKind) -> (r: String)
        ensures
            r@ == endpoint_spec(self.api_url_spec(), kind.path_spec()),
    {
        match kind {
            JobKind::Crawl => self.endpoint("crawl"),
            JobKind::BatchScrape => self.endpoint("batch/scrape"),
        }
    }

    /// The URL of a status check of job `id`, at its head or at a cursor.
    pub fn status_url(&self, kind: JobKind, id: &str, cursor: Option<&str>) -> (r: String)
        ensures
            r@ == status_url_spec(
                self.api_url_spec(),
                kind,
                id@,
                match cursor {
                    Some(c) => Some(c@),
                    None => None,
                },
            ),
    {
        if let JobKind::Crawl = kind {
            if let Some(c) = cursor {
                return String::from_str(c);
            }
        }
        let mut url = self.submit_url(kind);
        url.append("/");
        url.append(id);
        if let Some(c) = cursor {
            url.append("?cursor=");
            url.append(c);
        }
        url
    }
}

} // verus!
