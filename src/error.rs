//! The errors of the library.
use crate::status::StatusSnapshot;
use vstd::prelude::*;
use vstd::string::StringExecFns;

verus! {

/// The structured body of a failed API response.
#[derive(Clone, Debug, PartialEq, Eq)]
pub struct FirecrawlAPIError {
    pub error: String,
    pub details: Option<serde_json::Value>,
}

/// Everything that can go wrong between a caller and the service.
#[derive(Debug)]
pub enum FirecrawlError {
    /// The request could not be sent or its response not read: (action, cause).
    HttpError(String, String),
    /// A non-success status whose body was not a structured API error:
    /// (action, status code, status text).
    HttpRequestFailed(String, u16, String),
    /// A non-success status with a structured API error body: (action, body).
    APIError(String, FirecrawlAPIError),
    /// A success status whose body did not have the expected shape.
    ResponseParseError(String),
    /// The job ended in failure; carries the last snapshot with every
    /// document collected so far.
    JobFailed(StatusSnapshot),
    /// The job was cancelled on the service's side; carries the last snapshot
    /// with every document collected so far.
    JobCancelled(StatusSnapshot),
    /// No operation has this name.
    OperationNotFound(String),
    /// The parameters of an operation were missing or malformed.
    InvalidParameters(String),
}

impl FirecrawlError {
    /// The text a caller is shown for this error. The service's own message
    /// and the name of an unknown operation appear in it verbatim.
    pub open spec fn message_spec(&self) -> Seq<char> {
        match self {
            FirecrawlError::HttpError(action, cause) => action@ + " failed: "@ + cause@,
            FirecrawlError::HttpRequestFailed(action, _, text) => action@ + " failed with status "@
                + text@,
            FirecrawlError::APIError(action, body) => action@ + " failed: "@ + body.error@,
            FirecrawlError::ResponseParseError(cause) => "could not read the response: "@ + cause@,
            FirecrawlError::JobFailed(_) => "job failed"@,
            FirecrawlError::JobCancelled(_) => "job cancelled"@,
            FirecrawlError::OperationNotFound(name) => "Tool not found: "@ + name@,
            FirecrawlError::InvalidParameters(cause) => "invalid parameters: "@ + cause@,
        }
    }

    /// The text a caller is shown for this error.
    pub fn message(&self) -> (r: String)
        ensures
            r@ == self.message_spec(),
    {
        match self {
            FirecrawlError::HttpError(action, cause) => {
                let mut m = action.clone();
                m.append(" failed: ");
                m.append(cause.as_str());
                m
            },
            FirecrawlError::HttpRequestFailed(action, _, text) => {
                let mut m = action.clone();
                m.append(" failed with status ");
                m.append(text.as_str());
                m
            },
            FirecrawlError::APIError(action, body) => {
                let mut m = action.clone();
                m.append(" failed: ");
                m.append(body.error.as_str());
                m
            },
            FirecrawlError::ResponseParseError(cause) => {
                let mut m = String::from_str("could not read the response: ");
                m.append(cause.as_str());
                m
            },
            FirecrawlError::JobFailed(_) => String::from_str("job failed"),
            FirecrawlError::JobCancelled(_) => String::from_str("job cancelled"),
            FirecrawlError::OperationNotFound(name) => {
                let mut m = String::from_str("Tool not found: ");
                m.append(name.as_str());
                m
            },
            FirecrawlError::InvalidParameters(cause) => {
                let mut m = String::from_str("invalid parameters: ");
                m.append(cause.as_str());
                m
            },
        }
    }
}

} // verus!
