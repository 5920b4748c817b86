//! One scraped page as the service returns it. The polling logic treats a
//! document as an atomic value; only the tool facade reads a few fields.
use std::collections::HashMap;
use vstd::prelude::*;

verus! {

/// Page metadata returned with each document.
#[derive(Clone, Debug, PartialEq, Eq, Default)]
pub struct DocumentMetadata {
    pub source_url: String,
    pub status_code: u16,
    pub error: Option<String>,
    pub title: Option<String>,
    pub description: Option<String>,
    pub language: Option<String>,
    /// Every other metadata field, as returned.
    pub additional_fields: HashMap<String, serde_json::Value>,
}

/// The result of a `scrape` action.
#[derive(Clone, Debug, PartialEq, Eq, Default)]
pub struct ScrapeActionResult {
    pub url: String,
    pub html: String,
}

/// The value returned by an `executeJavascript` action.
#[derive(Clone, Debug, PartialEq, Eq)]
pub struct JavaScriptReturnValue {
    pub value_type: String,
    pub value: serde_json::Value,
}

/// Results of the actions performed before scraping.
#[derive(Clone, Debug, PartialEq, Eq, Default)]
pub struct ActionResults {
    pub screenshots: Option<Vec<String>>,
    pub scrapes: Option<Vec<ScrapeActionResult>>,
    pub javascript_returns: Option<Vec<JavaScriptReturnValue>>,
}

/// One unit of scraped content.
#[derive(Clone, Debug, PartialEq, Eq, Default)]
pub struct Document {
    pub markdown: Option<String>,
    pub html: Option<String>,
    pub raw_html: Option<String>,
    pub screenshot: Option<String>,
    pub links: Option<Vec<String>>,
    pub extract: Option<serde_json::Value>,
    pub json: Option<serde_json::Value>,
    pub actions: Option<ActionResults>,
    pub metadata: DocumentMetadata,
    pub warning: Option<String>,
}

/// A metadata field that the service sends either as one string, as a list
/// of strings, or not at all.
pub enum StringOrList {
    Text(String),
    List(Vec<String>),
    Absent,
}

/// What a `StringOrList` field means: the string itself, the first entry of a
/// list, or nothing.
pub open spec fn string_or_first_spec(v: StringOrList) -> Option<String> {
    match v {
        StringOrList::Text(s) => Some(s),
        StringOrList::List(l) => if l@.len() > 0 { Some(l@[0]) } else { None },
        StringOrList::Absent => None,
    }
}

/// Reads a metadata field sent as a string or a list of strings: a list
/// counts by its first entry, an empty list or a missing value as `None`.
pub fn string_or_first(v: StringOrList) -> (r: Option<String>)
    ensures
        r == string_or_first_spec(v),
{
    match v {
        StringOrList::Text(s) => Some(s),
        StringOrList::List(mut l) => {
            if l.len() > 0 {
                Some(l.swap_remove(0))
            } else {
                None
            }
        },
        StringOrList::Absent => None,
    }
}

} // verus!
