//! Batch-scrape jobs: the request that starts one and the options it takes.
use crate::scrape::{Action, JsonOptions, LocationOptions, ScrapeFormats, ScrapeOptions};
use std::collections::HashMap;
use vstd::prelude::*;
use vstd::string::StringExecFns;

verus! {

/// Where the service reports a job's progress.
#[derive(Clone, Debug, PartialEq, Eq, Default)]
pub struct BatchScrapeWebhook {
    pub url: String,
    pub headers: Option<HashMap<String, String>>,
    pub metadata: Option<HashMap<String, serde_json::Value>>,
    pub events: Option<Vec<String>>,
}

impl BatchScrapeWebhook {
    /// A webhook with only an address.
    pub open spec fn is_bare(self) -> bool {
        self.headers is None && self.metadata is None && self.events is None
    }

    /// The placeholder webhook sent where the service wants one and the
    /// caller gave none.
    pub fn placeholder() -> (r: BatchScrapeWebhook)
        ensures
            r.url@ == "https://example.com/webhook"@,
            r.is_bare(),
    {
        BatchScrapeWebhook {
            url: String::from_str("https://example.com/webhook"),
            headers: None,
            metadata: None,
            events: None,
        }
    }
}

/// Scrape options as a batch caller gives them.
#[derive(Clone, Debug, PartialEq, Eq)]
pub struct BatchScrapeOptions {
    pub formats: Option<Vec<ScrapeFormats>>,
    pub only_main_content: Option<bool>,
    pub include_tags: Option<Vec<String>>,
    pub exclude_tags: Option<Vec<String>>,
    pub headers: Option<HashMap<String, String>>,
    pub wait_for: Option<u32>,
    pub mobile: Option<bool>,
    pub skip_tls_verification: Option<bool>,
    pub timeout: Option<u32>,
    pub json_options: Option<JsonOptions>,
    pub actions: Option<Vec<Action>>,
    pub location: Option<LocationOptions>,
    pub remove_base64_images: Option<bool>,
    pub block_ads: Option<bool>,
    pub proxy: Option<String>,
}

impl Default for BatchScrapeOptions {
    fn default() -> (r: Self)
        ensures
            r.formats is None,
            r.only_main_content is None,
            r.include_tags is None,
            r.exclude_tags is None,
            r.headers is None,
            r.wait_for is None,
            r.mobile is None,
            r.skip_tls_verification is None,
            r.timeout is None,
            r.json_options is None,
            r.actions is None,
            r.location is None,
            r.remove_base64_images is None,
            r.block_ads is None,
            r.proxy is None,
    {
        BatchScrapeOptions {
            formats: None,
            only_main_content: None,
            include_tags: None,
            exclude_tags: None,
            headers: None,
            wait_for: None,
            mobile: None,
            skip_tls_verification: None,
            timeout: None,
            json_options: None,
            actions: None,
            location: None,
            remove_base64_images: None,
            block_ads: None,
            proxy: None,
        }
    }
}

/// The scrape options a batch's options stand for: every field carried over,
/// and those a batch cannot set left unset.
pub open spec fn scrape_options_of(o: BatchScrapeOptions) -> ScrapeOptions {
    ScrapeOptions {
        formats: o.formats,
        only_main_content: o.only_main_content,
        include_tags: o.include_tags,
        exclude_tags: o.exclude_tags,
        headers: o.headers,
        wait_for: o.wait_for,
        timeout: o.timeout,
        extract: None,
        json_options: o.json_options,
        parse_pdf: None,
        location: o.location,
        language: None,
        actions: o.actions,
        mobile: o.mobile,
        skip_tls_verification: o.skip_tls_verification,
        remove_base64_images: o.remove_base64_images,
        block_ads: o.block_ads,
        proxy: o.proxy,
    }
}

impl From<BatchScrapeOptions> for ScrapeOptions {
    fn from(options: BatchScrapeOptions) -> (r: Self) {
        ScrapeOptions {
            formats: options.formats,
            only_main_content: options.only_main_content,
            include_tags: options.include_tags,
            exclude_tags: options.exclude_tags,
            headers: options.headers,
            wait_for: options.wait_for,
            timeout: options.timeout,
            extract: None,
            json_options: options.json_options,
            parse_pdf: None,
            location: options.location,
            language: None,
            actions: options.actions,
            mobile: options.mobile,
            skip_tls_verification: options.skip_tls_verification,
            remove_base64_images: options.remove_base64_images,
            block_ads: options.block_ads,
            proxy: options.proxy,
        }
    }
}

impl vstd::std_specs::convert::FromSpecImpl<BatchScrapeOptions> for ScrapeOptions {
    open spec fn obeys_from_spec() -> bool {
        true
    }

    open spec fn from_spec(v: BatchScrapeOptions) -> ScrapeOptions {
        scrape_options_of(v)
    }
}

/// The body of a batch-scrape submission.
#[derive(Clone, Debug, PartialEq, Eq)]
pub struct BatchScrapeRequestBody {
    pub urls: Vec<String>,
    pub webhook: Option<BatchScrapeWebhook>,
    pub ignore_invalid_urls: Option<bool>,
    pub options: ScrapeOptions,
}

impl BatchScrapeRequestBody {
    /// The submission for `urls`, with the given options or none.
    pub fn new(
        urls: Vec<String>,
        options: Option<ScrapeOptions>,
        webhook: Option<BatchScrapeWebhook>,
        ignore_invalid_urls: Option<bool>,
    ) -> (r: BatchScrapeRequestBody)
        ensures
            r.urls == urls,
            r.webhook == webhook,
            r.ignore_invalid_urls == ignore_invalid_urls,
            match options {
                Some(o) => r.options == o,
                None => r.options.is_unset(),
            },
    {
        let options = match options {
            Some(o) => o,
            None => ScrapeOptions::default(),
        };
        BatchScrapeRequestBody { urls, webhook, ignore_invalid_urls, options }
    }
}

/// The service's answer to a batch-scrape submission.
#[derive(Clone, Debug, PartialEq, Eq)]
pub struct BatchScrapeResponse {
    pub success: bool,
    /// Job identifier.
    pub id: String,
    /// URL to check the job's status at.
    pub url: String,
    /// The URLs the service skipped as invalid, where it was told to.
    pub invalid_urls: Option<Vec<String>>,
}

/// A batch scrape as a tool caller asks for it.
#[derive(Clone, Debug, PartialEq, Eq)]
pub struct BatchScrapeUrlsInput {
    pub urls: Vec<String>,
    pub webhook: Option<BatchScrapeWebhook>,
    pub ignore_invalid_urls: Option<bool>,
    /// Milliseconds between status checks.
    pub poll_interval: Option<u64>,
    pub idempotency_key: Option<String>,
    pub options: Option<ScrapeOptions>,
}

impl BatchScrapeUrlsInput {
    /// The submission a batch-scrape tool call sends, and its poll interval:
    /// the caller's URLs and options with the formats forced to Markdown,
    /// invalid URLs skipped, and no webhook.
    pub fn into_tool_request(self) -> (r: (BatchScrapeRequestBody, Option<u64>))
        ensures
            r.0.urls == self.urls,
            r.0.webhook is None,
            r.0.ignore_invalid_urls == Some(true),
            r.0.options.asks_markdown_only(),
            match self.options {
                Some(o) => r.0.options == (ScrapeOptions { formats: r.0.options.formats, ..o }),
                None => (ScrapeOptions { formats: None, ..r.0.options }).is_unset(),
            },
            r.1 == self.poll_interval,
    {
        let BatchScrapeUrlsInput { urls, options, poll_interval, .. } = self;
        let options = ScrapeOptions::markdown_only(options);
        (BatchScrapeRequestBody::new(urls, Some(options), None, Some(true)), poll_interval)
    }
}

} // verus!
