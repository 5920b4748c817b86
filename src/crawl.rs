//! Crawl jobs: the request that starts one and the options it takes.
use crate::batch_scrape::BatchScrapeWebhook;
use crate::document::Document;
use crate::scrape::ScrapeOptions;
use vstd::prelude::*;

verus! {

/// How far and where a crawl goes.
#[derive(Clone, Debug, PartialEq, Eq)]
pub struct CrawlOptions {
    /// Options for scraping each page.
    pub scrape_options: Option<ScrapeOptions>,
    pub include_paths: Option<Vec<String>>,
    pub exclude_paths: Option<Vec<String>>,
    pub max_depth: Option<u32>,
    pub ignore_sitemap: Option<bool>,
    pub limit: Option<u32>,
    pub allow_backward_links: Option<bool>,
    pub allow_external_links: Option<bool>,
    pub deduplicate_similar_urls: Option<bool>,
    pub ignore_query_parameters: Option<bool>,
}

impl CrawlOptions {
    /// No option is set.
    pub open spec fn is_unset(self) -> bool {
        &&& self.scrape_options is None
        &&& self.include_paths is None
        &&& self.exclude_paths is None
        &&& self.max_depth is None
        &&& self.ignore_sitemap is None
        &&& self.limit is None
        &&& self.allow_backward_links is None
        &&& self.allow_external_links is None
        &&& self.deduplicate_similar_urls is None
        &&& self.ignore_query_parameters is None
    }
}

impl Default for CrawlOptions {
    fn default() -> (r: Self)
        ensures
            r.is_unset(),
    {
        CrawlOptions {
            scrape_options: None,
            include_paths: None,
            exclude_paths: None,
            max_depth: None,
            ignore_sitemap: None,
            limit: None,
            allow_backward_links: None,
            allow_external_links: None,
            deduplicate_similar_urls: None,
            ignore_query_parameters: None,
        }
    }
}

/// The body of a crawl submission.
#[derive(Clone, Debug, PartialEq, Eq)]
pub struct CrawlRequestBody {
    pub url: String,
    pub options: CrawlOptions,
    pub webhook: BatchScrapeWebhook,
}

impl CrawlRequestBody {
    /// The submission of a crawl from `url`, with the given options or none.
    pub fn new(url: String, options: Option<CrawlOptions>, webhook: BatchScrapeWebhook) -> (r:
        CrawlRequestBody)
        ensures
            r.url == url,
            r.webhook == webhook,
            match options {
                Some(o) => r.options == o,
                None => r.options.is_unset(),
            },
    {
        let options = match options {
            Some(o) => o,
            None => CrawlOptions::default(),
        };
        CrawlRequestBody { url, options, webhook }
    }
}

/// A single document answered by the service.
#[derive(Clone, Debug, PartialEq, Eq)]
pub struct CrawlResponse {
    pub success: bool,
    pub data: Document,
}

/// A crawl as a tool caller asks for it.
#[derive(Clone, Debug, PartialEq, Eq)]
pub struct CrawlUrlInput {
    pub url: String,
    pub options: CrawlOptions,
    /// Milliseconds between status checks.
    pub poll_interval: Option<u64>,
    pub idempotency_key: Option<String>,
    pub webhook: Option<BatchScrapeWebhook>,
}

impl CrawlUrlInput {
    /// The submission a crawl tool call sends, and its poll interval: the
    /// caller's URL and options with the page formats forced to Markdown, and
    /// the caller's webhook or, where there is none, the placeholder.
    pub fn into_tool_request(self) -> (r: (CrawlRequestBody, Option<u64>))
        ensures
            r.0.url == self.url,
            r.0.options == (CrawlOptions { scrape_options: r.0.options.scrape_options, ..self.options }),
            r.0.options.scrape_options matches Some(so) && so.asks_markdown_only() && match self.options.scrape_options {
                Some(o) => so == (ScrapeOptions { formats: so.formats, ..o }),
                None => (ScrapeOptions { formats: None, ..so }).is_unset(),
            },
            match self.webhook {
                Some(w) => r.0.webhook == w,
                None => r.0.webhook.url@ == "https://example.com/webhook"@ && r.0.webhook.is_bare(),
            },
            r.1 == self.poll_interval,
    {
        let CrawlUrlInput { url, mut options, poll_interval, webhook, .. } = self;
        let webhook = match webhook {
            Some(w) => w,
            None => BatchScrapeWebhook::placeholder(),
        };
        let scrape_options = options.scrape_options;
        options.scrape_options = Some(ScrapeOptions::markdown_only(scrape_options));
        (CrawlRequestBody::new(url, Some(options), webhook), poll_interval)
    }
}

} // verus!
