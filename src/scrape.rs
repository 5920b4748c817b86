//! Options of a single-page scrape, shared by the batch and crawl jobs.
use std::collections::HashMap;
use vstd::prelude::*;

verus! {

/// The content formats the service can return for a page.
#[derive(Clone, Copy, Debug, PartialEq, Eq, Structural)]
pub enum ScrapeFormats {
    Markdown,
    HTML,
    RawHTML,
    Links,
    Screenshot,
    ScreenshotFullPage,
    Extract,
    JSON,
}

/// The formats a crawl can ask for on each page.
#[derive(Clone, Copy, Debug, PartialEq, Eq, Structural)]
pub enum CrawlScrapeFormats {
    Markdown,
    HTML,
    RawHTML,
    Links,
    Screenshot,
    ScreenshotFullPage,
}

impl From<CrawlScrapeFormats> for ScrapeFormats {
    fn from(value: CrawlScrapeFormats) -> (r: Self) {
        match value {
            CrawlScrapeFormats::Markdown => ScrapeFormats::Markdown,
            CrawlScrapeFormats::HTML => ScrapeFormats::HTML,
            CrawlScrapeFormats::RawHTML => ScrapeFormats::RawHTML,
            CrawlScrapeFormats::Links => ScrapeFormats::Links,
            CrawlScrapeFormats::Screenshot => ScrapeFormats::Screenshot,
            CrawlScrapeFormats::ScreenshotFullPage => ScrapeFormats::ScreenshotFullPage,
        }
    }
}

impl vstd::std_specs::convert::FromSpecImpl<CrawlScrapeFormats> for ScrapeFormats {
    open spec fn obeys_from_spec() -> bool {
        true
    }

    /// Each crawl format is the scrape format of the same name.
    open spec fn from_spec(v: CrawlScrapeFormats) -> ScrapeFormats {
        match v {
            CrawlScrapeFormats::Markdown => ScrapeFormats::Markdown,
            CrawlScrapeFormats::HTML => ScrapeFormats::HTML,
            CrawlScrapeFormats::RawHTML => ScrapeFormats::RawHTML,
            CrawlScrapeFormats::Links => ScrapeFormats::Links,
            CrawlScrapeFormats::Screenshot => ScrapeFormats::Screenshot,
            CrawlScrapeFormats::ScreenshotFullPage => ScrapeFormats::ScreenshotFullPage,
        }
    }
}

/// Options of a structured extraction.
#[derive(Clone, Debug, PartialEq, Eq, Default)]
pub struct ExtractOptions {
    pub schema: Option<serde_json::Value>,
    pub system_prompt: Option<String>,
    pub prompt: Option<String>,
}

/// Options of the JSON format: the schema the output follows and the prompts.
#[derive(Clone, Debug, PartialEq, Eq, Default)]
pub struct JsonOptions {
    pub schema: Option<serde_json::Value>,
    pub system_prompt: Option<String>,
    pub prompt: Option<String>,
}

/// The kinds of browser action that can run before a page is scraped.
#[derive(Clone, Copy, Debug, PartialEq, Eq, Structural, Default)]
pub enum ActionType {
    #[default]
    Click,
    Type,
    Wait,
    Screenshot,
    Write,
    Press,
    Scroll,
    Scrape,
    ExecuteJavascript,
}

/// One browser action.
#[derive(Clone, Debug, PartialEq, Eq, Default)]
pub struct Action {
    pub action_type: ActionType,
    pub selector: Option<String>,
    pub text: Option<String>,
    pub milliseconds: Option<u32>,
    pub key: Option<String>,
    pub direction: Option<String>,
    pub script: Option<String>,
    pub full_page: Option<bool>,
}

/// Location to emulate while scraping.
#[derive(Clone, Debug, PartialEq, Eq, Default)]
pub struct LocationOptions {
    pub country: String,
    pub languages: Vec<String>,
}

/// How a page is scraped. Every field is optional; an absent one leaves the
/// service's default in force.
#[derive(Clone, Debug, PartialEq, Eq)]
pub struct ScrapeOptions {
    pub formats: Option<Vec<ScrapeFormats>>,
    pub only_main_content: Option<bool>,
    pub include_tags: Option<Vec<String>>,
    pub exclude_tags: Option<Vec<String>>,
    pub headers: Option<HashMap<String, String>>,
    pub wait_for: Option<u32>,
    pub timeout: Option<u32>,
    pub extract: Option<ExtractOptions>,
    pub json_options: Option<JsonOptions>,
    pub parse_pdf: Option<bool>,
    pub location: Option<LocationOptions>,
    pub language: Option<String>,
    pub actions: Option<Vec<Action>>,
    pub mobile: Option<bool>,
    pub skip_tls_verification: Option<bool>,
    pub remove_base64_images: Option<bool>,
    pub block_ads: Option<bool>,
    pub proxy: Option<String>,
}

impl ScrapeOptions {
    /// No option is set.
    pub open spec fn is_unset(self) -> bool {
        &&& self.formats is None
        &&& self.only_main_content is None
        &&& self.include_tags is None
        &&& self.exclude_tags is None
        &&& self.headers is None
        &&& self.wait_for is None
        &&& self.timeout is None
        &&& self.extract is None
        &&& self.json_options is None
        &&& self.parse_pdf is None
        &&& self.location is None
        &&& self.language is None
        &&& self.actions is None
        &&& self.mobile is None
        &&& self.skip_tls_verification is None
        &&& self.remove_base64_images is None
        &&& self.block_ads is None
        &&& self.proxy is None
    }

    /// The formats are exactly Markdown.
    pub open spec fn asks_markdown_only(self) -> bool {
        self.formats matches Some(f) && f@ == seq![ScrapeFormats::Markdown]
    }

    /// The options `o`, or none where `o` is absent, with the formats
    /// replaced by Markdown alone: this system always reads pages as Markdown
    /// text, whatever formats a caller asked for.
    pub fn markdown_only(o: Option<ScrapeOptions>) -> (r: ScrapeOptions)
        ensures
            r.asks_markdown_only(),
            match o {
                Some(o) => r == (ScrapeOptions { formats: r.formats, ..o }),
                None => (ScrapeOptions { formats: None, ..r }).is_unset(),
            },
    {
        let mut opts = match o {
            Some(o) => o,
            None => ScrapeOptions::default(),
        };
        let mut formats: Vec<ScrapeFormats> = Vec::new();
        formats.push(ScrapeFormats::Markdown);
        assert(formats@ =~= seq![ScrapeFormats::Markdown]);
        opts.formats = Some(formats);
        opts
    }
}

impl Default for ScrapeOptions {
    fn default() -> (r: Self)
        ensures
            r.is_unset(),
    {
        ScrapeOptions {
            formats: None,
            only_main_content: None,
            include_tags: None,
            exclude_tags: None,
            headers: None,
            wait_for: None,
            timeout: None,
            extract: None,
            json_options: None,
            parse_pdf: None,
            location: None,
            language: None,
            actions: None,
            mobile: None,
            skip_tls_verification: None,
            remove_base64_images: None,
            block_ads: None,
            proxy: None,
        }
    }
}

/// The body of a scrape request.
#[derive(Clone, Debug, PartialEq, Eq)]
pub struct ScrapeRequestBody {
    pub url: String,
    pub options: ScrapeOptions,
}

/// A scrape as a caller asks for it.
#[derive(Clone, Debug, PartialEq, Eq)]
pub struct ScrapeUrlInput {
    pub url: String,
    pub options: ScrapeOptions,
}

impl ScrapeRequestBody {
    /// The request for `url`, with the given options or none.
    pub fn new(url: String, options: Option<ScrapeOptions>) -> (r: ScrapeRequestBody)
        ensures
            r.url == url,
            match options {
                Some(o) => r.options == o,
                None => r.options.is_unset(),
            },
    {
        let options = match options {
            Some(o) => o,
            None => ScrapeOptions::default(),
        };
        ScrapeRequestBody { url, options }
    }
}

impl ScrapeUrlInput {
    /// The request a scrape tool call sends: the caller's URL and options,
    /// with the formats forced to Markdown.
    pub fn into_request(self) -> (r: ScrapeRequestBody)
        ensures
            r.url == self.url,
            r.options.asks_markdown_only(),
            r.options == (ScrapeOptions { formats: r.options.formats, ..self.options }),
    {
        let ScrapeUrlInput { url, options } = self;
        ScrapeRequestBody { url, options: ScrapeOptions::markdown_only(Some(options)) }
    }
}

} // verus!
