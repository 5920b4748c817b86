use std::collections::HashMap;

use firecrawl::batch_scrape::{BatchScrapeOptions, BatchScrapeUrlsInput, BatchScrapeWebhook};
use firecrawl::client::{handle_response, is_success_status, FirecrawlApp, JobKind, ResponseBody, CLOUD_API_URL};
use firecrawl::crawl::{CrawlOptions, CrawlUrlInput};
use firecrawl::document::{Document, StringOrList, string_or_first};
use firecrawl::error::{FirecrawlAPIError, FirecrawlError};
use firecrawl::map::{MapOptions, MapRequestBody, MapResponse};
use firecrawl::scrape::{CrawlScrapeFormats, JsonOptions, LocationOptions, ScrapeFormats, ScrapeOptions, ScrapeUrlInput};
use firecrawl::search::{SearchResponse, SearchResult};
use firecrawl::tools::{
    format_batch_documents, format_crawl_documents, format_links, format_search_results, required_parameters,
    scrape_text, Operation,
};

fn page(url: &str, title: Option<&str>, markdown: Option<&str>) -> Document {
    let mut d = Document::default();
    d.metadata.source_url = url.to_string();
    d.metadata.title = title.map(|s| s.to_string());
    d.markdown = markdown.map(|s| s.to_string());
    d
}

#[test]
fn unknown_operation_is_not_found() {
    match Operation::from_name("firecrawl_unknown") {
        Err(e @ FirecrawlError::OperationNotFound(_)) => {
            assert!(matches!(&e, FirecrawlError::OperationNotFound(n) if n == "firecrawl_unknown"));
            assert_eq!(e.message(), "Tool not found: firecrawl_unknown");
        }
        other => panic!("unexpected {:?}", other),
    }
}

#[test]
fn known_operations_round_trip_by_name() {
    for op in [Operation::Scrape, Operation::Crawl, Operation::BatchScrape, Operation::MapUrls, Operation::Search] {
        assert_eq!(Operation::from_name(&op.name()).unwrap(), op);
    }
    assert_eq!(Operation::BatchScrape.name(), "firecrawl_batch_scrape");
    assert_eq!(Operation::from_name("firecrawl_map").unwrap(), Operation::MapUrls);
}

#[test]
fn missing_parameters_are_an_error() {
    assert!(matches!(required_parameters::<u8>(None), Err(FirecrawlError::InvalidParameters(m)) if m == "missing parameters"));
    assert_eq!(required_parameters(Some(7u8)).unwrap(), 7);
}

#[test]
fn crawl_text_has_one_record_per_page() {
    let docs = vec![page("https://a", Some("A"), Some("# a")), page("https://b", None, None)];
    assert_eq!(
        format_crawl_documents(&docs),
        "URL: https://a\nTitle: A\nContent: # a\n\nURL: https://b\nTitle: \nContent: "
    );
    assert_eq!(format_crawl_documents(&vec![]), "");
}

#[test]
fn batch_text_closes_each_record() {
    let docs = vec![page("https://a", Some("A"), Some("x")), page("https://b", Some("B"), Some("y"))];
    assert_eq!(
        format_batch_documents(&docs),
        "URL: https://a\nTitle: A\nContent: x\n\n\n\nURL: https://b\nTitle: B\nContent: y\n\n"
    );
}

#[test]
fn search_text_and_empty_notice() {
    assert_eq!(format_search_results(&vec![]), "No search results found.");
    let hits = vec![
        SearchResult { url: "https://a".into(), title: "A".into(), description: "first".into() },
        SearchResult { url: "https://b".into(), title: "B".into(), description: "second".into() },
    ];
    assert_eq!(
        format_search_results(&hits),
        "Title: A\nURL: https://a\nDescription: first\n\n---\n\nTitle: B\nURL: https://b\nDescription: second\n"
    );
}

#[test]
fn scrape_text_is_the_markdown() {
    assert_eq!(scrape_text(&page("u", None, Some("# hi"))), "# hi");
    assert_eq!(scrape_text(&page("u", None, None)), "");
}

#[test]
fn links_are_rendered_as_a_json_array() {
    let links = vec!["https://example.com/page1".to_string(), "https://example.com/page2".to_string()];
    assert_eq!(
        format_links(&links).unwrap(),
        "[\n  \"https://example.com/page1\",\n  \"https://example.com/page2\"\n]"
    );
    assert_eq!(format_links(&vec![]).unwrap(), "[]");
}

#[test]
fn cloud_without_key_is_refused() {
    match FirecrawlApp::new_selfhosted(CLOUD_API_URL, None) {
        Err(FirecrawlError::APIError(action, body)) => {
            assert_eq!(action, "Configuration");
            assert_eq!(body.error, "API key is required for cloud service");
        }
        other => panic!("unexpected {:?}", other.map(|_| ())),
    }
    let local = FirecrawlApp::new_selfhosted("http://localhost:3002", None).unwrap();
    assert_eq!(local.api_key(), None);
    assert_eq!(local.api_url(), "http://localhost:3002");
    let cloud = FirecrawlApp::new("fc-key").unwrap();
    assert_eq!(cloud.api_url(), "https://api.firecrawl.dev");
    assert_eq!(cloud.api_key(), Some("fc-key".to_string()));
}

#[test]
fn headers_carry_key_and_idempotency() {
    let app = FirecrawlApp::new("k1").unwrap();
    let idem = "id-7".to_string();
    let h = app.prepare_headers(Some(&idem));
    assert_eq!(
        h,
        vec![
            ("Content-Type".to_string(), "application/json".to_string()),
            ("Authorization".to_string(), "Bearer k1".to_string()),
            ("x-idempotency-key".to_string(), "id-7".to_string()),
        ]
    );
    let bare = FirecrawlApp::new_selfhosted("http://h", None).unwrap().prepare_headers(None);
    assert_eq!(bare, vec![("Content-Type".to_string(), "application/json".to_string())]);
}

#[test]
fn request_urls() {
    let app = FirecrawlApp::new_selfhosted("http://h", None).unwrap();
    assert_eq!(app.endpoint("scrape"), "http://h/v1/scrape");
    assert_eq!(app.submit_url(JobKind::Crawl), "http://h/v1/crawl");
    assert_eq!(app.submit_url(JobKind::BatchScrape), "http://h/v1/batch/scrape");
    assert_eq!(app.status_url(JobKind::Crawl, "job-1", None), "http://h/v1/crawl/job-1");
    assert_eq!(app.status_url(JobKind::Crawl, "job-1", Some("http://h/next?skip=10")), "http://h/next?skip=10");
    assert_eq!(app.status_url(JobKind::BatchScrape, "job-1", None), "http://h/v1/batch/scrape/job-1");
    assert_eq!(app.status_url(JobKind::BatchScrape, "job-1", Some("c9")), "http://h/v1/batch/scrape/job-1?cursor=c9");
    assert!(JobKind::Crawl.has_cancelled_state());
    assert!(!JobKind::BatchScrape.has_cancelled_state());
}

#[test]
fn responses_are_classified() {
    assert!(is_success_status(200) && is_success_status(299));
    assert!(!is_success_status(300) && !is_success_status(404) && !is_success_status(199));
    assert_eq!(handle_response("a".into(), 200, "200".into(), ResponseBody::Expected(5u8)).unwrap(), 5);
    let api = FirecrawlAPIError { error: "bad url".into(), details: None };
    match handle_response::<u8>("scrape URL".into(), 400, "400".into(), ResponseBody::ApiError(api)) {
        Err(e @ FirecrawlError::APIError(..)) => assert_eq!(e.message(), "scrape URL failed: bad url"),
        other => panic!("unexpected {:?}", other),
    }
    assert!(matches!(
        handle_response("x".into(), 502, "502".into(), ResponseBody::Expected(1u8)),
        Err(FirecrawlError::HttpRequestFailed(a, 502, t)) if a == "x" && t == "502"
    ));
    assert!(matches!(
        handle_response::<u8>("x".into(), 200, "200".into(), ResponseBody::Unreadable { decode_error: true, message: "eof".into() }),
        Err(FirecrawlError::ResponseParseError(m)) if m == "eof"
    ));
    assert!(matches!(
        handle_response::<u8>("x".into(), 200, "200".into(), ResponseBody::Unreadable { decode_error: false, message: "reset".into() }),
        Err(FirecrawlError::HttpError(a, m)) if a == "x" && m == "reset"
    ));
}

#[test]
fn map_and_search_answers() {
    let ok = MapResponse { success: Some(true), links: Some(vec!["u".into()]), error: None };
    assert_eq!(ok.into_links().unwrap(), vec!["u".to_string()]);
    let empty = MapResponse { success: None, links: None, error: None };
    assert!(empty.into_links().unwrap().is_empty());
    let failed = MapResponse { success: Some(false), links: None, error: Some("nope".into()) };
    assert!(matches!(failed.into_links(), Err(FirecrawlError::APIError(a, b)) if a == "map request failed" && b.error == "nope"));
    let s = SearchResponse { success: false, data: None, error: None };
    assert!(matches!(s.into_results(), Err(FirecrawlError::APIError(a, b)) if a == "search request failed" && b.error.is_empty()));
    let s = SearchResponse { success: true, data: None, error: None };
    assert!(s.into_results().unwrap().is_empty());
    let body = MapRequestBody::new("https://example.com".into(), None);
    assert_eq!(body.options, MapOptions::default());
}

#[test]
fn metadata_string_or_list() {
    assert_eq!(string_or_first(StringOrList::Text("t".into())), Some("t".to_string()));
    assert_eq!(string_or_first(StringOrList::List(vec!["a".into(), "b".into()])), Some("a".to_string()));
    assert_eq!(string_or_first(StringOrList::List(vec![])), None);
    assert_eq!(string_or_first(StringOrList::Absent), None);
}

#[test]
fn scrape_tool_forces_markdown() {
    let mut options = ScrapeOptions::default();
    options.formats = Some(vec![ScrapeFormats::HTML, ScrapeFormats::Links]);
    options.mobile = Some(true);
    let req = ScrapeUrlInput { url: "https://example.com".into(), options }.into_request();
    assert_eq!(req.options.formats, Some(vec![ScrapeFormats::Markdown]));
    assert_eq!(req.options.mobile, Some(true));
    let fresh = ScrapeOptions::markdown_only(None);
    let mut expected = ScrapeOptions::default();
    expected.formats = Some(vec![ScrapeFormats::Markdown]);
    assert_eq!(fresh, expected);
}

#[test]
fn crawl_tool_fills_webhook_and_formats() {
    let mut options = CrawlOptions::default();
    options.limit = Some(5);
    let input = CrawlUrlInput {
        url: "https://example.com".into(),
        options,
        poll_interval: Some(100),
        idempotency_key: None,
        webhook: None,
    };
    let (body, interval) = input.into_tool_request();
    assert_eq!(interval, Some(100));
    assert_eq!(body.webhook.url, "https://example.com/webhook");
    assert_eq!(body.options.limit, Some(5));
    assert_eq!(body.options.scrape_options.unwrap().formats, Some(vec![ScrapeFormats::Markdown]));

    let hook = BatchScrapeWebhook { url: "https://hook".into(), ..Default::default() };
    let input = CrawlUrlInput {
        url: "u".into(),
        options: CrawlOptions::default(),
        poll_interval: None,
        idempotency_key: None,
        webhook: Some(hook.clone()),
    };
    assert_eq!(input.into_tool_request().0.webhook, hook);
}

#[test]
fn batch_tool_request() {
    let input = BatchScrapeUrlsInput {
        urls: vec!["https://a".into()],
        webhook: None,
        ignore_invalid_urls: None,
        poll_interval: None,
        idempotency_key: None,
        options: None,
    };
    let (body, interval) = input.into_tool_request();
    assert_eq!(interval, None);
    assert_eq!(body.urls, vec!["https://a".to_string()]);
    assert_eq!(body.ignore_invalid_urls, Some(true));
    assert_eq!(body.webhook, None);
    assert_eq!(body.options.formats, Some(vec![ScrapeFormats::Markdown]));
    assert_eq!(body.options.mobile, None);
}

#[test]
fn crawl_formats_convert() {
    assert_eq!(ScrapeFormats::from(CrawlScrapeFormats::ScreenshotFullPage), ScrapeFormats::ScreenshotFullPage);
    assert_eq!(ScrapeFormats::from(CrawlScrapeFormats::RawHTML), ScrapeFormats::RawHTML);
}

#[test]
fn batch_scrape_test_batch_scrape_options_to_scrape_options() {
    let batch_options = BatchScrapeOptions {
        formats: Some(vec![ScrapeFormats::Markdown]),
        only_main_content: Some(true),
        include_tags: Some(vec!["div".to_string()]),
        exclude_tags: Some(vec!["img".to_string()]),
        headers: Some(HashMap::new()),
        wait_for: Some(1000),
        mobile: Some(true),
        skip_tls_verification: Some(false),
        timeout: Some(2000),
        json_options: Some(JsonOptions::default()),
        actions: Some(vec![]),
        location: Some(LocationOptions::default()),
        remove_base64_images: Some(true),
        block_ads: Some(true),
        proxy: Some("basic".to_string()),
    };

    let scrape_options: ScrapeOptions = batch_options.into();

    assert_eq!(scrape_options.formats.as_ref().unwrap().len(), 1);
    assert!(matches!(scrape_options.formats.as_ref().unwrap()[0], ScrapeFormats::Markdown));
    assert!(scrape_options.only_main_content.unwrap());
    assert_eq!(scrape_options.include_tags.as_ref().unwrap()[0], "div");
    assert_eq!(scrape_options.exclude_tags.as_ref().unwrap()[0], "img");
    assert_eq!(scrape_options.wait_for.unwrap(), 1000);
    assert!(scrape_options.headers.is_some());
    assert!(scrape_options.mobile.unwrap());
    assert!(!scrape_options.skip_tls_verification.unwrap());
    assert_eq!(scrape_options.timeout.unwrap(), 2000);
    assert!(scrape_options.json_options.is_some());
    assert!(scrape_options.actions.is_some());
    assert!(scrape_options.location.is_some());
    assert!(scrape_options.remove_base64_images.unwrap());
    assert!(scrape_options.block_ads.unwrap());
    assert_eq!(scrape_options.proxy.as_ref().unwrap(), "basic");
}

#[test]
fn batch_options_default_is_unset() {
    let o = BatchScrapeOptions::default();
    let s: ScrapeOptions = o.into();
    assert_eq!(s, ScrapeOptions::default());
}

#[test]
fn error_messages() {
    let snap = firecrawl::status::StatusSnapshot {
        status: firecrawl::status::JobState::Failed,
        total: 0,
        completed: 0,
        credits_used: 0,
        expires_at: None,
        next: None,
        data: vec![],
    };
    assert_eq!(FirecrawlError::JobFailed(snap.clone()).message(), "job failed");
    assert_eq!(FirecrawlError::JobCancelled(snap).message(), "job cancelled");
    assert_eq!(FirecrawlError::HttpError("Mapping".into(), "timed out".into()).message(), "Mapping failed: timed out");
    assert_eq!(
        FirecrawlError::HttpRequestFailed("search".into(), 500, "500".into()).message(),
        "search failed with status 500"
    );
    assert_eq!(FirecrawlError::ResponseParseError("eof".into()).message(), "could not read the response: eof");
    assert_eq!(FirecrawlError::InvalidParameters("x".into()).message(), "invalid parameters: x");
}

#[test]
fn api_error_body_on_success_is_a_protocol_error() {
    let api = FirecrawlAPIError { error: "odd".into(), details: None };
    assert!(matches!(
        handle_response::<u8>("x".into(), 200, "200".into(), ResponseBody::ApiError(api)),
        Err(FirecrawlError::ResponseParseError(m)) if m == "odd"
    ));
}
