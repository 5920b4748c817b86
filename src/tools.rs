//! The tool facade: operation names, and the text each operation answers with.
use crate::document::Document;
use crate::error::FirecrawlError;
use crate::json::{pretty_json_of_strings, string_views, strings_to_pretty_json};
use crate::search::SearchResult;
use vstd::prelude::*;
use vstd::string::StringExecFns;

verus! {

/// The operations offered to tool callers.
#[derive(Clone, Copy, Debug, PartialEq, Eq, Structural)]
pub enum Operation {
    Scrape,
    Crawl,
    BatchScrape,
    MapUrls,
    Search,
}

impl Operation {
    pub open spec fn name_spec(self) -> Seq<char> {
        match self {
            Operation::Scrape => "firecrawl_scrape"@,
            Operation::Crawl => "firecrawl_crawl"@,
            Operation::BatchScrape => "firecrawl_batch_scrape"@,
            Operation::MapUrls => "firecrawl_map"@,
            Operation::Search => "firecrawl_search"@,
        }
    }

    /// The name callers invoke the operation by.
    pub fn name(self) -> (r: String)
        ensures
            r@ == self.name_spec(),
    {
        match self {
            Operation::Scrape => String::from_str("firecrawl_scrape"),
            Operation::Crawl => String::from_str("firecrawl_crawl"),
            Operation::BatchScrape => String::from_str("firecrawl_batch_scrape"),
            Operation::MapUrls => String::from_str("firecrawl_map"),
            Operation::Search => String::from_str("firecrawl_search"),
        }
    }

    /// The operation of that name; an unknown name is an error naming it.
    pub fn from_name(name: &str) -> (r: Result<Operation, FirecrawlError>)
        ensures
            r matches Ok(op) ==> op.name_spec() == name@,
            r is Err <==> forall|op: Operation| #[trigger] op.name_spec() != name@,
            r matches Err(e) ==> e matches FirecrawlError::OperationNotFound(n) && n@ == name@,
    {
        let n = String::from_str(name);
        let all: [Operation; 5] = [
            Operation::Scrape,
            Operation::Crawl,
            Operation::BatchScrape,
            Operation::MapUrls,
            Operation::Search,
        ];
        let mut i: usize = 0;
        while i < 5
            invariant
                n@ == name@,
                all@ == seq![
                    Operation::Scrape,
                    Operation::Crawl,
                    Operation::BatchScrape,
                    Operation::MapUrls,
                    Operation::Search,
                ],
                i <= 5,
                forall|j: int| 0 <= j < i ==> all@[j].name_spec() != name@,
            decreases 5 - i,
        {
            let op = all[i];
            if op.name() == n {
                return Ok(op);
            }
            i += 1;
        }
        assert forall|op: Operation| #[trigger] op.name_spec() != name@ by {
            match op {
                Operation::Scrape => assert(all@[0] == op),
                Operation::Crawl => assert(all@[1] == op),
                Operation::BatchScrape => assert(all@[2] == op),
                Operation::MapUrls => assert(all@[3] == op),
                Operation::Search => assert(all@[4] == op),
            }
        }
        Err(FirecrawlError::OperationNotFound(n))
    }
}

/// The parameters of a call, which must be given: a call without them is a
/// caller's error, not an empty set of parameters.
pub fn required_parameters<T>(params: Option<T>) -> (r: Result<T, FirecrawlError>)
    ensures
        match params {
            Some(p) => r == Ok::<T, FirecrawlError>(p),
            None => r matches Err(FirecrawlError::InvalidParameters(m)) && m@ == "missing parameters"@,
        },
{
    match params {
        Some(p) => Ok(p),
        None => Err(FirecrawlError::InvalidParameters(String::from_str("missing parameters"))),
    }
}

/// An optional text, or the empty text.
pub open spec fn or_empty(o: Option<String>) -> Seq<char> {
    match o {
        Some(s) => s@,
        None => Seq::empty(),
    }
}

/// The parts with `sep` between each two neighbours.
pub open spec fn join(parts: Seq<Seq<char>>, sep: Seq<char>) -> Seq<char>
    decreases parts.len(),
{
    if parts.len() == 0 {
        Seq::empty()
    } else if parts.len() == 1 {
        parts[0]
    } else {
        join(parts.drop_last(), sep) + sep + parts.last()
    }
}

/// The record of one page: its source URL, its title and its Markdown.
pub open spec fn page_record(d: Document) -> Seq<char> {
    "URL: "@ + d.metadata.source_url@ + "\nTitle: "@ + or_empty(d.metadata.title) + "\nContent: "@
        + or_empty(d.markdown)
}

/// What a crawl answers: the page records, a blank line between each two.
pub open spec fn crawl_text(docs: Seq<Document>) -> Seq<char> {
    join(docs.map_values(|d: Document| page_record(d)), "\n\n"@)
}

/// What a batch scrape answers: each page record closed by a blank line,
/// and a blank line between each two.
pub open spec fn batch_text(docs: Seq<Document>) -> Seq<char> {
    join(docs.map_values(|d: Document| page_record(d) + "\n\n"@), "\n\n"@)
}

/// The record of one search hit.
pub open spec fn search_record(h: SearchResult) -> Seq<char> {
    "Title: "@ + h.title@ + "\nURL: "@ + h.url@ + "\nDescription: "@ + h.description@ + "\n"@
}

/// What a search answers: a notice where nothing was found, else the hit
/// records with a rule between each two.
pub open spec fn search_text(hits: Seq<SearchResult>) -> Seq<char> {
    if hits.len() == 0 {
        "No search results found."@
    } else {
        join(hits.map_values(|h: SearchResult| search_record(h)), "\n---\n\n"@)
    }
}

fn append_optional(out: &mut String, o: &Option<String>)
    ensures
        final(out)@ == old(out)@ + or_empty(*o),
{
    match o {
        Some(s) => out.append(s.as_str()),
        None => {
            assert(old(out)@ + or_empty(*o) =~= old(out)@);
        },
    }
}

fn append_page_record(out: &mut String, d: &Document)
    ensures
        final(out)@ == old(out)@ + page_record(*d),
{
    out.append("URL: ");
    out.append(d.metadata.source_url.as_str());
    out.append("\nTitle: ");
    append_optional(out, &d.metadata.title);
    out.append("\nContent: ");
    append_optional(out, &d.markdown);
    assert(final(out)@ =~= old(out)@ + page_record(*d));
}

fn append_search_record(out: &mut String, h: &SearchResult)
    ensures
        final(out)@ == old(out)@ + search_record(*h),
{
    out.append("Title: ");
    out.append(h.title.as_str());
    out.append("\nURL: ");
    out.append(h.url.as_str());
    out.append("\nDescription: ");
    out.append(h.description.as_str());
    out.append("\n");
    assert(final(out)@ =~= old(out)@ + search_record(*h));
}

proof fn lemma_join_step(parts: Seq<Seq<char>>, i: int, sep: Seq<char>)
    requires
        0 <= i < parts.len(),
    ensures
        join(parts.subrange(0, i + 1), sep) == join(parts.subrange(0, i), sep) + (if i > 0 {
            sep
        } else {
            Seq::empty()
        }) + parts[i],
{
    let next = parts.subrange(0, i + 1);
    assert(next.drop_last() =~= parts.subrange(0, i));
    if i == 0 {
        assert(join(parts.subrange(0, 0), sep) =~= Seq::empty());
        assert(Seq::<char>::empty() + Seq::<char>::empty() + parts[0] =~= parts[0]);
    }
}

/// The text a crawl answers with.
pub fn format_crawl_documents(docs: &Vec<Document>) -> (r: String)
    ensures
        r@ == crawl_text(docs@),
{
    let ghost parts = docs@.map_values(|d: Document| page_record(d));
    let mut out = String::new();
    let mut i: usize = 0;
    while i < docs.len()
        invariant
            i <= docs.len(),
            parts == docs@.map_values(|d: Document| page_record(d)),
            out@ == join(parts.subrange(0, i as int), "\n\n"@),
        decreases docs.len() - i,
    {
        proof {
            lemma_join_step(parts, i as int, "\n\n"@);
        }
        if i > 0 {
            out.append("\n\n");
        } else {
            assert(out@ + Seq::<char>::empty() =~= out@);
        }
        append_page_record(&mut out, &docs[i]);
        i += 1;
    }
    assert(parts.subrange(0, docs.len() as int) =~= parts);
    out
}

/// The text a batch scrape answers with.
pub fn format_batch_documents(docs: &Vec<Document>) -> (r: String)
    ensures
        r@ == batch_text(docs@),
{
    let ghost parts = docs@.map_values(|d: Document| page_record(d) + "\n\n"@);
    let mut out = String::new();
    let mut i: usize = 0;
    while i < docs.len()
        invariant
            i <= docs.len(),
            parts == docs@.map_values(|d: Document| page_record(d) + "\n\n"@),
            out@ == join(parts.subrange(0, i as int), "\n\n"@),
        decreases docs.len() - i,
    {
        proof {
            lemma_join_step(parts, i as int, "\n\n"@);
        }
        if i > 0 {
            out.append("\n\n");
        } else {
            assert(out@ + Seq::<char>::empty() =~= out@);
        }
        let ghost before = out@;
        append_page_record(&mut out, &docs[i]);
        out.append("\n\n");
        assert(out@ =~= before + (page_record(docs@[i as int]) + "\n\n"@));
        i += 1;
    }
    assert(parts.subrange(0, docs.len() as int) =~= parts);
    out
}

/// The text a search answers with.
pub fn format_search_results(hits: &Vec<SearchResult>) -> (r: String)
    ensures
        r@ == search_text(hits@),
{
    if hits.len() == 0 {
        return String::from_str("No search results found.");
    }
    let ghost parts = hits@.map_values(|h: SearchResult| search_record(h));
    let mut out = String::new();
    let mut i: usize = 0;
    while i < hits.len()
        invariant
            i <= hits.len(),
            parts == hits@.map_values(|h: SearchResult| search_record(h)),
            out@ == join(parts.subrange(0, i as int), "\n---\n\n"@),
        decreases hits.len() - i,
    {
        proof {
            lemma_join_step(parts, i as int, "\n---\n\n"@);
        }
        if i > 0 {
            out.append("\n---\n\n");
        } else {
            assert(out@ + Seq::<char>::empty() =~= out@);
        }
        append_search_record(&mut out, &hits[i]);
        i += 1;
    }
    assert(parts.subrange(0, hits.len() as int) =~= parts);
    out
}

/// The text a scrape answers with: the page's Markdown, or nothing.
pub fn scrape_text(d: &Document) -> (r: String)
    ensures
        r@ == or_empty(d.markdown),
{
    match &d.markdown {
        Some(m) => m.clone(),
        None => String::new(),
    }
}

/// The text a map answers with: the links as a pretty-printed JSON array.
pub fn format_links(links: &Vec<String>) -> (r: Result<String, FirecrawlError>)
    ensures
        r is Ok,
        r matches Ok(s) ==> s@ == pretty_json_of_strings(string_views(links@)),
{
    match strings_to_pretty_json(links) {
        Ok(s) => Ok(s),
        Err(_) => Err(
            FirecrawlError::ResponseParseError(String::from_str("the links could not be written as JSON")),
        ),
    }
}

} // verus!
