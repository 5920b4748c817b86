//! Status snapshots of a long-running job, as one status check returns them.
use crate::document::Document;
use vstd::prelude::*;

verus! {

/// Lifecycle states that the service reports for a crawl job.
#[derive(Clone, Copy, Debug, PartialEq, Eq, Structural)]
pub enum CrawlStatusTypes {
    Scraping,
    Completed,
    Failed,
    Cancelled,
}

/// Lifecycle states that the service reports for a batch-scrape job; a batch
/// cannot be cancelled.
#[derive(Clone, Copy, Debug, PartialEq, Eq, Structural)]
pub enum BatchScrapeStatusTypes {
    Scraping,
    Completed,
    Failed,
}

impl Default for BatchScrapeStatusTypes {
    fn default() -> (r: Self)
        ensures
            r == BatchScrapeStatusTypes::Scraping,
    {
        BatchScrapeStatusTypes::Scraping
    }
}

/// The lifecycle state of a job of either kind.
#[derive(Clone, Copy, Debug, PartialEq, Eq, Structural)]
pub enum JobState {
    Scraping,
    Completed,
    Failed,
    Cancelled,
}

impl CrawlStatusTypes {
    pub open spec fn job_state_spec(self) -> JobState {
        match self {
            CrawlStatusTypes::Scraping => JobState::Scraping,
            CrawlStatusTypes::Completed => JobState::Completed,
            CrawlStatusTypes::Failed => JobState::Failed,
            CrawlStatusTypes::Cancelled => JobState::Cancelled,
        }
    }

    /// The lifecycle state this crawl status stands for.
    pub fn job_state(self) -> (r: JobState)
        ensures
            r == self.job_state_spec(),
    {
        match self {
            CrawlStatusTypes::Scraping => JobState::Scraping,
            CrawlStatusTypes::Completed => JobState::Completed,
            CrawlStatusTypes::Failed => JobState::Failed,
            CrawlStatusTypes::Cancelled => JobState::Cancelled,
        }
    }
}

impl BatchScrapeStatusTypes {
    pub open spec fn job_state_spec(self) -> JobState {
        match self {
            BatchScrapeStatusTypes::Scraping => JobState::Scraping,
            BatchScrapeStatusTypes::Completed => JobState::Completed,
            BatchScrapeStatusTypes::Failed => JobState::Failed,
        }
    }

    /// The lifecycle state this batch status stands for; never `Cancelled`.
    pub fn job_state(self) -> (r: JobState)
        ensures
            r == self.job_state_spec(),
            r != JobState::Cancelled,
    {
        match self {
            BatchScrapeStatusTypes::Scraping => JobState::Scraping,
            BatchScrapeStatusTypes::Completed => JobState::Completed,
            BatchScrapeStatusTypes::Failed => JobState::Failed,
        }
    }
}

/// The view of an optional string.
pub open spec fn opt_view(o: Option<String>) -> Option<Seq<char>> {
    match o {
        Some(s) => Some(s@),
        None => None,
    }
}

/// One status response for a job.
#[derive(Clone, Debug, PartialEq, Eq)]
pub struct StatusSnapshot {
    pub status: JobState,
    /// Number of items the job will process; may grow while it runs.
    pub total: u64,
    /// Number of items processed so far.
    pub completed: u64,
    pub credits_used: u64,
    /// When the results stop being available, as the service writes it.
    pub expires_at: Option<String>,
    /// Continuation cursor: more pages of results are waiting behind it.
    pub next: Option<String>,
    /// The documents of this page, in order.
    pub data: Vec<Document>,
}

/// The mathematical content of a `StatusSnapshot`.
pub struct SnapshotView {
    pub status: JobState,
    pub total: u64,
    pub completed: u64,
    pub credits_used: u64,
    pub expires_at: Option<Seq<char>>,
    pub next: Option<Seq<char>>,
    pub data: Seq<Document>,
}

impl View for StatusSnapshot {
    type V = SnapshotView;

    open spec fn view(&self) -> SnapshotView {
        SnapshotView {
            status: self.status,
            total: self.total,
            completed: self.completed,
            credits_used: self.credits_used,
            expires_at: opt_view(self.expires_at),
            next: opt_view(self.next),
            data: self.data@,
        }
    }
}

impl StatusSnapshot {
    /// The page to fetch next to complete this snapshot: the cursor of a
    /// completed job, and nothing for a job in any other state.
    pub fn page_to_drain(&self) -> (r: Option<String>)
        ensures
            opt_view(r) == if self.status == JobState::Completed {
                opt_view(self.next)
            } else {
                None
            },
    {
        match (&self.status, &self.next) {
            (JobState::Completed, Some(c)) => Some(c.clone()),
            _ => None,
        }
    }

    /// Folds the next page of a completed job into this snapshot: its
    /// documents are appended and its cursor replaces this one.
    pub fn merge_page(&mut self, page: StatusSnapshot)
        ensures
            final(self)@ == (SnapshotView {
                data: old(self)@.data + page@.data,
                next: page@.next,
                ..old(self)@
            }),
    {
        let StatusSnapshot { next, mut data, .. } = page;
        self.data.append(&mut data);
        self.next = next;
    }
}

/// The answer to a job submission.
#[derive(Clone, Debug, PartialEq, Eq)]
pub struct CrawlAsyncResponse {
    pub success: bool,
    /// Job identifier.
    pub id: String,
    /// URL to check the job's status at.
    pub url: String,
}

} // verus!
