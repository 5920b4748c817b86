use firecrawl::document::Document;
use firecrawl::engine::{JobOutcome, PollSession, PollStep, SessionPhase, DEFAULT_POLL_INTERVAL_MS};
use firecrawl::error::FirecrawlError;
use firecrawl::status::{BatchScrapeStatusTypes, CrawlStatusTypes, JobState, StatusSnapshot};

fn doc(url: &str) -> Document {
    let mut d = Document::default();
    d.metadata.source_url = url.to_string();
    d.markdown = Some(format!("content of {}", url));
    d
}

fn snapshot(status: JobState, completed: u64, total: u64, next: Option<&str>, data: Vec<Document>) -> StatusSnapshot {
    StatusSnapshot {
        status,
        total,
        completed,
        credits_used: completed,
        expires_at: None,
        next: next.map(|s| s.to_string()),
        data,
    }
}

/// Feeds the snapshots one by one, as a driver would, and counts the waits
/// and the cursors used for each status check.
fn drive(session: &mut PollSession, snaps: Vec<StatusSnapshot>) -> (Option<JobOutcome>, usize, Vec<Option<String>>) {
    let mut waits = 0;
    let mut cursors = vec![session.cursor()];
    for s in snaps {
        assert!(!session.is_finished());
        match session.observe(s) {
            PollStep::FetchNow => cursors.push(session.cursor()),
            PollStep::WaitThenFetch(_) => {
                waits += 1;
                cursors.push(session.cursor());
            }
            PollStep::Finished(o) => return (Some(o), waits, cursors),
        }
    }
    (None, waits, cursors)
}

#[test]
fn progress_then_completion_waits_once() {
    let mut session = PollSession::new(None);
    let first = session.observe(snapshot(JobState::Scraping, 0, 2, None, vec![]));
    assert!(matches!(first, PollStep::WaitThenFetch(ms) if ms == DEFAULT_POLL_INTERVAL_MS));
    assert_eq!(DEFAULT_POLL_INTERVAL_MS, 2000);
    assert_eq!(session.phase(), SessionPhase::Running);
    let second = session.observe(snapshot(JobState::Completed, 2, 2, None, vec![doc("a"), doc("b")]));
    match second {
        PollStep::Finished(JobOutcome::Succeeded(s)) => {
            assert_eq!(s.data, vec![doc("a"), doc("b")]);
            assert_eq!(s.completed, 2);
            assert_eq!(s.total, 2);
        }
        other => panic!("unexpected step {:?}", other),
    }
    assert_eq!(session.phase(), SessionPhase::Succeeded);
    assert!(session.is_finished());
}

#[test]
fn pagination_is_drained_without_waiting() {
    let mut session = PollSession::new(Some(500));
    let (outcome, waits, cursors) = drive(
        &mut session,
        vec![
            snapshot(JobState::Completed, 2, 2, Some("cursor-1"), vec![doc("a")]),
            snapshot(JobState::Completed, 2, 2, None, vec![doc("b")]),
        ],
    );
    assert_eq!(waits, 0);
    assert_eq!(cursors, vec![None, Some("cursor-1".to_string())]);
    match outcome {
        Some(JobOutcome::Succeeded(s)) => {
            assert_eq!(s.data, vec![doc("a"), doc("b")]);
            assert_eq!(s.next, None);
        }
        other => panic!("unexpected outcome {:?}", other),
    }
}

#[test]
fn failure_carries_partial_documents() {
    let mut session = PollSession::new(None);
    let step = session.observe(snapshot(JobState::Failed, 1, 3, None, vec![doc("a")]));
    let outcome = match step {
        PollStep::Finished(o) => o,
        other => panic!("unexpected step {:?}", other),
    };
    match outcome.into_result() {
        Err(FirecrawlError::JobFailed(s)) => {
            assert_eq!(s.data, vec![doc("a")]);
            assert_eq!(s.status, JobState::Failed);
        }
        other => panic!("unexpected result {:?}", other),
    }
    assert_eq!(session.phase(), SessionPhase::Failed);
}

#[test]
fn failure_after_pages_keeps_every_page() {
    let mut session = PollSession::new(None);
    let (outcome, waits, _) = drive(
        &mut session,
        vec![
            snapshot(JobState::Scraping, 1, 3, Some("c1"), vec![doc("a")]),
            snapshot(JobState::Scraping, 1, 3, None, vec![doc("b")]),
            snapshot(JobState::Failed, 2, 3, None, vec![doc("c")]),
        ],
    );
    assert_eq!(waits, 1);
    match outcome {
        Some(JobOutcome::Failed(s)) => assert_eq!(s.data, vec![doc("a"), doc("b"), doc("c")]),
        other => panic!("unexpected outcome {:?}", other),
    }
}

#[test]
fn cancellation_carries_partial_documents() {
    let mut session = PollSession::new(None);
    let (outcome, _, _) = drive(
        &mut session,
        vec![
            snapshot(JobState::Scraping, 1, 4, None, vec![doc("a")]),
            snapshot(JobState::Cancelled, 1, 4, None, vec![]),
        ],
    );
    match outcome.expect("session ends").into_result() {
        Err(FirecrawlError::JobCancelled(s)) => assert_eq!(s.data, vec![doc("a")]),
        other => panic!("unexpected result {:?}", other),
    }
    assert_eq!(session.phase(), SessionPhase::Cancelled);
}

#[test]
fn one_check_per_snapshot_and_documents_concatenated() {
    let mut session = PollSession::new(Some(10));
    let snaps = vec![
        snapshot(JobState::Scraping, 0, 4, None, vec![doc("a")]),
        snapshot(JobState::Scraping, 1, 4, None, vec![]),
        snapshot(JobState::Scraping, 3, 4, None, vec![doc("b"), doc("c")]),
        snapshot(JobState::Completed, 4, 4, None, vec![doc("d")]),
    ];
    let n = snaps.len();
    let (outcome, waits, cursors) = drive(&mut session, snaps);
    assert_eq!(cursors.len(), n);
    assert!(cursors.iter().all(|c| c.is_none()));
    assert_eq!(waits, n - 1);
    match outcome {
        Some(JobOutcome::Succeeded(s)) => {
            assert_eq!(s.data, vec![doc("a"), doc("b"), doc("c"), doc("d")]);
        }
        other => panic!("unexpected outcome {:?}", other),
    }
}

#[test]
fn waits_once_per_progress_report() {
    for n in 0..5usize {
        let mut session = PollSession::new(None);
        let mut snaps = vec![snapshot(JobState::Scraping, 0, 10, None, vec![])];
        for k in 0..n {
            snaps.push(snapshot(JobState::Scraping, k as u64, 10, None, vec![]));
        }
        snaps.push(snapshot(JobState::Completed, 10, 10, None, vec![]));
        let (outcome, waits, _) = drive(&mut session, snaps);
        assert!(matches!(outcome, Some(JobOutcome::Succeeded(_))));
        assert_eq!(waits, n + 1);
    }
}

#[test]
fn cursor_is_followed_whatever_the_state() {
    for state in [JobState::Scraping, JobState::Completed, JobState::Failed, JobState::Cancelled] {
        let mut session = PollSession::new(None);
        let step = session.observe(snapshot(state, 0, 1, Some("next-page"), vec![doc("a")]));
        assert!(matches!(step, PollStep::FetchNow));
        assert_eq!(session.cursor(), Some("next-page".to_string()));
        assert_eq!(session.phase(), SessionPhase::Paginating);
    }
}

#[test]
fn progress_report_restarts_from_the_head() {
    let mut session = PollSession::new(None);
    let _ = session.observe(snapshot(JobState::Scraping, 0, 2, Some("c1"), vec![]));
    assert_eq!(session.cursor(), Some("c1".to_string()));
    let step = session.observe(snapshot(JobState::Scraping, 1, 2, None, vec![]));
    assert!(matches!(step, PollStep::WaitThenFetch(2000)));
    assert_eq!(session.cursor(), None);
}

#[test]
fn identical_snapshots_are_each_counted_once() {
    let mut session = PollSession::new(None);
    let same = snapshot(JobState::Scraping, 1, 2, None, vec![doc("a")]);
    let s1 = session.observe(same.clone());
    let s2 = session.observe(same);
    assert!(matches!(s1, PollStep::WaitThenFetch(2000)));
    assert!(matches!(s2, PollStep::WaitThenFetch(2000)));
    match session.observe(snapshot(JobState::Completed, 2, 2, None, vec![])) {
        PollStep::Finished(JobOutcome::Succeeded(s)) => assert_eq!(s.data, vec![doc("a"), doc("a")]),
        other => panic!("unexpected step {:?}", other),
    }
}

#[test]
fn completed_page_merging() {
    let mut s = snapshot(JobState::Completed, 3, 3, Some("page-2"), vec![doc("a")]);
    s.merge_page(snapshot(JobState::Completed, 3, 3, Some("page-3"), vec![doc("b")]));
    assert_eq!(s.next, Some("page-3".to_string()));
    s.merge_page(snapshot(JobState::Completed, 3, 3, None, vec![doc("c")]));
    assert_eq!(s.next, None);
    assert_eq!(s.data, vec![doc("a"), doc("b"), doc("c")]);
    assert_eq!(s.status, JobState::Completed);
}

#[test]
fn status_kinds_map_to_job_states() {
    assert_eq!(BatchScrapeStatusTypes::default(), BatchScrapeStatusTypes::Scraping);
    assert_eq!(BatchScrapeStatusTypes::Completed.job_state(), JobState::Completed);
    assert_eq!(BatchScrapeStatusTypes::Failed.job_state(), JobState::Failed);
    assert_eq!(CrawlStatusTypes::Cancelled.job_state(), JobState::Cancelled);
    assert_eq!(CrawlStatusTypes::Scraping.job_state(), JobState::Scraping);
}

#[test]
fn resumed_session_starts_at_its_cursor() {
    let mut session = PollSession::resume(Some(5), "c7".to_string());
    assert_eq!(session.cursor(), Some("c7".to_string()));
    assert_eq!(session.phase(), SessionPhase::Paginating);
    let step = session.observe(snapshot(JobState::Scraping, 0, 1, None, vec![doc("a")]));
    assert!(matches!(step, PollStep::WaitThenFetch(5)));
    assert_eq!(session.cursor(), None);
}

#[test]
fn failed_check_leaves_session_unchanged() {
    let mut session = PollSession::new(None);
    let _ = session.observe(snapshot(JobState::Scraping, 0, 2, Some("c1"), vec![doc("a")]));
    let r = session.observe_check(Err(FirecrawlError::HttpError("Checking".into(), "reset".into())));
    assert!(matches!(r, Err(FirecrawlError::HttpError(a, m)) if a == "Checking" && m == "reset"));
    assert_eq!(session.cursor(), Some("c1".to_string()));
    assert_eq!(session.phase(), SessionPhase::Paginating);
    match session.observe_check(Ok(snapshot(JobState::Completed, 2, 2, None, vec![doc("b")]))) {
        Ok(PollStep::Finished(JobOutcome::Succeeded(s))) => assert_eq!(s.data, vec![doc("a"), doc("b")]),
        other => panic!("unexpected {:?}", other),
    }
}

#[test]
fn identical_snapshots_many_times() {
    let mut session = PollSession::new(Some(1));
    let same = snapshot(JobState::Scraping, 1, 3, None, vec![doc("a"), doc("b")]);
    let m = 4;
    let mut snaps = vec![same; m];
    snaps.push(snapshot(JobState::Completed, 3, 3, None, vec![doc("c")]));
    let (outcome, waits, _) = drive(&mut session, snaps);
    assert_eq!(waits, m);
    match outcome {
        Some(JobOutcome::Succeeded(s)) => {
            assert_eq!(s.data.len(), m * 2 + 1);
            let mut expected = Vec::new();
            for _ in 0..m {
                expected.push(doc("a"));
                expected.push(doc("b"));
            }
            expected.push(doc("c"));
            assert_eq!(s.data, expected);
        }
        other => panic!("unexpected outcome {:?}", other),
    }
}

#[test]
fn only_completed_pages_are_drained() {
    let done = snapshot(JobState::Completed, 1, 1, Some("page-2"), vec![]);
    assert_eq!(done.page_to_drain(), Some("page-2".to_string()));
    let running = snapshot(JobState::Scraping, 0, 1, Some("page-2"), vec![]);
    assert_eq!(running.page_to_drain(), None);
    let last = snapshot(JobState::Completed, 1, 1, None, vec![]);
    assert_eq!(last.page_to_drain(), None);
}
