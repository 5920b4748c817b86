//! The poll-and-paginate engine: one session per submitted job, fed with the
//! snapshots that status checks return, deciding after each one whether to
//! fetch the next page at once, wait and check again, or stop.
//!
//! The session performs no I/O. Whoever drives it issues the status check
//! that `cursor` names, hands the snapshot to `observe`, and carries out the
//! returned step.
use crate::document::Document;
use crate::error::FirecrawlError;
use crate::status::{opt_view, JobState, SnapshotView, StatusSnapshot};
use vstd::prelude::*;

verus! {

/// Milliseconds to wait between status checks when the caller names none.
pub const DEFAULT_POLL_INTERVAL_MS: u64 = 2000;

/// Where a polling session stands.
#[derive(Clone, Copy, Debug, PartialEq, Eq, Structural)]
pub enum SessionPhase {
    /// Waiting on the job's progress.
    Running,
    /// Draining further pages of results.
    Paginating,
    Succeeded,
    Failed,
    Cancelled,
}

impl SessionPhase {
    pub open spec fn is_terminal(self) -> bool {
        match self {
            SessionPhase::Succeeded | SessionPhase::Failed | SessionPhase::Cancelled => true,
            _ => false,
        }
    }
}

/// The state of one polling session.
pub struct PollSession {
    poll_interval: u64,
    accumulated: Vec<Document>,
    cursor: Option<String>,
    phase: SessionPhase,
}

/// The mathematical content of a `PollSession`.
pub struct SessionView {
    pub poll_interval: u64,
    /// Every document observed so far, in observation order.
    pub accumulated: Seq<Document>,
    /// The cursor the next status check uses; `None` checks the job's head.
    pub cursor: Option<Seq<char>>,
    pub phase: SessionPhase,
}

impl View for PollSession {
    type V = SessionView;

    closed spec fn view(&self) -> SessionView {
        SessionView {
            poll_interval: self.poll_interval,
            accumulated: self.accumulated@,
            cursor: opt_view(self.cursor),
            phase: self.phase,
        }
    }
}

/// How a job ended.
#[derive(Debug)]
pub enum JobOutcome {
    Succeeded(StatusSnapshot),
    Failed(StatusSnapshot),
    Cancelled(StatusSnapshot),
}

/// What the driver of a session does next.
#[derive(Debug)]
pub enum PollStep {
    /// Check the status again at once, with the session's cursor.
    FetchNow,
    /// Wait this many milliseconds, then check the status again.
    WaitThenFetch(u64),
    /// The session is over.
    Finished(JobOutcome),
}

/// The mathematical content of a `PollStep`.
pub enum StepView {
    FetchNow,
    WaitThenFetch(u64),
    Succeeded(SnapshotView),
    Failed(SnapshotView),
    Cancelled(SnapshotView),
}

impl View for PollStep {
    type V = StepView;

    open spec fn view(&self) -> StepView {
        match self {
            PollStep::FetchNow => StepView::FetchNow,
            PollStep::WaitThenFetch(ms) => StepView::WaitThenFetch(*ms),
            PollStep::Finished(JobOutcome::Succeeded(s)) => StepView::Succeeded(s@),
            PollStep::Finished(JobOutcome::Failed(s)) => StepView::Failed(s@),
            PollStep::Finished(JobOutcome::Cancelled(s)) => StepView::Cancelled(s@),
        }
    }
}

/// A fresh session: nothing collected, no cursor.
pub open spec fn initial_view(poll_interval: u64) -> SessionView {
    SessionView {
        poll_interval,
        accumulated: Seq::empty(),
        cursor: None,
        phase: SessionPhase::Running,
    }
}

/// The session ends on this snapshot: it has no cursor and a final state.
pub open spec fn is_terminal_observation(snap: SnapshotView) -> bool {
    snap.next is None && snap.status != JobState::Scraping
}

/// One observation. The snapshot's documents are appended to those collected.
/// A cursor is followed at once, whatever the state says. Without one, a job
/// still scraping is checked again from its head after the poll interval, and
/// a final state ends the session with the snapshot, its documents replaced
/// by all those collected.
pub open spec fn observe_spec(s: SessionView, snap: SnapshotView) -> (SessionView, StepView) {
    let acc = s.accumulated + snap.data;
    match snap.next {
        Some(c) => (
            SessionView { accumulated: acc, cursor: Some(c), phase: SessionPhase::Paginating, ..s },
            StepView::FetchNow,
        ),
        None => {
            let last = SnapshotView { data: acc, ..snap };
            let ended = |p: SessionPhase|
                SessionView { accumulated: Seq::empty(), cursor: None, phase: p, ..s };
            match snap.status {
                JobState::Scraping => (
                    SessionView { accumulated: acc, cursor: None, phase: SessionPhase::Running, ..s },
                    StepView::WaitThenFetch(s.poll_interval),
                ),
                JobState::Completed => (ended(SessionPhase::Succeeded), StepView::Succeeded(last)),
                JobState::Failed => (ended(SessionPhase::Failed), StepView::Failed(last)),
                JobState::Cancelled => (ended(SessionPhase::Cancelled), StepView::Cancelled(last)),
            }
        },
    }
}

/// Drives a session through a sequence of snapshots, one status check each,
/// and stops at the first step that ends it. Returns the session and the
/// steps taken.
pub open spec fn run(s: SessionView, snaps: Seq<SnapshotView>) -> (SessionView, Seq<StepView>)
    decreases snaps.len(),
{
    if snaps.len() == 0 || s.phase.is_terminal() {
        (s, Seq::empty())
    } else {
        let (s1, st) = observe_spec(s, snaps[0]);
        let (s2, rest) = run(s1, snaps.drop_first());
        (s2, seq![st] + rest)
    }
}

/// The documents of all the snapshots, in order.
pub open spec fn all_documents(snaps: Seq<SnapshotView>) -> Seq<Document>
    decreases snaps.len(),
{
    if snaps.len() == 0 {
        Seq::empty()
    } else {
        snaps[0].data + all_documents(snaps.drop_first())
    }
}

/// How many of the steps are waits.
pub open spec fn count_waits(steps: Seq<StepView>) -> nat
    decreases steps.len(),
{
    if steps.len() == 0 {
        0
    } else {
        (if steps[0] is WaitThenFetch { 1nat } else { 0nat }) + count_waits(steps.drop_first())
    }
}

/// How many snapshots report a job still in progress with no further page.
pub open spec fn count_progress_reports(snaps: Seq<SnapshotView>) -> nat
    decreases snaps.len(),
{
    if snaps.len() == 0 {
        0
    } else {
        (if snaps[0].next is None && snaps[0].status == JobState::Scraping {
            1nat
        } else {
            0nat
        }) + count_progress_reports(snaps.drop_first())
    }
}

/// No snapshot before the last one ends a session.
pub open spec fn only_last_may_end(snaps: Seq<SnapshotView>) -> bool {
    forall|i: int| 0 <= i < snaps.len() - 1 ==> !is_terminal_observation(#[trigger] snaps[i])
}

/// A session that sees snapshots none of which ends it but the last takes
/// one step per snapshot; where the last one reports completion, the
/// result holds the documents collected before and those of every
/// snapshot, in order.
proof fn lemma_run_to_end(s: SessionView, snaps: Seq<SnapshotView>)
    requires
        !s.phase.is_terminal(),
        snaps.len() > 0,
        only_last_may_end(snaps),
    ensures
        run(s, snaps).1.len() == snaps.len(),
        count_waits(run(s, snaps).1) == count_progress_reports(snaps),
        forall|i: int| 0 <= i < snaps.len() - 1 ==> !(#[trigger] run(s, snaps).1[i] is Succeeded),
        snaps.last().next is None && snaps.last().status == JobState::Completed ==> run(s, snaps).1.last()
            == StepView::Succeeded(SnapshotView { data: s.accumulated + all_documents(snaps), ..snaps.last() }),
        is_terminal_observation(snaps.last()) ==> run(s, snaps).0.phase.is_terminal(),
    decreases snaps.len(),
{
    let (s1, st) = observe_spec(s, snaps[0]);
    let tail = snaps.drop_first();
    let steps = run(s, snaps).1;
    if snaps.len() == 1 {
        assert(tail.len() == 0);
        assert(all_documents(tail) =~= Seq::empty());
        assert(all_documents(snaps) =~= snaps[0].data);
        assert(count_progress_reports(tail) == 0);
        assert(steps =~= seq![st]);
        assert(steps.drop_first() =~= Seq::<StepView>::empty());
        assert(count_waits(Seq::<StepView>::empty()) == 0);
        assert(steps[0] == st);
    } else {
        assert(!is_terminal_observation(snaps[0]));
        assert(!s1.phase.is_terminal());
        assert forall|i: int| 0 <= i < tail.len() - 1 implies !is_terminal_observation(#[trigger] tail[i]) by {
            assert(tail[i] == snaps[i + 1]);
        }
        lemma_run_to_end(s1, tail);
        let rest = run(s1, tail).1;
        assert(steps == seq![st] + rest);
        assert(steps.drop_first() =~= rest);
        assert(steps[0] == st);
        assert(s1.accumulated + all_documents(tail) =~= s.accumulated + all_documents(snaps));
        assert(tail.last() == snaps.last());
        assert forall|i: int| 0 <= i < snaps.len() - 1 implies !(#[trigger] steps[i] is Succeeded) by {
            if i > 0 {
                assert(steps[i] == rest[i - 1]);
            }
        }
    }
}

/// The cursors of the status checks a session makes over a sequence of
/// snapshots, one per check, until the session ends: `None` is a check by
/// job identifier.
pub open spec fn check_cursors(s: SessionView, snaps: Seq<SnapshotView>) -> Seq<Option<Seq<char>>>
    decreases snaps.len(),
{
    if snaps.len() == 0 || s.phase.is_terminal() {
        Seq::empty()
    } else {
        seq![s.cursor] + check_cursors(observe_spec(s, snaps[0]).0, snaps.drop_first())
    }
}

/// While no snapshot carries a cursor, every check is made by job identifier.
proof fn lemma_checks_by_id(s: SessionView, snaps: Seq<SnapshotView>)
    requires
        !s.phase.is_terminal(),
        s.cursor is None,
        snaps.len() > 0,
        forall|i: int| 0 <= i < snaps.len() ==> (#[trigger] snaps[i]).next is None,
        forall|i: int| 0 <= i < snaps.len() - 1 ==> (#[trigger] snaps[i]).status == JobState::Scraping,
    ensures
        check_cursors(s, snaps).len() == snaps.len(),
        forall|i: int| 0 <= i < snaps.len() ==> (#[trigger] check_cursors(s, snaps)[i]) is None,
    decreases snaps.len(),
{
    let s1 = observe_spec(s, snaps[0]).0;
    let tail = snaps.drop_first();
    let cs = check_cursors(s, snaps);
    if snaps.len() == 1 {
        assert(check_cursors(s1, tail) =~= Seq::<Option<Seq<char>>>::empty());
        assert(cs =~= seq![s.cursor]);
    } else {
        assert(snaps[0].status == JobState::Scraping);
        assert forall|i: int| 0 <= i < tail.len() implies (#[trigger] tail[i]).next is None by {
            assert(tail[i] == snaps[i + 1]);
        }
        assert forall|i: int| 0 <= i < tail.len() - 1 implies (#[trigger] tail[i]).status == JobState::Scraping by {
            assert(tail[i] == snaps[i + 1]);
        }
        lemma_checks_by_id(s1, tail);
        let rest = check_cursors(s1, tail);
        assert(cs == seq![s.cursor] + rest);
        assert forall|i: int| 0 <= i < snaps.len() implies (#[trigger] cs[i]) is None by {
            if i > 0 {
                assert(cs[i] == rest[i - 1]);
            }
        }
    }
}

/// Polling a job that reports progress without further pages until it
/// completes takes exactly one status check per snapshot, each by job
/// identifier, waits the poll interval after each one before the last, makes
/// no check after the last, and returns the documents of all snapshots
/// concatenated in the order they were observed.
pub proof fn lemma_polling_collects_every_snapshot(poll_interval: u64, snaps: Seq<SnapshotView>)
    requires
        snaps.len() > 0,
        forall|i: int| 0 <= i < snaps.len() ==> (#[trigger] snaps[i]).next is None,
        forall|i: int| 0 <= i < snaps.len() - 1 ==> (#[trigger] snaps[i]).status == JobState::Scraping,
        snaps.last().status == JobState::Completed,
        forall|i: int, j: int|
            0 <= i <= j < snaps.len() ==> #[trigger] snaps[i].completed <= #[trigger] snaps[j].completed,
    ensures
        run(initial_view(poll_interval), snaps).1.len() == snaps.len(),
        forall|i: int| 0 <= i < snaps.len() - 1 ==> #[trigger] run(initial_view(poll_interval), snaps).1[i]
            == StepView::WaitThenFetch(poll_interval),
        run(initial_view(poll_interval), snaps).1.last()
            == StepView::Succeeded(SnapshotView { data: all_documents(snaps), ..snaps.last() }),
        run(initial_view(poll_interval), snaps).0.phase == SessionPhase::Succeeded,
        check_cursors(initial_view(poll_interval), snaps).len() == snaps.len(),
        forall|i: int| 0 <= i < snaps.len() ==> (#[trigger] check_cursors(initial_view(poll_interval), snaps)[i]) is None,
{
    let s = initial_view(poll_interval);
    assert forall|i: int| 0 <= i < snaps.len() - 1 implies !is_terminal_observation(#[trigger] snaps[i]) by {}
    lemma_checks_by_id(s, snaps);
    lemma_final_phase(s, snaps);
    lemma_run_to_end(s, snaps);
    assert(s.accumulated + all_documents(snaps) =~= all_documents(snaps));
    lemma_progress_waits(s, snaps);
}

/// While a job reports progress without further pages, every snapshot but
/// the last is answered with a wait of the session's interval.
proof fn lemma_progress_waits(s: SessionView, snaps: Seq<SnapshotView>)
    requires
        !s.phase.is_terminal(),
        snaps.len() > 0,
        forall|i: int| 0 <= i < snaps.len() ==> (#[trigger] snaps[i]).next is None,
        forall|i: int| 0 <= i < snaps.len() - 1 ==> (#[trigger] snaps[i]).status == JobState::Scraping,
    ensures
        forall|i: int| 0 <= i < snaps.len() - 1 ==> #[trigger] run(s, snaps).1[i]
            == StepView::WaitThenFetch(s.poll_interval),
    decreases snaps.len(),
{
    if snaps.len() > 1 {
        let (s1, st) = observe_spec(s, snaps[0]);
        let tail = snaps.drop_first();
        assert(snaps[0].status == JobState::Scraping);
        assert forall|i: int| 0 <= i < tail.len() implies (#[trigger] tail[i]).next is None by {
            assert(tail[i] == snaps[i + 1]);
        }
        assert forall|i: int| 0 <= i < tail.len() - 1 implies !is_terminal_observation(#[trigger] tail[i]) by {
            assert(tail[i] == snaps[i + 1]);
        }
        assert forall|i: int| 0 <= i < tail.len() - 1 implies (#[trigger] tail[i]).status == JobState::Scraping by {
            assert(tail[i] == snaps[i + 1]);
        }
        lemma_progress_waits(s1, tail);
        lemma_run_to_end(s1, tail);
        let steps = run(s, snaps).1;
        let rest = run(s1, tail).1;
        assert(steps == seq![st] + rest);
        assert forall|i: int| 0 <= i < snaps.len() - 1 implies #[trigger] steps[i]
            == StepView::WaitThenFetch(s.poll_interval) by {
            if i > 0 {
                assert(steps[i] == rest[i - 1]);
            }
        }
    }
}

/// A session whose last snapshot completes the job without a cursor ends in
/// success, provided no earlier snapshot ended it.
proof fn lemma_final_phase(s: SessionView, snaps: Seq<SnapshotView>)
    requires
        !s.phase.is_terminal(),
        snaps.len() > 0,
        only_last_may_end(snaps),
        snaps.last().next is None,
        snaps.last().status == JobState::Completed,
    ensures
        run(s, snaps).0.phase == SessionPhase::Succeeded,
    decreases snaps.len(),
{
    let s1 = observe_spec(s, snaps[0]).0;
    let tail = snaps.drop_first();
    if snaps.len() == 1 {
        assert(run(s1, tail).0 == s1);
    } else {
        assert(!is_terminal_observation(snaps[0]));
        assert forall|i: int| 0 <= i < tail.len() - 1 implies !is_terminal_observation(#[trigger] tail[i]) by {
            assert(tail[i] == snaps[i + 1]);
        }
        assert(tail.last() == snaps.last());
        lemma_final_phase(s1, tail);
    }
}

/// The documents `d`, `m` times over.
pub open spec fn repeated(d: Seq<Document>, m: nat) -> Seq<Document>
    decreases m,
{
    if m == 0 {
        Seq::empty()
    } else {
        d + repeated(d, (m - 1) as nat)
    }
}

/// `m` sightings of the same snapshot, then a last one.
pub open spec fn copies_then(same: SnapshotView, m: nat, last: SnapshotView) -> Seq<SnapshotView> {
    Seq::new(m, |i: int| same).push(last)
}

proof fn lemma_documents_of_copies(same: SnapshotView, m: nat, last: SnapshotView)
    ensures
        all_documents(copies_then(same, m, last)) == repeated(same.data, m) + last.data,
    decreases m,
{
    let snaps = copies_then(same, m, last);
    if m == 0 {
        assert(snaps.drop_first() =~= Seq::<SnapshotView>::empty());
        assert(all_documents(snaps.drop_first()) =~= Seq::<Document>::empty());
        assert(repeated(same.data, 0) + last.data =~= last.data);
        assert(last.data + Seq::<Document>::empty() =~= last.data);
    } else {
        assert(snaps.drop_first() =~= copies_then(same, (m - 1) as nat, last));
        lemma_documents_of_copies(same, (m - 1) as nat, last);
        assert(snaps[0] == same);
        assert(same.data + (repeated(same.data, (m - 1) as nat) + last.data) =~= repeated(same.data, m)
            + last.data);
    }
}

/// A job that reports the same progress snapshot `m` times and then
/// completes is answered with every sighting's documents, in order: the
/// engine neither merges identical snapshots nor adds documents of its own.
pub proof fn lemma_identical_snapshots_all_kept(
    poll_interval: u64,
    same: SnapshotView,
    m: nat,
    last: SnapshotView,
)
    requires
        m >= 1,
        same.status == JobState::Scraping,
        same.next is None,
        last.status == JobState::Completed,
        last.next is None,
    ensures
        run(initial_view(poll_interval), copies_then(same, m, last)).1.len() == m + 1,
        run(initial_view(poll_interval), copies_then(same, m, last)).1.last() == StepView::Succeeded(
            SnapshotView { data: repeated(same.data, m) + last.data, ..last },
        ),
        run(initial_view(poll_interval), copies_then(same, m, last)).1.last() matches StepView::Succeeded(r)
            && r.data.len() == m * same.data.len() + last.data.len(),
{
    let s = initial_view(poll_interval);
    let snaps = copies_then(same, m, last);
    assert forall|i: int| 0 <= i < snaps.len() - 1 implies !is_terminal_observation(#[trigger] snaps[i]) by {
        assert(snaps[i] == same);
    }
    assert(snaps.last() == last);
    lemma_run_to_end(s, snaps);
    lemma_documents_of_copies(same, m, last);
    assert(s.accumulated + all_documents(snaps) =~= all_documents(snaps));
    lemma_repeated_len(same.data, m);
}

proof fn lemma_repeated_len(d: Seq<Document>, m: nat)
    ensures
        repeated(d, m).len() == m * d.len(),
    decreases m,
{
    if m > 0 {
        lemma_repeated_len(d, (m - 1) as nat);
        assert(repeated(d, m).len() == d.len() + repeated(d, (m - 1) as nat).len());
        assert(m * d.len() == d.len() + (m - 1) * d.len()) by (nonlinear_arith)
            requires
                m > 0,
        ;
    } else {
        assert(m * d.len() == 0) by (nonlinear_arith)
            requires
                m == 0,
        ;
    }
}

/// A snapshot that carries a cursor is followed at once with that cursor, with
/// no wait, whatever lifecycle state it reports.
pub proof fn lemma_cursor_fetches_at_once(s: SessionView, snap: SnapshotView)
    requires
        snap.next is Some,
    ensures
        observe_spec(s, snap).1 == StepView::FetchNow,
        observe_spec(s, snap).0.cursor == snap.next,
        observe_spec(s, snap).0.phase == SessionPhase::Paginating,
{
}

/// Over any sequence of snapshots of which none but the last ends the
/// session, the session waits exactly once for each snapshot that reports
/// progress without a further page, and never for one that carries a
/// cursor.
pub proof fn lemma_waits_match_progress_reports(s: SessionView, snaps: Seq<SnapshotView>)
    requires
        !s.phase.is_terminal(),
        snaps.len() > 0,
        only_last_may_end(snaps),
    ensures
        run(s, snaps).1.len() == snaps.len(),
        count_waits(run(s, snaps).1) == count_progress_reports(snaps),
{
    lemma_run_to_end(s, snaps);
}

/// Seeing the same in-progress snapshot twice in a row answers both times with
/// the same step, and each sighting adds exactly that snapshot's documents:
/// the engine itself neither drops nor adds any.
pub proof fn lemma_repeated_snapshot(s: SessionView, snap: SnapshotView)
    requires
        !s.phase.is_terminal(),
        !is_terminal_observation(snap),
    ensures
        !observe_spec(s, snap).0.phase.is_terminal(),
        observe_spec(observe_spec(s, snap).0, snap).1 == observe_spec(s, snap).1,
        observe_spec(observe_spec(s, snap).0, snap).0.cursor == observe_spec(s, snap).0.cursor,
        observe_spec(observe_spec(s, snap).0, snap).0.accumulated == s.accumulated + snap.data + snap.data,
{
}

/// Once a session has ended, feeding it more snapshots changes nothing.
pub proof fn lemma_ended_session_is_inert(s: SessionView, snaps: Seq<SnapshotView>)
    requires
        s.phase.is_terminal(),
    ensures
        run(s, snaps) == (s, Seq::<StepView>::empty()),
{
}

impl PollSession {
    /// Starts a session that waits `poll_interval` milliseconds between
    /// checks, or the default interval where none is given.
    pub fn new(poll_interval: Option<u64>) -> (r: PollSession)
        ensures
            r@ == initial_view(
                match poll_interval {
                    Some(ms) => ms,
                    None => DEFAULT_POLL_INTERVAL_MS,
                },
            ),
    {
        let interval = match poll_interval {
            Some(ms) => ms,
            None => DEFAULT_POLL_INTERVAL_MS,
        };
        PollSession {
            poll_interval: interval,
            accumulated: Vec::new(),
            cursor: None,
            phase: SessionPhase::Running,
        }
    }

    /// Resumes polling at a known cursor, with nothing collected yet.
    pub fn resume(poll_interval: Option<u64>, cursor: String) -> (r: PollSession)
        ensures
            r@ == (SessionView {
                cursor: Some(cursor@),
                phase: SessionPhase::Paginating,
                ..initial_view(
                    match poll_interval {
                        Some(ms) => ms,
                        None => DEFAULT_POLL_INTERVAL_MS,
                    },
                )
            }),
    {
        let mut s = PollSession::new(poll_interval);
        s.cursor = Some(cursor);
        s.phase = SessionPhase::Paginating;
        s
    }

    /// The cursor that the next status check passes; `None` means the check
    /// by job identifier.
    pub fn cursor(&self) -> (r: Option<String>)
        ensures
            opt_view(r) == self@.cursor,
    {
        match &self.cursor {
            Some(c) => Some(c.clone()),
            None => None,
        }
    }

    pub fn phase(&self) -> (r: SessionPhase)
        ensures
            r == self@.phase,
    {
        self.phase
    }

    pub fn is_finished(&self) -> (r: bool)
        ensures
            r == self@.phase.is_terminal(),
    {
        match self.phase {
            SessionPhase::Succeeded | SessionPhase::Failed | SessionPhase::Cancelled => true,
            _ => false,
        }
    }

    /// Folds the result of one status check into the session. A check that
    /// failed changes nothing: its error is handed back as it came, and the
    /// caller may resume polling with the same session or a fresh one.
    pub fn observe_check(&mut self, checked: Result<StatusSnapshot, FirecrawlError>) -> (r: Result<
        PollStep,
        FirecrawlError,
    >)
        requires
            !old(self)@.phase.is_terminal(),
        ensures
            checked is Ok <==> r is Ok,
            checked matches Err(e) ==> r == Err::<PollStep, FirecrawlError>(e) && final(self)@ == old(self)@,
            r matches Ok(step) ==> checked matches Ok(s) && (final(self)@, step@) == observe_spec(
                old(self)@,
                s@,
            ),
    {
        match checked {
            Ok(s) => Ok(self.observe(s)),
            Err(e) => Err(e),
        }
    }

    /// Folds one status snapshot into the session and says what to do next.
    pub fn observe(&mut self, snapshot: StatusSnapshot) -> (step: PollStep)
        requires
            !old(self)@.phase.is_terminal(),
        ensures
            (final(self)@, step@) == observe_spec(old(self)@, snapshot@),
    {
        let ghost snap = snapshot@;
        let StatusSnapshot { status, total, completed, credits_used, expires_at, next, mut data } =
            snapshot;
        self.accumulated.append(&mut data);
        match next {
            Some(c) => {
                self.cursor = Some(c);
                self.phase = SessionPhase::Paginating;
                PollStep::FetchNow
            },
            None => {
                self.cursor = None;
                if let JobState::Scraping = status {
                    self.phase = SessionPhase::Running;
                    return PollStep::WaitThenFetch(self.poll_interval);
                }
                let mut all: Vec<Document> = Vec::new();
                std::mem::swap(&mut all, &mut self.accumulated);
                let last = StatusSnapshot {
                    status,
                    total,
                    completed,
                    credits_used,
                    expires_at,
                    next: None,
                    data: all,
                };
                assert(self.accumulated@ =~= Seq::<Document>::empty());
                match status {
                    JobState::Completed => {
                        self.phase = SessionPhase::Succeeded;
                        PollStep::Finished(JobOutcome::Succeeded(last))
                    },
                    JobState::Failed => {
                        self.phase = SessionPhase::Failed;
                        PollStep::Finished(JobOutcome::Failed(last))
                    },
                    _ => {
                        self.phase = SessionPhase::Cancelled;
                        PollStep::Finished(JobOutcome::Cancelled(last))
                    },
                }
            },
        }
    }
}

impl JobOutcome {
    /// A success carries the final snapshot; a failure or a cancellation
    /// becomes the error that carries it.
    pub fn into_result(self) -> (r: Result<StatusSnapshot, FirecrawlError>)
        ensures
            match self {
                JobOutcome::Succeeded(s) => r == Ok::<StatusSnapshot, FirecrawlError>(s),
                JobOutcome::Failed(s) => r == Err::<StatusSnapshot, FirecrawlError>(
                    FirecrawlError::JobFailed(s),
                ),
                JobOutcome::Cancelled(s) => r == Err::<StatusSnapshot, FirecrawlError>(
                    FirecrawlError::JobCancelled(s),
                ),
            },
    {
        match self {
            JobOutcome::Succeeded(s) => Ok(s),
            JobOutcome::Failed(s) => Err(FirecrawlError::JobFailed(s)),
            JobOutcome::Cancelled(s) => Err(FirecrawlError::JobCancelled(s)),
        }
    }
}

} // verus!
