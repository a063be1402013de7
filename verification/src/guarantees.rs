//! What holds of every run of the orchestrator.
//!
//! Each statement is about a valid run state, that is, about every state that
//! an orchestrator can be in; most are about finished runs.

use vstd::prelude::*;
use crate::lifecycle::{
    acquired_by, admissible, attempted, attempts, chained, failed, follow, is_release,
    lemma_at_most_once, lemma_attempts_zero, lemma_journal_is_short, lemma_steps_in_order, rank,
    severity_of, succeeded, Attempt, Severity, Status, Step,
};
use crate::orchestrator::RunState;
use crate::session::StepResultView;

verus! {

/// The links of a chained journal, spelt out entry by entry.
proof fn lemma_links(journal: Seq<Attempt>)
    requires
        chained(journal),
    ensures
        journal.len() <= 8,
        journal.len() > 0 ==> journal[0].step == Step::InitPlatform && admissible(journal[0]),
        journal.len() > 1 ==> follow(journal[0]) == Some(journal[1].step) && admissible(journal[1]),
        journal.len() > 2 ==> follow(journal[1]) == Some(journal[2].step) && admissible(journal[2]),
        journal.len() > 3 ==> follow(journal[2]) == Some(journal[3].step) && admissible(journal[3]),
        journal.len() > 4 ==> follow(journal[3]) == Some(journal[4].step) && admissible(journal[4]),
        journal.len() > 5 ==> follow(journal[4]) == Some(journal[5].step) && admissible(journal[5]),
        journal.len() > 6 ==> follow(journal[5]) == Some(journal[6].step) && admissible(journal[6]),
        journal.len() > 7 ==> follow(journal[6]) == Some(journal[7].step) && admissible(journal[7]),
{
    lemma_journal_is_short(journal);
}

/// A step was attempted once if it stands in the journal, and never if it
/// does not.
proof fn lemma_count(journal: Seq<Attempt>, step: Step)
    requires
        chained(journal),
    ensures
        attempts(journal, step) == if attempted(journal, step) {
            1nat
        } else {
            0nat
        },
{
    lemma_at_most_once(journal, step);
    lemma_attempts_zero(journal, step);
}

/// Every resource that was acquired is released exactly once, and nothing is
/// released that was not acquired: in a finished run a release step was
/// attempted once if its acquisition succeeded, and never otherwise.
pub proof fn lemma_released_exactly_when_acquired(state: RunState, release: Step)
    requires
        state.valid(),
        state.finished(),
        is_release(release),
    ensures
        attempts(state.journal, release) == if succeeded(state.journal, acquired_by(release)) {
            1nat
        } else {
            0nat
        },
{
    let j = state.journal;
    lemma_links(j);
    lemma_count(j, release);
    let acquisition = acquired_by(release);
    let won = Attempt { step: acquisition, status: Status::Succeeded };
    if succeeded(j, acquisition) {
        let i = choose|i: int| 0 <= i < j.len() && #[trigger] j[i] == won;
        assert(0 <= i < 8);
        assert(j[j.len() - 1].step == release || attempted(j, release)) by {
            if release == Step::TeardownPlatform {
                assert(j[j.len() - 1].step == release);
            } else if release == Step::CloseConnection {
                assert(j[j.len() - 2].step == release);
            } else {
                assert(j[j.len() - 3].step == release);
            }
        }
    }
    if attempted(j, release) {
        let k = choose|k: int| 0 <= k < j.len() && (#[trigger] j[k]).step == release;
        assert(0 <= k < 8);
        if release == Step::TeardownPlatform {
            assert(j[0] == won);
        } else if release == Step::CloseConnection {
            assert(j[1] == won);
        } else {
            assert(j[2] == won);
        }
    }
}

/// Once the platform subsystem was initialised, its teardown is attempted
/// exactly once, whatever came of the steps in between.
pub proof fn lemma_teardown_exactly_once(state: RunState)
    requires
        state.valid(),
        state.finished(),
        succeeded(state.journal, Step::InitPlatform),
    ensures
        attempts(state.journal, Step::TeardownPlatform) == 1,
{
    lemma_released_exactly_when_acquired(state, Step::TeardownPlatform);
}

/// A failed platform initialisation ends the run at once: nothing else is
/// attempted, no release either.
pub proof fn lemma_failed_init_attempts_nothing_else(state: RunState)
    requires
        state.valid(),
        failed(state.journal, Step::InitPlatform),
    ensures
        state.finished(),
        state.journal.len() == 1,
        state.error is Some,
{
    let j = state.journal;
    lemma_links(j);
    let lost = Attempt { step: Step::InitPlatform, status: Status::Failed };
    let i = choose|i: int| 0 <= i < j.len() && #[trigger] j[i] == lost;
    if i > 0 {
        lemma_steps_in_order(j, 0, i);
    }
}

/// When the connection was opened but no session could be begun, closing the
/// connection is attempted exactly once and ending a session never: there is
/// no handle to end it with.
pub proof fn lemma_failed_begin_closes_connection(state: RunState)
    requires
        state.valid(),
        state.finished(),
        succeeded(state.journal, Step::OpenConnection),
        failed(state.journal, Step::BeginSession),
    ensures
        attempts(state.journal, Step::CloseConnection) == 1,
        attempts(state.journal, Step::EndSession) == 0,
        attempts(state.journal, Step::TeardownPlatform) == 1,
        state.handle is None,
{
    let j = state.journal;
    lemma_links(j);
    lemma_released_exactly_when_acquired(state, Step::CloseConnection);
    lemma_released_exactly_when_acquired(state, Step::EndSession);
    lemma_released_exactly_when_acquired(state, Step::TeardownPlatform);
    let lost = Attempt { step: Step::BeginSession, status: Status::Failed };
    let won = Attempt { step: Step::BeginSession, status: Status::Succeeded };
    let i = choose|i: int| 0 <= i < j.len() && #[trigger] j[i] == lost;
    if succeeded(j, Step::BeginSession) {
        let k = choose|k: int| 0 <= k < j.len() && #[trigger] j[k] == won;
        if i < k {
            lemma_steps_in_order(j, i, k);
        }
        if k < i {
            lemma_steps_in_order(j, k, i);
        }
    }
    assert(j[0].status == Status::Succeeded);
    assert(j[0] == Attempt { step: Step::InitPlatform, status: Status::Succeeded });
}

/// Whenever the document fetch was attempted, with a document, with none or
/// with an error, ending the session and closing the connection are each
/// attempted exactly once, and so is the platform teardown.
pub proof fn lemma_fetch_ends_and_closes(state: RunState)
    requires
        state.valid(),
        state.finished(),
        attempted(state.journal, Step::FetchDocument),
    ensures
        attempts(state.journal, Step::EndSession) == 1,
        attempts(state.journal, Step::CloseConnection) == 1,
        attempts(state.journal, Step::TeardownPlatform) == 1,
{
    let j = state.journal;
    lemma_links(j);
    let k = choose|k: int| 0 <= k < j.len() && (#[trigger] j[k]).step == Step::FetchDocument;
    assert(0 <= k < 8);
    assert(j[0] == Attempt { step: Step::InitPlatform, status: Status::Succeeded });
    assert(j[1] == Attempt { step: Step::OpenConnection, status: Status::Succeeded });
    assert(j[2] == Attempt { step: Step::BeginSession, status: Status::Succeeded });
    lemma_released_exactly_when_acquired(state, Step::EndSession);
    lemma_released_exactly_when_acquired(state, Step::CloseConnection);
    lemma_released_exactly_when_acquired(state, Step::TeardownPlatform);
}

/// The dispatch is attempted exactly when the fetch returned a document: in
/// a finished run once if it did, and never if the fetch came back empty,
/// failed or was not reached.
pub proof fn lemma_dispatch_exactly_with_document(state: RunState)
    requires
        state.valid(),
        state.finished(),
    ensures
        attempts(state.journal, Step::Dispatch) == if succeeded(
            state.journal,
            Step::FetchDocument,
        ) {
            1nat
        } else {
            0nat
        },
{
    let j = state.journal;
    lemma_links(j);
    lemma_count(j, Step::Dispatch);
    let won = Attempt { step: Step::FetchDocument, status: Status::Succeeded };
    if succeeded(j, Step::FetchDocument) {
        let i = choose|i: int| 0 <= i < j.len() && #[trigger] j[i] == won;
        assert(0 <= i < 8);
        assert(j[4].step == Step::Dispatch);
    }
    if attempted(j, Step::Dispatch) {
        let k = choose|k: int| 0 <= k < j.len() && (#[trigger] j[k]).step == Step::Dispatch;
        assert(0 <= k < 8);
        assert(j[3] == won);
    }
}

/// Releases happen in the reverse order of the acquisitions: of two release
/// steps in a journal, the later one undoes the earlier acquisition.
pub proof fn lemma_releases_in_reverse_order(journal: Seq<Attempt>, a: int, b: int)
    requires
        chained(journal),
        0 <= a < b < journal.len(),
        is_release(journal[a].step),
        is_release(journal[b].step),
    ensures
        rank(acquired_by(journal[b].step)) < rank(acquired_by(journal[a].step)),
{
    lemma_steps_in_order(journal, a, b);
}

/// At most one session handle is live in a run: a session is begun at most
/// once, and a handle is held only from the successful begin until the end
/// of the session is attempted.
pub proof fn lemma_one_handle_per_run(state: RunState)
    requires
        state.valid(),
    ensures
        attempts(state.journal, Step::BeginSession) <= 1,
        state.handle is Some ==> succeeded(state.journal, Step::BeginSession) && !attempted(
            state.journal,
            Step::EndSession,
        ),
        attempted(state.journal, Step::EndSession) ==> succeeded(
            state.journal,
            Step::BeginSession,
        ),
{
    let j = state.journal;
    lemma_links(j);
    lemma_at_most_once(j, Step::BeginSession);
    let won = Attempt { step: Step::BeginSession, status: Status::Succeeded };
    if attempted(j, Step::EndSession) {
        let k = choose|k: int| 0 <= k < j.len() && (#[trigger] j[k]).step == Step::EndSession;
        assert(0 <= k < 8);
        assert(j[2] == won);
        if k < j.len() - 1 {
            lemma_steps_in_order(j, k, j.len() - 1);
        }
    }
    if state.handle is Some {
        assert(j[2] == won);
    }
}

/// A finished run holds no session handle and no document.
pub proof fn lemma_finished_run_holds_nothing(state: RunState)
    requires
        state.valid(),
        state.finished(),
    ensures
        state.handle is None,
        state.document is None,
{
}

/// A failure is absorbed exactly when it is not that of an acquisition:
/// recording it leaves the run's error as it was, and the run goes on to the
/// next step. A failed acquisition becomes the run's error.
pub proof fn lemma_only_acquisitions_are_reported(state: RunState, reason: Seq<char>)
    requires
        state.valid(),
        state.accepts(StepResultView::Failed(reason)),
    ensures
        severity_of(state.due().unwrap()) == Severity::Absorbed ==> {
            &&& state.after(StepResultView::Failed(reason)).error == state.error
            &&& !state.after(StepResultView::Failed(reason)).finished()
        },
        severity_of(state.due().unwrap()) != Severity::Absorbed ==> {
            &&& state.error is None
            &&& state.after(StepResultView::Failed(reason)).error is Some
            &&& !state.after(StepResultView::Failed(reason)).finished()
        },
{
    let j = state.journal;
    lemma_links(j);
    let next = state.after(StepResultView::Failed(reason));
    assert(next.journal.last().step == state.due().unwrap());
    if severity_of(state.due().unwrap()) != Severity::Absorbed {
        if state.error is Some {
            if failed(j, Step::InitPlatform) {
                lemma_failed_init_attempts_nothing_else(state);
            }
            if failed(j, Step::OpenConnection) {
                let lost = Attempt { step: Step::OpenConnection, status: Status::Failed };
                let i = choose|i: int| 0 <= i < j.len() && #[trigger] j[i] == lost;
                assert(0 <= i < 8);
            }
            if failed(j, Step::BeginSession) {
                let lost = Attempt { step: Step::BeginSession, status: Status::Failed };
                let i = choose|i: int| 0 <= i < j.len() && #[trigger] j[i] == lost;
                assert(0 <= i < 8);
            }
        }
    }
}

/// A run reports an error exactly when an acquisition failed, and its exit
/// code is zero exactly when none did: failures of the fetch, of the dispatch
/// and of the releases do not change it.
pub proof fn lemma_exit_code(state: RunState)
    requires
        state.valid(),
    ensures
        state.exit_code() == 0 <==> !failed(state.journal, Step::InitPlatform) && !failed(
            state.journal,
            Step::OpenConnection,
        ) && !failed(state.journal, Step::BeginSession),
        state.exit_code() == 0 || state.exit_code() == 1,
{
}

} // verus!
