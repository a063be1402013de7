//! The session lifecycle as a chain of attempted steps.
//!
//! A run against the accounting engine acquires three resources in order
//! (the platform subsystem, a connection, a session), fetches one document,
//! optionally dispatches it, and releases what it acquired in reverse order.
//! This module describes which step may follow which attempt, and proves what
//! every journal built that way looks like.

use vstd::prelude::*;

verus! {

/// One operation against the platform subsystem, the accounting engine or
/// the dispatcher.
#[derive(Clone, Copy, Debug, PartialEq, Eq, Structural)]
pub enum Step {
    InitPlatform,
    OpenConnection,
    BeginSession,
    FetchDocument,
    Dispatch,
    EndSession,
    CloseConnection,
    TeardownPlatform,
}

/// How an attempted step ended.
///
/// `Empty` is the outcome of a fetch that returned no document; it is neither
/// a success nor an error.
#[derive(Clone, Copy, Debug, PartialEq, Eq, Structural)]
pub enum Status {
    Succeeded,
    Empty,
    Failed,
}

/// A step together with the way it ended: one line of the run's journal.
#[derive(Clone, Copy, Debug, PartialEq, Eq, Structural)]
pub struct Attempt {
    pub step: Step,
    pub status: Status,
}

/// Where a run stands.
///
/// `Aborted` is the state after a failed platform initialisation: nothing was
/// acquired, so nothing is released.
#[derive(Clone, Copy, Debug, PartialEq, Eq, Structural)]
pub enum Phase {
    Uninit,
    PlatformReady,
    Connected,
    SessionOpen,
    DocumentFetched,
    SessionClosed,
    Disconnected,
    PlatformTornDown,
    Aborted,
}

/// What a failure of a step means for the run.
#[derive(Clone, Copy, Debug, PartialEq, Eq, Structural)]
pub enum Severity {
    /// The run aborts at once; there is nothing to clean up.
    Fatal,
    /// The run goes no further, cleans up, and reports the failure.
    Reported,
    /// The failure is logged and the run goes on.
    Absorbed,
}

/// What a failure of `step` means for the run: only acquisitions can end
/// it, and only the first of them without cleanup.
pub open spec fn severity_of(step: Step) -> Severity {
    match step {
        Step::InitPlatform => Severity::Fatal,
        Step::OpenConnection => Severity::Reported,
        Step::BeginSession => Severity::Reported,
        _ => Severity::Absorbed,
    }
}

impl Step {
    /// What a failure of this step means for the run.
    pub fn severity(&self) -> (severity: Severity)
        ensures
            severity == severity_of(*self),
    {
        match self {
            Step::InitPlatform => Severity::Fatal,
            Step::OpenConnection => Severity::Reported,
            Step::BeginSession => Severity::Reported,
            _ => Severity::Absorbed,
        }
    }
}

impl Attempt {
    /// The step that must be attempted after this one, or `None` when the run
    /// is over.
    pub fn next(&self) -> (step: Option<Step>)
        ensures
            step == follow(*self),
    {
        let ok = self.status == Status::Succeeded;
        match self.step {
            Step::InitPlatform => if ok {
                Some(Step::OpenConnection)
            } else {
                None
            },
            Step::OpenConnection => if ok {
                Some(Step::BeginSession)
            } else {
                Some(Step::TeardownPlatform)
            },
            Step::BeginSession => if ok {
                Some(Step::FetchDocument)
            } else {
                Some(Step::CloseConnection)
            },
            Step::FetchDocument => if ok {
                Some(Step::Dispatch)
            } else {
                Some(Step::EndSession)
            },
            Step::Dispatch => Some(Step::EndSession),
            Step::EndSession => Some(Step::CloseConnection),
            Step::CloseConnection => Some(Step::TeardownPlatform),
            Step::TeardownPlatform => None,
        }
    }

    /// The phase that a run is in right after this attempt.
    pub fn phase(&self) -> (phase: Phase)
        ensures
            phase == phase_after(*self),
    {
        let ok = self.status == Status::Succeeded;
        match self.step {
            Step::InitPlatform => if ok {
                Phase::PlatformReady
            } else {
                Phase::Aborted
            },
            Step::OpenConnection => if ok {
                Phase::Connected
            } else {
                Phase::Disconnected
            },
            Step::BeginSession => if ok {
                Phase::SessionOpen
            } else {
                Phase::SessionClosed
            },
            Step::FetchDocument => Phase::DocumentFetched,
            Step::Dispatch => Phase::DocumentFetched,
            Step::EndSession => Phase::SessionClosed,
            Step::CloseConnection => Phase::Disconnected,
            Step::TeardownPlatform => Phase::PlatformTornDown,
        }
    }
}

/// The position of a step in the lifecycle, acquisitions first.
pub open spec fn rank(step: Step) -> int {
    match step {
        Step::InitPlatform => 0,
        Step::OpenConnection => 1,
        Step::BeginSession => 2,
        Step::FetchDocument => 3,
        Step::Dispatch => 4,
        Step::EndSession => 5,
        Step::CloseConnection => 6,
        Step::TeardownPlatform => 7,
    }
}

/// Whether a step releases a resource.
pub open spec fn is_release(step: Step) -> bool {
    step == Step::EndSession || step == Step::CloseConnection || step == Step::TeardownPlatform
}

/// The acquisition that a release step undoes.
pub open spec fn acquired_by(release: Step) -> Step
    recommends
        is_release(release),
{
    match release {
        Step::EndSession => Step::BeginSession,
        Step::CloseConnection => Step::OpenConnection,
        _ => Step::InitPlatform,
    }
}

/// Whether a status can be the outcome of a step: only a fetch can come back
/// empty, and tearing down the platform has no observable failure.
pub open spec fn admissible(a: Attempt) -> bool {
    match a.step {
        Step::FetchDocument => true,
        Step::TeardownPlatform => a.status == Status::Succeeded,
        _ => a.status != Status::Empty,
    }
}

/// The step that must be attempted after `a`, or `None` when the run is over.
///
/// A successful acquisition leads to the next acquisition. A failed one leads
/// to the release of what was acquired before it. Once the document fetch has
/// been attempted, every outcome leads on towards the releases, and a release
/// is followed by the next release whether or not it succeeded.
pub open spec fn follow(a: Attempt) -> Option<Step> {
    match a.step {
        Step::InitPlatform => if a.status == Status::Succeeded {
            Some(Step::OpenConnection)
        } else {
            None
        },
        Step::OpenConnection => if a.status == Status::Succeeded {
            Some(Step::BeginSession)
        } else {
            Some(Step::TeardownPlatform)
        },
        Step::BeginSession => if a.status == Status::Succeeded {
            Some(Step::FetchDocument)
        } else {
            Some(Step::CloseConnection)
        },
        Step::FetchDocument => if a.status == Status::Succeeded {
            Some(Step::Dispatch)
        } else {
            Some(Step::EndSession)
        },
        Step::Dispatch => Some(Step::EndSession),
        Step::EndSession => Some(Step::CloseConnection),
        Step::CloseConnection => Some(Step::TeardownPlatform),
        Step::TeardownPlatform => None,
    }
}

/// The phase that a run is in right after attempt `a`.
pub open spec fn phase_after(a: Attempt) -> Phase {
    match a.step {
        Step::InitPlatform => if a.status == Status::Succeeded {
            Phase::PlatformReady
        } else {
            Phase::Aborted
        },
        Step::OpenConnection => if a.status == Status::Succeeded {
            Phase::Connected
        } else {
            Phase::Disconnected
        },
        Step::BeginSession => if a.status == Status::Succeeded {
            Phase::SessionOpen
        } else {
            Phase::SessionClosed
        },
        Step::FetchDocument => Phase::DocumentFetched,
        Step::Dispatch => Phase::DocumentFetched,
        Step::EndSession => Phase::SessionClosed,
        Step::CloseConnection => Phase::Disconnected,
        Step::TeardownPlatform => Phase::PlatformTornDown,
    }
}

/// Whether `journal` is the record of a run: it starts with the platform
/// initialisation, every outcome is admissible, and every later step is the
/// one that follows the attempt before it.
pub open spec fn chained(journal: Seq<Attempt>) -> bool {
    &&& forall|i: int| 0 <= i < journal.len() ==> admissible(#[trigger] journal[i])
    &&& journal.len() > 0 ==> journal[0].step == Step::InitPlatform
    &&& forall|i: int|
        0 < i < journal.len() ==> follow(journal[i - 1]) == Some((#[trigger] journal[i]).step)
}

/// The step that is due after `journal`, or `None` when the run is over.
pub open spec fn due(journal: Seq<Attempt>) -> Option<Step> {
    if journal.len() == 0 {
        Some(Step::InitPlatform)
    } else {
        follow(journal.last())
    }
}

/// The phase of a run whose record is `journal`.
pub open spec fn phase_of(journal: Seq<Attempt>) -> Phase {
    if journal.len() == 0 {
        Phase::Uninit
    } else {
        phase_after(journal.last())
    }
}

/// The number of times `step` was attempted in `journal`.
pub open spec fn attempts(journal: Seq<Attempt>, step: Step) -> nat
    decreases journal.len(),
{
    if journal.len() == 0 {
        0
    } else {
        attempts(journal.drop_last(), step) + if journal.last().step == step {
            1nat
        } else {
            0nat
        }
    }
}

/// Whether `step` was attempted in `journal` and succeeded.
pub open spec fn succeeded(journal: Seq<Attempt>, step: Step) -> bool {
    exists|i: int|
        0 <= i < journal.len() && #[trigger] journal[i] == (Attempt {
            step,
            status: Status::Succeeded,
        })
}

/// Whether `step` was attempted in `journal` and failed.
pub open spec fn failed(journal: Seq<Attempt>, step: Step) -> bool {
    exists|i: int|
        0 <= i < journal.len() && #[trigger] journal[i] == (Attempt { step, status: Status::Failed })
}

/// Whether `step` was attempted in `journal`, whatever came of it.
pub open spec fn attempted(journal: Seq<Attempt>, step: Step) -> bool {
    exists|i: int| 0 <= i < journal.len() && (#[trigger] journal[i]).step == step
}

/// A step that was never attempted counts zero, and a counted step was
/// attempted.
pub proof fn lemma_attempts_zero(journal: Seq<Attempt>, step: Step)
    ensures
        attempts(journal, step) == 0 <==> !attempted(journal, step),
    decreases journal.len(),
{
    if journal.len() > 0 {
        let front = journal.drop_last();
        lemma_attempts_zero(front, step);
        if attempted(journal, step) {
            let i = choose|i: int| 0 <= i < journal.len() && (#[trigger] journal[i]).step == step;
            if i < journal.len() - 1 {
                assert(front[i].step == step);
            }
        }
        if attempted(front, step) {
            let i = choose|i: int| 0 <= i < front.len() && (#[trigger] front[i]).step == step;
            assert(journal[i].step == step);
        }
        if journal.last().step == step {
            assert(journal[journal.len() - 1].step == step);
        }
    }
}

/// In the record of a run the steps stand in lifecycle order: a later entry
/// has a strictly higher rank than an earlier one. In particular the session
/// is ended before the connection is closed, and the connection is closed
/// before the platform is torn down.
pub proof fn lemma_steps_in_order(journal: Seq<Attempt>, a: int, b: int)
    requires
        chained(journal),
        0 <= a < b < journal.len(),
    ensures
        rank(journal[a].step) < rank(journal[b].step),
    decreases b - a,
{
    assert(follow(journal[b - 1]) == Some(journal[b].step));
    if a < b - 1 {
        lemma_steps_in_order(journal, a, b - 1);
    }
}

/// No step is attempted twice in one run.
pub proof fn lemma_at_most_once(journal: Seq<Attempt>, step: Step)
    requires
        chained(journal),
    ensures
        attempts(journal, step) <= 1,
    decreases journal.len(),
{
    if journal.len() > 0 {
        let front = journal.drop_last();
        assert(chained(front)) by {
            assert forall|i: int| 0 < i < front.len() implies follow(front[i - 1]) == Some(
                (#[trigger] front[i]).step,
            ) by {
                assert(follow(journal[i - 1]) == Some(journal[i].step));
            }
            assert forall|i: int| 0 <= i < front.len() implies admissible(#[trigger] front[i]) by {
                assert(admissible(journal[i]));
            }
        }
        lemma_at_most_once(front, step);
        if journal.last().step == step {
            lemma_attempts_zero(front, step);
            if attempted(front, step) {
                let i = choose|i: int| 0 <= i < front.len() && (#[trigger] front[i]).step == step;
                lemma_steps_in_order(journal, i, journal.len() - 1);
            }
        }
    }
}

/// A run has at most eight steps, and the entry at index `i` has rank `i` or
/// higher.
pub proof fn lemma_rank_at_least_index(journal: Seq<Attempt>, i: int)
    requires
        chained(journal),
        0 <= i < journal.len(),
    ensures
        i <= rank(journal[i].step) <= 7,
    decreases i,
{
    if i > 0 {
        lemma_rank_at_least_index(journal, i - 1);
        lemma_steps_in_order(journal, i - 1, i);
    }
}

/// A complete record is never longer than the lifecycle has steps.
pub proof fn lemma_journal_is_short(journal: Seq<Attempt>)
    requires
        chained(journal),
    ensures
        journal.len() <= 8,
{
    if journal.len() > 0 {
        lemma_rank_at_least_index(journal, journal.len() - 1);
    }
}

} // verus!
