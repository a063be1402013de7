//! The session orchestrator: which operation to perform next, and what each
//! result does to the run.
//!
//! The orchestrator performs no operation itself. Its caller asks for the
//! next action, carries it out against the platform subsystem, the accounting
//! engine or the dispatcher, and records what came of it. The orchestrator
//! keeps the journal of attempts, the session handle, the fetched document
//! and the error that the run will report.

use vstd::prelude::*;
use crate::lifecycle::{
    admissible, attempts, chained, due, failed, follow, phase_of, Attempt, Phase, Status, Step,
};
use crate::session::{
    Action, ActionView, RunError, RunErrorView, SessionHandle, StepResult, StepResultView,
};
use crate::settings::{text_of, EngineSettings, EngineSettingsView, FileMode};

verus! {

/// The view of an optional session handle.
pub open spec fn ticket_of(handle: Option<SessionHandle>) -> Option<Seq<char>> {
    match handle {
        Some(handle) => Some(handle@),
        None => None,
    }
}

/// The view of an optional run error.
pub open spec fn error_of(error: Option<RunError>) -> Option<RunErrorView> {
    match error {
        Some(error) => Some(error@),
        None => None,
    }
}

/// The view of an optional action.
pub open spec fn action_of(action: Option<Action>) -> Option<ActionView> {
    match action {
        Some(action) => Some(action@),
        None => None,
    }
}

/// Whether a session is held right after attempt `a`: it was just begun, or
/// the run is between the fetch and the end of the session.
pub open spec fn holds_session(a: Attempt) -> bool {
    ||| a == (Attempt { step: Step::BeginSession, status: Status::Succeeded })
    ||| a.step == Step::FetchDocument
    ||| a.step == Step::Dispatch
}

/// Whether a fetched document is waiting to be dispatched right after
/// attempt `a`.
pub open spec fn holds_document(a: Attempt) -> bool {
    a == (Attempt { step: Step::FetchDocument, status: Status::Succeeded })
}

/// The state of one run.
pub struct RunState {
    pub settings: EngineSettingsView,
    pub journal: Seq<Attempt>,
    pub handle: Option<Seq<char>>,
    pub document: Option<Seq<char>>,
    pub error: Option<RunErrorView>,
}

impl RunState {
    /// The state before anything was attempted.
    pub open spec fn initial(settings: EngineSettingsView) -> RunState {
        RunState { settings, journal: Seq::empty(), handle: None, document: None, error: None }
    }

    /// The step that is due, or `None` when the run is over.
    pub open spec fn due(self) -> Option<Step> {
        due(self.journal)
    }

    /// The phase of the run.
    pub open spec fn phase(self) -> Phase {
        phase_of(self.journal)
    }

    /// Whether the run is over.
    pub open spec fn finished(self) -> bool {
        self.due() is None
    }

    /// Whether `result` answers the step that is due.
    pub open spec fn accepts(self, result: StepResultView) -> bool {
        match self.due() {
            Some(step) => result.answers(step),
            None => false,
        }
    }

    /// The state after `result` was recorded for the step that is due.
    ///
    /// The attempt joins the journal. A begun session's handle is kept until
    /// the session's end was attempted, a fetched document until its dispatch
    /// was attempted. A failed acquisition becomes the run's error; every
    /// other failure is absorbed.
    pub open spec fn after(self, result: StepResultView) -> RunState
        recommends
            self.accepts(result),
    {
        let step = self.due().unwrap();
        RunState {
            settings: self.settings,
            journal: self.journal.push(Attempt { step, status: result.status() }),
            handle: match result {
                StepResultView::Handle(handle) => Some(handle),
                _ => if step == Step::EndSession {
                    None
                } else {
                    self.handle
                },
            },
            document: match result {
                StepResultView::Document(document) => Some(document),
                _ => if step == Step::Dispatch {
                    None
                } else {
                    self.document
                },
            },
            error: match result {
                StepResultView::InitFailed(status) => Some(RunErrorView::PlatformInit { status }),
                StepResultView::Failed(reason) => if step == Step::OpenConnection {
                    Some(RunErrorView::ConnectionOpen { reason })
                } else if step == Step::BeginSession {
                    Some(RunErrorView::SessionBegin { reason })
                } else {
                    self.error
                },
                _ => self.error,
            },
        }
    }

    /// The action that the caller must perform now, or `None` when the run is
    /// over.
    pub open spec fn next_action(self) -> Option<ActionView> {
        match self.due() {
            None => None,
            Some(Step::InitPlatform) => Some(ActionView::InitPlatform),
            Some(Step::OpenConnection) => Some(
                ActionView::OpenConnection {
                    application_id: self.settings.connection_id(),
                    application_name: self.settings.display_name(),
                },
            ),
            Some(Step::BeginSession) => Some(
                ActionView::BeginSession {
                    company_file: self.settings.session_file(),
                    mode: FileMode::DoNotCare,
                },
            ),
            Some(Step::FetchDocument) => Some(
                ActionView::FetchDocument { handle: self.handle.unwrap() },
            ),
            Some(Step::Dispatch) => Some(ActionView::Dispatch { document: self.document.unwrap() }),
            Some(Step::EndSession) => Some(ActionView::EndSession { handle: self.handle.unwrap() }),
            Some(Step::CloseConnection) => Some(ActionView::CloseConnection),
            Some(Step::TeardownPlatform) => Some(ActionView::TeardownPlatform),
        }
    }

    /// Whether the error matches the journal: there is one exactly when an
    /// acquisition failed, and it names that acquisition.
    pub open spec fn error_matches_journal(self) -> bool {
        match self.error {
            None => {
                &&& !failed(self.journal, Step::InitPlatform)
                &&& !failed(self.journal, Step::OpenConnection)
                &&& !failed(self.journal, Step::BeginSession)
            },
            Some(RunErrorView::PlatformInit { .. }) => failed(self.journal, Step::InitPlatform),
            Some(RunErrorView::ConnectionOpen { .. }) => failed(self.journal, Step::OpenConnection),
            Some(RunErrorView::SessionBegin { .. }) => failed(self.journal, Step::BeginSession),
        }
    }

    /// The invariant of a run: the journal is a chain of the lifecycle, a
    /// handle is held exactly while a session is, a document exactly while it
    /// waits for its dispatch, and the error matches the journal.
    pub open spec fn valid(self) -> bool {
        &&& chained(self.journal)
        &&& self.handle is Some <==> self.journal.len() > 0 && holds_session(self.journal.last())
        &&& self.document is Some <==> self.journal.len() > 0 && holds_document(
            self.journal.last(),
        )
        &&& self.error_matches_journal()
    }

    /// The exit code of a finished run: zero unless an error is reported.
    pub open spec fn exit_code(self) -> int {
        if self.error is Some {
            1
        } else {
            0
        }
    }
}

/// Appending an attempt adds a failure of its step when it failed, and no
/// other.
pub proof fn lemma_failed_push(journal: Seq<Attempt>, a: Attempt, step: Step)
    ensures
        failed(journal.push(a), step) <==> failed(journal, step) || a == (Attempt {
            step,
            status: Status::Failed,
        }),
{
    let longer = journal.push(a);
    let target = Attempt { step, status: Status::Failed };
    if failed(journal, step) {
        let i = choose|i: int| 0 <= i < journal.len() && #[trigger] journal[i] == target;
        assert(longer[i] == target);
    }
    if a == target {
        assert(longer[journal.len() as int] == target);
    }
    if failed(longer, step) {
        let i = choose|i: int| 0 <= i < longer.len() && #[trigger] longer[i] == target;
        if i < journal.len() {
            assert(journal[i] == target);
        }
    }
}

/// The initial state is valid.
pub proof fn lemma_initial_is_valid(settings: EngineSettingsView)
    ensures
        RunState::initial(settings).valid(),
        RunState::initial(settings).due() == Some(Step::InitPlatform),
{
}

/// Recording an accepted result keeps the state valid.
pub proof fn lemma_after_is_valid(state: RunState, result: StepResultView)
    requires
        state.valid(),
        state.accepts(result),
    ensures
        state.after(result).valid(),
{
    let step = state.due().unwrap();
    let a = Attempt { step, status: result.status() };
    let next = state.after(result);
    assert(next.journal.last() == a);
    assert(chained(next.journal)) by {
        assert forall|i: int| 0 < i < next.journal.len() implies follow(
            next.journal[i - 1],
        ) == Some((#[trigger] next.journal[i]).step) by {
            if i < state.journal.len() {
                assert(follow(state.journal[i - 1]) == Some(
                    state.journal[i].step,
                ));
            }
        }
        assert forall|i: int| 0 <= i < next.journal.len() implies admissible(
            #[trigger] next.journal[i],
        ) by {
            if i < state.journal.len() {
                assert(admissible(state.journal[i]));
            }
        }
    }
    lemma_failed_push(state.journal, a, Step::InitPlatform);
    lemma_failed_push(state.journal, a, Step::OpenConnection);
    lemma_failed_push(state.journal, a, Step::BeginSession);
}

/// The session orchestrator.
pub struct Orchestrator {
    settings: EngineSettings,
    journal: Vec<Attempt>,
    handle: Option<SessionHandle>,
    document: Option<String>,
    error: Option<RunError>,
}

impl View for Orchestrator {
    type V = RunState;

    closed spec fn view(&self) -> RunState {
        RunState {
            settings: self.settings@,
            journal: self.journal@,
            handle: ticket_of(self.handle),
            document: text_of(self.document),
            error: error_of(self.error),
        }
    }
}

impl Orchestrator {
    /// Whether the orchestrator is in a state that a run can reach.
    pub open spec fn wf(&self) -> bool {
        self@.valid()
    }

    /// An orchestrator for one run with the given settings. Nothing has been
    /// attempted yet.
    pub fn new(settings: EngineSettings) -> (orchestrator: Orchestrator)
        ensures
            orchestrator.wf(),
            orchestrator@ == RunState::initial(settings@),
    {
        Orchestrator { settings, journal: Vec::new(), handle: None, document: None, error: None }
    }

    /// The step that is due, or `None` when the run is over.
    pub fn due(&self) -> (step: Option<Step>)
        ensures
            step == self@.due(),
    {
        let n = self.journal.len();
        if n == 0 {
            Some(Step::InitPlatform)
        } else {
            self.journal[n - 1].next()
        }
    }

    /// The phase of the run.
    pub fn phase(&self) -> (phase: Phase)
        ensures
            phase == self@.phase(),
    {
        let n = self.journal.len();
        if n == 0 {
            Phase::Uninit
        } else {
            self.journal[n - 1].phase()
        }
    }

    /// Whether the run is over.
    pub fn is_finished(&self) -> (finished: bool)
        ensures
            finished == self@.finished(),
    {
        self.due().is_none()
    }

    /// The attempts made so far, oldest first.
    pub fn journal(&self) -> (journal: &Vec<Attempt>)
        ensures
            journal@ == self@.journal,
    {
        &self.journal
    }

    /// The error that the run reports, if an acquisition failed.
    pub fn error(&self) -> (error: Option<&RunError>)
        ensures
            match error {
                Some(e) => self@.error == Some(e@),
                None => self@.error is None,
            },
    {
        self.error.as_ref()
    }

    /// The exit code of the run: one if it reports an error, else zero.
    pub fn exit_code(&self) -> (code: i32)
        ensures
            code == self@.exit_code(),
    {
        if self.error.is_some() {
            1
        } else {
            0
        }
    }

    /// How often `step` was attempted so far.
    pub fn attempts(&self, step: Step) -> (count: usize)
        ensures
            count == attempts(self@.journal, step),
    {
        let mut count: usize = 0;
        let mut i: usize = 0;
        while i < self.journal.len()
            invariant
                i <= self.journal.len(),
                count <= i,
                count == attempts(self.journal@.take(i as int), step),
            decreases self.journal.len() - i,
        {
            proof {
                let longer = self.journal@.take(i + 1);
                assert(longer.drop_last() =~= self.journal@.take(i as int));
            }
            if self.journal[i].step == step {
                count = count + 1;
            }
            i = i + 1;
        }
        proof {
            assert(self.journal@.take(i as int) =~= self.journal@);
        }
        count
    }

    /// The action that the caller must perform now, or `None` when the run is
    /// over.
    pub fn next_action(&self) -> (action: Option<Action>)
        requires
            self.wf(),
        ensures
            action_of(action) == self@.next_action(),
    {
        match self.due() {
            None => None,
            Some(Step::InitPlatform) => Some(Action::InitPlatform),
            Some(Step::OpenConnection) => Some(
                Action::OpenConnection {
                    application_id: self.settings.connection_id(),
                    application_name: self.settings.display_name(),
                },
            ),
            Some(Step::BeginSession) => Some(
                Action::BeginSession {
                    company_file: self.settings.session_file(),
                    mode: self.settings.file_mode(),
                },
            ),
            Some(Step::FetchDocument) => match &self.handle {
                Some(handle) => Some(Action::FetchDocument { handle: handle.duplicate() }),
                None => None,
            },
            Some(Step::Dispatch) => match &self.document {
                Some(document) => Some(Action::Dispatch { document: document.clone() }),
                None => None,
            },
            Some(Step::EndSession) => match &self.handle {
                Some(handle) => Some(Action::EndSession { handle: handle.duplicate() }),
                None => None,
            },
            Some(Step::CloseConnection) => Some(Action::CloseConnection),
            Some(Step::TeardownPlatform) => Some(Action::TeardownPlatform),
        }
    }

    /// Records what came of the step that is due.
    ///
    /// A result that does not answer that step is refused and changes
    /// nothing; so is every result once the run is over.
    pub fn record(&mut self, result: StepResult) -> (accepted: bool)
        requires
            old(self).wf(),
        ensures
            final(self).wf(),
            accepted == old(self)@.accepts(result@),
            accepted ==> final(self)@ == old(self)@.after(result@),
            !accepted ==> final(self)@ == old(self)@,
    {
        let step = match self.due() {
            Some(step) => step,
            None => {
                return false;
            },
        };
        proof {
            if old(self)@.accepts(result@) {
                lemma_after_is_valid(old(self)@, result@);
            }
        }
        match result {
            StepResult::Done => {
                match step {
                    Step::BeginSession | Step::FetchDocument => {
                        return false;
                    },
                    Step::Dispatch => {
                        self.document = None;
                    },
                    Step::EndSession => {
                        self.handle = None;
                    },
                    _ => {},
                }
                self.journal.push(Attempt { step, status: Status::Succeeded });
            },
            StepResult::InitFailed(status) => {
                if step != Step::InitPlatform {
                    return false;
                }
                self.error = Some(RunError::PlatformInit { status });
                self.journal.push(Attempt { step, status: Status::Failed });
            },
            StepResult::Handle(handle) => {
                if step != Step::BeginSession {
                    return false;
                }
                self.handle = Some(handle);
                self.journal.push(Attempt { step, status: Status::Succeeded });
            },
            StepResult::Document(document) => {
                if step != Step::FetchDocument {
                    return false;
                }
                self.document = Some(document);
                self.journal.push(Attempt { step, status: Status::Succeeded });
            },
            StepResult::NoDocument => {
                if step != Step::FetchDocument {
                    return false;
                }
                self.journal.push(Attempt { step, status: Status::Empty });
            },
            StepResult::Failed(reason) => {
                match step {
                    Step::InitPlatform | Step::TeardownPlatform => {
                        return false;
                    },
                    Step::OpenConnection => {
                        self.error = Some(RunError::ConnectionOpen { reason });
                    },
                    Step::BeginSession => {
                        self.error = Some(RunError::SessionBegin { reason });
                    },
                    Step::Dispatch => {
                        self.document = None;
                    },
                    Step::EndSession => {
                        self.handle = None;
                    },
                    _ => {},
                }
                self.journal.push(Attempt { step, status: Status::Failed });
            },
        }
        true
    }
}

} // verus!
