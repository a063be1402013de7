//! What passes between the orchestrator and its caller: the actions that the
//! caller performs, the results that it reports, the session handle, and the
//! error that a run ends with.

use vstd::prelude::*;
use crate::lifecycle::{Status, Step};
use crate::settings::FileMode;

verus! {

/// The ticket of an open session with the accounting engine.
///
/// The ticket is opaque: nothing can be learnt from it about whether the
/// session is still good, so a handle that was obtained is always handed
/// back for the session to be ended.
#[derive(Clone, Debug, PartialEq, Eq)]
pub struct SessionHandle {
    pub ticket: String,
}

impl View for SessionHandle {
    type V = Seq<char>;

    open spec fn view(&self) -> Seq<char> {
        self.ticket@
    }
}

impl SessionHandle {
    /// A handle around the ticket that the engine issued.
    pub fn new(ticket: String) -> (handle: SessionHandle)
        ensures
            handle.ticket == ticket,
    {
        SessionHandle { ticket }
    }

    /// A second handle for the same ticket.
    pub fn duplicate(&self) -> (handle: SessionHandle)
        ensures
            handle@ == self@,
    {
        SessionHandle { ticket: self.ticket.clone() }
    }
}

/// The error that a run reports once its cleanup is done.
#[derive(Clone, Debug, PartialEq, Eq)]
pub enum RunError {
    /// The platform subsystem could not be initialised.
    PlatformInit { status: i32 },
    /// The connection to the accounting engine could not be opened.
    ConnectionOpen { reason: String },
    /// No session could be begun on the open connection.
    SessionBegin { reason: String },
}

/// The mathematical content of [`RunError`].
pub enum RunErrorView {
    PlatformInit { status: i32 },
    ConnectionOpen { reason: Seq<char> },
    SessionBegin { reason: Seq<char> },
}

impl View for RunError {
    type V = RunErrorView;

    open spec fn view(&self) -> RunErrorView {
        match *self {
            RunError::PlatformInit { status } => RunErrorView::PlatformInit { status },
            RunError::ConnectionOpen { reason } => RunErrorView::ConnectionOpen { reason: reason@ },
            RunError::SessionBegin { reason } => RunErrorView::SessionBegin { reason: reason@ },
        }
    }
}

/// What came of the action that was due.
#[derive(Clone, Debug, PartialEq, Eq)]
pub enum StepResult {
    /// The operation succeeded and returned nothing.
    Done,
    /// The platform initialisation failed with this status code.
    InitFailed(i32),
    /// A session was begun.
    Handle(SessionHandle),
    /// The fetch returned this document.
    Document(String),
    /// The fetch returned no document.
    NoDocument,
    /// The operation failed for this reason.
    Failed(String),
}

/// The mathematical content of [`StepResult`].
pub enum StepResultView {
    Done,
    InitFailed(i32),
    Handle(Seq<char>),
    Document(Seq<char>),
    NoDocument,
    Failed(Seq<char>),
}

impl View for StepResult {
    type V = StepResultView;

    open spec fn view(&self) -> StepResultView {
        match *self {
            StepResult::Done => StepResultView::Done,
            StepResult::InitFailed(status) => StepResultView::InitFailed(status),
            StepResult::Handle(handle) => StepResultView::Handle(handle@),
            StepResult::Document(document) => StepResultView::Document(document@),
            StepResult::NoDocument => StepResultView::NoDocument,
            StepResult::Failed(reason) => StepResultView::Failed(reason@),
        }
    }
}

impl StepResultView {
    /// The journal status that this result is recorded under.
    pub open spec fn status(self) -> Status {
        match self {
            StepResultView::Done => Status::Succeeded,
            StepResultView::InitFailed(_) => Status::Failed,
            StepResultView::Handle(_) => Status::Succeeded,
            StepResultView::Document(_) => Status::Succeeded,
            StepResultView::NoDocument => Status::Empty,
            StepResultView::Failed(_) => Status::Failed,
        }
    }

    /// Whether this result can be the answer to `step`.
    pub open spec fn answers(self, step: Step) -> bool {
        match step {
            Step::InitPlatform => self is Done || self is InitFailed,
            Step::BeginSession => self is Handle || self is Failed,
            Step::FetchDocument => self is Document || self is NoDocument || self is Failed,
            Step::TeardownPlatform => self is Done,
            _ => self is Done || self is Failed,
        }
    }
}

/// An operation for the caller to perform, with what it needs.
#[derive(Clone, Debug, PartialEq, Eq)]
pub enum Action {
    InitPlatform,
    OpenConnection { application_id: String, application_name: String },
    BeginSession { company_file: String, mode: FileMode },
    FetchDocument { handle: SessionHandle },
    Dispatch { document: String },
    EndSession { handle: SessionHandle },
    CloseConnection,
    TeardownPlatform,
}

/// The mathematical content of [`Action`].
pub enum ActionView {
    InitPlatform,
    OpenConnection { application_id: Seq<char>, application_name: Seq<char> },
    BeginSession { company_file: Seq<char>, mode: FileMode },
    FetchDocument { handle: Seq<char> },
    Dispatch { document: Seq<char> },
    EndSession { handle: Seq<char> },
    CloseConnection,
    TeardownPlatform,
}

impl View for Action {
    type V = ActionView;

    open spec fn view(&self) -> ActionView {
        match *self {
            Action::InitPlatform => ActionView::InitPlatform,
            Action::OpenConnection { application_id, application_name } => {
                ActionView::OpenConnection {
                    application_id: application_id@,
                    application_name: application_name@,
                }
            },
            Action::BeginSession { company_file, mode } => ActionView::BeginSession {
                company_file: company_file@,
                mode,
            },
            Action::FetchDocument { handle } => ActionView::FetchDocument { handle: handle@ },
            Action::Dispatch { document } => ActionView::Dispatch { document: document@ },
            Action::EndSession { handle } => ActionView::EndSession { handle: handle@ },
            Action::CloseConnection => ActionView::CloseConnection,
            Action::TeardownPlatform => ActionView::TeardownPlatform,
        }
    }
}

impl ActionView {
    /// The lifecycle step that this action carries out.
    pub open spec fn step(self) -> Step {
        match self {
            ActionView::InitPlatform => Step::InitPlatform,
            ActionView::OpenConnection { .. } => Step::OpenConnection,
            ActionView::BeginSession { .. } => Step::BeginSession,
            ActionView::FetchDocument { .. } => Step::FetchDocument,
            ActionView::Dispatch { .. } => Step::Dispatch,
            ActionView::EndSession { .. } => Step::EndSession,
            ActionView::CloseConnection => Step::CloseConnection,
            ActionView::TeardownPlatform => Step::TeardownPlatform,
        }
    }
}

impl Action {
    /// The lifecycle step that this action carries out.
    pub fn step(&self) -> (step: Step)
        ensures
            step == self@.step(),
    {
        match self {
            Action::InitPlatform => Step::InitPlatform,
            Action::OpenConnection { .. } => Step::OpenConnection,
            Action::BeginSession { .. } => Step::BeginSession,
            Action::FetchDocument { .. } => Step::FetchDocument,
            Action::Dispatch { .. } => Step::Dispatch,
            Action::EndSession { .. } => Step::EndSession,
            Action::CloseConnection => Step::CloseConnection,
            Action::TeardownPlatform => Step::TeardownPlatform,
        }
    }
}

} // verus!
