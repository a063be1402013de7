use quickbooks_sync::lifecycle::{Attempt, Phase, Severity, Status, Step};
use quickbooks_sync::orchestrator::Orchestrator;
use quickbooks_sync::session::{Action, RunError, SessionHandle, StepResult};
use quickbooks_sync::settings::{EngineSettings, FileMode};

fn settings(company_file: &str) -> EngineSettings {
    EngineSettings::new(None, None, company_file.to_string())
}

fn steps(o: &Orchestrator) -> Vec<Step> {
    o.journal().iter().map(|a| a.step).collect()
}

fn begun() -> Orchestrator {
    let mut o = Orchestrator::new(settings("AUTO"));
    assert!(o.record(StepResult::Done));
    assert!(o.record(StepResult::Done));
    assert!(o.record(StepResult::Handle(SessionHandle::new("ticket-7".to_string()))));
    o
}

fn finish(o: &mut Orchestrator) {
    let mut guard = 0;
    while !o.is_finished() {
        assert!(o.record(StepResult::Done));
        guard += 1;
        assert!(guard <= 8);
    }
}

#[test]
fn new_run_starts_with_platform_init() {
    let o = Orchestrator::new(settings("AUTO"));
    assert_eq!(o.phase(), Phase::Uninit);
    assert_eq!(o.due(), Some(Step::InitPlatform));
    assert!(!o.is_finished());
    assert!(o.journal().is_empty());
    assert!(matches!(o.next_action(), Some(Action::InitPlatform)));
    assert_eq!(o.exit_code(), 0);
    assert!(o.error().is_none());
}

#[test]
fn full_run_with_document_walks_all_eight_steps() {
    let mut o = Orchestrator::new(settings("AUTO"));
    assert!(o.record(StepResult::Done));
    assert_eq!(o.phase(), Phase::PlatformReady);
    assert!(o.record(StepResult::Done));
    assert_eq!(o.phase(), Phase::Connected);
    assert!(o.record(StepResult::Handle(SessionHandle::new("t".to_string()))));
    assert_eq!(o.phase(), Phase::SessionOpen);
    assert!(o.record(StepResult::Document("<xml/>".to_string())));
    assert_eq!(o.phase(), Phase::DocumentFetched);
    assert_eq!(
        o.next_action(),
        Some(Action::Dispatch { document: "<xml/>".to_string() })
    );
    assert!(o.record(StepResult::Done));
    assert_eq!(o.phase(), Phase::DocumentFetched);
    assert!(o.record(StepResult::Done));
    assert_eq!(o.phase(), Phase::SessionClosed);
    assert!(o.record(StepResult::Done));
    assert_eq!(o.phase(), Phase::Disconnected);
    assert!(o.record(StepResult::Done));
    assert_eq!(o.phase(), Phase::PlatformTornDown);
    assert!(o.is_finished());
    assert_eq!(o.next_action(), None);
    assert_eq!(
        steps(&o),
        vec![
            Step::InitPlatform,
            Step::OpenConnection,
            Step::BeginSession,
            Step::FetchDocument,
            Step::Dispatch,
            Step::EndSession,
            Step::CloseConnection,
            Step::TeardownPlatform,
        ]
    );
    assert_eq!(o.exit_code(), 0);
}

#[test]
fn failed_init_aborts_without_cleanup() {
    let mut o = Orchestrator::new(settings("AUTO"));
    assert!(o.record(StepResult::InitFailed(-2147221008)));
    assert!(o.is_finished());
    assert_eq!(o.phase(), Phase::Aborted);
    assert_eq!(o.next_action(), None);
    assert_eq!(
        o.journal().clone(),
        vec![Attempt { step: Step::InitPlatform, status: Status::Failed }]
    );
    assert_eq!(o.attempts(Step::TeardownPlatform), 0);
    assert_eq!(o.error(), Some(&RunError::PlatformInit { status: -2147221008 }));
    assert_eq!(o.exit_code(), 1);
}

#[test]
fn teardown_is_attempted_once_on_every_path_after_init() {
    // open fails
    let mut a = Orchestrator::new(settings("AUTO"));
    assert!(a.record(StepResult::Done));
    assert!(a.record(StepResult::Failed("no engine".to_string())));
    finish(&mut a);
    assert_eq!(a.attempts(Step::TeardownPlatform), 1);
    // begin fails
    let mut b = Orchestrator::new(settings("AUTO"));
    assert!(b.record(StepResult::Done));
    assert!(b.record(StepResult::Done));
    assert!(b.record(StepResult::Failed("no file".to_string())));
    finish(&mut b);
    assert_eq!(b.attempts(Step::TeardownPlatform), 1);
    // fetch fails, end fails, close fails
    let mut c = begun();
    assert!(c.record(StepResult::Failed("query".to_string())));
    assert!(c.record(StepResult::Failed("end".to_string())));
    assert!(c.record(StepResult::Failed("close".to_string())));
    assert!(c.record(StepResult::Done));
    assert!(c.is_finished());
    assert_eq!(c.attempts(Step::TeardownPlatform), 1);
    // everything succeeds
    let mut d = begun();
    assert!(d.record(StepResult::Document("doc".to_string())));
    finish(&mut d);
    assert_eq!(d.attempts(Step::TeardownPlatform), 1);
}

#[test]
fn failed_open_skips_to_teardown_and_reports() {
    let mut o = Orchestrator::new(settings("AUTO"));
    assert!(o.record(StepResult::Done));
    assert!(o.record(StepResult::Failed("engine not running".to_string())));
    assert_eq!(o.phase(), Phase::Disconnected);
    assert!(matches!(o.next_action(), Some(Action::TeardownPlatform)));
    assert!(o.record(StepResult::Done));
    assert!(o.is_finished());
    assert_eq!(
        steps(&o),
        vec![Step::InitPlatform, Step::OpenConnection, Step::TeardownPlatform]
    );
    assert_eq!(o.attempts(Step::CloseConnection), 0);
    assert_eq!(
        o.error(),
        Some(&RunError::ConnectionOpen { reason: "engine not running".to_string() })
    );
    assert_eq!(o.exit_code(), 1);
}

#[test]
fn failed_begin_closes_connection_and_never_ends_session() {
    let mut o = Orchestrator::new(settings("AUTO"));
    assert!(o.record(StepResult::Done));
    assert!(o.record(StepResult::Done));
    assert!(o.record(StepResult::Failed("file locked".to_string())));
    assert_eq!(o.phase(), Phase::SessionClosed);
    assert!(matches!(o.next_action(), Some(Action::CloseConnection)));
    assert!(o.record(StepResult::Done));
    assert!(matches!(o.next_action(), Some(Action::TeardownPlatform)));
    assert!(o.record(StepResult::Done));
    assert!(o.is_finished());
    assert_eq!(o.attempts(Step::CloseConnection), 1);
    assert_eq!(o.attempts(Step::EndSession), 0);
    assert_eq!(o.attempts(Step::TeardownPlatform), 1);
    assert!(o
        .journal()
        .contains(&Attempt { step: Step::CloseConnection, status: Status::Succeeded }));
    assert_eq!(
        o.error(),
        Some(&RunError::SessionBegin { reason: "file locked".to_string() })
    );
    assert_eq!(o.exit_code(), 1);
}

#[test]
fn fetched_document_means_one_end_and_one_close() {
    let mut o = begun();
    assert!(o.record(StepResult::Document("doc".to_string())));
    finish(&mut o);
    assert_eq!(o.attempts(Step::EndSession), 1);
    assert_eq!(o.attempts(Step::CloseConnection), 1);
    assert_eq!(o.attempts(Step::Dispatch), 1);
}

#[test]
fn absent_document_skips_dispatch_but_not_cleanup() {
    let mut o = begun();
    assert!(o.record(StepResult::NoDocument));
    assert_eq!(o.phase(), Phase::DocumentFetched);
    assert_eq!(
        o.next_action(),
        Some(Action::EndSession { handle: SessionHandle::new("ticket-7".to_string()) })
    );
    assert!(o.record(StepResult::Done));
    assert!(matches!(o.next_action(), Some(Action::CloseConnection)));
    assert!(o.record(StepResult::Done));
    assert!(o.record(StepResult::Done));
    assert!(o.is_finished());
    assert_eq!(o.attempts(Step::Dispatch), 0);
    assert_eq!(o.attempts(Step::EndSession), 1);
    assert_eq!(o.attempts(Step::CloseConnection), 1);
    assert_eq!(o.attempts(Step::TeardownPlatform), 1);
    assert_eq!(o.journal()[3], Attempt { step: Step::FetchDocument, status: Status::Empty });
    assert_eq!(o.exit_code(), 0);
    assert!(o.error().is_none());
}

#[test]
fn query_error_is_absorbed() {
    let mut o = begun();
    assert!(o.record(StepResult::Failed("query failed".to_string())));
    assert_eq!(o.due(), Some(Step::EndSession));
    finish(&mut o);
    assert_eq!(o.attempts(Step::Dispatch), 0);
    assert_eq!(o.exit_code(), 0);
    assert!(o.error().is_none());
}

#[test]
fn cleanup_failures_are_absorbed_and_cleanup_goes_on() {
    let mut o = begun();
    assert!(o.record(StepResult::Document("doc".to_string())));
    assert!(o.record(StepResult::Failed("dispatch".to_string())));
    assert_eq!(o.due(), Some(Step::EndSession));
    assert!(o.record(StepResult::Failed("end".to_string())));
    assert_eq!(o.due(), Some(Step::CloseConnection));
    assert!(o.record(StepResult::Failed("close".to_string())));
    assert_eq!(o.due(), Some(Step::TeardownPlatform));
    assert!(o.record(StepResult::Done));
    assert!(o.is_finished());
    assert!(o.error().is_none());
    assert_eq!(o.exit_code(), 0);
    assert_eq!(o.journal()[5], Attempt { step: Step::EndSession, status: Status::Failed });
    assert_eq!(o.journal()[6], Attempt { step: Step::CloseConnection, status: Status::Failed });
}

#[test]
fn releases_come_in_reverse_order_of_acquisitions() {
    let mut o = begun();
    assert!(o.record(StepResult::NoDocument));
    finish(&mut o);
    let s = steps(&o);
    let at = |step: Step| s.iter().position(|x| *x == step).unwrap();
    assert!(at(Step::InitPlatform) < at(Step::OpenConnection));
    assert!(at(Step::OpenConnection) < at(Step::BeginSession));
    assert!(at(Step::EndSession) < at(Step::CloseConnection));
    assert!(at(Step::CloseConnection) < at(Step::TeardownPlatform));
}

#[test]
fn handle_from_begin_is_handed_to_fetch_and_end() {
    let mut o = begun();
    assert_eq!(
        o.next_action(),
        Some(Action::FetchDocument { handle: SessionHandle::new("ticket-7".to_string()) })
    );
    assert!(o.record(StepResult::Failed("q".to_string())));
    assert_eq!(
        o.next_action(),
        Some(Action::EndSession { handle: SessionHandle::new("ticket-7".to_string()) })
    );
}

#[test]
fn results_that_do_not_answer_the_due_step_are_refused() {
    let mut o = Orchestrator::new(settings("AUTO"));
    assert!(!o.record(StepResult::NoDocument));
    assert!(!o.record(StepResult::Failed("x".to_string())));
    assert!(!o.record(StepResult::Handle(SessionHandle::new("t".to_string()))));
    assert!(!o.record(StepResult::Document("d".to_string())));
    assert!(o.journal().is_empty());
    assert!(o.record(StepResult::Done));
    assert!(!o.record(StepResult::InitFailed(5)));
    assert!(o.record(StepResult::Done));
    // a session needs a handle
    assert!(!o.record(StepResult::Done));
    assert!(o.record(StepResult::Handle(SessionHandle::new("t".to_string()))));
    // a fetch needs a document, an absence or an error
    assert!(!o.record(StepResult::Done));
    assert_eq!(o.journal().len(), 3);
    assert!(o.record(StepResult::NoDocument));
    assert!(o.record(StepResult::Done));
    assert!(o.record(StepResult::Done));
    // the teardown cannot fail
    assert!(!o.record(StepResult::Failed("x".to_string())));
    assert!(o.record(StepResult::Done));
    // nothing is taken after the end
    assert!(!o.record(StepResult::Done));
    assert_eq!(o.journal().len(), 7);
}

#[test]
fn auto_company_file_asks_for_the_default_file() {
    let mut o = Orchestrator::new(settings("AUTO"));
    assert!(o.record(StepResult::Done));
    assert!(o.record(StepResult::Done));
    assert_eq!(
        o.next_action(),
        Some(Action::BeginSession { company_file: String::new(), mode: FileMode::DoNotCare })
    );
}

#[test]
fn configured_company_file_is_passed_on() {
    let mut o = Orchestrator::new(settings("C:\\books\\acme.qbw"));
    assert!(o.record(StepResult::Done));
    assert!(o.record(StepResult::Done));
    assert_eq!(
        o.next_action(),
        Some(Action::BeginSession {
            company_file: "C:\\books\\acme.qbw".to_string(),
            mode: FileMode::DoNotCare
        })
    );
}

#[test]
fn connection_uses_fallback_display_name() {
    let mut o = Orchestrator::new(settings("AUTO"));
    assert!(o.record(StepResult::Done));
    assert_eq!(
        o.next_action(),
        Some(Action::OpenConnection {
            application_id: String::new(),
            application_name: "QuickBooks Sync Service".to_string()
        })
    );
}

#[test]
fn connection_uses_configured_identity() {
    let s = EngineSettings::new(
        Some("app-1".to_string()),
        Some("Ledger Bridge".to_string()),
        "AUTO".to_string(),
    );
    assert_eq!(s.connection_id(), "app-1");
    assert_eq!(s.display_name(), "Ledger Bridge");
    assert_eq!(s.session_file(), "");
    assert_eq!(s.file_mode(), FileMode::DoNotCare);
    let mut o = Orchestrator::new(s);
    assert!(o.record(StepResult::Done));
    assert_eq!(
        o.next_action(),
        Some(Action::OpenConnection {
            application_id: "app-1".to_string(),
            application_name: "Ledger Bridge".to_string()
        })
    );
}

#[test]
fn action_names_its_step() {
    assert_eq!(Action::InitPlatform.step(), Step::InitPlatform);
    assert_eq!(Action::CloseConnection.step(), Step::CloseConnection);
    assert_eq!(Action::TeardownPlatform.step(), Step::TeardownPlatform);
    assert_eq!(Action::Dispatch { document: String::new() }.step(), Step::Dispatch);
    let h = SessionHandle::new("t".to_string());
    assert_eq!(h.duplicate(), h);
    assert_eq!(Action::FetchDocument { handle: h.duplicate() }.step(), Step::FetchDocument);
    assert_eq!(Action::EndSession { handle: h }.step(), Step::EndSession);
}

#[test]
fn attempt_leads_to_the_next_step() {
    let ok = |step| Attempt { step, status: Status::Succeeded };
    let bad = |step| Attempt { step, status: Status::Failed };
    assert_eq!(ok(Step::InitPlatform).next(), Some(Step::OpenConnection));
    assert_eq!(bad(Step::InitPlatform).next(), None);
    assert_eq!(bad(Step::OpenConnection).next(), Some(Step::TeardownPlatform));
    assert_eq!(bad(Step::BeginSession).next(), Some(Step::CloseConnection));
    assert_eq!(ok(Step::FetchDocument).next(), Some(Step::Dispatch));
    assert_eq!(
        Attempt { step: Step::FetchDocument, status: Status::Empty }.next(),
        Some(Step::EndSession)
    );
    assert_eq!(bad(Step::EndSession).next(), Some(Step::CloseConnection));
    assert_eq!(bad(Step::CloseConnection).next(), Some(Step::TeardownPlatform));
    assert_eq!(ok(Step::TeardownPlatform).next(), None);
    assert_eq!(bad(Step::OpenConnection).phase(), Phase::Disconnected);
    assert_eq!(bad(Step::BeginSession).phase(), Phase::SessionClosed);
}

#[test]
fn only_failed_acquisitions_end_a_run() {
    assert_eq!(Step::InitPlatform.severity(), Severity::Fatal);
    assert_eq!(Step::OpenConnection.severity(), Severity::Reported);
    assert_eq!(Step::BeginSession.severity(), Severity::Reported);
    assert_eq!(Step::FetchDocument.severity(), Severity::Absorbed);
    assert_eq!(Step::Dispatch.severity(), Severity::Absorbed);
    assert_eq!(Step::EndSession.severity(), Severity::Absorbed);
    assert_eq!(Step::CloseConnection.severity(), Severity::Absorbed);
    assert_eq!(Step::TeardownPlatform.severity(), Severity::Absorbed);
}
