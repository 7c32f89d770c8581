use codex_logic::session::BackgroundTaskLifecycle;
use codex_logic::session::BackgroundTaskState;
use codex_logic::session::CreateSessionRequest;
use codex_logic::session::OpenSessionRequest;
use codex_logic::session::SessionDescriptor;
use codex_logic::session::SessionIdentity;
use codex_logic::session::SessionInput;
use codex_logic::session::SessionLifecycleState;
use codex_logic::session::SessionRuntimeCommand;
use codex_logic::session::SessionRuntimeCommandDecision;
use codex_logic::session::SessionRuntimeLifecycle;
use codex_logic::session::SessionRuntimeStatus;

fn submit_input_command() -> SessionRuntimeCommand {
    SessionRuntimeCommand::SubmitInput {
        input: SessionInput::UserText {
            text: "hello".to_string(),
        },
    }
}

fn identity() -> SessionIdentity {
    SessionIdentity::new("67e55044-10b1-426f-9247-bb680e5fe0c7".to_string())
}

#[test]
fn lifecycle_predicates_identify_input_and_terminal_states() {
    assert!(SessionLifecycleState::Created.accepts_input());
    assert!(SessionLifecycleState::Active.accepts_input());
    assert!(!SessionLifecycleState::Draining.accepts_input());
    assert!(!SessionLifecycleState::Completed.accepts_input());
    assert!(!SessionLifecycleState::Failed.accepts_input());

    assert!(!SessionLifecycleState::Created.is_terminal());
    assert!(!SessionLifecycleState::Active.is_terminal());
    assert!(!SessionLifecycleState::Draining.is_terminal());
    assert!(SessionLifecycleState::Completed.is_terminal());
    assert!(SessionLifecycleState::Failed.is_terminal());
}

#[test]
fn shutdown_drains_session_and_rejects_new_input() {
    let mut lifecycle = SessionRuntimeLifecycle::created();

    assert_eq!(
        lifecycle.command_decision(&submit_input_command()),
        SessionRuntimeCommandDecision::Accepted
    );
    assert_eq!(lifecycle.mark_active().current(), SessionLifecycleState::Active);

    let shutdown = lifecycle.request_shutdown();

    assert!(shutdown.changed());
    assert_eq!(shutdown.previous(), SessionLifecycleState::Active);
    assert_eq!(shutdown.current(), SessionLifecycleState::Draining);
    assert_eq!(
        lifecycle.command_decision(&submit_input_command()),
        SessionRuntimeCommandDecision::Rejected(SessionLifecycleState::Draining)
    );
    assert!(!lifecycle.request_shutdown().changed());

    let completed = lifecycle.mark_completed();

    assert!(completed.changed());
    assert_eq!(completed.current(), SessionLifecycleState::Completed);
    assert!(!lifecycle.mark_failed().changed());
}

#[test]
fn background_task_abort_is_idempotent_until_finished() {
    let mut lifecycle = BackgroundTaskLifecycle::new();

    assert!(lifecycle.can_start());
    assert_eq!(lifecycle.start().current(), BackgroundTaskState::Running);
    assert!(!lifecycle.can_start());

    let aborting = lifecycle.request_abort();

    assert!(aborting.changed());
    assert_eq!(aborting.previous(), BackgroundTaskState::Running);
    assert_eq!(aborting.current(), BackgroundTaskState::Aborting);
    assert!(!lifecycle.request_abort().changed());

    assert_eq!(lifecycle.finish().current(), BackgroundTaskState::Finished);
    assert!(lifecycle.can_start());
}

#[test]
fn runtime_status_projects_descriptor_and_lifecycle_predicates() {
    let identity = identity();
    let status = SessionRuntimeStatus::new(identity.clone(), SessionLifecycleState::Active);

    assert_eq!(
        status.descriptor(),
        SessionDescriptor::new(identity, SessionLifecycleState::Active)
    );
    assert!(status.accepts_input());
    assert!(!status.is_terminal());
}

#[test]
fn runtime_status_reports_terminal_lifecycles() {
    let failed = SessionRuntimeStatus::new(identity(), SessionLifecycleState::Failed);
    assert!(!failed.accepts_input());
    assert!(failed.is_terminal());
}

#[test]
fn lifecycle_never_leaves_a_terminal_state() {
    let mut lifecycle = SessionRuntimeLifecycle::new(SessionLifecycleState::Failed);
    assert!(!lifecycle.mark_active().changed());
    assert!(!lifecycle.request_shutdown().changed());
    assert!(!lifecycle.mark_completed().changed());
    assert_eq!(lifecycle.current(), SessionLifecycleState::Failed);
    assert_eq!(
        lifecycle.command_decision(&SessionRuntimeCommand::Shutdown),
        SessionRuntimeCommandDecision::Accepted
    );
}

#[test]
fn background_task_start_is_ignored_while_running() {
    let mut lifecycle = BackgroundTaskLifecycle::default();
    assert!(!lifecycle.finish().changed());
    assert!(lifecycle.start().changed());
    assert!(!lifecycle.start().changed());
    assert!(!lifecycle.request_abort().current().eq(&BackgroundTaskState::Running));
}

#[test]
fn session_requests_carry_their_identity() {
    let create = CreateSessionRequest::new(SessionIdentity::new("s-1".to_string()));
    let open = OpenSessionRequest::new(SessionIdentity::new("s-1".to_string()));
    assert_eq!(create.identity, open.identity);
    assert_eq!(create.identity.id, "s-1");
}
