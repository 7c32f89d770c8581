//! Session identity, runtime commands and the runtime lifecycle state machines.
use vstd::prelude::*;

verus! {

/// Stable identity for a session; the id is the textual session id.
#[derive(Clone, Debug, PartialEq, Eq, Hash)]
pub struct SessionIdentity {
    pub id: String,
}

impl SessionIdentity {
    pub fn new(id: String) -> (r: Self)
        ensures
            r.id@ == id@,
    {
        SessionIdentity { id }
    }
}

/// Coarse lifecycle state for a session.
#[derive(Clone, Copy, Debug, PartialEq, Eq, Structural, Hash)]
pub enum SessionLifecycleState {
    Created,
    Active,
    Draining,
    Completed,
    Failed,
}

pub open spec fn spec_accepts_input(s: SessionLifecycleState) -> bool {
    s == SessionLifecycleState::Created || s == SessionLifecycleState::Active
}

pub open spec fn spec_is_terminal(s: SessionLifecycleState) -> bool {
    s == SessionLifecycleState::Completed || s == SessionLifecycleState::Failed
}

/// Progress rank of a lifecycle state: transitions never lower it.
pub open spec fn lifecycle_rank(s: SessionLifecycleState) -> nat {
    match s {
        SessionLifecycleState::Created => 0,
        SessionLifecycleState::Active => 1,
        SessionLifecycleState::Draining => 2,
        SessionLifecycleState::Completed => 3,
        SessionLifecycleState::Failed => 3,
    }
}

impl SessionLifecycleState {
    pub fn accepts_input(self) -> (r: bool)
        ensures
            r == spec_accepts_input(self),
    {
        matches!(self, SessionLifecycleState::Created | SessionLifecycleState::Active)
    }

    pub fn is_terminal(self) -> (r: bool)
        ensures
            r == spec_is_terminal(self),
    {
        matches!(self, SessionLifecycleState::Completed | SessionLifecycleState::Failed)
    }
}

/// Identity plus lifecycle information.
#[derive(Clone, Debug, PartialEq, Eq)]
pub struct SessionDescriptor {
    pub identity: SessionIdentity,
    pub lifecycle: SessionLifecycleState,
}

impl SessionDescriptor {
    pub fn new(identity: SessionIdentity, lifecycle: SessionLifecycleState) -> (r: Self)
        ensures
            r.identity == identity,
            r.lifecycle == lifecycle,
    {
        SessionDescriptor { identity, lifecycle }
    }
}

/// Input submitted to a session.
#[derive(Clone, Debug, PartialEq, Eq)]
pub enum SessionInput {
    UserText { text: String },
    SystemText { text: String },
}

/// Failure of a session input queue.
#[derive(Debug)]
pub enum SessionInputError {
    Closed,
    Rejected(String),
}

/// Observable session event.
#[derive(Clone, Debug, PartialEq, Eq)]
pub enum SessionEvent {
    LifecycleChanged { lifecycle: SessionLifecycleState },
    InputAccepted,
    OutputText { text: String },
    Failed { message: String },
}

/// Failure of a session event stream.
#[derive(Debug)]
pub enum SessionEventError {
    Closed,
    Failed(String),
}

/// Command accepted by a session runtime.
#[derive(Clone, Debug, PartialEq, Eq)]
pub enum SessionRuntimeCommand {
    SubmitInput { input: SessionInput },
    Shutdown,
}

/// Failure reported by a session runtime.
#[derive(Debug)]
pub enum SessionRuntimeError {
    Unavailable(String),
    Rejected(String),
    Failed(String),
}

/// Request to create a new runtime session.
#[derive(Clone, Debug, PartialEq, Eq)]
pub struct CreateSessionRequest {
    pub identity: SessionIdentity,
}

impl CreateSessionRequest {
    pub fn new(identity: SessionIdentity) -> (r: Self)
        ensures
            r.identity == identity,
    {
        CreateSessionRequest { identity }
    }
}

/// Request to open an existing runtime session.
#[derive(Clone, Debug, PartialEq, Eq)]
pub struct OpenSessionRequest {
    pub identity: SessionIdentity,
}

impl OpenSessionRequest {
    pub fn new(identity: SessionIdentity) -> (r: Self)
        ensures
            r.identity == identity,
    {
        OpenSessionRequest { identity }
    }
}

/// Failure reported by a session factory.
#[derive(Debug)]
pub enum SessionFactoryError {
    Unavailable(String),
    Failed(String),
}

/// Minimal status reported by a session runtime.
#[derive(Clone, Debug, PartialEq, Eq)]
pub struct SessionRuntimeStatus {
    pub identity: SessionIdentity,
    pub lifecycle: SessionLifecycleState,
}

impl SessionRuntimeStatus {
    pub fn new(identity: SessionIdentity, lifecycle: SessionLifecycleState) -> (r: Self)
        ensures
            r.identity == identity,
            r.lifecycle == lifecycle,
    {
        SessionRuntimeStatus { identity, lifecycle }
    }

    /// The identity and lifecycle of this status as a descriptor.
    pub fn descriptor(&self) -> (r: SessionDescriptor)
        ensures
            r.identity.id@ == self.identity.id@,
            r.lifecycle == self.lifecycle,
    {
        let id = self.identity.id.clone();
        SessionDescriptor::new(SessionIdentity::new(id), self.lifecycle)
    }

    pub fn accepts_input(&self) -> (r: bool)
        ensures
            r == spec_accepts_input(self.lifecycle),
    {
        self.lifecycle.accepts_input()
    }

    pub fn is_terminal(&self) -> (r: bool)
        ensures
            r == spec_is_terminal(self.lifecycle),
    {
        self.lifecycle.is_terminal()
    }
}

/// Decision made by the runtime lifecycle before dispatching a command.
#[derive(Clone, Copy, Debug, PartialEq, Eq, Structural)]
pub enum SessionRuntimeCommandDecision {
    Accepted,
    Rejected(SessionLifecycleState),
}

/// Records a lifecycle state change.
#[derive(Clone, Copy, Debug, PartialEq, Eq, Structural)]
pub struct SessionLifecycleTransition {
    previous: SessionLifecycleState,
    current: SessionLifecycleState,
}

impl SessionLifecycleTransition {
    pub closed spec fn spec_previous(self) -> SessionLifecycleState {
        self.previous
    }

    pub closed spec fn spec_current(self) -> SessionLifecycleState {
        self.current
    }

    pub fn new(previous: SessionLifecycleState, current: SessionLifecycleState) -> (r: Self)
        ensures
            r.spec_previous() == previous,
            r.spec_current() == current,
    {
        SessionLifecycleTransition { previous, current }
    }

    pub fn previous(self) -> (r: SessionLifecycleState)
        ensures
            r == self.spec_previous(),
    {
        self.previous
    }

    pub fn current(self) -> (r: SessionLifecycleState)
        ensures
            r == self.spec_current(),
    {
        self.current
    }

    pub fn changed(self) -> (r: bool)
        ensures
            r == (self.spec_previous() != self.spec_current()),
    {
        self.previous != self.current
    }
}

/// State machine for session runtime shutdown and terminal transitions.
#[derive(Clone, Debug, PartialEq, Eq)]
pub struct SessionRuntimeLifecycle {
    current: SessionLifecycleState,
}

/// State reached by `mark_active` from `s`.
pub open spec fn after_mark_active(s: SessionLifecycleState) -> SessionLifecycleState {
    if s == SessionLifecycleState::Created {
        SessionLifecycleState::Active
    } else {
        s
    }
}

/// State reached by `request_shutdown` from `s`.
pub open spec fn after_request_shutdown(s: SessionLifecycleState) -> SessionLifecycleState {
    if spec_accepts_input(s) {
        SessionLifecycleState::Draining
    } else {
        s
    }
}

/// State reached by `mark_completed` from `s`.
pub open spec fn after_mark_completed(s: SessionLifecycleState) -> SessionLifecycleState {
    if spec_is_terminal(s) {
        s
    } else {
        SessionLifecycleState::Completed
    }
}

/// State reached by `mark_failed` from `s`.
pub open spec fn after_mark_failed(s: SessionLifecycleState) -> SessionLifecycleState {
    if spec_is_terminal(s) {
        s
    } else {
        SessionLifecycleState::Failed
    }
}

/// The decision for a command in state `s`.
pub open spec fn spec_command_decision(
    s: SessionLifecycleState,
    command: SessionRuntimeCommand,
) -> SessionRuntimeCommandDecision {
    match command {
        SessionRuntimeCommand::SubmitInput { .. } => if spec_accepts_input(s) {
            SessionRuntimeCommandDecision::Accepted
        } else {
            SessionRuntimeCommandDecision::Rejected(s)
        },
        SessionRuntimeCommand::Shutdown => SessionRuntimeCommandDecision::Accepted,
    }
}

impl SessionRuntimeLifecycle {
    pub closed spec fn state(self) -> SessionLifecycleState {
        self.current
    }

    pub fn new(current: SessionLifecycleState) -> (r: Self)
        ensures
            r.state() == current,
    {
        SessionRuntimeLifecycle { current }
    }

    pub fn created() -> (r: Self)
        ensures
            r.state() == SessionLifecycleState::Created,
    {
        Self::new(SessionLifecycleState::Created)
    }

    pub fn current(&self) -> (r: SessionLifecycleState)
        ensures
            r == self.state(),
    {
        self.current
    }

    pub fn can_accept_input(&self) -> (r: bool)
        ensures
            r == spec_accepts_input(self.state()),
    {
        self.current.accepts_input()
    }

    pub fn can_start_background_task(&self) -> (r: bool)
        ensures
            r == spec_accepts_input(self.state()),
    {
        self.can_accept_input()
    }

    pub fn command_decision(&self, command: &SessionRuntimeCommand) -> (r:
        SessionRuntimeCommandDecision)
        ensures
            r == spec_command_decision(self.state(), *command),
    {
        match command {
            SessionRuntimeCommand::SubmitInput { .. } => {
                if self.can_accept_input() {
                    SessionRuntimeCommandDecision::Accepted
                } else {
                    SessionRuntimeCommandDecision::Rejected(self.current)
                }
            },
            SessionRuntimeCommand::Shutdown => SessionRuntimeCommandDecision::Accepted,
        }
    }

    pub fn mark_active(&mut self) -> (t: SessionLifecycleTransition)
        ensures
            final(self).state() == after_mark_active(old(self).state()),
            t.spec_previous() == old(self).state(),
            t.spec_current() == final(self).state(),
    {
        match self.current {
            SessionLifecycleState::Created => self.transition_to(SessionLifecycleState::Active),
            _ => self.unchanged(),
        }
    }

    pub fn request_shutdown(&mut self) -> (t: SessionLifecycleTransition)
        ensures
            final(self).state() == after_request_shutdown(old(self).state()),
            t.spec_previous() == old(self).state(),
            t.spec_current() == final(self).state(),
    {
        match self.current {
            SessionLifecycleState::Created | SessionLifecycleState::Active => {
                self.transition_to(SessionLifecycleState::Draining)
            },
            _ => self.unchanged(),
        }
    }

    pub fn mark_completed(&mut self) -> (t: SessionLifecycleTransition)
        ensures
            final(self).state() == after_mark_completed(old(self).state()),
            t.spec_previous() == old(self).state(),
            t.spec_current() == final(self).state(),
    {
        match self.current {
            SessionLifecycleState::Completed | SessionLifecycleState::Failed => self.unchanged(),
            _ => self.transition_to(SessionLifecycleState::Completed),
        }
    }

    pub fn mark_failed(&mut self) -> (t: SessionLifecycleTransition)
        ensures
            final(self).state() == after_mark_failed(old(self).state()),
            t.spec_previous() == old(self).state(),
            t.spec_current() == final(self).state(),
    {
        match self.current {
            SessionLifecycleState::Completed | SessionLifecycleState::Failed => self.unchanged(),
            _ => self.transition_to(SessionLifecycleState::Failed),
        }
    }

    fn transition_to(&mut self, current: SessionLifecycleState) -> (t: SessionLifecycleTransition)
        ensures
            final(self).state() == current,
            t.spec_previous() == old(self).state(),
            t.spec_current() == current,
    {
        let previous = self.current;
        self.current = current;
        SessionLifecycleTransition::new(previous, current)
    }

    fn unchanged(&self) -> (t: SessionLifecycleTransition)
        ensures
            t.spec_previous() == self.state(),
            t.spec_current() == self.state(),
    {
        SessionLifecycleTransition::new(self.current, self.current)
    }
}

/// Lifecycle states for one runtime-owned background task.
#[derive(Clone, Copy, Debug, PartialEq, Eq, Structural)]
pub enum BackgroundTaskState {
    Idle,
    Running,
    Aborting,
    Finished,
}

/// Records a background task state change.
#[derive(Clone, Copy, Debug, PartialEq, Eq, Structural)]
pub struct BackgroundTaskTransition {
    previous: BackgroundTaskState,
    current: BackgroundTaskState,
}

impl BackgroundTaskTransition {
    pub closed spec fn spec_previous(self) -> BackgroundTaskState {
        self.previous
    }

    pub closed spec fn spec_current(self) -> BackgroundTaskState {
        self.current
    }

    pub fn new(previous: BackgroundTaskState, current: BackgroundTaskState) -> (r: Self)
        ensures
            r.spec_previous() == previous,
            r.spec_current() == current,
    {
        BackgroundTaskTransition { previous, current }
    }

    pub fn previous(self) -> (r: BackgroundTaskState)
        ensures
            r == self.spec_previous(),
    {
        self.previous
    }

    pub fn current(self) -> (r: BackgroundTaskState)
        ensures
            r == self.spec_current(),
    {
        self.current
    }

    pub fn changed(self) -> (r: bool)
        ensures
            r == (self.spec_previous() != self.spec_current()),
    {
        self.previous != self.current
    }
}

pub open spec fn task_can_start(s: BackgroundTaskState) -> bool {
    s == BackgroundTaskState::Idle || s == BackgroundTaskState::Finished
}

pub open spec fn after_start(s: BackgroundTaskState) -> BackgroundTaskState {
    if task_can_start(s) {
        BackgroundTaskState::Running
    } else {
        s
    }
}

pub open spec fn after_request_abort(s: BackgroundTaskState) -> BackgroundTaskState {
    if s == BackgroundTaskState::Running {
        BackgroundTaskState::Aborting
    } else {
        s
    }
}

pub open spec fn after_finish(s: BackgroundTaskState) -> BackgroundTaskState {
    if s == BackgroundTaskState::Running || s == BackgroundTaskState::Aborting {
        BackgroundTaskState::Finished
    } else {
        s
    }
}

/// State machine for background task start, abort, and completion.
#[derive(Clone, Debug, PartialEq, Eq)]
pub struct BackgroundTaskLifecycle {
    current: BackgroundTaskState,
}

impl BackgroundTaskLifecycle {
    pub closed spec fn state(self) -> BackgroundTaskState {
        self.current
    }

    pub fn new() -> (r: Self)
        ensures
            r.state() == BackgroundTaskState::Idle,
    {
        BackgroundTaskLifecycle { current: BackgroundTaskState::Idle }
    }

    pub fn current(&self) -> (r: BackgroundTaskState)
        ensures
            r == self.state(),
    {
        self.current
    }

    pub fn can_start(&self) -> (r: bool)
        ensures
            r == task_can_start(self.state()),
    {
        matches!(self.current, BackgroundTaskState::Idle | BackgroundTaskState::Finished)
    }

    pub fn start(&mut self) -> (t: BackgroundTaskTransition)
        ensures
            final(self).state() == after_start(old(self).state()),
            t.spec_previous() == old(self).state(),
            t.spec_current() == final(self).state(),
    {
        match self.current {
            BackgroundTaskState::Idle | BackgroundTaskState::Finished => {
                self.transition_to(BackgroundTaskState::Running)
            },
            _ => self.unchanged(),
        }
    }

    pub fn request_abort(&mut self) -> (t: BackgroundTaskTransition)
        ensures
            final(self).state() == after_request_abort(old(self).state()),
            t.spec_previous() == old(self).state(),
            t.spec_current() == final(self).state(),
    {
        match self.current {
            BackgroundTaskState::Running => self.transition_to(BackgroundTaskState::Aborting),
            _ => self.unchanged(),
        }
    }

    pub fn finish(&mut self) -> (t: BackgroundTaskTransition)
        ensures
            final(self).state() == after_finish(old(self).state()),
            t.spec_previous() == old(self).state(),
            t.spec_current() == final(self).state(),
    {
        match self.current {
            BackgroundTaskState::Running | BackgroundTaskState::Aborting => {
                self.transition_to(BackgroundTaskState::Finished)
            },
            _ => self.unchanged(),
        }
    }

    fn transition_to(&mut self, current: BackgroundTaskState) -> (t: BackgroundTaskTransition)
        ensures
            final(self).state() == current,
            t.spec_previous() == old(self).state(),
            t.spec_current() == current,
    {
        let previous = self.current;
        self.current = current;
        BackgroundTaskTransition::new(previous, current)
    }

    fn unchanged(&self) -> (t: BackgroundTaskTransition)
        ensures
            t.spec_previous() == self.state(),
            t.spec_current() == self.state(),
    {
        BackgroundTaskTransition::new(self.current, self.current)
    }
}

impl Default for BackgroundTaskLifecycle {
    fn default() -> (r: Self)
        ensures
            r.state() == BackgroundTaskState::Idle,
    {
        Self::new()
    }
}

// ------------------------------------------------------------------ laws

/// No lifecycle operation lowers the progress rank
/// Created < Active < Draining < {Completed, Failed}.
pub proof fn law_lifecycle_never_regresses(s: SessionLifecycleState)
    ensures
        lifecycle_rank(after_mark_active(s)) >= lifecycle_rank(s),
        lifecycle_rank(after_request_shutdown(s)) >= lifecycle_rank(s),
        lifecycle_rank(after_mark_completed(s)) >= lifecycle_rank(s),
        lifecycle_rank(after_mark_failed(s)) >= lifecycle_rank(s),
{
}

/// Terminal states absorb every lifecycle operation.
pub proof fn law_terminal_states_absorb(s: SessionLifecycleState)
    requires
        spec_is_terminal(s),
    ensures
        after_mark_active(s) == s,
        after_request_shutdown(s) == s,
        after_mark_completed(s) == s,
        after_mark_failed(s) == s,
{
}

/// Every lifecycle operation is idempotent: applying it twice equals applying it once.
pub proof fn law_lifecycle_operations_idempotent(s: SessionLifecycleState)
    ensures
        after_mark_active(after_mark_active(s)) == after_mark_active(s),
        after_request_shutdown(after_request_shutdown(s)) == after_request_shutdown(s),
        after_mark_completed(after_mark_completed(s)) == after_mark_completed(s),
        after_mark_failed(after_mark_failed(s)) == after_mark_failed(s),
{
}

/// Once shutdown has been requested, input is rejected with the current state,
/// while a shutdown command is still accepted.
pub proof fn law_shutdown_rejects_new_input(s: SessionLifecycleState, input: SessionInput)
    ensures
        spec_command_decision(
            after_request_shutdown(s),
            SessionRuntimeCommand::SubmitInput { input },
        ) == SessionRuntimeCommandDecision::Rejected(after_request_shutdown(s)),
        spec_command_decision(after_request_shutdown(s), SessionRuntimeCommand::Shutdown)
            == SessionRuntimeCommandDecision::Accepted,
{
}

/// Input is accepted exactly in the states that accept input.
pub proof fn law_input_accepted_iff_accepting_state(s: SessionLifecycleState, input: SessionInput)
    ensures
        (spec_command_decision(s, SessionRuntimeCommand::SubmitInput { input })
            == SessionRuntimeCommandDecision::Accepted) <==> spec_accepts_input(s),
{
}

/// Aborting a background task is idempotent, and a finished task can start again.
pub proof fn law_background_abort_idempotent_until_finished(s: BackgroundTaskState)
    ensures
        after_request_abort(after_request_abort(s)) == after_request_abort(s),
        after_finish(after_request_abort(s)) == after_finish(s),
        task_can_start(after_finish(after_start(s))),
        s == BackgroundTaskState::Running ==> after_finish(after_request_abort(s))
            == BackgroundTaskState::Finished,
{
}

/// A background task starts exactly when it is idle or finished.
pub proof fn law_background_start_only_when_startable(s: BackgroundTaskState)
    ensures
        (after_start(s) != s) <==> task_can_start(s),
{
}

} // verus!
