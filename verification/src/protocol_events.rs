//! Protocol events and decisions that carry a rule: which errors fail a
//! turn, how a goal objective is validated, how a decision is reported.
use vstd::prelude::*;

use crate::text::append_str;
use crate::text::chars_of;
use crate::text::dec;
use crate::text::push_dec;
use crate::text::string_of;

verus! {

/// Turn kinds that reject same-turn steering.
#[derive(Clone, Copy, PartialEq, Eq, Structural, Debug)]
pub enum NonSteerableTurnKind {
    Review,
    Compact,
}

/// Codex errors exposed to clients.
#[derive(Clone, Copy, PartialEq, Eq, Structural, Debug)]
pub enum CodexErrorInfo {
    ContextWindowExceeded,
    UsageLimitExceeded,
    ServerOverloaded,
    CyberPolicy,
    HttpConnectionFailed { http_status_code: Option<u16> },
    ResponseStreamConnectionFailed { http_status_code: Option<u16> },
    InternalServerError,
    Unauthorized,
    BadRequest,
    SandboxError,
    ResponseStreamDisconnected { http_status_code: Option<u16> },
    ResponseTooManyFailedAttempts { http_status_code: Option<u16> },
    ActiveTurnNotSteerable { turn_kind: NonSteerableTurnKind },
    ThreadRollbackFailed,
    Other,
}

impl CodexErrorInfo {
    /// Every error fails the turn except a failed rollback and a refused
    /// steering request, which leave the turn as it was.
    pub open spec fn spec_affects_turn_status(self) -> bool {
        !(self is ThreadRollbackFailed || self is ActiveTurnNotSteerable)
    }

    /// Whether this error marks the current turn as failed when history is replayed.
    pub fn affects_turn_status(&self) -> (r: bool)
        ensures
            r == self.spec_affects_turn_status(),
    {
        match self {
            CodexErrorInfo::ThreadRollbackFailed | CodexErrorInfo::ActiveTurnNotSteerable {
                ..
            } => false,
            _ => true,
        }
    }
}

/// An error reported during a turn.
#[derive(Clone, Debug, PartialEq, Eq)]
pub struct ErrorEvent {
    pub message: String,
    pub codex_error_info: Option<CodexErrorInfo>,
}

impl ErrorEvent {
    /// Whether this error marks the current turn as failed: an error without
    /// details always does.
    pub fn affects_turn_status(&self) -> (r: bool)
        ensures
            r == match self.codex_error_info {
                Some(info) => info.spec_affects_turn_status(),
                None => true,
            },
    {
        match &self.codex_error_info {
            Some(info) => info.affects_turn_status(),
            None => true,
        }
    }
}

#[derive(Clone, Debug, PartialEq, Eq)]
pub struct WarningEvent {
    pub message: String,
}

#[derive(Clone, Debug, PartialEq, Eq)]
pub struct StreamErrorEvent {
    pub message: String,
    pub codex_error_info: Option<CodexErrorInfo>,
    pub additional_details: Option<String>,
}

#[derive(Clone, Debug, PartialEq, Eq)]
pub struct StreamInfoEvent {
    pub message: String,
}

// ------------------------------------------------------------ thread goals

#[derive(Clone, Copy, PartialEq, Eq, Structural, Debug)]
pub enum ThreadGoalStatus {
    Active,
    Paused,
    Blocked,
    UsageLimited,
    BudgetLimited,
    Complete,
}

/// The longest goal objective, in characters.
pub const MAX_THREAD_GOAL_OBJECTIVE_CHARS: usize = 4000;

/// A goal objective is accepted when it is not empty and has at most
/// 4000 characters.
pub fn validate_thread_goal_objective(value: &str) -> (r: Result<(), String>)
    ensures
        match r {
            Ok(()) => 0 < value@.len() <= 4000,
            Err(e) => if value@.len() == 0 {
                e@ == "goal objective must not be empty"@
            } else {
                value@.len() > 4000 && e@ == "goal objective must be at most "@ + dec(4000)
                    + " characters"@
            },
        },
{
    let n = value.unicode_len();
    if n == 0 {
        return Err(String::from_str("goal objective must not be empty"));
    }
    if n > MAX_THREAD_GOAL_OBJECTIVE_CHARS {
        let mut e = chars_of("goal objective must be at most ");
        push_dec(&mut e, MAX_THREAD_GOAL_OBJECTIVE_CHARS);
        append_str(&mut e, " characters");
        return Err(string_of(&e));
    }
    Ok(())
}

#[derive(Clone, Debug, PartialEq, Eq)]
pub struct ThreadGoal {
    pub thread_id: String,
    pub objective: String,
    pub status: ThreadGoalStatus,
    pub token_budget: Option<i64>,
    pub tokens_used: i64,
    pub time_used_seconds: i64,
    pub created_at: i64,
    pub updated_at: i64,
}

#[derive(Clone, Debug, PartialEq, Eq)]
pub struct ThreadGoalUpdatedEvent {
    pub thread_id: String,
    pub turn_id: Option<String>,
    pub goal: ThreadGoal,
}

// ------------------------------------------------------------ review decisions

/// A command prefix that an approval adds to the exec policy.
#[derive(Clone, Debug, PartialEq, Eq)]
pub struct ExecPolicyAmendment {
    pub command: Vec<String>,
}

#[derive(Clone, Copy, PartialEq, Eq, Structural, Debug)]
pub enum NetworkPolicyRuleAction {
    Allow,
    Deny,
}

/// A network rule that an approval persists for a host.
#[derive(Clone, Debug, PartialEq, Eq)]
pub struct NetworkPolicyAmendment {
    pub host: String,
    pub action: NetworkPolicyRuleAction,
}

/// The user's decision on an approval request.
#[derive(Clone, Debug, PartialEq, Eq)]
pub enum ReviewDecision {
    Approved,
    ApprovedExecpolicyAmendment { proposed_execpolicy_amendment: ExecPolicyAmendment },
    ApprovedForSession,
    NetworkPolicyAmendment { network_policy_amendment: NetworkPolicyAmendment },
    Denied,
    TimedOut,
    Abort,
}

impl Default for ReviewDecision {
    fn default() -> (r: ReviewDecision)
        ensures
            r is Denied,
    {
        ReviewDecision::Denied
    }
}

impl ReviewDecision {
    pub open spec fn spec_opaque(&self) -> Seq<char> {
        match self {
            ReviewDecision::Approved => "approved"@,
            ReviewDecision::ApprovedExecpolicyAmendment { .. } => "approved_with_amendment"@,
            ReviewDecision::ApprovedForSession => "approved_for_session"@,
            ReviewDecision::NetworkPolicyAmendment { network_policy_amendment } => {
                match network_policy_amendment.action {
                    NetworkPolicyRuleAction::Allow => "approved_with_network_policy_allow"@,
                    NetworkPolicyRuleAction::Deny => "denied_with_network_policy_deny"@,
                }
            },
            ReviewDecision::Denied => "denied"@,
            ReviewDecision::TimedOut => "timed_out"@,
            ReviewDecision::Abort => "abort"@,
        }
    }

    /// The decision's kind without the command, host or other details.
    pub fn to_opaque_string(&self) -> (r: &'static str)
        ensures
            r@ == self.spec_opaque(),
    {
        match self {
            ReviewDecision::Approved => "approved",
            ReviewDecision::ApprovedExecpolicyAmendment { .. } => "approved_with_amendment",
            ReviewDecision::ApprovedForSession => "approved_for_session",
            ReviewDecision::NetworkPolicyAmendment { network_policy_amendment } => {
                match network_policy_amendment.action {
                    NetworkPolicyRuleAction::Allow => "approved_with_network_policy_allow",
                    NetworkPolicyRuleAction::Deny => "denied_with_network_policy_deny",
                }
            },
            ReviewDecision::Denied => "denied",
            ReviewDecision::TimedOut => "timed_out",
            ReviewDecision::Abort => "abort",
        }
    }
}

/// A change to one file.
#[derive(Clone, Debug, PartialEq, Eq)]
pub enum FileChange {
    Add { content: String },
    Delete { content: String },
    Update { unified_diff: String, move_path: Option<String> },
}

#[derive(Clone, Debug, PartialEq, Eq)]
pub struct Chunk {
    pub orig_index: u32,
    pub deleted_lines: Vec<String>,
    pub inserted_lines: Vec<String>,
}

#[derive(Clone, Copy, PartialEq, Eq, Structural, Debug)]
pub enum TurnAbortReason {
    Interrupted,
    Replaced,
    ReviewEnded,
    BudgetLimited,
}

#[derive(Clone, Debug, PartialEq, Eq)]
pub struct TurnAbortedEvent {
    pub turn_id: Option<String>,
    pub reason: TurnAbortReason,
    pub completed_at: Option<i64>,
    pub duration_ms: Option<i64>,
}

#[derive(Clone, Copy, PartialEq, Eq, Structural, Debug)]
pub enum PatchApplyStatus {
    Completed,
    Failed,
    Declined,
}

// ------------------------------------------------------------ conversation

#[derive(Clone, Copy, PartialEq, Eq, Structural, Debug)]
pub enum ConversationTextRole {
    User,
    Developer,
    Assistant,
}

impl Default for ConversationTextRole {
    fn default() -> (r: ConversationTextRole)
        ensures
            r == ConversationTextRole::User,
    {
        ConversationTextRole::User
    }
}

#[derive(Clone, Debug, PartialEq, Eq)]
pub struct ConversationSpeechParams {
    pub text: String,
}

#[derive(Clone, Copy, PartialEq, Eq, Structural, Debug)]
pub enum AdditionalContextKind {
    Untrusted,
    Application,
}

#[derive(Clone, Debug, PartialEq, Eq)]
pub struct AdditionalContextEntry {
    pub value: String,
    pub kind: AdditionalContextKind,
}

#[derive(Clone, Copy, PartialEq, Eq, Structural, Debug)]
pub enum ThreadMemoryMode {
    Enabled,
    Disabled,
}

/// Agent lifecycle status, derived from emitted events.
#[derive(Clone, Debug, PartialEq, Eq)]
pub enum AgentStatus {
    PendingInit,
    Running,
    Interrupted,
    Completed(Option<String>),
    Errored(String),
    Shutdown,
    NotFound,
}

impl Default for AgentStatus {
    fn default() -> (r: AgentStatus)
        ensures
            r is PendingInit,
    {
        AgentStatus::PendingInit
    }
}

/// A message from one agent to another.
#[derive(Clone, Debug, PartialEq, Eq)]
pub struct InterAgentCommunication {
    pub author: String,
    pub recipient: String,
    pub other_recipients: Vec<String>,
    pub content: String,
    pub encrypted_content: Option<String>,
    pub trigger_turn: bool,
}

impl InterAgentCommunication {
    /// A plain-text message.
    pub fn new(
        author: String,
        recipient: String,
        other_recipients: Vec<String>,
        content: String,
        trigger_turn: bool,
    ) -> (r: InterAgentCommunication)
        ensures
            r.author == author,
            r.recipient == recipient,
            r.other_recipients == other_recipients,
            r.content == content,
            r.encrypted_content is None,
            r.trigger_turn == trigger_turn,
    {
        InterAgentCommunication {
            author,
            recipient,
            other_recipients,
            content,
            encrypted_content: None,
            trigger_turn,
        }
    }

    /// An encrypted message: the text content is empty.
    pub fn new_encrypted(
        author: String,
        recipient: String,
        other_recipients: Vec<String>,
        encrypted_content: String,
        trigger_turn: bool,
    ) -> (r: InterAgentCommunication)
        ensures
            r.author == author,
            r.recipient == recipient,
            r.other_recipients == other_recipients,
            r.content@.len() == 0,
            r.encrypted_content == Some(encrypted_content),
            r.trigger_turn == trigger_turn,
    {
        InterAgentCommunication {
            author,
            recipient,
            other_recipients,
            content: String::new(),
            encrypted_content: Some(encrypted_content),
            trigger_turn,
        }
    }
}

} // verus!
