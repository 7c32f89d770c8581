//! Event and record types of the protocol that carry data between the
//! agent, its clients and its tools.
use vstd::prelude::*;

use std::collections::HashMap;

use crate::mcp::CallToolResult;
use crate::models::WebSearchAction;
use crate::protocol_events::AgentStatus;
use crate::protocol_events::ConversationTextRole;
use crate::protocol_events::FileChange;
use crate::protocol_events::PatchApplyStatus;

verus! {

// ------------------------------------------------------------ hooks

#[derive(Clone, Copy, PartialEq, Eq, Structural, Debug)]
pub enum HookHandlerType {
    Command,
    Prompt,
    Agent,
}

#[derive(Clone, Copy, PartialEq, Eq, Structural, Debug)]
pub enum HookExecutionMode {
    Sync,
    Async,
}

#[derive(Clone, Copy, PartialEq, Eq, Structural, Debug)]
pub enum HookScope {
    Thread,
    Turn,
}

#[derive(Clone, Copy, PartialEq, Eq, Structural, Debug)]
pub enum HookSource {
    System,
    User,
    Project,
    Mdm,
    SessionFlags,
    Plugin,
    CloudRequirements,
    LegacyManagedConfigFile,
    LegacyManagedConfigMdm,
    Unknown,
}

#[derive(Clone, Copy, PartialEq, Eq, Structural, Debug)]
pub enum HookTrustStatus {
    Managed,
    Untrusted,
    Trusted,
    Modified,
}

#[derive(Clone, Copy, PartialEq, Eq, Structural, Debug)]
pub enum HookRunStatus {
    Running,
    Completed,
    Failed,
    Blocked,
    Stopped,
}

#[derive(Clone, Copy, PartialEq, Eq, Structural, Debug)]
pub enum HookOutputEntryKind {
    Warning,
    Stop,
    Feedback,
    Context,
    Error,
}

#[derive(Clone, Debug, PartialEq, Eq)]
pub struct HookOutputEntry {
    pub kind: HookOutputEntryKind,
    pub text: String,
}

// ------------------------------------------------------------ MCP and tools

/// A tool invocation; the arguments are held as JSON text.
#[derive(Clone, Debug, PartialEq, Eq)]
pub struct McpInvocation {
    pub server: String,
    pub tool: String,
    pub arguments: Option<String>,
}

#[derive(Clone, Debug, PartialEq, Eq)]
pub struct McpToolCallBeginEvent {
    pub call_id: String,
    pub invocation: McpInvocation,
    pub mcp_app_resource_uri: Option<String>,
}

/// The end of a tool call; the duration is in milliseconds.
#[derive(Debug, PartialEq, Eq)]
pub struct McpToolCallEndEvent {
    pub call_id: String,
    pub invocation: McpInvocation,
    pub mcp_app_resource_uri: Option<String>,
    pub duration_ms: u64,
    pub result: Result<CallToolResult, String>,
}

impl McpToolCallEndEvent {
    /// Succeeded: a result that is not marked as an error.
    pub fn is_success(&self) -> (r: bool)
        ensures
            r == match self.result {
                Ok(res) => res.is_error != Some(true),
                Err(_) => false,
            },
    {
        match &self.result {
            Ok(result) => match result.is_error {
                Some(e) => !e,
                None => true,
            },
            Err(_) => false,
        }
    }
}

#[derive(Clone, Debug, PartialEq, Eq)]
pub struct WebSearchBeginEvent {
    pub call_id: String,
}

#[derive(Clone, Debug, PartialEq, Eq)]
pub struct WebSearchEndEvent {
    pub call_id: String,
    pub query: String,
    pub action: WebSearchAction,
}

#[derive(Clone, Debug, PartialEq, Eq)]
pub struct ImageGenerationBeginEvent {
    pub call_id: String,
}

#[derive(Clone, Debug, PartialEq, Eq)]
pub struct ImageGenerationEndEvent {
    pub call_id: String,
    pub status: String,
    pub revised_prompt: Option<String>,
    pub result: String,
    pub saved_path: Option<String>,
}

#[derive(Clone, Debug, PartialEq, Eq)]
pub struct McpStartupUpdateEvent {
    pub server: String,
    pub status: McpStartupStatus,
}

#[derive(Clone, Debug, PartialEq, Eq)]
pub enum McpStartupStatus {
    Starting,
    Ready,
    Failed { error: String },
    Cancelled,
}

#[derive(Clone, Debug, PartialEq, Eq)]
pub struct McpStartupCompleteEvent {
    pub ready: Vec<String>,
    pub failed: Vec<McpStartupFailure>,
    pub cancelled: Vec<String>,
}

#[derive(Clone, Debug, PartialEq, Eq)]
pub struct McpStartupFailure {
    pub server: String,
    pub error: String,
}

/// Where a session's network proxy listens.
#[derive(Clone, Debug, PartialEq, Eq)]
pub struct SessionNetworkProxyRuntime {
    pub http_addr: String,
    pub socks_addr: String,
}

#[derive(Clone, Copy, PartialEq, Eq, Structural, Debug)]
pub enum McpAuthStatus {
    Unsupported,
    NotLoggedIn,
    BearerToken,
    OAuth,
}

impl McpAuthStatus {
    /// The status as shown to users.
    pub fn fmt(&self) -> (r: &'static str)
        ensures
            r@ == match self {
                McpAuthStatus::Unsupported => "Unsupported"@,
                McpAuthStatus::NotLoggedIn => "Not logged in"@,
                McpAuthStatus::BearerToken => "Bearer token"@,
                McpAuthStatus::OAuth => "OAuth"@,
            },
    {
        match self {
            McpAuthStatus::Unsupported => "Unsupported",
            McpAuthStatus::NotLoggedIn => "Not logged in",
            McpAuthStatus::BearerToken => "Bearer token",
            McpAuthStatus::OAuth => "OAuth",
        }
    }
}

// ------------------------------------------------------------ realtime

#[derive(Clone, Debug, PartialEq, Eq)]
pub struct W3cTraceContext {
    pub traceparent: Option<String>,
    pub tracestate: Option<String>,
}

#[derive(Clone, Debug, PartialEq, Eq)]
pub enum ConversationStartTransport {
    Websocket,
    Webrtc { sdp: String },
}

#[derive(Clone, Copy, PartialEq, Eq, Structural, Debug)]
pub enum RealtimeOutputModality {
    Text,
    Audio,
}

#[derive(Clone, Debug, PartialEq, Eq)]
pub struct RealtimeAudioFrame {
    pub data: String,
    pub sample_rate: u32,
    pub num_channels: u16,
    pub samples_per_channel: Option<u32>,
    pub item_id: Option<String>,
}

#[derive(Clone, Debug, PartialEq, Eq)]
pub struct RealtimeTranscriptDelta {
    pub delta: String,
}

#[derive(Clone, Debug, PartialEq, Eq)]
pub struct RealtimeTranscriptDone {
    pub text: String,
}

#[derive(Clone, Debug, PartialEq, Eq)]
pub struct RealtimeTranscriptEntry {
    pub role: String,
    pub text: String,
}

#[derive(Clone, Debug, PartialEq, Eq)]
pub struct RealtimeHandoffRequested {
    pub handoff_id: String,
    pub item_id: String,
    pub input_transcript: String,
    pub active_transcript: Vec<RealtimeTranscriptEntry>,
}

#[derive(Clone, Debug, PartialEq, Eq)]
pub struct RealtimeNoopRequested {
    pub call_id: String,
    pub item_id: String,
}

#[derive(Clone, Debug, PartialEq, Eq)]
pub struct RealtimeInputAudioSpeechStarted {
    pub item_id: Option<String>,
}

#[derive(Clone, Debug, PartialEq, Eq)]
pub struct RealtimeResponseCancelled {
    pub response_id: Option<String>,
}

#[derive(Clone, Debug, PartialEq, Eq)]
pub struct RealtimeResponseCreated {
    pub response_id: Option<String>,
}

#[derive(Clone, Debug, PartialEq, Eq)]
pub struct RealtimeResponseDone {
    pub response_id: Option<String>,
}

#[derive(Clone, Debug, PartialEq, Eq)]
pub struct ConversationAudioParams {
    pub frame: RealtimeAudioFrame,
}

#[derive(Clone, Debug, PartialEq, Eq)]
pub struct ConversationTextParams {
    pub text: String,
    pub role: ConversationTextRole,
}

#[derive(Clone, Debug, PartialEq, Eq)]
pub struct RealtimeConversationClosedEvent {
    pub reason: Option<String>,
}

#[derive(Clone, Debug, PartialEq, Eq)]
pub struct RealtimeConversationSdpEvent {
    pub sdp: String,
}

// ------------------------------------------------------------ patches and skills

/// Paths are held as text.
#[derive(Clone, Debug, PartialEq, Eq)]
pub struct PatchApplyBeginEvent {
    pub call_id: String,
    pub turn_id: String,
    pub auto_approved: bool,
    pub changes: HashMap<String, FileChange>,
}

#[derive(Clone, Debug, PartialEq, Eq)]
pub struct PatchApplyUpdatedEvent {
    pub call_id: String,
    pub changes: HashMap<String, FileChange>,
}

#[derive(Clone, Debug, PartialEq, Eq)]
pub struct PatchApplyEndEvent {
    pub call_id: String,
    pub turn_id: String,
    pub stdout: String,
    pub stderr: String,
    pub success: bool,
    pub changes: HashMap<String, FileChange>,
    pub status: PatchApplyStatus,
}

#[derive(Clone, Copy, PartialEq, Eq, Structural, Debug)]
pub enum SkillScope {
    User,
    Repo,
    System,
    Admin,
}

#[derive(Clone, Debug, PartialEq, Eq)]
pub struct SkillDependencies {
    pub tools: Vec<SkillToolDependency>,
}

/// A tool a skill depends on; `kind` is the dependency's type.
#[derive(Clone, Debug, PartialEq, Eq)]
pub struct SkillToolDependency {
    pub kind: String,
    pub value: String,
    pub description: Option<String>,
    pub transport: Option<String>,
    pub command: Option<String>,
    pub url: Option<String>,
}

// ------------------------------------------------------------ collaboration

/// Thread ids are held as text, reasoning efforts by name.
#[derive(Clone, Debug, PartialEq, Eq)]
pub struct CollabAgentSpawnBeginEvent {
    pub call_id: String,
    pub started_at_ms: i64,
    pub sender_thread_id: String,
    pub prompt: String,
    pub model: String,
    pub reasoning_effort: String,
}

#[derive(Clone, Debug, PartialEq, Eq)]
pub struct CollabAgentRef {
    pub thread_id: String,
    pub agent_nickname: Option<String>,
    pub agent_role: Option<String>,
}

#[derive(Clone, Debug, PartialEq, Eq)]
pub struct CollabAgentStatusEntry {
    pub thread_id: String,
    pub agent_nickname: Option<String>,
    pub agent_role: Option<String>,
    pub status: AgentStatus,
}

#[derive(Clone, Debug, PartialEq, Eq)]
pub struct CollabAgentSpawnEndEvent {
    pub call_id: String,
    pub completed_at_ms: i64,
    pub sender_thread_id: String,
    pub new_thread_id: Option<String>,
    pub new_agent_nickname: Option<String>,
    pub new_agent_role: Option<String>,
    pub prompt: String,
    pub model: String,
    pub reasoning_effort: String,
    pub status: AgentStatus,
}

#[derive(Clone, Debug, PartialEq, Eq)]
pub struct CollabAgentInteractionBeginEvent {
    pub call_id: String,
    pub started_at_ms: i64,
    pub sender_thread_id: String,
    pub receiver_thread_id: String,
    pub prompt: String,
    pub model: Option<String>,
    pub reasoning_effort: Option<String>,
}

#[derive(Clone, Debug, PartialEq, Eq)]
pub struct CollabAgentInteractionEndEvent {
    pub call_id: String,
    pub completed_at_ms: i64,
    pub sender_thread_id: String,
    pub receiver_thread_id: String,
    pub receiver_agent_nickname: Option<String>,
    pub receiver_agent_role: Option<String>,
    pub prompt: String,
    pub status: AgentStatus,
    pub model: Option<String>,
    pub reasoning_effort: Option<String>,
}

#[derive(Clone, Debug, PartialEq, Eq)]
pub struct CollabWaitingBeginEvent {
    pub started_at_ms: i64,
    pub sender_thread_id: String,
    pub receiver_thread_ids: Vec<String>,
    pub receiver_agents: Vec<CollabAgentRef>,
    pub call_id: String,
}

#[derive(Clone, Debug, PartialEq, Eq)]
pub struct CollabWaitingEndEvent {
    pub sender_thread_id: String,
    pub call_id: String,
    pub completed_at_ms: i64,
    pub agent_statuses: Vec<CollabAgentStatusEntry>,
    pub statuses: HashMap<String, AgentStatus>,
}

#[derive(Clone, Debug, PartialEq, Eq)]
pub struct CollabCloseBeginEvent {
    pub call_id: String,
    pub started_at_ms: i64,
    pub sender_thread_id: String,
    pub receiver_thread_id: String,
}

#[derive(Clone, Debug, PartialEq, Eq)]
pub struct CollabCloseEndEvent {
    pub call_id: String,
    pub completed_at_ms: i64,
    pub sender_thread_id: String,
    pub receiver_thread_id: String,
    pub receiver_agent_nickname: Option<String>,
    pub receiver_agent_role: Option<String>,
    pub status: AgentStatus,
}

#[derive(Clone, Debug, PartialEq, Eq)]
pub struct CollabResumeBeginEvent {
    pub call_id: String,
    pub started_at_ms: i64,
    pub sender_thread_id: String,
    pub receiver_thread_id: String,
    pub receiver_agent_nickname: Option<String>,
    pub receiver_agent_role: Option<String>,
}

#[derive(Clone, Debug, PartialEq, Eq)]
pub struct CollabResumeEndEvent {
    pub call_id: String,
    pub completed_at_ms: i64,
    pub sender_thread_id: String,
    pub receiver_thread_id: String,
    pub receiver_agent_nickname: Option<String>,
    pub receiver_agent_role: Option<String>,
    pub status: AgentStatus,
}

#[derive(Clone, Debug, PartialEq, Eq)]
pub struct CollabCompactBeginEvent {
    pub call_id: String,
    pub started_at_ms: i64,
    pub sender_thread_id: String,
    pub receiver_thread_id: String,
    pub reason: Option<String>,
}

#[derive(Clone, Debug, PartialEq, Eq)]
pub struct CollabCompactEndEvent {
    pub call_id: String,
    pub completed_at_ms: i64,
    pub sender_thread_id: String,
    pub receiver_thread_id: String,
    pub receiver_agent_nickname: Option<String>,
    pub receiver_agent_role: Option<String>,
    pub reason: Option<String>,
    pub status: AgentStatus,
}

#[derive(Clone, Debug, PartialEq, Eq)]
pub struct CollabRestartBeginEvent {
    pub call_id: String,
    pub started_at_ms: i64,
    pub sender_thread_id: String,
    pub receiver_thread_id: String,
    pub prompt: Option<String>,
    pub model: Option<String>,
    pub reasoning_effort: Option<String>,
}

#[derive(Clone, Debug, PartialEq, Eq)]
pub struct CollabRestartEndEvent {
    pub call_id: String,
    pub completed_at_ms: i64,
    pub sender_thread_id: String,
    pub receiver_thread_id: String,
    pub receiver_agent_nickname: Option<String>,
    pub receiver_agent_role: Option<String>,
    pub prompt: Option<String>,
    pub model: Option<String>,
    pub reasoning_effort: Option<String>,
    pub status: AgentStatus,
}

// ------------------------------------------------------------ limits and sub-agents

#[derive(Clone, Copy, PartialEq, Eq, Structural, Debug)]
pub enum RateLimitReachedType {
    RateLimitReached,
    WorkspaceOwnerCreditsDepleted,
    WorkspaceMemberCreditsDepleted,
    WorkspaceOwnerUsageLimitReached,
    WorkspaceMemberUsageLimitReached,
}

pub open spec fn rate_limit_name(t: RateLimitReachedType) -> Seq<char> {
    match t {
        RateLimitReachedType::RateLimitReached => "rate_limit_reached"@,
        RateLimitReachedType::WorkspaceOwnerCreditsDepleted => "workspace_owner_credits_depleted"@,
        RateLimitReachedType::WorkspaceMemberCreditsDepleted => "workspace_member_credits_depleted"@,
        RateLimitReachedType::WorkspaceOwnerUsageLimitReached => "workspace_owner_usage_limit_reached"@,
        RateLimitReachedType::WorkspaceMemberUsageLimitReached => "workspace_member_usage_limit_reached"@,
    }
}

impl RateLimitReachedType {
    /// Reads a type by its snake-case name; the error names the unknown value.
    pub fn from_str(value: &str) -> (r: Result<RateLimitReachedType, String>)
        ensures
            match r {
                Ok(t) => rate_limit_name(t) == value@,
                Err(e) => (forall|t: RateLimitReachedType| rate_limit_name(t) != value@) && e@
                    == "unknown rate limit reached type: "@ + value@,
            },
    {
        let c = crate::text::chars_of(value);
        if crate::text::eq_str(&c, "rate_limit_reached") {
            Ok(RateLimitReachedType::RateLimitReached)
        } else if crate::text::eq_str(&c, "workspace_owner_credits_depleted") {
            Ok(RateLimitReachedType::WorkspaceOwnerCreditsDepleted)
        } else if crate::text::eq_str(&c, "workspace_member_credits_depleted") {
            Ok(RateLimitReachedType::WorkspaceMemberCreditsDepleted)
        } else if crate::text::eq_str(&c, "workspace_owner_usage_limit_reached") {
            Ok(RateLimitReachedType::WorkspaceOwnerUsageLimitReached)
        } else if crate::text::eq_str(&c, "workspace_member_usage_limit_reached") {
            Ok(RateLimitReachedType::WorkspaceMemberUsageLimitReached)
        } else {
            assert forall|t: RateLimitReachedType| rate_limit_name(t) != value@ by {
                match t {
                    RateLimitReachedType::RateLimitReached => {},
                    RateLimitReachedType::WorkspaceOwnerCreditsDepleted => {},
                    RateLimitReachedType::WorkspaceMemberCreditsDepleted => {},
                    RateLimitReachedType::WorkspaceOwnerUsageLimitReached => {},
                    RateLimitReachedType::WorkspaceMemberUsageLimitReached => {},
                }
            }
            let mut v = crate::text::chars_of("unknown rate limit reached type: ");
            crate::text::append_chars(&mut v, &c);
            Err(crate::text::string_of(&v))
        }
    }
}

#[derive(Clone, Debug, PartialEq, Eq)]
pub struct CreditsSnapshot {
    pub has_credits: bool,
    pub unlimited: bool,
    pub balance: Option<String>,
}

#[derive(Clone, Debug, PartialEq, Eq)]
pub struct SpendControlLimitSnapshot {
    pub limit: String,
    pub used: String,
    pub remaining_percent: i32,
    pub resets_at: i64,
}

#[derive(Clone, Copy, PartialEq, Eq, Structural, Debug)]
pub enum MultiAgentVersion {
    Disabled,
    V1,
    V2,
}

#[derive(Clone, Copy, PartialEq, Eq, Structural, Debug)]
pub enum SubAgentActivityKind {
    Started,
    Interacted,
    Interrupted,
}

/// Thread ids and agent paths are held as text.
#[derive(Clone, Debug, PartialEq, Eq)]
pub struct SubAgentActivityEvent {
    pub event_id: String,
    pub occurred_at_ms: i64,
    pub agent_thread_id: String,
    pub agent_path: String,
    pub kind: SubAgentActivityKind,
}

} // verus!
