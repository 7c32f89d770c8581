//! The items of a conversation as the Responses API carries them, and the
//! identifiers and turn stamps they hold. JSON values are held as their text.
use vstd::prelude::*;

use crate::mcp::body_view;
use crate::mcp::CallToolResult;
use crate::models::has_turn_id;
use crate::models::opt_chars;
use crate::models::AgentMessageInputContent;
use crate::models::ContentItem;
use crate::models::FunctionCallOutputPayload;
use crate::models::InternalChatMessageMetadataPassthrough;
use crate::models::LocalShellAction;
use crate::models::LocalShellStatus;
use crate::models::MessagePhase;
use crate::models::ReasoningItemContent;
use crate::models::ReasoningItemReasoningSummary;
use crate::models::WebSearchAction;

verus! {

/// An item sent to the model as input.
#[derive(Clone, Debug, PartialEq, Eq)]
pub enum ResponseInputItem {
    Message { role: String, content: Vec<ContentItem>, phase: Option<MessagePhase> },
    FunctionCallOutput { call_id: String, output: FunctionCallOutputPayload },
    McpToolCallOutput { call_id: String, output: CallToolResult },
    CustomToolCallOutput { call_id: String, name: Option<String>, output: FunctionCallOutputPayload },
    ToolSearchOutput { call_id: String, status: String, execution: String, tools: Vec<String> },
}

/// An item of a conversation.
#[derive(Clone, Debug, PartialEq, Eq)]
pub enum ResponseItem {
    AdditionalTools { id: Option<String>, role: String, tools: Vec<String> },
    Message { id: Option<String>, role: String, content: Vec<ContentItem>, phase: Option<MessagePhase>, internal_chat_message_metadata_passthrough: Option<InternalChatMessageMetadataPassthrough> },
    AgentMessage { id: Option<String>, author: String, recipient: String, content: Vec<AgentMessageInputContent>, internal_chat_message_metadata_passthrough: Option<InternalChatMessageMetadataPassthrough> },
    Reasoning { id: Option<String>, summary: Vec<ReasoningItemReasoningSummary>, content: Option<Vec<ReasoningItemContent>>, encrypted_content: Option<String>, internal_chat_message_metadata_passthrough: Option<InternalChatMessageMetadataPassthrough> },
    LocalShellCall { id: Option<String>, call_id: Option<String>, status: LocalShellStatus, action: LocalShellAction, internal_chat_message_metadata_passthrough: Option<InternalChatMessageMetadataPassthrough> },
    FunctionCall { id: Option<String>, name: String, namespace: Option<String>, arguments: String, call_id: String, internal_chat_message_metadata_passthrough: Option<InternalChatMessageMetadataPassthrough> },
    ToolSearchCall { id: Option<String>, call_id: Option<String>, status: Option<String>, execution: String, arguments: String, internal_chat_message_metadata_passthrough: Option<InternalChatMessageMetadataPassthrough> },
    FunctionCallOutput { id: Option<String>, call_id: String, output: FunctionCallOutputPayload, internal_chat_message_metadata_passthrough: Option<InternalChatMessageMetadataPassthrough> },
    CustomToolCall { id: Option<String>, status: Option<String>, call_id: String, name: String, namespace: Option<String>, input: String, internal_chat_message_metadata_passthrough: Option<InternalChatMessageMetadataPassthrough> },
    CustomToolCallOutput { id: Option<String>, call_id: String, name: Option<String>, output: FunctionCallOutputPayload, internal_chat_message_metadata_passthrough: Option<InternalChatMessageMetadataPassthrough> },
    ToolSearchOutput { id: Option<String>, call_id: Option<String>, status: String, execution: String, tools: Vec<String>, internal_chat_message_metadata_passthrough: Option<InternalChatMessageMetadataPassthrough> },
    WebSearchCall { id: Option<String>, status: Option<String>, action: Option<WebSearchAction>, internal_chat_message_metadata_passthrough: Option<InternalChatMessageMetadataPassthrough> },
    ImageGenerationCall { id: Option<String>, status: String, revised_prompt: Option<String>, result: String, internal_chat_message_metadata_passthrough: Option<InternalChatMessageMetadataPassthrough> },
    Compaction { id: Option<String>, encrypted_content: String, internal_chat_message_metadata_passthrough: Option<InternalChatMessageMetadataPassthrough> },
    CompactionTrigger {},
    ContextCompaction { id: Option<String>, encrypted_content: Option<String>, internal_chat_message_metadata_passthrough: Option<InternalChatMessageMetadataPassthrough> },
    Other,
}

/// The item's passthrough metadata slot; `None` for the variants without one.
pub open spec fn meta_slot(item: ResponseItem) -> Option<Option<InternalChatMessageMetadataPassthrough>> {
    match item {
        ResponseItem::AdditionalTools { .. } => None,
        ResponseItem::Message { internal_chat_message_metadata_passthrough: m, .. } => Some(m),
        ResponseItem::AgentMessage { internal_chat_message_metadata_passthrough: m, .. } => Some(m),
        ResponseItem::Reasoning { internal_chat_message_metadata_passthrough: m, .. } => Some(m),
        ResponseItem::LocalShellCall { internal_chat_message_metadata_passthrough: m, .. } => Some(m),
        ResponseItem::FunctionCall { internal_chat_message_metadata_passthrough: m, .. } => Some(m),
        ResponseItem::ToolSearchCall { internal_chat_message_metadata_passthrough: m, .. } => Some(m),
        ResponseItem::FunctionCallOutput { internal_chat_message_metadata_passthrough: m, .. } => Some(m),
        ResponseItem::CustomToolCall { internal_chat_message_metadata_passthrough: m, .. } => Some(m),
        ResponseItem::CustomToolCallOutput { internal_chat_message_metadata_passthrough: m, .. } => Some(m),
        ResponseItem::ToolSearchOutput { internal_chat_message_metadata_passthrough: m, .. } => Some(m),
        ResponseItem::WebSearchCall { internal_chat_message_metadata_passthrough: m, .. } => Some(m),
        ResponseItem::ImageGenerationCall { internal_chat_message_metadata_passthrough: m, .. } => Some(m),
        ResponseItem::Compaction { internal_chat_message_metadata_passthrough: m, .. } => Some(m),
        ResponseItem::CompactionTrigger { .. } => None,
        ResponseItem::ContextCompaction { internal_chat_message_metadata_passthrough: m, .. } => Some(m),
        ResponseItem::Other => None,
    }
}

/// The item with its metadata slot set to `m`; unchanged without a slot.
pub open spec fn with_meta(item: ResponseItem, m: Option<InternalChatMessageMetadataPassthrough>) -> ResponseItem {
    match item {
        ResponseItem::AdditionalTools { .. } => item,
        ResponseItem::Message { id, role, content, phase, .. } => ResponseItem::Message { id, role, content, phase, internal_chat_message_metadata_passthrough: m },
        ResponseItem::AgentMessage { id, author, recipient, content, .. } => ResponseItem::AgentMessage { id, author, recipient, content, internal_chat_message_metadata_passthrough: m },
        ResponseItem::Reasoning { id, summary, content, encrypted_content, .. } => ResponseItem::Reasoning { id, summary, content, encrypted_content, internal_chat_message_metadata_passthrough: m },
        ResponseItem::LocalShellCall { id, call_id, status, action, .. } => ResponseItem::LocalShellCall { id, call_id, status, action, internal_chat_message_metadata_passthrough: m },
        ResponseItem::FunctionCall { id, name, namespace, arguments, call_id, .. } => ResponseItem::FunctionCall { id, name, namespace, arguments, call_id, internal_chat_message_metadata_passthrough: m },
        ResponseItem::ToolSearchCall { id, call_id, status, execution, arguments, .. } => ResponseItem::ToolSearchCall { id, call_id, status, execution, arguments, internal_chat_message_metadata_passthrough: m },
        ResponseItem::FunctionCallOutput { id, call_id, output, .. } => ResponseItem::FunctionCallOutput { id, call_id, output, internal_chat_message_metadata_passthrough: m },
        ResponseItem::CustomToolCall { id, status, call_id, name, namespace, input, .. } => ResponseItem::CustomToolCall { id, status, call_id, name, namespace, input, internal_chat_message_metadata_passthrough: m },
        ResponseItem::CustomToolCallOutput { id, call_id, name, output, .. } => ResponseItem::CustomToolCallOutput { id, call_id, name, output, internal_chat_message_metadata_passthrough: m },
        ResponseItem::ToolSearchOutput { id, call_id, status, execution, tools, .. } => ResponseItem::ToolSearchOutput { id, call_id, status, execution, tools, internal_chat_message_metadata_passthrough: m },
        ResponseItem::WebSearchCall { id, status, action, .. } => ResponseItem::WebSearchCall { id, status, action, internal_chat_message_metadata_passthrough: m },
        ResponseItem::ImageGenerationCall { id, status, revised_prompt, result, .. } => ResponseItem::ImageGenerationCall { id, status, revised_prompt, result, internal_chat_message_metadata_passthrough: m },
        ResponseItem::Compaction { id, encrypted_content, .. } => ResponseItem::Compaction { id, encrypted_content, internal_chat_message_metadata_passthrough: m },
        ResponseItem::CompactionTrigger { .. } => item,
        ResponseItem::ContextCompaction { id, encrypted_content, .. } => ResponseItem::ContextCompaction { id, encrypted_content, internal_chat_message_metadata_passthrough: m },
        ResponseItem::Other => item,
    }
}

/// The item's id slot; `None` for the variants without one.
pub open spec fn id_slot(item: ResponseItem) -> Option<Option<String>> {
    match item {
        ResponseItem::AdditionalTools { id, .. } => Some(id),
        ResponseItem::Message { id, .. } => Some(id),
        ResponseItem::AgentMessage { id, .. } => Some(id),
        ResponseItem::Reasoning { id, .. } => Some(id),
        ResponseItem::LocalShellCall { id, .. } => Some(id),
        ResponseItem::FunctionCall { id, .. } => Some(id),
        ResponseItem::ToolSearchCall { id, .. } => Some(id),
        ResponseItem::FunctionCallOutput { id, .. } => Some(id),
        ResponseItem::CustomToolCall { id, .. } => Some(id),
        ResponseItem::CustomToolCallOutput { id, .. } => Some(id),
        ResponseItem::ToolSearchOutput { id, .. } => Some(id),
        ResponseItem::WebSearchCall { id, .. } => Some(id),
        ResponseItem::ImageGenerationCall { id, .. } => Some(id),
        ResponseItem::Compaction { id, .. } => Some(id),
        ResponseItem::CompactionTrigger { .. } => None,
        ResponseItem::ContextCompaction { id, .. } => Some(id),
        ResponseItem::Other => None,
    }
}

/// The item with its id slot set; unchanged without a slot.
pub open spec fn with_id(item: ResponseItem, new_id: Option<String>) -> ResponseItem {
    match item {
        ResponseItem::AdditionalTools { role, tools, .. } => ResponseItem::AdditionalTools { id: new_id, role, tools },
        ResponseItem::Message { role, content, phase, internal_chat_message_metadata_passthrough, .. } => ResponseItem::Message { id: new_id, role, content, phase, internal_chat_message_metadata_passthrough },
        ResponseItem::AgentMessage { author, recipient, content, internal_chat_message_metadata_passthrough, .. } => ResponseItem::AgentMessage { id: new_id, author, recipient, content, internal_chat_message_metadata_passthrough },
        ResponseItem::Reasoning { summary, content, encrypted_content, internal_chat_message_metadata_passthrough, .. } => ResponseItem::Reasoning { id: new_id, summary, content, encrypted_content, internal_chat_message_metadata_passthrough },
        ResponseItem::LocalShellCall { call_id, status, action, internal_chat_message_metadata_passthrough, .. } => ResponseItem::LocalShellCall { id: new_id, call_id, status, action, internal_chat_message_metadata_passthrough },
        ResponseItem::FunctionCall { name, namespace, arguments, call_id, internal_chat_message_metadata_passthrough, .. } => ResponseItem::FunctionCall { id: new_id, name, namespace, arguments, call_id, internal_chat_message_metadata_passthrough },
        ResponseItem::ToolSearchCall { call_id, status, execution, arguments, internal_chat_message_metadata_passthrough, .. } => ResponseItem::ToolSearchCall { id: new_id, call_id, status, execution, arguments, internal_chat_message_metadata_passthrough },
        ResponseItem::FunctionCallOutput { call_id, output, internal_chat_message_metadata_passthrough, .. } => ResponseItem::FunctionCallOutput { id: new_id, call_id, output, internal_chat_message_metadata_passthrough },
        ResponseItem::CustomToolCall { status, call_id, name, namespace, input, internal_chat_message_metadata_passthrough, .. } => ResponseItem::CustomToolCall { id: new_id, status, call_id, name, namespace, input, internal_chat_message_metadata_passthrough },
        ResponseItem::CustomToolCallOutput { call_id, name, output, internal_chat_message_metadata_passthrough, .. } => ResponseItem::CustomToolCallOutput { id: new_id, call_id, name, output, internal_chat_message_metadata_passthrough },
        ResponseItem::ToolSearchOutput { call_id, status, execution, tools, internal_chat_message_metadata_passthrough, .. } => ResponseItem::ToolSearchOutput { id: new_id, call_id, status, execution, tools, internal_chat_message_metadata_passthrough },
        ResponseItem::WebSearchCall { status, action, internal_chat_message_metadata_passthrough, .. } => ResponseItem::WebSearchCall { id: new_id, status, action, internal_chat_message_metadata_passthrough },
        ResponseItem::ImageGenerationCall { status, revised_prompt, result, internal_chat_message_metadata_passthrough, .. } => ResponseItem::ImageGenerationCall { id: new_id, status, revised_prompt, result, internal_chat_message_metadata_passthrough },
        ResponseItem::Compaction { encrypted_content, internal_chat_message_metadata_passthrough, .. } => ResponseItem::Compaction { id: new_id, encrypted_content, internal_chat_message_metadata_passthrough },
        ResponseItem::CompactionTrigger { .. } => item,
        ResponseItem::ContextCompaction { encrypted_content, internal_chat_message_metadata_passthrough, .. } => ResponseItem::ContextCompaction { id: new_id, encrypted_content, internal_chat_message_metadata_passthrough },
        ResponseItem::Other => item,
    }
}

impl ResponseItem {
    /// An ordinary message with the `user` role.
    pub fn is_user_message(&self) -> (r: bool)
        ensures
            r == (self matches ResponseItem::Message { role, .. } && role@ == "user"@),
    {
        match self {
            ResponseItem::Message { role, .. } => crate::text::eq_str(&crate::text::chars_of(role.as_str()), "user"),
            _ => false,
        }
    }

    /// The item's id, when it has one that is not empty.
    pub fn id(&self) -> (r: Option<&str>)
        ensures
            match id_slot(*self) {
                Some(Some(s)) => if s@.len() > 0 {
                    r matches Some(t) && t@ == s@
                } else {
                    r is None
                },
                _ => r is None,
            },
    {
        let slot: &Option<String> = match self {
            ResponseItem::AdditionalTools { id: slot, .. } => slot,
            ResponseItem::Message { id: slot, .. } => slot,
            ResponseItem::AgentMessage { id: slot, .. } => slot,
            ResponseItem::Reasoning { id: slot, .. } => slot,
            ResponseItem::LocalShellCall { id: slot, .. } => slot,
            ResponseItem::FunctionCall { id: slot, .. } => slot,
            ResponseItem::ToolSearchCall { id: slot, .. } => slot,
            ResponseItem::FunctionCallOutput { id: slot, .. } => slot,
            ResponseItem::CustomToolCall { id: slot, .. } => slot,
            ResponseItem::CustomToolCallOutput { id: slot, .. } => slot,
            ResponseItem::ToolSearchOutput { id: slot, .. } => slot,
            ResponseItem::WebSearchCall { id: slot, .. } => slot,
            ResponseItem::ImageGenerationCall { id: slot, .. } => slot,
            ResponseItem::Compaction { id: slot, .. } => slot,
            ResponseItem::CompactionTrigger { .. } => return None,
            ResponseItem::ContextCompaction { id: slot, .. } => slot,
            ResponseItem::Other => return None,
        };
        match slot {
            Some(s) => if s.unicode_len() > 0 {
                Some(s.as_str())
            } else {
                None
            },
            None => None,
        }
    }

    /// Sets or clears the id of the variants that carry one.
    pub fn set_id(&mut self, new_id: Option<String>)
        ensures
            *final(self) == with_id(*old(self), new_id),
    {
        match self {
            ResponseItem::AdditionalTools { id: slot, .. } => { *slot = new_id; },
            ResponseItem::Message { id: slot, .. } => { *slot = new_id; },
            ResponseItem::AgentMessage { id: slot, .. } => { *slot = new_id; },
            ResponseItem::Reasoning { id: slot, .. } => { *slot = new_id; },
            ResponseItem::LocalShellCall { id: slot, .. } => { *slot = new_id; },
            ResponseItem::FunctionCall { id: slot, .. } => { *slot = new_id; },
            ResponseItem::ToolSearchCall { id: slot, .. } => { *slot = new_id; },
            ResponseItem::FunctionCallOutput { id: slot, .. } => { *slot = new_id; },
            ResponseItem::CustomToolCall { id: slot, .. } => { *slot = new_id; },
            ResponseItem::CustomToolCallOutput { id: slot, .. } => { *slot = new_id; },
            ResponseItem::ToolSearchOutput { id: slot, .. } => { *slot = new_id; },
            ResponseItem::WebSearchCall { id: slot, .. } => { *slot = new_id; },
            ResponseItem::ImageGenerationCall { id: slot, .. } => { *slot = new_id; },
            ResponseItem::Compaction { id: slot, .. } => { *slot = new_id; },
            ResponseItem::CompactionTrigger { .. } => {},
            ResponseItem::ContextCompaction { id: slot, .. } => { *slot = new_id; },
            ResponseItem::Other => {},
        }
    }

    /// The passthrough metadata, when the variant has a slot and it is set.
    pub fn internal_chat_message_metadata_passthrough(&self) -> (r: Option<&InternalChatMessageMetadataPassthrough>)
        ensures
            match meta_slot(*self) {
                Some(Some(m)) => r matches Some(x) && *x == m,
                _ => r is None,
            },
    {
        let slot: &Option<InternalChatMessageMetadataPassthrough> = match self {
            ResponseItem::AdditionalTools { .. } => return None,
            ResponseItem::Message { internal_chat_message_metadata_passthrough: slot, .. } => slot,
            ResponseItem::AgentMessage { internal_chat_message_metadata_passthrough: slot, .. } => slot,
            ResponseItem::Reasoning { internal_chat_message_metadata_passthrough: slot, .. } => slot,
            ResponseItem::LocalShellCall { internal_chat_message_metadata_passthrough: slot, .. } => slot,
            ResponseItem::FunctionCall { internal_chat_message_metadata_passthrough: slot, .. } => slot,
            ResponseItem::ToolSearchCall { internal_chat_message_metadata_passthrough: slot, .. } => slot,
            ResponseItem::FunctionCallOutput { internal_chat_message_metadata_passthrough: slot, .. } => slot,
            ResponseItem::CustomToolCall { internal_chat_message_metadata_passthrough: slot, .. } => slot,
            ResponseItem::CustomToolCallOutput { internal_chat_message_metadata_passthrough: slot, .. } => slot,
            ResponseItem::ToolSearchOutput { internal_chat_message_metadata_passthrough: slot, .. } => slot,
            ResponseItem::WebSearchCall { internal_chat_message_metadata_passthrough: slot, .. } => slot,
            ResponseItem::ImageGenerationCall { internal_chat_message_metadata_passthrough: slot, .. } => slot,
            ResponseItem::Compaction { internal_chat_message_metadata_passthrough: slot, .. } => slot,
            ResponseItem::CompactionTrigger { .. } => return None,
            ResponseItem::ContextCompaction { internal_chat_message_metadata_passthrough: slot, .. } => slot,
            ResponseItem::Other => return None,
        };
        match slot {
            Some(m) => Some(m),
            None => None,
        }
    }

    /// The non-empty turn id stamped on the item.
    pub fn turn_id(&self) -> (r: Option<&str>)
        ensures
            match meta_slot(*self) {
                Some(Some(m)) => match m.turn_id {
                    Some(t) => if t@.len() > 0 {
                        r matches Some(x) && x@ == t@
                    } else {
                        r is None
                    },
                    None => r is None,
                },
                _ => r is None,
            },
    {
        match self.internal_chat_message_metadata_passthrough() {
            Some(m) => match &m.turn_id {
                Some(t) => if t.unicode_len() > 0 {
                    Some(t.as_str())
                } else {
                    None
                },
                None => None,
            },
            None => None,
        }
    }

    /// The item's passthrough metadata slot, for editing in place; `None` for
    /// the variants that carry no metadata.
    fn internal_chat_message_metadata_passthrough_mut(&mut self) -> (r: Option<
        &mut Option<InternalChatMessageMetadataPassthrough>,
    >)
        ensures
            (meta_slot(*old(self)) is Some) == (r is Some),
            r matches Some(m) ==> meta_slot(*old(self)) == Some(*m) && *final(self) == with_meta(
                *old(self),
                *final(m),
            ),
            r is None ==> *final(self) == *old(self),
    {
        match self {
            ResponseItem::Message { internal_chat_message_metadata_passthrough: metadata, .. } => Some(metadata),
            ResponseItem::AgentMessage { internal_chat_message_metadata_passthrough: metadata, .. } => Some(metadata),
            ResponseItem::Reasoning { internal_chat_message_metadata_passthrough: metadata, .. } => Some(metadata),
            ResponseItem::LocalShellCall { internal_chat_message_metadata_passthrough: metadata, .. } => Some(metadata),
            ResponseItem::FunctionCall { internal_chat_message_metadata_passthrough: metadata, .. } => Some(metadata),
            ResponseItem::ToolSearchCall { internal_chat_message_metadata_passthrough: metadata, .. } => Some(metadata),
            ResponseItem::FunctionCallOutput { internal_chat_message_metadata_passthrough: metadata, .. } => Some(metadata),
            ResponseItem::CustomToolCall { internal_chat_message_metadata_passthrough: metadata, .. } => Some(metadata),
            ResponseItem::CustomToolCallOutput { internal_chat_message_metadata_passthrough: metadata, .. } => Some(metadata),
            ResponseItem::ToolSearchOutput { internal_chat_message_metadata_passthrough: metadata, .. } => Some(metadata),
            ResponseItem::WebSearchCall { internal_chat_message_metadata_passthrough: metadata, .. } => Some(metadata),
            ResponseItem::ImageGenerationCall { internal_chat_message_metadata_passthrough: metadata, .. } => Some(metadata),
            ResponseItem::Compaction { internal_chat_message_metadata_passthrough: metadata, .. } => Some(metadata),
            ResponseItem::ContextCompaction { internal_chat_message_metadata_passthrough: metadata, .. } => Some(metadata),
            ResponseItem::AdditionalTools { .. } | ResponseItem::CompactionTrigger { .. } | ResponseItem::Other => None,
        }
    }

    /// Stamps the item with `turn_id` unless it has a non-empty one already.
    pub fn set_turn_id_if_missing(&mut self, turn_id: &str)
        ensures
            match meta_slot(*old(self)) {
                None => *final(self) == *old(self),
                Some(m0) => meta_slot(*final(self)) matches Some(m1) && *final(self) == with_meta(*old(self), m1)
                    && ((turn_id@.len() == 0 || has_turn_id(m0)) ==> m1 == m0) && (!(turn_id@.len() == 0
                    || has_turn_id(m0)) ==> (m1 matches Some(x) && opt_chars(x.turn_id) == Some(turn_id@))),
            },
    {
        if let Some(metadata) = self.internal_chat_message_metadata_passthrough_mut() {
            InternalChatMessageMetadataPassthrough::set_turn_id_if_missing(metadata, turn_id);
        }
    }

    /// Removes the passthrough metadata, for providers that do not accept it.
    pub fn clear_internal_chat_message_metadata_passthrough(&mut self)
        ensures
            *final(self) == with_meta(*old(self), None),
    {
        if let Some(metadata) = self.internal_chat_message_metadata_passthrough_mut() {
            *metadata = None;
        }
    }

    /// The conversation item of an input item; a tool result becomes the
    /// payload the model is handed of it.
    pub fn from_input(item: ResponseInputItem) -> (r: ResponseItem)
        ensures
            match item {
                ResponseInputItem::Message { role, content, phase } => r == ResponseItem::Message {
                    id: None,
                    role,
                    content,
                    phase,
                    internal_chat_message_metadata_passthrough: None,
                },
                ResponseInputItem::FunctionCallOutput { call_id, output } => r == ResponseItem::FunctionCallOutput {
                    id: None,
                    call_id,
                    output,
                    internal_chat_message_metadata_passthrough: None,
                },
                ResponseInputItem::McpToolCallOutput { call_id, output } => r matches ResponseItem::FunctionCallOutput {
                    id: None,
                    call_id: c,
                    output: p,
                    internal_chat_message_metadata_passthrough: None,
                } && c == call_id && body_view(p.body) == output.spec_payload_body() && p.success == Some(
                    output.spec_success(),
                ),
                ResponseInputItem::CustomToolCallOutput { call_id, name, output } => r
                    == ResponseItem::CustomToolCallOutput {
                    id: None,
                    call_id,
                    name,
                    output,
                    internal_chat_message_metadata_passthrough: None,
                },
                ResponseInputItem::ToolSearchOutput { call_id, status, execution, tools } => r
                    == ResponseItem::ToolSearchOutput {
                    id: None,
                    call_id: Some(call_id),
                    status,
                    execution,
                    tools,
                    internal_chat_message_metadata_passthrough: None,
                },
            },
    {
        match item {
            ResponseInputItem::Message { role, content, phase } => ResponseItem::Message {
                id: None,
                role,
                content,
                phase,
                internal_chat_message_metadata_passthrough: None,
            },
            ResponseInputItem::FunctionCallOutput { call_id, output } => ResponseItem::FunctionCallOutput {
                id: None,
                call_id,
                output,
                internal_chat_message_metadata_passthrough: None,
            },
            ResponseInputItem::McpToolCallOutput { call_id, output } => ResponseItem::FunctionCallOutput {
                id: None,
                call_id,
                output: output.into_function_call_output_payload(),
                internal_chat_message_metadata_passthrough: None,
            },
            ResponseInputItem::CustomToolCallOutput { call_id, name, output } => ResponseItem::CustomToolCallOutput {
                id: None,
                call_id,
                name,
                output,
                internal_chat_message_metadata_passthrough: None,
            },
            ResponseInputItem::ToolSearchOutput { call_id, status, execution, tools } => ResponseItem::ToolSearchOutput {
                id: None,
                call_id: Some(call_id),
                status,
                execution,
                tools,
                internal_chat_message_metadata_passthrough: None,
            },
        }
    }
}

/// Setting an item's id and reading it gives back the id set; the variants
/// without an id are left as they were.
pub proof fn law_set_id_reads_back(item: ResponseItem, new_id: Option<String>)
    ensures
        id_slot(item) is Some ==> id_slot(with_id(item, new_id)) == Some(new_id),
        id_slot(item) is None ==> with_id(item, new_id) == item,
{
}

/// Setting an item's metadata and reading it gives back what was set, and
/// a stamp changes nothing but the metadata.
pub proof fn law_set_metadata_reads_back(item: ResponseItem, m: Option<InternalChatMessageMetadataPassthrough>)
    ensures
        meta_slot(item) is Some ==> meta_slot(with_meta(item, m)) == Some(m),
        meta_slot(item) is Some ==> id_slot(with_meta(item, m)) == id_slot(item),
        meta_slot(item) is None ==> with_meta(item, m) == item,
{
}

/// The envelope text of an encrypted agent message.
pub open spec fn envelope_text(trigger_turn: bool, recipient: Seq<char>, author: Seq<char>) -> Seq<char> {
    "Message Type: "@ + (if trigger_turn {
        "NEW_TASK"@
    } else {
        "MESSAGE"@
    }) + "\nTask name: "@ + recipient + "\nSender: "@ + author + "\nPayload:\n"@
}

impl crate::protocol_events::InterAgentCommunication {
    /// The input item that carries a communication to the model as assistant
    /// commentary, given the communication's JSON text.
    pub fn to_response_input_item(serialized: String) -> (r: ResponseInputItem)
        ensures
            r matches ResponseInputItem::Message { role, content, phase } && role@ == "assistant"@
                && phase == Some(MessagePhase::Commentary) && content@.len() == 1 && (
            content@[0] matches ContentItem::OutputText { text } && text@ == serialized@),
    {
        let mut content: Vec<ContentItem> = Vec::new();
        content.push(ContentItem::OutputText { text: serialized });
        ResponseInputItem::Message {
            role: String::from_str("assistant"),
            content,
            phase: Some(MessagePhase::Commentary),
        }
    }

    /// The agent message the model sees: the plain content, or for an
    /// encrypted message an envelope naming the task and sender, then the
    /// encrypted payload.
    pub fn to_model_input_item(&self) -> (r: ResponseItem)
        ensures
            r matches ResponseItem::AgentMessage {
                id: None,
                author,
                recipient,
                content,
                internal_chat_message_metadata_passthrough: None,
            } && author@ == self.author@ && recipient@ == self.recipient@ && match self.encrypted_content {
                Some(e) => content@.len() == 2 && (content@[0] matches AgentMessageInputContent::InputText { text }
                    && text@ == envelope_text(self.trigger_turn, self.recipient@, self.author@)) && (
                content@[1] matches AgentMessageInputContent::EncryptedContent { encrypted_content }
                    && encrypted_content@ == e@),
                None => content@.len() == 1 && (content@[0] matches AgentMessageInputContent::InputText { text }
                    && text@ == self.content@),
            },
    {
        let mut content: Vec<AgentMessageInputContent> = Vec::new();
        match &self.encrypted_content {
            Some(encrypted) => {
                let mut t = crate::text::chars_of("Message Type: ");
                if self.trigger_turn {
                    crate::text::append_str(&mut t, "NEW_TASK");
                } else {
                    crate::text::append_str(&mut t, "MESSAGE");
                }
                crate::text::append_str(&mut t, "\nTask name: ");
                crate::text::append_str(&mut t, self.recipient.as_str());
                crate::text::append_str(&mut t, "\nSender: ");
                crate::text::append_str(&mut t, self.author.as_str());
                crate::text::append_str(&mut t, "\nPayload:\n");
                content.push(AgentMessageInputContent::InputText { text: crate::text::string_of(&t) });
                content.push(
                    AgentMessageInputContent::EncryptedContent {
                        encrypted_content: crate::text::string_of(&crate::text::chars_of(encrypted.as_str())),
                    },
                );
            },
            None => {
                content.push(
                    AgentMessageInputContent::InputText {
                        text: crate::text::string_of(&crate::text::chars_of(self.content.as_str())),
                    },
                );
            },
        }
        ResponseItem::AgentMessage {
            id: None,
            author: crate::text::string_of(&crate::text::chars_of(self.author.as_str())),
            recipient: crate::text::string_of(&crate::text::chars_of(self.recipient.as_str())),
            content,
            internal_chat_message_metadata_passthrough: None,
        }
    }
}

} // verus!
