use codex_logic::mcp::CallToolResult;
use codex_logic::models::AgentMessageInputContent;
use codex_logic::protocol_events::InterAgentCommunication;
use codex_logic::models::ContentItem;
use codex_logic::models::FunctionCallOutputBody;
use codex_logic::models::InternalChatMessageMetadataPassthrough;
use codex_logic::models::MessagePhase;
use codex_logic::response_items::ResponseInputItem;
use codex_logic::response_items::ResponseItem;

fn response_item_with_passthrough_metadata(
    internal_chat_message_metadata_passthrough: Option<InternalChatMessageMetadataPassthrough>,
) -> ResponseItem {
    ResponseItem::Message {
        id: None,
        role: "user".to_string(),
        content: vec![ContentItem::InputText {
            text: "hello".to_string(),
        }],
        phase: None,
        internal_chat_message_metadata_passthrough,
    }
}

fn passthrough_metadata(turn_id: &str) -> InternalChatMessageMetadataPassthrough {
    InternalChatMessageMetadataPassthrough {
        turn_id: Some(turn_id.to_string()),
    }
}

#[test]
fn response_input_message_conversion_preserves_phase() {
    let item = ResponseItem::from_input(ResponseInputItem::Message {
        role: "assistant".to_string(),
        content: vec![ContentItem::OutputText {
            text: "still working".to_string(),
        }],
        phase: Some(MessagePhase::Commentary),
    });

    assert_eq!(
        item,
        ResponseItem::Message {
            id: None,
            role: "assistant".to_string(),
            content: vec![ContentItem::OutputText {
                text: "still working".to_string(),
            }],
            phase: Some(MessagePhase::Commentary),
            internal_chat_message_metadata_passthrough: None,
        }
    );
}

#[test]
fn response_item_passthrough_metadata_round_trips_and_stamps_turn_ids() {
    let mut item = response_item_with_passthrough_metadata(Some(passthrough_metadata("turn-1")));
    item.set_turn_id_if_missing("turn-2");
    assert_eq!(item.turn_id(), Some("turn-1"));

    let mut empty_turn_id = response_item_with_passthrough_metadata(Some(passthrough_metadata("")));
    empty_turn_id.set_turn_id_if_missing("turn-1");
    assert_eq!(empty_turn_id.turn_id(), Some("turn-1"));

    let mut missing_turn_id = response_item_with_passthrough_metadata(None);
    missing_turn_id.set_turn_id_if_missing("");
    missing_turn_id.set_turn_id_if_missing("turn-1");
    assert_eq!(missing_turn_id.turn_id(), Some("turn-1"));

    let mut other = ResponseItem::Other;
    other.set_turn_id_if_missing("turn-1");
    assert_eq!(other.turn_id(), None);
}

#[test]
fn response_item_id_getter_and_setter() {
    let mut item = response_item_with_passthrough_metadata(None);
    assert_eq!(item.id(), None);

    item.set_id(Some("msg_test".to_string()));

    assert_eq!(item.id(), Some("msg_test"));

    item.set_id(None);

    assert_eq!(item.id(), None);

    let mut additional_tools = ResponseItem::AdditionalTools {
        id: None,
        role: "developer".to_string(),
        tools: Vec::new(),
    };
    additional_tools.set_id(Some("at_test".to_string()));
    assert_eq!(additional_tools.id(), Some("at_test"));
}

#[test]
fn clearing_metadata_leaves_the_rest() {
    let mut item = response_item_with_passthrough_metadata(Some(passthrough_metadata("turn-1")));
    item.clear_internal_chat_message_metadata_passthrough();
    assert_eq!(item, response_item_with_passthrough_metadata(None));
    assert!(item.is_user_message());
    assert!(item.internal_chat_message_metadata_passthrough().is_none());
}

#[test]
fn tool_results_become_function_call_outputs() {
    let item = ResponseItem::from_input(ResponseInputItem::McpToolCallOutput {
        call_id: "c1".to_string(),
        output: CallToolResult::from_result(Err("nope".to_string())),
    });
    match item {
        ResponseItem::FunctionCallOutput { call_id, output, id, .. } => {
            assert_eq!(call_id, "c1");
            assert_eq!(id, None);
            assert_eq!(output.success, Some(false));
            assert_eq!(
                output.body,
                FunctionCallOutputBody::Text(r#"[{"text":"nope","type":"text"}]"#.to_string())
            );
        }
        other => panic!("unexpected {other:?}"),
    }
}

#[test]
fn queued_encrypted_inter_agent_communication_renders_message_envelope() {
    let communication = InterAgentCommunication::new_encrypted(
        "/root/worker".to_string(),
        "/root".to_string(),
        Vec::new(),
        "encrypted payload".to_string(),
        false,
    );

    assert_eq!(
        communication.to_model_input_item(),
        ResponseItem::AgentMessage {
            id: None,
            author: "/root/worker".to_string(),
            recipient: "/root".to_string(),
            content: vec![
                AgentMessageInputContent::InputText {
                    text: "Message Type: MESSAGE\nTask name: /root\nSender: /root/worker\nPayload:\n".to_string(),
                },
                AgentMessageInputContent::EncryptedContent {
                    encrypted_content: "encrypted payload".to_string(),
                },
            ],
            internal_chat_message_metadata_passthrough: None,
        }
    );
}

#[test]
fn inter_agent_communication_response_input_item_preserves_commentary_phase() {
    let serialized = "{\"author\":\"/root\",\"recipient\":\"/root/helper\",\"other_recipients\":[\"/root/worker\"],\"content\":\"look over the diff\",\"trigger_turn\":true}".to_string();
    assert_eq!(
        InterAgentCommunication::to_response_input_item(serialized.clone()),
        ResponseInputItem::Message {
            role: "assistant".to_string(),
            content: vec![ContentItem::OutputText { text: serialized }],
            phase: Some(MessagePhase::Commentary),
        }
    );
}
