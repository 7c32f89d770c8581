use codex_logic::mcp::convert_mcp_content_to_items;
use codex_logic::mcp::CallToolResult;
use codex_logic::mcp::McpContent;
use codex_logic::mcp::McpContentBlock;
use codex_logic::models::format_allow_prefixes;
use codex_logic::models::function_call_output_content_items_to_text;
use codex_logic::models::local_image_open_tag_text_with_path;
use codex_logic::models::plaintext_agent_message_content;
use codex_logic::models::AgentMessageInputContent;
use codex_logic::models::FunctionCallOutputBody;
use codex_logic::models::FunctionCallOutputContentItem;
use codex_logic::models::FunctionCallOutputPayload;
use codex_logic::models::ContentItem;
use codex_logic::models::ImageDetail;
use codex_logic::models::ImageLoadFailure;
use codex_logic::models::local_image_content_items_with_label_number;
use codex_logic::models::prompt_image_mode;
use codex_logic::models::PromptImageMode;
use codex_logic::models::DEFAULT_IMAGE_DETAIL;

const MAX_RENDERED_PREFIXES: usize = 100;
const MAX_ALLOW_PREFIX_TEXT_BYTES: usize = 5000;
const TRUNCATED_MARKER: &str = "...\n[Some commands were truncated]";

fn image_block(json: &str, data: &str, mime_type: Option<&str>, meta: Option<&str>) -> McpContentBlock {
    McpContentBlock {
        json: json.to_string(),
        content: McpContent::Image {
            data: data.to_string(),
            mime_type: mime_type.map(str::to_string),
            meta: meta.map(str::to_string),
        },
    }
}

#[test]
fn plaintext_agent_message_content_rejects_mixed_encrypted_content() {
    let content = vec![
        AgentMessageInputContent::InputText {
            text: "Message Type: MESSAGE\nPayload:\n".to_string(),
        },
        AgentMessageInputContent::EncryptedContent {
            encrypted_content: "encrypted-payload".to_string(),
        },
    ];

    assert_eq!(plaintext_agent_message_content(&content), None);
}

#[test]
fn convert_mcp_content_to_items_preserves_data_urls() {
    let contents = vec![image_block(
        r#"{"data":"data:image/png;base64,Zm9v","mimeType":"image/png","type":"image"}"#,
        "data:image/png;base64,Zm9v",
        Some("image/png"),
        None,
    )];

    let items = convert_mcp_content_to_items(&contents).expect("expected image items");
    assert_eq!(
        items,
        vec![FunctionCallOutputContentItem::InputImage {
            image_url: "data:image/png;base64,Zm9v".to_string(),
            detail: Some(DEFAULT_IMAGE_DETAIL),
        }]
    );
}

#[test]
fn convert_mcp_content_to_items_builds_data_urls_when_missing_prefix() {
    let contents = vec![image_block(
        r#"{"data":"Zm9v","mimeType":"image/png","type":"image"}"#,
        "Zm9v",
        Some("image/png"),
        None,
    )];

    let items = convert_mcp_content_to_items(&contents).expect("expected image items");
    assert_eq!(
        items,
        vec![FunctionCallOutputContentItem::InputImage {
            image_url: "data:image/png;base64,Zm9v".to_string(),
            detail: Some(DEFAULT_IMAGE_DETAIL),
        }]
    );
}

#[test]
fn convert_mcp_content_to_items_returns_none_without_images() {
    let contents = vec![McpContentBlock {
        json: r#"{"text":"hello","type":"text"}"#.to_string(),
        content: McpContent::Text {
            text: "hello".to_string(),
        },
    }];

    assert_eq!(convert_mcp_content_to_items(&contents), None);
}

#[test]
fn function_call_output_content_items_to_text_joins_text_segments() {
    let content_items = vec![
        FunctionCallOutputContentItem::InputText {
            text: "line 1".to_string(),
        },
        FunctionCallOutputContentItem::InputImage {
            image_url: "data:image/png;base64,AAA".to_string(),
            detail: Some(DEFAULT_IMAGE_DETAIL),
        },
        FunctionCallOutputContentItem::InputText {
            text: "line 2".to_string(),
        },
    ];

    let text = function_call_output_content_items_to_text(&content_items);
    assert_eq!(text, Some("line 1\nline 2".to_string()));
}

#[test]
fn function_call_output_content_items_to_text_ignores_blank_text_and_images() {
    let content_items = vec![
        FunctionCallOutputContentItem::InputText {
            text: "   ".to_string(),
        },
        FunctionCallOutputContentItem::InputImage {
            image_url: "data:image/png;base64,AAA".to_string(),
            detail: Some(DEFAULT_IMAGE_DETAIL),
        },
        FunctionCallOutputContentItem::EncryptedContent {
            encrypted_content: "enc_opaque".to_string(),
        },
    ];

    let text = function_call_output_content_items_to_text(&content_items);
    assert_eq!(text, None);
}

#[test]
fn function_call_output_body_to_text_returns_plain_text_content() {
    let body = FunctionCallOutputBody::Text("ok".to_string());
    let text = body.to_text();
    assert_eq!(text, Some("ok".to_string()));
}

#[test]
fn function_call_output_body_to_text_uses_content_item_fallback() {
    let body = FunctionCallOutputBody::ContentItems(vec![
        FunctionCallOutputContentItem::InputText {
            text: "line 1".to_string(),
        },
        FunctionCallOutputContentItem::InputImage {
            image_url: "data:image/png;base64,AAA".to_string(),
            detail: Some(DEFAULT_IMAGE_DETAIL),
        },
    ]);

    let text = body.to_text();
    assert_eq!(text, Some("line 1".to_string()));
}

#[test]
fn render_command_prefix_list_sorts_by_len_then_total_len_then_alphabetical() {
    let prefixes = vec![
        vec!["b".to_string(), "zz".to_string()],
        vec!["aa".to_string()],
        vec!["b".to_string()],
        vec!["a".to_string(), "b".to_string(), "c".to_string()],
        vec!["a".to_string()],
        vec!["b".to_string(), "a".to_string()],
    ];

    let output = format_allow_prefixes(prefixes).expect("rendered list");
    assert_eq!(
        output,
        r#"- ["a"]
- ["b"]
- ["aa"]
- ["b", "a"]
- ["b", "zz"]
- ["a", "b", "c"]"#
            .to_string(),
    );
}

#[test]
fn render_command_prefix_list_limits_output_to_max_prefixes() {
    let prefixes = (0..(MAX_RENDERED_PREFIXES + 5))
        .map(|i| vec![format!("{i:03}")])
        .collect::<Vec<_>>();

    let output = format_allow_prefixes(prefixes).expect("rendered list");
    assert_eq!(output.ends_with(TRUNCATED_MARKER), true);
    assert_eq!(output.lines().count(), MAX_RENDERED_PREFIXES + 1);
}

#[test]
fn format_allow_prefixes_limits_output() {
    let prefixes = (0..200)
        .map(|i| vec![format!("tool-{i:03}"), "x".repeat(500)])
        .collect::<Vec<_>>();

    let output = format_allow_prefixes(prefixes).expect("formatted prefixes");
    assert!(
        output.len() <= MAX_ALLOW_PREFIX_TEXT_BYTES + TRUNCATED_MARKER.len(),
        "output length exceeds expected limit: {output}",
    );
}

fn image_result(block: McpContentBlock) -> CallToolResult {
    CallToolResult {
        content: vec![block],
        structured_content: None,
        is_error: Some(false),
        meta: None,
    }
}

#[test]
fn preserves_existing_image_data_urls() {
    let call_tool_result = image_result(image_block(
        r#"{"data":"data:image/png;base64,BASE64","mimeType":"image/png","type":"image"}"#,
        "data:image/png;base64,BASE64",
        Some("image/png"),
        None,
    ));

    let payload = call_tool_result.into_function_call_output_payload();
    let Some(items) = payload.content_items() else {
        panic!("expected content items");
    };
    assert_eq!(
        items.to_vec(),
        vec![FunctionCallOutputContentItem::InputImage {
            image_url: "data:image/png;base64,BASE64".into(),
            detail: Some(DEFAULT_IMAGE_DETAIL),
        }]
    );
}

#[test]
fn preserves_original_detail_metadata_on_mcp_images() {
    let call_tool_result = image_result(image_block(
        r#"{"_meta":{"codex/imageDetail":"original"},"data":"BASE64","mimeType":"image/png","type":"image"}"#,
        "BASE64",
        Some("image/png"),
        Some(r#"{"codex/imageDetail":"original"}"#),
    ));

    let payload = call_tool_result.into_function_call_output_payload();
    let Some(items) = payload.content_items() else {
        panic!("expected content items");
    };
    assert_eq!(
        items.to_vec(),
        vec![FunctionCallOutputContentItem::InputImage {
            image_url: "data:image/png;base64,BASE64".into(),
            detail: Some(ImageDetail::Original),
        }]
    );
}

#[test]
fn preserves_standard_detail_metadata_on_mcp_images() {
    let call_tool_result = image_result(image_block(
        r#"{"_meta":{"codex/imageDetail":"high"},"data":"BASE64","mimeType":"image/png","type":"image"}"#,
        "BASE64",
        Some("image/png"),
        Some(r#"{"codex/imageDetail":"high"}"#),
    ));

    let payload = call_tool_result.into_function_call_output_payload();
    let Some(items) = payload.content_items() else {
        panic!("expected content items");
    };
    assert_eq!(
        items.to_vec(),
        vec![FunctionCallOutputContentItem::InputImage {
            image_url: "data:image/png;base64,BASE64".into(),
            detail: Some(ImageDetail::High),
        }]
    );
}

#[test]
fn local_image_open_tag_preserves_path() {
    assert_eq!(
        local_image_open_tag_text_with_path(1, r#"/tmp/a&"<b>.png"#),
        r#"<image name=[Image #1] path="/tmp/a&"<b>.png">"#
    );
}

#[test]
fn error_results_hold_the_error_text_as_json() {
    let result = CallToolResult::from_result(Err("bad \"input\"".to_string()));
    assert!(!result.success());
    assert_eq!(result.content.len(), 1);
    assert_eq!(result.content[0].json, r#"{"text":"bad \"input\"","type":"text"}"#);
    let payload = result.as_function_call_output_payload();
    assert_eq!(payload.success, Some(false));
    assert_eq!(
        payload.text_content(),
        Some(r#"[{"text":"bad \"input\"","type":"text"}]"#)
    );
}

#[test]
fn structured_content_wins_unless_null() {
    let mut result = CallToolResult {
        content: vec![],
        structured_content: Some(r#"{"a":1}"#.to_string()),
        is_error: None,
        meta: None,
    };
    let payload = result.as_function_call_output_payload();
    assert_eq!(payload.text_content(), Some(r#"{"a":1}"#));
    assert_eq!(payload.success, Some(true));
    result.structured_content = Some("null".to_string());
    assert_eq!(result.as_function_call_output_payload().text_content(), Some("[]"));
}

#[test]
fn unknown_blocks_keep_their_json_among_images() {
    let contents = vec![
        McpContentBlock {
            json: r#"{"type":"audio"}"#.to_string(),
            content: McpContent::Unknown,
        },
        image_block(r#"{}"#, "Zm9v", None, Some(r#"{"codex/imageDetail":"weird"}"#)),
    ];
    let items = convert_mcp_content_to_items(&contents).expect("items");
    assert_eq!(
        items,
        vec![
            FunctionCallOutputContentItem::InputText {
                text: r#"{"type":"audio"}"#.to_string()
            },
            FunctionCallOutputContentItem::InputImage {
                image_url: "data:application/octet-stream;base64,Zm9v".to_string(),
                detail: Some(ImageDetail::High),
            },
        ]
    );
}

#[test]
fn payload_bodies_can_be_edited_in_place() {
    let mut payload = FunctionCallOutputPayload::from_text("ok".to_string());
    payload.text_content_mut().expect("text").push_str(" done");
    assert_eq!(payload.text_content(), Some("ok done"));
    assert!(payload.content_items_mut().is_none());
    let mut items = FunctionCallOutputPayload::from_content_items(vec![]);
    items.content_items_mut().expect("items").push(FunctionCallOutputContentItem::InputText {
        text: "x".to_string(),
    });
    assert_eq!(items.content_items().map(|v| v.len()), Some(1));
    assert!(items.text_content_mut().is_none());
}

#[test]
fn prepared_local_image_is_framed_by_labelled_tags() {
    let items = local_image_content_items_with_label_number(
        "/tmp/a.png",
        Ok("data:image/png;base64,AAA".to_string()),
        Some(2),
        ImageDetail::Low,
    );
    assert_eq!(
        items,
        vec![
            ContentItem::InputText {
                text: "<image name=[Image #2] path=\"/tmp/a.png\">".to_string(),
            },
            ContentItem::InputImage {
                image_url: "data:image/png;base64,AAA".to_string(),
                detail: Some(ImageDetail::Low),
            },
            ContentItem::InputText {
                text: "</image>".to_string(),
            },
        ]
    );
}

#[test]
fn prepared_local_image_without_label_is_the_image_alone() {
    let items = local_image_content_items_with_label_number(
        "/tmp/a.png",
        Ok("data:image/png;base64,AAA".to_string()),
        None,
        ImageDetail::Original,
    );
    assert_eq!(
        items,
        vec![ContentItem::InputImage {
            image_url: "data:image/png;base64,AAA".to_string(),
            detail: Some(ImageDetail::Original),
        }]
    );
}

#[test]
fn local_image_failures_become_placeholders() {
    let read = local_image_content_items_with_label_number(
        "/tmp/missing.png",
        Err(ImageLoadFailure::Read {
            message: "No such file".to_string(),
        }),
        Some(1),
        ImageDetail::High,
    );
    assert_eq!(
        read,
        vec![ContentItem::InputText {
            text: "Codex could not read the local image at `/tmp/missing.png`: No such file".to_string(),
        }]
    );

    let invalid = local_image_content_items_with_label_number(
        "/tmp/notes.txt",
        Err(ImageLoadFailure::Decode {
            message: "bad header".to_string(),
            invalid_image: true,
        }),
        Some(1),
        ImageDetail::High,
    );
    assert_eq!(
        invalid,
        vec![ContentItem::InputText {
            text: "Image located at `/tmp/notes.txt` is invalid: bad header".to_string(),
        }]
    );

    let other_decode = local_image_content_items_with_label_number(
        "/tmp/x.png",
        Err(ImageLoadFailure::Decode {
            message: "truncated".to_string(),
            invalid_image: false,
        }),
        None,
        ImageDetail::High,
    );
    assert_eq!(
        other_decode,
        vec![ContentItem::InputText {
            text: "Codex could not read the local image at `/tmp/x.png`: truncated".to_string(),
        }]
    );

    let unsupported = local_image_content_items_with_label_number(
        "/tmp/x.svg",
        Err(ImageLoadFailure::UnsupportedImageFormat {
            mime: "image/svg+xml".to_string(),
        }),
        None,
        ImageDetail::High,
    );
    assert_eq!(
        unsupported,
        vec![ContentItem::InputText {
            text: "Codex cannot attach image at `/tmp/x.svg`: unsupported image `image/svg+xml`.".to_string(),
        }]
    );
}

#[test]
fn only_original_detail_keeps_the_image_as_it_is() {
    assert_eq!(prompt_image_mode(ImageDetail::Original), PromptImageMode::Original);
    assert_eq!(prompt_image_mode(ImageDetail::Auto), PromptImageMode::ResizeToFit);
    assert_eq!(prompt_image_mode(ImageDetail::Low), PromptImageMode::ResizeToFit);
    assert_eq!(prompt_image_mode(ImageDetail::High), PromptImageMode::ResizeToFit);
}
