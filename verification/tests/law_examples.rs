use codex_logic::classify::classify_tokens;
use codex_logic::digest::render_rg_json_digest;
use codex_logic::digest::render_rg_json_digest_parsed;
use codex_logic::digest::select_diverse_path_sample;
use codex_logic::json_fields::RgJsonLine;
use codex_logic::models::format_allow_prefixes;
use codex_logic::models::plaintext_agent_message_content;
use codex_logic::models::AgentMessageInputContent;
use codex_logic::replacement::ReplacementCandidate;
use codex_logic::scout::RepoContextScoutConfig;
use codex_logic::task_memory::hex_of;
use codex_logic::task_memory::real_user_message_count;
use codex_logic::task_memory::TaskMemoryInputItem;

#[test]
fn json_quoting_escapes_quotes_backslashes_and_controls() {
    let rendered = format_allow_prefixes(vec![vec!["a\"b\\c\n\t\u{1}\u{8}\u{c}\r".to_string()]])
        .expect("list");
    assert_eq!(rendered, "- [\"a\\\"b\\\\c\\n\\t\\u0001\\b\\f\\r\"]");
}

#[test]
fn rg_json_digest_from_parsed_lines_matches_the_text_form() {
    let parsed = vec![
        Some(RgJsonLine {
            event_type: Some("match".to_string()),
            path_text: Some("src/lib.rs".to_string()),
            line_number: Some(7),
            submatches: Some(2),
        }),
        None,
        Some(RgJsonLine {
            event_type: Some("summary".to_string()),
            path_text: None,
            line_number: None,
            submatches: None,
        }),
    ];
    let from_parsed = render_rg_json_digest_parsed(&parsed);
    let from_text = render_rg_json_digest(
        "{\"type\":\"match\",\"data\":{\"path\":{\"text\":\"src/lib.rs\"},\"line_number\":7,\"submatches\":[{},{}]}}\nnot json\n{\"type\":\"summary\"}\n",
    );
    assert_eq!(from_parsed, from_text);
    assert!(from_parsed.starts_with("rg_json_digest\n"));
    assert!(from_parsed.contains("match_events: 1"));
    assert!(from_parsed.contains("parse_errors: 1"));
    assert!(from_parsed.contains("src/lib.rs:7: submatches=2"));
}

#[test]
fn digests_open_with_the_candidate_name() {
    let digest = ReplacementCandidate::GitChangedFiles
        .render_baseline_digest("src/a.rs\nsrc/b.rs\n")
        .expect("digest");
    assert_eq!(digest.lines().next(), Some(ReplacementCandidate::GitChangedFiles.name()));
}

#[test]
fn classify_tokens_takes_split_words() {
    let words = |ws: &[&str]| ws.iter().map(|w| w.chars().collect::<Vec<char>>()).collect::<Vec<_>>();
    assert_eq!(
        classify_tokens(&words(&["git", "diff", "--stat"])),
        Some(ReplacementCandidate::GitDiffStatCompact)
    );
    assert_eq!(classify_tokens(&words(&["echo", "hi"])), None);
}

#[test]
fn hex_of_writes_two_lowercase_digits_per_byte() {
    assert_eq!(hex_of(&[0x00, 0xab, 0x7f]).into_iter().collect::<String>(), "00ab7f");
}

#[test]
fn plaintext_is_none_when_a_part_is_encrypted() {
    let content = vec![
        AgentMessageInputContent::InputText {
            text: "Message Type: MESSAGE\nPayload:\n".to_string(),
        },
        AgentMessageInputContent::EncryptedContent {
            encrypted_content: "encrypted-payload".to_string(),
        },
    ];
    assert_eq!(plaintext_agent_message_content(&content), None);
    let plain = vec![
        AgentMessageInputContent::InputText { text: "one".to_string() },
        AgentMessageInputContent::InputText { text: "two".to_string() },
    ];
    assert_eq!(plaintext_agent_message_content(&plain), Some("one\ntwo".to_string()));
}

#[test]
fn an_empty_summary_prefix_counts_no_user_messages() {
    let items = vec![
        TaskMemoryInputItem::UserMessage("Fix it properly.".to_string()),
        TaskMemoryInputItem::UserMessage("Then add tests.".to_string()),
    ];
    assert_eq!(real_user_message_count(&items, ""), 0);
    assert_eq!(real_user_message_count(&items, "Summary:"), 2);
}

#[test]
fn diverse_sample_puts_important_files_first_and_stays_in_the_input() {
    let paths: Vec<String> = ["src/a.rs", "Cargo.toml", "docs/x.md", "README.md", "src/b.rs"]
        .iter()
        .map(|p| p.to_string())
        .collect();
    let sample = select_diverse_path_sample(&paths, 3);
    assert_eq!(sample.len(), 3);
    assert_eq!(&sample[..2], &["Cargo.toml".to_string(), "README.md".to_string()]);
    assert!(sample.iter().all(|p| paths.contains(p)));
}

#[test]
fn the_file_limit_is_reached_at_max_files() {
    let config = RepoContextScoutConfig::default();
    assert!(!config.file_limit_reached(4999));
    assert!(config.file_limit_reached(5000));
}

#[test]
fn diverse_sample_takes_every_path_once_when_the_limit_allows() {
    let paths: Vec<String> = ["src/a.rs", "src/b.rs", "docs/x.md", "Cargo.toml", "tests/t.rs"]
        .iter()
        .map(|p| p.to_string())
        .collect();
    let sample = select_diverse_path_sample(&paths, 10);
    assert_eq!(sample.len(), paths.len());
    let mut sorted = sample.clone();
    sorted.sort();
    sorted.dedup();
    assert_eq!(sorted.len(), paths.len());
    assert_eq!(select_diverse_path_sample(&paths, 4).len(), 4);
}
