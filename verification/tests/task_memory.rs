use codex_logic::task_memory::finish_task_memory;
use codex_logic::task_memory::task_memory_body;
use codex_logic::task_memory::task_memory_parts;
use codex_logic::task_memory::within_token_budget;
use codex_logic::task_memory::BuiltTaskMemory;
use codex_logic::task_memory::PLAN_TOKEN_BUDGET;
use codex_logic::task_memory::REQUEST_TOKEN_BUDGET;
use codex_logic::task_memory::TOTAL_TOKEN_BUDGET;
use codex_logic::task_memory::is_task_memory_text;
use codex_logic::task_memory::real_user_message_count;
use codex_logic::task_memory::should_inject_under_pressure;
use codex_logic::task_memory::task_memory_text_digest;
use codex_logic::task_memory::PlanStep;
use codex_logic::task_memory::StepStatus;
use codex_logic::task_memory::TaskMemoryInputItem;
use codex_logic::task_memory::TaskMemoryThrottleState;
use codex_logic::task_memory::UpdatePlanArgs;

const SUMMARY_PREFIX: &str = "Another language model started to solve this problem";

/// Builds a memory whose parts all fit their budgets (these histories are
/// short), so no truncation applies.
fn build_task_memory_with_summary_prefix(
    items: &[TaskMemoryInputItem],
    summary_prefix: &str,
) -> Option<BuiltTaskMemory> {
    let fits = |text: &str, max_tokens: usize| {
        assert!(within_token_budget(text, max_tokens, text.len().div_ceil(4)));
        text.to_string()
    };
    let parts = task_memory_parts(items, summary_prefix)?;
    let request_text = fits(&parts.request_text, REQUEST_TOKEN_BUDGET);
    let plan_text = parts.plan_text.as_deref().map(|plan| fits(plan, PLAN_TOKEN_BUDGET));
    let body = fits(&task_memory_body(&request_text, plan_text.as_deref()), TOTAL_TOKEN_BUDGET);
    Some(finish_task_memory(&body))
}

fn user_message(text: &str) -> TaskMemoryInputItem {
    TaskMemoryInputItem::UserMessage(text.to_string())
}

fn assistant_message(text: &str) -> TaskMemoryInputItem {
    TaskMemoryInputItem::AssistantMessage(text.to_string())
}

fn update_plan_call(args: UpdatePlanArgs) -> TaskMemoryInputItem {
    TaskMemoryInputItem::UpdatePlanCall(Some(args))
}

#[test]
fn builds_near_verbatim_memory_from_latest_proposed_plan() {
    let items = vec![
        user_message("Build the native task memory feature before the final build."),
        assistant_message("<proposed_plan>\n# Plan\n- inspect history\n- patch memory\n</proposed_plan>"),
        user_message("go on"),
        user_message("Also throttle repeated pre-compact injections."),
    ];

    let memory = build_task_memory_with_summary_prefix(&items, SUMMARY_PREFIX).expect("memory");

    assert!(memory.body().contains("Digest: "));
    assert!(memory
        .body()
        .contains("Build the native task memory feature before the final build."));
    assert!(memory.body().contains("- inspect history"));
    assert!(memory
        .body()
        .contains("Also throttle repeated pre-compact injections."));
    assert!(!memory.body().contains("go on"));
}

#[test]
fn latest_update_plan_is_used_when_it_is_newer_than_proposed_plan() {
    let items = vec![
        user_message("Fix the feature."),
        assistant_message("<proposed_plan>\n# Old Plan\n- old step\n</proposed_plan>"),
        update_plan_call(UpdatePlanArgs {
            explanation: Some("Need a safer order.".to_string()),
            plan: vec![
                PlanStep {
                    step: "inspect".to_string(),
                    status: StepStatus::Completed,
                },
                PlanStep {
                    step: "patch".to_string(),
                    status: StepStatus::InProgress,
                },
            ],
        }),
    ];

    let memory = build_task_memory_with_summary_prefix(&items, SUMMARY_PREFIX).expect("memory");

    assert!(memory.body().contains("Need a safer order."));
    assert!(memory.body().contains("- [completed] inspect"));
    assert!(memory.body().contains("- [in_progress] patch"));
    assert!(!memory.body().contains("old step"));
}

#[test]
fn task_memory_items_are_not_real_user_messages() {
    let item = build_task_memory_with_summary_prefix(
        &[
            user_message("Keep the request visible."),
            assistant_message("<proposed_plan>\n# Plan\n- keep memory\n</proposed_plan>"),
        ],
        SUMMARY_PREFIX,
    )
    .expect("memory item")
    .render();

    assert!(task_memory_text_digest(&item).is_some());
    assert_eq!(
        real_user_message_count(&[user_message(&item)], SUMMARY_PREFIX),
        0
    );
}

#[test]
fn detects_task_memory_text_even_without_digest() {
    let malformed_memory = "<task_memory>\n# Task Memory\nmissing digest\n</task_memory>";

    assert!(is_task_memory_text(malformed_memory));
    assert_eq!(task_memory_text_digest(malformed_memory), None);
}

#[test]
fn pressure_throttle_limits_repeated_same_digest_injections() {
    let mut state = TaskMemoryThrottleState::default();
    let start: u64 = 1_000_000;

    assert!(state.should_inject("digest-a", 1, start));
    assert!(!state.should_inject("digest-a", 1, start + 60_000));
    assert!(state.should_inject("digest-a", 4, start + 60_000));
    assert!(!state.should_inject("digest-a", 8, start + 20 * 60_000));
    assert!(state.should_inject("digest-b", 8, start + 20 * 60_000));
}

#[test]
fn pressure_threshold_uses_one_third_of_auto_compact_limit_capped_at_64k() {
    assert!(!should_inject_under_pressure(9_999, 30_000));
    assert!(should_inject_under_pressure(10_000, 30_000));
    assert!(!should_inject_under_pressure(63_999, 300_000));
    assert!(should_inject_under_pressure(64_000, 300_000));
}

#[test]
fn memory_digest_is_the_sha1_of_the_body() {
    let memory = build_task_memory_with_summary_prefix(
        &[user_message("Digest me."), assistant_message("<proposed_plan>\n- a\n</proposed_plan>")],
        SUMMARY_PREFIX,
    )
    .expect("memory");
    let digest = memory.digest().to_string();
    assert_eq!(digest.len(), 40);
    assert!(digest.chars().all(|c| c.is_ascii_hexdigit() && !c.is_ascii_uppercase()));
    let rendered = memory.render();
    assert_eq!(task_memory_text_digest(&rendered), Some(digest));
}

#[test]
fn no_memory_without_user_messages() {
    assert!(build_task_memory_with_summary_prefix(&[], SUMMARY_PREFIX).is_none());
}

#[test]
fn budgets_keep_blank_or_fitting_text_and_truncate_the_rest() {
    assert!(within_token_budget("short", 600, 2));
    assert!(within_token_budget("   \n", 1, 99));
    assert!(!within_token_budget("long text", 1, 3));
}

#[test]
fn parts_hold_the_request_directives_and_plan_before_budgets() {
    let items = vec![
        user_message("Fix the parser."),
        assistant_message("<proposed_plan>\n- read\n</proposed_plan>"),
        user_message("Also add a test."),
    ];
    let parts = task_memory_parts(&items, SUMMARY_PREFIX).expect("parts");
    assert_eq!(
        parts.request_text,
        "Active user request:\nFix the parser.\n\nLater user directives:\n- Also add a test."
    );
    assert_eq!(parts.plan_text.as_deref(), Some("- read"));
    assert_eq!(
        task_memory_body(&parts.request_text, parts.plan_text.as_deref()),
        "# Task Memory\nPolicy: near-verbatim active task and plan memory.\n\n## User Prompt And Directives\nActive user request:\nFix the parser.\n\nLater user directives:\n- Also add a test.\n\n## Current Plan\n- read\n"
    );
}
