use codex_logic::review_anchor::WorkEvidence;
use codex_logic::self_review::is_plan_review_candidate;
use codex_logic::self_review::plan_completion_followup_prompt;
use codex_logic::self_review::plan_self_review_prompt;
use codex_logic::self_review::plan_tool_response;
use codex_logic::self_review::SelfReviewTracker;
use codex_logic::self_review::PLAN_UPDATED_MESSAGE;
use codex_logic::self_review::SELF_REVIEW_CHECKPOINT_MESSAGE;
use codex_logic::self_review::SELF_REVIEW_COOLDOWN_MS;

const NOW_MS: u64 = 5_000_000;

fn no_work() -> WorkEvidence {
    WorkEvidence {
        head: None,
        log: None,
        committed: None,
        unstaged: None,
        staged: None,
        untracked: None,
    }
}

#[test]
fn patch_activity_triggers_reminder() {
    let mut tracker = SelfReviewTracker::default();
    tracker.note_patch(Vec::new());

    assert!(tracker.should_remind(NOW_MS));
}

#[test]
fn explicit_review_suppresses_reminder() {
    let mut tracker = SelfReviewTracker::default();
    tracker.note_patch(Vec::new());
    tracker.note_explicit_review();

    assert!(!tracker.should_remind(NOW_MS));
}

#[test]
fn command_with_plan_update_does_not_trigger_review_task() {
    let mut tracker = SelfReviewTracker::default();
    tracker.note_plan_update();
    tracker.note_command("git status --short");

    assert!(!tracker.should_remind(NOW_MS));
}

#[test]
fn automatic_review_cooldown_suppresses_follow_up_reminders() {
    let mut tracker = SelfReviewTracker::default();
    let started_at = NOW_MS;
    tracker.note_automatic_review_started(started_at);
    tracker.reset_turn();
    tracker.reset_turn();
    tracker.note_patch(Vec::new());

    assert!(!tracker.should_remind(started_at + SELF_REVIEW_COOLDOWN_MS - 1_000));
    assert!(tracker.should_remind(started_at + SELF_REVIEW_COOLDOWN_MS));
}

#[test]
fn automatic_review_turn_does_not_trigger_recursive_review() {
    let mut tracker = SelfReviewTracker::default();
    let now = NOW_MS;
    tracker.note_patch(Vec::new());

    assert!(tracker.should_remind(now));

    tracker.note_automatic_review_started(now);
    tracker.reset_turn();
    tracker.note_command("git status --short");
    tracker.note_command("git diff --stat");
    tracker.note_command("cargo test --release");

    assert!(!tracker.should_remind(now + SELF_REVIEW_COOLDOWN_MS));
}

#[test]
fn review_prompt_includes_compact_work_notes() {
    let mut tracker = SelfReviewTracker::default();
    tracker.note_plan_update();
    tracker.note_patch(vec!["src/lib.rs".to_string()]);
    tracker.note_command("git diff --stat");

    let instructions = tracker.review_instructions(&no_work());

    assert!(instructions.contains("git status --short"));
    assert!(instructions.contains("git diff -- <path>"));
    assert!(instructions.contains("git show --stat --oneline HEAD"));
    assert!(instructions.contains("changed paths: src/lib.rs"));
    assert!(instructions.contains("recent commands: git diff --stat"));
}

#[test]
fn review_prompt_includes_prototype_first_policy() {
    let tracker = SelfReviewTracker::default();
    let instructions = tracker.review_instructions(&no_work());

    assert!(instructions.contains("focused demo, canary, fixture, or lab script"));
    assert!(instructions.contains("prompt/context-reducer"));
    assert!(instructions.contains("direct targeted test is cheaper"));
}

#[test]
fn trivial_plan_keeps_compact_output() {
    assert!(!is_plan_review_candidate(1, None, false));
    assert_eq!(plan_tool_response(false), PLAN_UPDATED_MESSAGE);
}

#[test]
fn nontrivial_plan_includes_self_review_checkpoint() {
    assert!(is_plan_review_candidate(2, None, false));
    assert_eq!(plan_tool_response(true), SELF_REVIEW_CHECKPOINT_MESSAGE);
    assert_eq!(plan_tool_response(false), PLAN_UPDATED_MESSAGE);
    assert!(SELF_REVIEW_CHECKPOINT_MESSAGE.contains("<prototype_first_policy>"));
    assert!(SELF_REVIEW_CHECKPOINT_MESSAGE.contains("<coherent_repair_policy>"));
}

#[test]
fn explanation_makes_plan_nontrivial() {
    assert!(is_plan_review_candidate(
        1,
        Some("Need to sequence work carefully."),
        false
    ));
}

#[test]
fn completed_status_update_does_not_request_plan_review() {
    assert!(!is_plan_review_candidate(2, None, true));
}

#[test]
fn plan_self_review_prompt_contains_current_plan() {
    let prompt = plan_self_review_prompt("# Plan\n- inspect");

    assert!(prompt.contains("Self-review the plan"));
    assert!(prompt.contains("comparing the plan to the user's prompt"));
    assert!(prompt.contains("without drifting into adjacent work"));
    assert!(prompt.contains("focused demo, canary, fixture, or lab script"));
    assert!(prompt.contains("safest-looking patch"));
    assert!(prompt.contains("# Plan\n- inspect"));
}

#[test]
fn plan_completion_followup_prompt_contains_completed_plan_and_cycle() {
    let prompt = plan_completion_followup_prompt(Some("- completed: Inspect"));

    assert!(prompt.contains("The current plan appears complete."));
    assert!(prompt.contains("follow-up planning iteration"));
    assert!(prompt.contains("first account for its findings"));
    assert!(prompt.contains("first proposed plan, plan self-review"));
    assert!(prompt.contains("coherent worker/subagent execution and supervision"));
    assert!(prompt.contains("- completed: Inspect"));
}

#[test]
fn plan_updates_reset_by_new_turn_still_remind_after_patch() {
    let mut tracker = SelfReviewTracker::default();
    tracker.note_plan_update();
    tracker.reset_turn();
    tracker.note_patch(vec!["a.rs".to_string()]);
    assert!(tracker.should_remind(NOW_MS));
    assert!(tracker.reminder_message().len() > 0);
}
