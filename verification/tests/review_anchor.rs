use codex_logic::review_anchor::AnchorEvidence;
use codex_logic::review_anchor::BaselineSnapshot;
use codex_logic::review_anchor::GitReviewAnchor;
use codex_logic::review_anchor::ReviewAnchor;
use codex_logic::review_anchor::WorkEvidence;

fn clean_anchor_evidence(head: &str) -> AnchorEvidence {
    AnchorEvidence {
        toplevel: Ok("/tmp/repo\n".to_string()),
        head: Some(format!("{head}\n")),
        unstaged: Some(String::new()),
        staged: Some(String::new()),
        untracked: Some(String::new()),
    }
}

#[test]
fn prompt_includes_commits_files_and_diff_commands() {
    let anchor = ReviewAnchor::capture("/tmp/repo".to_string(), clean_anchor_evidence("1111111"));
    let work = WorkEvidence {
        head: Some("2222222\n".to_string()),
        log: Some("2222222 change lib\n".to_string()),
        committed: Some("src/lib.rs\n".to_string()),
        unstaged: Some(String::new()),
        staged: Some(String::new()),
        untracked: Some("src/main.rs\n".to_string()),
    };

    let prompt = anchor.work_slice().review_prompt(&work, "- commands completed: 1");

    assert!(prompt.contains("change lib"));
    assert!(prompt.contains("src/lib.rs"));
    assert!(prompt.contains("src/main.rs"));
    assert!(prompt.contains("git log --oneline"));
    assert!(prompt.contains("git diff --"));
    assert!(prompt.contains("commands completed: 1"));
}

#[test]
fn dirty_anchor_uses_no_index_baseline_command() {
    let evidence = AnchorEvidence {
        unstaged: Some("src/lib.rs\n".to_string()),
        ..clean_anchor_evidence("1111111")
    };
    let anchor = GitReviewAnchor::capture("/tmp/repo".to_string(), evidence).with_baselines(
        Some("/tmp/baselines".to_string()),
        vec![BaselineSnapshot {
            repo_path: "src/lib.rs".to_string(),
            baseline_path: "/tmp/baselines/src__lib.rs".to_string(),
        }],
    );
    let work = WorkEvidence {
        head: Some("1111111\n".to_string()),
        log: Some(String::new()),
        committed: Some(String::new()),
        unstaged: Some("src/lib.rs\n".to_string()),
        staged: Some(String::new()),
        untracked: Some(String::new()),
    };

    let prompt = anchor.prompt(&work, "- file-change steps: 1");

    assert!(prompt.contains("git diff --no-index --"));
    assert!(prompt.contains("src/lib.rs"));
}

#[test]
fn non_git_prompt_has_fallback_commands() {
    let evidence = AnchorEvidence {
        toplevel: Err("fatal: not a git repository".to_string()),
        head: None,
        unstaged: None,
        staged: None,
        untracked: None,
    };
    let anchor = ReviewAnchor::capture("/tmp/plain".to_string(), evidence);
    let work = WorkEvidence {
        head: None,
        log: None,
        committed: None,
        unstaged: None,
        staged: None,
        untracked: None,
    };

    let prompt = anchor.work_slice().review_prompt(&work, "- commands completed: 0");

    assert!(prompt.contains("Git evidence is limited"));
    assert!(prompt.contains("git status --short"));
}

#[test]
fn prompts_open_with_the_header_and_close_with_the_notes() {
    let failed = ReviewAnchor::capture(
        "/tmp/plain".to_string(),
        AnchorEvidence {
            toplevel: Err("fatal".to_string()),
            head: None,
            unstaged: None,
            staged: None,
            untracked: None,
        },
    );
    let empty_work = || WorkEvidence {
        head: None,
        log: None,
        committed: None,
        unstaged: None,
        staged: None,
        untracked: None,
    };
    let header = "Automatic self-review of the just-completed work slice.\n\n";
    let limited = failed.work_slice().review_prompt(&empty_work(), "- notes");
    assert!(limited.starts_with(&format!("{header}Git evidence is limited")));
    assert!(limited.ends_with("\n\nCompact work notes:\n- notes\n"));
    assert!(!limited.contains("Exact diff commands to inspect:"));

    let anchored = ReviewAnchor::capture("/tmp/repo".to_string(), clean_anchor_evidence("1111111"));
    let prompt = anchored.work_slice().review_prompt(&empty_work(), "- notes");
    assert!(prompt.starts_with(header));
    assert!(!prompt.starts_with(&format!("{header}Git evidence is limited")));
    assert!(prompt.ends_with("\n\nCompact work notes:\n- notes\n"));
    assert!(prompt.contains("Exact diff commands to inspect:"));
}
