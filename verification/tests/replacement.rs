use codex_logic::replacement::estimate_tokens;
use codex_logic::replacement::should_replace_model_output;
use codex_logic::replacement::ReplacementCandidate;

#[test]
fn estimates_tokens_without_zero() {
    assert_eq!(estimate_tokens(""), 1);
    assert_eq!(estimate_tokens("12345"), 2);
}

#[test]
fn replacement_requires_meaningful_token_savings() {
    assert!(should_replace_model_output(
        "x".repeat(1_000).as_str(),
        "context_ops_replace\nsmall"
    ));
    assert!(!should_replace_model_output("tiny", "larger replacement"));
    assert!(!should_replace_model_output(
        "x".repeat(1_000).as_str(),
        "y".repeat(760).as_str()
    ));
}

#[test]
fn reports_shadow_strategy_for_rerun_and_baseline_candidates() {
    assert_eq!(
        ReplacementCandidate::SearchText {
            pattern: "needle".to_string(),
            globs: Vec::new(),
            paths: Vec::new()
        }
        .strategy(),
        "context_op_rerun"
    );
    assert_eq!(
        ReplacementCandidate::GitDiffStatCompact.strategy(),
        "baseline_digest"
    );
    assert_eq!(
        ReplacementCandidate::GitFilteredDiffDigest.strategy(),
        "baseline_digest"
    );
}

#[test]
fn exposes_intent_gate_metadata_for_shadow_records() {
    assert_eq!(
        ReplacementCandidate::RgFileSetDigest.intent(),
        "file_discovery"
    );
    assert_eq!(
        ReplacementCandidate::RgFileSetDigest.replacement_policy(),
        "shadow_or_direct_file_set_only"
    );
    assert_eq!(
        ReplacementCandidate::GitDiffStatCompact.replacement_policy(),
        "direct_only_when_original_is_summary"
    );
    assert!(ReplacementCandidate::GitDiffStatCompact.direct_replacement_safe());
    assert!(!ReplacementCandidate::RgFileSetDigest.direct_replacement_safe());
    assert!(
        ReplacementCandidate::RgFileSetDigest
            .useful_when()
            .contains("which files")
    );
    assert!(
        ReplacementCandidate::RgCountDigest
            .not_for()
            .contains("matched code")
    );
    assert!(
        ReplacementCandidate::SearchText {
            pattern: "needle".to_string(),
            globs: Vec::new(),
            paths: Vec::new()
        }
        .unsafe_to_replace_reason()
        .contains("caps")
    );
}
