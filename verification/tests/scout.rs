use codex_logic::scout::approx_tokens;
use codex_logic::scout::rank_files;
use codex_logic::scout::Anchor;
use codex_logic::scout::ChangedAreas;
use codex_logic::scout::ChangedPath;
use codex_logic::scout::FileRecord;
use codex_logic::scout::IndexState;
use codex_logic::scout::RepoContextScoutConfig;
use codex_logic::scout::RepoContextScoutMode;
use codex_logic::scout::RepoIndex;
use codex_logic::scout::ScoutCommandMode;
use codex_logic::scout::ScoutTrigger;
use codex_logic::scout_index::anchors_for_text;
use codex_logic::scout_index::changed_areas;
use codex_logic::scout_index::file_record;
use codex_logic::scout_index::is_skipped_path;
use codex_logic::scout_index::language_for_path;
use codex_logic::scout_index::overlay_paths;
use codex_logic::scout_index::update_brace_depth;
use codex_logic::scout_packet::cap_packet;
use codex_logic::scout_packet::format_packet;
use codex_logic::scout_packet::support_routes_for_prompt;
use codex_logic::scout_run::cache_paths;
use codex_logic::scout_run::index_state_for;
use codex_logic::scout_run::repo_key;
use codex_logic::scout_run::scout_bundle;
use codex_logic::scout_run::shadow_record;
use codex_logic::scout_run::short_hash;
use codex_logic::scout_run::ScoutRequest;

fn record(path: &str, anchors: &[(usize, &str)]) -> FileRecord {
    FileRecord {
        path: path.to_string(),
        size: 10,
        modified_unix: 0,
        language: language_for_path(path).to_string(),
        line_count: 1,
        anchors: anchors
            .iter()
            .map(|(line, text)| Anchor {
                line: *line,
                text: text.to_string(),
            })
            .collect(),
    }
}

fn index(files: Vec<FileRecord>) -> RepoIndex {
    RepoIndex {
        schema_version: 1,
        project_root: "/repo".to_string(),
        generated_at_unix: 7,
        git_head: Some("0123456789abcdef".to_string()),
        files,
        file_limit_reached: false,
    }
}

fn changed(paths: &[(&str, &str)]) -> ChangedAreas {
    ChangedAreas {
        paths: paths
            .iter()
            .map(|(status, path)| ChangedPath {
                path: path.to_string(),
                status: status.to_string(),
            })
            .collect(),
    }
}

#[test]
fn approx_tokens_rounds_bytes_up_to_quarters() {
    assert_eq!(approx_tokens(""), 0);
    assert_eq!(approx_tokens("abcd"), 1);
    assert_eq!(approx_tokens("abcde"), 2);
    assert_eq!(approx_tokens("é"), 1);
}

#[test]
fn config_defaults_match_the_documented_limits() {
    let config = RepoContextScoutConfig::default();
    assert_eq!(config.mode, RepoContextScoutMode::Shadow);
    assert_eq!(config.max_files, 5_000);
    assert_eq!(config.max_file_bytes, 128 * 1024);
    assert_eq!(config.max_anchors_per_file, 24);
    assert_eq!(config.max_output_tokens, 1_200);
    assert_eq!(config.max_candidates, 12);
    assert!(config.mode.shadow_enabled());
    assert!(!config.mode.tool_enabled());
}

#[test]
fn languages_follow_extensions_case_aside() {
    assert_eq!(language_for_path("src/lib.RS"), "rust");
    assert_eq!(language_for_path("a.tsx"), "typescript");
    assert_eq!(language_for_path("a.mjs"), "javascript");
    assert_eq!(language_for_path("x.hpp"), "cpp");
    assert_eq!(language_for_path("README.markdown"), "markdown");
    assert_eq!(language_for_path("Cargo.toml"), "toml");
    assert_eq!(language_for_path("notes"), "text");
}

#[test]
fn skipped_paths_cover_build_and_vendor_directories() {
    assert!(is_skipped_path("target/generated.rs"));
    assert!(is_skipped_path("web\\node_modules\\x.js"));
    assert!(is_skipped_path("cmake-build-debug/a.o"));
    assert!(!is_skipped_path(".github/workflows/ci.yml"));
    assert!(!is_skipped_path("src/targets.rs"));
}

#[test]
fn rust_anchors_keep_declarations() {
    let anchors = anchors_for_text("rust", "use x;\npub fn alpha() {}\n  struct B;\nlet c = 1;\n", 24);
    let got: Vec<(usize, String)> = anchors.into_iter().map(|a| (a.line, a.text)).collect();
    assert_eq!(
        got,
        vec![(2, "pub fn alpha() {}".to_string()), (3, "struct B;".to_string())]
    );
}

#[test]
fn anchor_limit_zero_still_keeps_the_first_anchor() {
    let anchors = anchors_for_text("markdown", "# A\n# B\n", 0);
    assert_eq!(anchors.len(), 1);
    assert_eq!(anchors[0].text, "# A");
}

#[test]
fn cpp_anchors_skip_nested_functions() {
    let text = "#include <x>\nint main() {\n  if (a) {\n    call(x);\n  }\n}\nvoid g();\n";
    let anchors = anchors_for_text("cpp", text, 24);
    let lines: Vec<usize> = anchors.iter().map(|a| a.line).collect();
    assert_eq!(lines, vec![1, 2, 7]);
    assert_eq!(update_brace_depth(0, &"{{}".chars().collect::<Vec<_>>()), 1);
    assert_eq!(update_brace_depth(0, &"}}".chars().collect::<Vec<_>>()), 0);
}

#[test]
fn file_records_read_only_small_files() {
    let config = RepoContextScoutConfig::default();
    let small = file_record("src/lib.rs", 20, 3, Some("pub fn a() {}\nfn b() {}\n"), &config);
    assert_eq!(small.language, "rust");
    assert_eq!(small.line_count, 2);
    assert_eq!(small.anchors.len(), 2);
    let big = file_record("src/lib.rs", 200_000, 3, Some("pub fn a() {}\n"), &config);
    assert_eq!(big.line_count, 0);
    assert!(big.anchors.is_empty());
}

#[test]
fn porcelain_status_reads_renames_and_merges_untracked() {
    let status = " M src/lib.rs\0R  new.rs\0old.rs\0?? notes\\todo.md\0";
    let untracked = "notes/todo.md\nextra.txt\n";
    let areas = changed_areas(Some(status), Some(untracked));
    let got: Vec<(String, String)> = areas.paths.into_iter().map(|p| (p.path, p.status)).collect();
    assert_eq!(
        got,
        vec![
            ("extra.txt".to_string(), "??".to_string()),
            ("notes/todo.md".to_string(), "??".to_string()),
            ("old.rs".to_string(), "R ".to_string()),
            ("src/lib.rs".to_string(), " M".to_string()),
        ]
    );
}

#[test]
fn overlay_adds_only_unindexed_unskipped_paths() {
    let idx = index(vec![record("src/lib.rs", &[])]);
    let ch = changed(&[(" M", "src/lib.rs"), ("??", "newdir/new_file.rs"), ("??", "target/x.rs")]);
    assert_eq!(overlay_paths(&idx, &ch), vec!["newdir/new_file.rs".to_string()]);
}

#[test]
fn ranking_puts_changed_files_first_and_caps_candidates() {
    let idx = index(vec![
        record("src/alpha.rs", &[(1, "pub fn alpha() {}")]),
        record("src/beta.rs", &[]),
        record("tests/alpha_test.rs", &[]),
    ]);
    let ch = changed(&[(" M", "src/beta.rs")]);
    let config = RepoContextScoutConfig::default();
    let ranked = rank_files(&idx, &ch, "review alpha", &config);
    let got: Vec<(String, u128)> = ranked.iter().map(|c| (c.path.clone(), c.score_halves)).collect();
    assert_eq!(
        got,
        vec![
            ("src/beta.rs".to_string(), 16),
            ("src/alpha.rs".to_string(), 7),
            ("tests/alpha_test.rs".to_string(), 7),
        ]
    );
    assert_eq!(ranked[0].reasons, vec!["changed".to_string()]);
    let capped = rank_files(
        &idx,
        &ch,
        "review alpha",
        &RepoContextScoutConfig {
            max_candidates: 1,
            ..config
        },
    );
    assert_eq!(capped.len(), 1);
}

#[test]
fn support_routes_follow_prompt_terms() {
    let routes = support_routes_for_prompt("review the architecture", &[]);
    let names: Vec<&str> = routes.iter().map(|r| r.name.as_str()).collect();
    assert_eq!(names, vec!["graphify_topology_prompt", "repomix_artifact_context_prompt"]);
    assert!(support_routes_for_prompt("just hello", &[]).is_empty());
}

#[test]
fn packet_lists_state_changes_and_reads() {
    let idx = index(vec![record("src/alpha.rs", &[(1, "pub fn alpha() {}")])]);
    let ch = changed(&[(" M", "src/alpha.rs")]);
    let config = RepoContextScoutConfig::default();
    let ranked = rank_files(&idx, &ch, "alpha", &config);
    let routes = support_routes_for_prompt("alpha", &ranked);
    let packet = format_packet(&idx, &ch.paths, &ranked, &routes, IndexState::Warm, "alpha", &config);
    assert_eq!(
        packet,
        "<repo_context_scout>\nrole: bounded repo-state scout; use as path hints, not proof\nindex_state: Warm; indexed_files: 1; changed_paths: 1\nproject_root: /repo\ntask_prompt_digest: alpha\ngit_head: 0123456789ab\nchanged_paths:\n-  M src/alpha.rs\nrecommended_reads:\n- src/alpha.rs (8.5) - anchor:alpha, changed, path:alpha\n  anchors: L1 pub fn alpha() {}\n</repo_context_scout>"
    );
}

#[test]
fn packet_respects_token_budget() {
    let capped = cap_packet(&"x".repeat(1_000).chars().collect::<Vec<_>>(), 60);
    let text: String = capped.iter().collect();
    assert!(text.len() <= 240);
    assert!(text.ends_with("fallback_required: true; packet capped by max_output_tokens\n</repo_context_scout>"));
    let tiny = cap_packet(&"x".repeat(1_000).chars().collect::<Vec<_>>(), 5);
    let tiny_text: String = tiny.iter().collect();
    assert!(tiny_text.starts_with("fallback_required"));
}

#[test]
fn short_hashes_and_repo_keys_use_sha1() {
    assert_eq!(short_hash("abc"), "a9993e364706");
    let key = repo_key("/home/me/project");
    assert!(key.starts_with("project-"));
    assert_eq!(key.len(), "project-".len() + 12);
    assert!(repo_key("/").starts_with("repo-"));
    let paths = cache_paths("/home/me/.codex", "/home/me/project");
    assert_eq!(paths.dir, format!("/home/me/.codex/context-scout/{key}"));
    assert_eq!(paths.index, format!("/home/me/.codex/context-scout/{key}/index.json"));
    assert_eq!(paths.shadow, format!("/home/me/.codex/context-scout/{key}/shadow.jsonl"));
}

#[test]
fn index_state_tracks_saved_index_and_head() {
    let head = Some("a".to_string());
    assert_eq!(index_state_for(false, &head, &head), IndexState::Cold);
    assert_eq!(index_state_for(true, &head, &Some("b".to_string())), IndexState::Stale);
    assert_eq!(index_state_for(true, &head, &head), IndexState::Warm);
}

#[test]
fn bundles_and_shadow_records_reflect_the_run() {
    let idx = index(vec![record("src/alpha.rs", &[])]);
    let ch = changed(&[]);
    let cache = cache_paths("/h", "/repo");
    let request = ScoutRequest {
        project_root: "/repo",
        codex_home: "/h",
        prompt: "alpha",
        config: RepoContextScoutConfig::default(),
        mode: ScoutCommandMode::Scout,
        trigger: ScoutTrigger::Manual,
    };
    let bundle = scout_bundle(&cache, "/repo", true, &idx, &ch, &Some("0123456789abcdef".to_string()), &request);
    assert_eq!(bundle.status.index_state, IndexState::Warm);
    assert_eq!(bundle.candidates.len(), 1);
    assert_eq!(bundle.packet_tokens, approx_tokens(&bundle.packet));
    let status_only = scout_bundle(
        &cache,
        "/repo",
        false,
        &idx,
        &ch,
        &None,
        &ScoutRequest {
            mode: ScoutCommandMode::Status,
            ..request
        },
    );
    assert!(status_only.candidates.is_empty());
    assert_eq!(status_only.status.index_state, IndexState::Cold);
    let record = shadow_record(9, ScoutTrigger::Resume, "h".to_string(), Ok(bundle), "k");
    assert_eq!(record.verdict, "recorded");
    assert_eq!(record.selected_paths, vec!["src/alpha.rs".to_string()]);
    let failed = shadow_record(9, ScoutTrigger::Clear, "h".to_string(), Err("boom".to_string()), "k");
    assert_eq!(failed.verdict, "fallback");
    assert_eq!(failed.fallback_reason, Some("boom".to_string()));
    assert_eq!(failed.repo_key, "k");
}
