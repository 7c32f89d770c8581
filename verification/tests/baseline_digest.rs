use codex_logic::digest::render_changed_files_compact;
use codex_logic::digest::render_diff_hunk_summary;
use codex_logic::digest::render_directory_listing_compact;
use codex_logic::digest::render_file_excerpt_digest;
use codex_logic::digest::render_git_diffstat_compact;
use codex_logic::digest::render_git_filtered_diff_digest;
use codex_logic::digest::render_git_history_digest;
use codex_logic::digest::render_git_name_status_compact;
use codex_logic::digest::render_git_numstat_compact;
use codex_logic::digest::render_process_table_compact;
use codex_logic::digest::render_rg_count_digest;
use codex_logic::digest::render_rg_json_digest;
use codex_logic::digest::render_run_check_digest;
use codex_logic::digest::render_select_string_digest;
use codex_logic::digest::select_diverse_path_sample;

#[test]
fn renders_status_and_diff_summaries() {
    assert_eq!(
        render_git_diffstat_compact(
            "Exit code: 0\nWall time: 1s\nOutput:\n src/lib.rs | 2 +-\n 1 file changed, 1 insertion(+), 1 deletion(-)\n"
        ),
        "git_diffstat_compact\ndiffstat_lines: 2\nfiles_with_stat_rows: 1\nsummary: 1 file changed, 1 insertion(+), 1 deletion(-)\nlines: 2 shown, 0 omitted\n src/lib.rs | 2 +-\n 1 file changed, 1 insertion(+), 1 deletion(-)"
    );

    let diff = "Exit code: 0\nWall time: 1s\nOutput:\ndiff --git a/src/lib.rs b/src/lib.rs\n@@ -1 +1 @@\ndiff --git a/src/main.rs b/src/main.rs\n@@ -2 +2 @@\n@@ -9 +9 @@\n";
    assert_eq!(
        render_diff_hunk_summary(diff),
        "diff_hunk_summary\nfiles: 2\nhunks: 3\nfiles_list: 2 shown, 0 omitted\nfallback_required: true\nfallback_reason: lossy_diff_summary\nfile: src/lib.rs; hunks: 1\nfile: src/main.rs; hunks: 2"
    );
}

#[test]
fn renders_expansion_digests() {
    assert_eq!(
        render_changed_files_compact(
            "rg_file_set_digest",
            r#"{"output":"src/lib.rs\nsrc/main.rs\n","metadata":{"exit_code":0,"duration_seconds":0.1}}"#,
        ),
        "rg_file_set_digest\npaths_total: 2\nextensions: rs=2\ntop_dirs: src=2\npaths: 2 shown, 0 omitted\nsrc/lib.rs\nsrc/main.rs"
    );
    assert_eq!(
        render_file_excerpt_digest("Exit code: 0\nWall time: 1s\nOutput:\nalpha\nbeta\n"),
        "file_excerpt_digest\nlines_total: 2\nlines: 2 shown, 0 omitted\nalpha\nbeta"
    );
    assert_eq!(
        render_select_string_digest(
            "Exit code: 0\nWall time: 1s\nOutput:\nsrc/lib.rs:12:replacement_shadow\n"
        ),
        "select_string_digest\nmatches_total: 1\nmatches: 1 shown, 0 omitted\npaths: src/lib.rs=1\nsrc/lib.rs:12:replacement_shadow"
    );
    assert_eq!(
        render_select_string_digest(
            "Exit code: 0\nWall time: 1s\nOutput:\nC:\\repo\\src\\lib.rs:12:replacement_shadow\n"
        ),
        "select_string_digest\nmatches_total: 1\nmatches: 1 shown, 0 omitted\npaths: C:\\repo\\src\\lib.rs=1\nC:\\repo\\src\\lib.rs:12:replacement_shadow"
    );
    assert_eq!(
        render_rg_count_digest(
            "Exit code: 0\nWall time: 1s\nOutput:\nsrc/lib.rs:3\nsrc/main.rs:2\n"
        ),
        "rg_count_digest\ncount_lines_total: 2\nmatches_total_from_counts: 5\ncount_lines: 2 shown, 0 omitted\nsrc/lib.rs:3\nsrc/main.rs:2"
    );
    assert_eq!(
        render_changed_files_compact(
            "rg_file_set_digest",
            "Exit code: 0\nWall time: 1s\nOutput:\nsrc/lib.rs\nsrc/main.rs\n"
        ),
        "rg_file_set_digest\npaths_total: 2\nextensions: rs=2\ntop_dirs: src=2\npaths: 2 shown, 0 omitted\nsrc/lib.rs\nsrc/main.rs"
    );
    assert_eq!(
        render_git_name_status_compact(
            "Exit code: 0\nWall time: 1s\nOutput:\nM\tsrc/lib.rs\nA\tsrc/main.rs\n"
        ),
        "git_name_status_compact\npaths_total: 2\nstatus_counts: A=1, M=1\npaths: 2 shown, 0 omitted\nM\tsrc/lib.rs\nA\tsrc/main.rs"
    );
    assert_eq!(
        render_git_numstat_compact(
            "Exit code: 0\nWall time: 1s\nOutput:\n10\t2\tsrc/lib.rs\n-\t-\tbin.dat\n"
        ),
        "git_numstat_compact\nfiles_total: 2\nadded_lines: 10\ndeleted_lines: 2\nbinary_files: 1\nfiles: 2 shown, 0 omitted\n10\t2\tsrc/lib.rs\n-\t-\tbin.dat"
    );
}

#[test]
fn compact_path_lists_sample_across_directories_after_important_files() {
    let paths = vec![
        "AGENTS.md".to_string(),
        "alpha/one.rs".to_string(),
        "alpha/two.rs".to_string(),
        "beta/one.rs".to_string(),
        "beta/two.rs".to_string(),
        "gamma/one.rs".to_string(),
    ];

    assert_eq!(
        select_diverse_path_sample(&paths, 4),
        vec![
            "AGENTS.md".to_string(),
            "alpha/one.rs".to_string(),
            "beta/one.rs".to_string(),
            "gamma/one.rs".to_string(),
        ]
    );
}

#[test]
fn renders_lossy_expansion_digests_with_fallbacks() {
    let rg_json = render_rg_json_digest(
        "Exit code: 0\nWall time: 1s\nOutput:\n{\"type\":\"match\",\"data\":{\"path\":{\"text\":\"src/lib.rs\"},\"line_number\":7,\"submatches\":[{\"match\":{\"text\":\"replacement\"}}]}}\nnot-json\n",
    );
    assert!(rg_json.contains("rg_json_digest"));
    assert!(rg_json.contains("parse_errors: 1"));
    assert!(rg_json.contains("fallback_required: true"));
    assert!(rg_json.contains("fallback_reason: json_parse_error"));

    let filtered = render_git_filtered_diff_digest(
        "Exit code: 0\nWall time: 1s\nOutput:\n@@ -1 +1 @@\n+replacement_shadow\n",
    );
    assert!(filtered.contains("git_filtered_diff_digest"));
    assert!(filtered.contains("fallback_reason: lossy_diff_filter"));

    let check = render_run_check_digest(
        "Exit code: 0\nWall time: 1s\nOutput:\nwarning: slow check\nfinished\n",
    );
    assert!(check.contains("run_check_digest"));
    assert!(check.contains("fallback_required: true"));
    assert!(check.contains("fallback_reason: lossy_check_output"));

    let history = render_git_history_digest(
        "Exit code: 0\nWall time: 1s\nOutput:\ncommit abc\nAuthor: A\nDate: Today\n 1 file changed, 2 insertions(+)\n",
    );
    assert!(history.contains("git_history_digest"));
    assert!(history.contains("fallback_reason: lossy_git_history"));

    let listing = render_directory_listing_compact(
        "Exit code: 0\nWall time: 1s\nOutput:\n-a--- 10 lib.rs\n",
    );
    assert!(listing.contains("directory_listing_compact"));
    assert!(listing.contains("fallback_reason: lossy_directory_listing"));

    let processes = render_process_table_compact(
        "Exit code: 0\nWall time: 1s\nOutput:\nName Id CPU\ncodex 1 0.1\n",
    );
    assert!(processes.contains("process_table_compact"));
    assert!(processes.contains("fallback_reason: lossy_process_table"));
}

#[test]
fn process_table_compact_keeps_interesting_rows_after_top_sample() {
    let mut output = String::from("Exit code: 0\nWall time: 1s\nOutput:\nName Id CPU\n");
    for index in 0..40 {
        output.push_str(&format!("chrome {index} 0.1\n"));
    }
    output.push_str("rustc 9001 80.0\n");
    output.push_str("codex 9002 5.0\n");

    let processes = render_process_table_compact(&output);

    assert!(processes.contains("rustc 9001"));
    assert!(processes.contains("codex 9002"));
    assert!(processes.contains("fallback_reason: max_processes"));
}

#[test]
fn process_table_compact_keeps_small_generic_targeted_rows() {
    let processes = render_process_table_compact(
        "Exit code: 0\nWall time: 1s\nOutput:\nName Id CPU\nchrome 2301 120.0\nnode 2302 40.0\n",
    );

    assert!(processes.contains("chrome 2301"));
    assert!(processes.contains("node 2302"));
}
