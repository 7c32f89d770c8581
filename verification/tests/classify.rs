use codex_logic::classify::classify_promoted_replacement;
use codex_logic::classify::classify_shell_replacement;
use codex_logic::replacement::ReplacementCandidate;

#[test]
fn classifies_git_summary_commands() {
    assert_eq!(classify_shell_replacement("git status --short"), None);
    assert_eq!(
        classify_shell_replacement("git diff --stat"),
        Some(ReplacementCandidate::GitDiffStatCompact)
    );
    assert_eq!(
        classify_shell_replacement("git -C codex-rs diff --stat"),
        Some(ReplacementCandidate::GitDiffStatCompact)
    );
    assert_eq!(
        classify_shell_replacement("git diff --name-only"),
        Some(ReplacementCandidate::GitChangedFiles)
    );
    assert_eq!(
        classify_shell_replacement("git diff -- codex-rs/core/src/tools/mod.rs"),
        Some(ReplacementCandidate::DiffHunkSummary)
    );
    assert_eq!(
        classify_shell_replacement("git ls-files codex-rs/replacement-shadow"),
        Some(ReplacementCandidate::DirectoryListingCompact)
    );
}

#[test]
fn promoted_replacements_keep_status_and_search_in_shadow() {
    assert_eq!(
        classify_promoted_replacement("git status --short --branch"),
        None
    );
    assert_eq!(
        classify_promoted_replacement("rg -n --glob '*.rs' context_ops codex-rs/core"),
        None
    );
}

#[test]
fn promoted_replacements_allow_only_diff_stat() {
    assert_eq!(
        classify_promoted_replacement("git diff --stat"),
        Some(ReplacementCandidate::GitDiffStatCompact)
    );
    assert_eq!(
        classify_promoted_replacement("git diff --cached --stat"),
        Some(ReplacementCandidate::GitDiffStatCompact)
    );
    assert_eq!(
        classify_promoted_replacement("git -C .. diff --stat"),
        Some(ReplacementCandidate::GitDiffStatCompact)
    );
    assert_eq!(classify_promoted_replacement("git diff --name-only"), None);
    assert_eq!(
        classify_promoted_replacement("Get-Content -Path codex-rs/core/src/tools/mod.rs"),
        None
    );
}

#[test]
fn classifies_rg_search_without_shell_control() {
    assert_eq!(
        classify_shell_replacement("rg -n --glob '*.rs' context_ops codex-rs/core"),
        Some(ReplacementCandidate::SearchText {
            pattern: "context_ops".to_string(),
            globs: vec!["*.rs".to_string()],
            paths: vec!["codex-rs/core".to_string()]
        })
    );
    assert_eq!(
        classify_shell_replacement(
            r#"rg -n "bias_numeric_series\(" c_core/src/c_core_analysis_bias_facades.cpp"#
        ),
        Some(ReplacementCandidate::SearchText {
            pattern: "bias_numeric_series\\(".to_string(),
            globs: Vec::new(),
            paths: vec!["c_core/src/c_core_analysis_bias_facades.cpp".to_string()]
        })
    );
    assert_eq!(
        classify_shell_replacement("rg --files | head -n 20"),
        Some(ReplacementCandidate::RgFilesCompact)
    );
}

#[test]
fn classifies_rg_search_options_after_pattern_as_options_not_paths() {
    assert_eq!(
        classify_shell_replacement("rg context_ops -g '*.rs' codex-rs/core"),
        Some(ReplacementCandidate::SearchText {
            pattern: "context_ops".to_string(),
            globs: vec!["*.rs".to_string()],
            paths: vec!["codex-rs/core".to_string()]
        })
    );
    assert_eq!(
        classify_shell_replacement("rg context_ops --max-count 3 codex-rs/core"),
        Some(ReplacementCandidate::SearchText {
            pattern: "context_ops".to_string(),
            globs: Vec::new(),
            paths: vec!["codex-rs/core".to_string()]
        })
    );
}

#[test]
fn classifies_rg_search_with_repeated_globs() {
    assert_eq!(
        classify_shell_replacement(
            "rg -n --glob '*.rs' --glob '!target/**' context_ops codex-rs/core"
        ),
        Some(ReplacementCandidate::SearchText {
            pattern: "context_ops".to_string(),
            globs: vec!["*.rs".to_string(), "!target/**".to_string()],
            paths: vec!["codex-rs/core".to_string()]
        })
    );
}

#[test]
fn classifies_rg_files_and_run_checks_as_baseline_summaries() {
    assert_eq!(
        classify_shell_replacement("rg --files -g '*.rs' codex-rs/core"),
        Some(ReplacementCandidate::RgFilesCompact)
    );
    assert_eq!(
        classify_shell_replacement("cargo test -p codex-core --release --lib context_ops -j 1"),
        Some(ReplacementCandidate::RunCheckDigest)
    );
    assert_eq!(
        classify_shell_replacement(
            r"powershell -ExecutionPolicy Bypass -File scripts\build-local-codex.ps1 -Mode FastRelease"
        ),
        Some(ReplacementCandidate::RunCheckDigest)
    );
    assert_eq!(
        classify_shell_replacement(
            "$stamp = Get-Date; cargo test -p codex-core --release --lib search_text -j 1 2>&1 | Tee-Object -FilePath logs\\core-search-text.log"
        ),
        Some(ReplacementCandidate::RunCheckDigest)
    );
    assert_eq!(
        classify_shell_replacement("git diff --check"),
        Some(ReplacementCandidate::RunCheckDigest)
    );
    assert_eq!(
        classify_shell_replacement(
            "Invoke-Bounded -FilePath cmake -ArgumentList @('--build','build','--target','wizard_team_app')"
        ),
        Some(ReplacementCandidate::RunCheckDigest)
    );
    assert_eq!(
        classify_shell_replacement("ctest --test-dir build --output-on-failure"),
        Some(ReplacementCandidate::RunCheckDigest)
    );
    assert_eq!(
        classify_shell_replacement("python -m py_compile src/app.py"),
        Some(ReplacementCandidate::RunCheckDigest)
    );
    assert_eq!(
        classify_shell_replacement("npm run build"),
        Some(ReplacementCandidate::RunCheckDigest)
    );
    assert_eq!(
        classify_shell_replacement("go test ./..."),
        Some(ReplacementCandidate::RunCheckDigest)
    );
    assert_eq!(
        classify_shell_replacement("dotnet test MySolution.sln"),
        Some(ReplacementCandidate::RunCheckDigest)
    );
    assert_eq!(
        classify_shell_replacement("make check"),
        Some(ReplacementCandidate::RunCheckDigest)
    );
    assert_eq!(
        classify_shell_replacement(
            "Get-WinEvent -FilterHashtable @{LogName='Application'} | Select-Object -First 20"
        ),
        Some(ReplacementCandidate::RunCheckDigest)
    );
}

#[test]
fn rejects_rg_flags_that_change_search_semantics() {
    assert_eq!(classify_shell_replacement("rg -i foo"), None);
    assert_eq!(classify_shell_replacement("rg -F 'a.b'"), None);
    assert_eq!(classify_shell_replacement("rg --type rust foo"), None);
    assert_eq!(classify_shell_replacement("rg --hidden foo"), None);
    assert_eq!(classify_shell_replacement("rg foo --type rust src"), None);
    assert_eq!(classify_shell_replacement("rg foo --hidden src"), None);
}

#[test]
fn classifies_whole_file_reads_only() {
    assert_eq!(
        classify_shell_replacement("Get-Content -Path codex-rs/core/src/tools/mod.rs"),
        Some(ReplacementCandidate::FileOutline {
            path: "codex-rs/core/src/tools/mod.rs".to_string()
        })
    );
    assert_eq!(
        classify_shell_replacement(
            "Get-Content -Path codex-rs/core/src/tools/mod.rs -TotalCount 40"
        ),
        Some(ReplacementCandidate::FileExcerptDigest)
    );
    assert_eq!(
        classify_shell_replacement(r"Get-Content -Path codex-rs\core\src\tools\mod.rs"),
        Some(ReplacementCandidate::FileOutline {
            path: r"codex-rs\core\src\tools\mod.rs".to_string()
        })
    );
}

#[test]
fn classifies_expansion_shadow_candidates_after_first_pack() {
    assert_eq!(
        classify_shell_replacement(
            "Get-Content -Path codex-rs/core/src/tools/mod.rs -TotalCount 40"
        ),
        Some(ReplacementCandidate::FileExcerptDigest)
    );
    assert_eq!(
        classify_shell_replacement("Select-String -Path *.rs -Pattern replacement_shadow"),
        Some(ReplacementCandidate::SelectStringDigest)
    );
    assert_eq!(
        classify_shell_replacement("grep -R replacement_shadow codex-rs"),
        Some(ReplacementCandidate::SelectStringDigest)
    );
    assert_eq!(
        classify_shell_replacement("findstr /S /N replacement_shadow *.rs"),
        Some(ReplacementCandidate::SelectStringDigest)
    );
    assert_eq!(
        classify_shell_replacement("git grep -n replacement_shadow -- codex-rs"),
        Some(ReplacementCandidate::SelectStringDigest)
    );
    assert_eq!(
        classify_shell_replacement("rg --count replacement_shadow codex-rs/core"),
        Some(ReplacementCandidate::RgCountDigest)
    );
    assert_eq!(
        classify_shell_replacement("rg -l replacement_shadow codex-rs/core"),
        Some(ReplacementCandidate::RgFileSetDigest)
    );
    assert_eq!(
        classify_shell_replacement("rg --json replacement_shadow codex-rs/core"),
        Some(ReplacementCandidate::RgJsonDigest)
    );
    assert_eq!(
        classify_shell_replacement("git diff --name-status --cached"),
        Some(ReplacementCandidate::GitNameStatusCompact)
    );
    assert_eq!(
        classify_shell_replacement("git diff --numstat"),
        Some(ReplacementCandidate::GitNumstatCompact)
    );
    assert_eq!(
        classify_shell_replacement("git log --stat -- codex-rs/core"),
        Some(ReplacementCandidate::GitHistoryDigest)
    );
    assert_eq!(
        classify_shell_replacement("Get-ChildItem -Recurse codex-rs/core/src/tools"),
        Some(ReplacementCandidate::DirectoryListingCompact)
    );
    assert_eq!(
        classify_shell_replacement("find . -type f -name '*.rs'"),
        Some(ReplacementCandidate::DirectoryListingCompact)
    );
    assert_eq!(
        classify_shell_replacement("fd replacement codex-rs"),
        Some(ReplacementCandidate::DirectoryListingCompact)
    );
    assert_eq!(
        classify_shell_replacement("tree -L 2 codex-rs"),
        Some(ReplacementCandidate::DirectoryListingCompact)
    );
    assert_eq!(
        classify_shell_replacement("Get-Process"),
        Some(ReplacementCandidate::ProcessTableCompact)
    );
    assert_eq!(
        classify_shell_replacement("git diff --name-only"),
        Some(ReplacementCandidate::GitChangedFiles)
    );
    assert_eq!(
        classify_shell_replacement("rg --files -g '*.rs' codex-rs/core"),
        Some(ReplacementCandidate::RgFilesCompact)
    );
}

#[test]
fn classifies_baseline_only_shell_control_expansions() {
    assert_eq!(
        classify_shell_replacement("git diff -- codex-rs/core | rg replacement_shadow"),
        Some(ReplacementCandidate::GitFilteredDiffDigest)
    );
    assert_eq!(
        classify_shell_replacement("cat codex-rs/core/src/lib.rs | head -n 40"),
        Some(ReplacementCandidate::FileExcerptDigest)
    );
    assert_eq!(
        classify_shell_replacement(
            "$i=1; Get-Content -Path scripts\\build-local-codex.ps1 | Select-Object -Skip 20 -First 40"
        ),
        Some(ReplacementCandidate::FileExcerptDigest)
    );
    assert_eq!(
        classify_shell_replacement("rg --files codex-rs/core | head -n 20"),
        Some(ReplacementCandidate::RgFilesCompact)
    );
    assert_eq!(
        classify_shell_replacement("git ls-files codex-rs | head -n 40"),
        Some(ReplacementCandidate::DirectoryListingCompact)
    );
    assert_eq!(
        classify_shell_replacement("find . -type f | sort | head -n 40"),
        Some(ReplacementCandidate::DirectoryListingCompact)
    );
    assert_eq!(
        classify_shell_replacement("Get-ChildItem codex-rs | Select-Object -First 20"),
        Some(ReplacementCandidate::DirectoryListingCompact)
    );
    assert_eq!(
        classify_shell_replacement(
            "$root='reports'; Get-ChildItem $root -Recurse | Select-Object -First 20"
        ),
        Some(ReplacementCandidate::DirectoryListingCompact)
    );
    assert_eq!(
        classify_shell_replacement("Get-ChildItem codex-rs | Select-String replacement_shadow"),
        Some(ReplacementCandidate::SelectStringDigest)
    );
    assert_eq!(
        classify_shell_replacement("grep -R replacement_shadow codex-rs | head -n 20"),
        Some(ReplacementCandidate::SelectStringDigest)
    );
    assert_eq!(
        classify_shell_replacement("cargo test 2>&1 | Select-String error"),
        Some(ReplacementCandidate::RunCheckDigest)
    );
    assert_eq!(
        classify_shell_replacement("cargo test 2>&1 | grep failed"),
        Some(ReplacementCandidate::RunCheckDigest)
    );
}

#[test]
fn search_patterns_that_look_like_checks_stay_search_shadows() {
    assert_eq!(
        classify_shell_replacement("Select-String -Path *.rs -Pattern 'cargo test'"),
        Some(ReplacementCandidate::SelectStringDigest)
    );
    assert_eq!(
        classify_shell_replacement(
            "Get-Content build.log | Select-String -Pattern 'cargo test'"
        ),
        Some(ReplacementCandidate::SelectStringDigest)
    );
    assert_eq!(
        classify_shell_replacement("grep -R 'go test' codex-rs"),
        Some(ReplacementCandidate::SelectStringDigest)
    );
}

#[test]
fn promoted_replacements_reject_expansion_candidates() {
    assert_eq!(
        classify_promoted_replacement("git diff --name-status"),
        None
    );
    assert_eq!(classify_promoted_replacement("git diff --numstat"), None);
    assert_eq!(
        classify_promoted_replacement("rg --count replacement_shadow codex-rs/core"),
        None
    );
    assert_eq!(
        classify_promoted_replacement("rg -l replacement_shadow codex-rs/core"),
        None
    );
    assert_eq!(
        classify_promoted_replacement("rg --json replacement_shadow codex-rs/core"),
        None
    );
    assert_eq!(
        classify_promoted_replacement("rg --files -g '*.rs' codex-rs/core"),
        None
    );
    assert_eq!(
        classify_promoted_replacement("Select-String -Path *.rs -Pattern replacement_shadow"),
        None
    );
    assert_eq!(
        classify_promoted_replacement("Get-ChildItem -Recurse codex-rs/core/src/tools"),
        None
    );
    assert_eq!(
        classify_promoted_replacement("git log --stat -- codex-rs/core"),
        None
    );
    assert_eq!(
        classify_promoted_replacement("git diff -- codex-rs/core | rg replacement_shadow"),
        None
    );
    assert_eq!(classify_promoted_replacement("Get-Process"), None);
    assert_eq!(
        classify_promoted_replacement(
            "Get-Content -Path codex-rs/core/src/lib.rs -TotalCount 40"
        ),
        None
    );
}
