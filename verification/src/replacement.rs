//! Shadow replacements for shell command output: candidate kinds, their
//! metadata, and the token-savings rule that decides on a replacement.
use vstd::prelude::*;

use crate::digest::count_total;
use crate::text::join;
use crate::digest::numstat_digest_fits;
use crate::digest::numstat_fits;
use crate::digest::numstat_rows;
use crate::digest::rg_count_digest_fits;
use crate::digest::rg_count_rows;
use crate::digest::spec_changed_files_compact;
use crate::digest::spec_diff_hunk_summary;
use crate::digest::spec_directory_listing_compact;
use crate::digest::spec_file_excerpt_digest;
use crate::digest::spec_git_diffstat_compact;
use crate::digest::spec_git_filtered_diff_digest;
use crate::digest::spec_git_history_digest;
use crate::digest::spec_git_name_status_compact;
use crate::digest::spec_git_numstat_compact;
use crate::digest::spec_process_table_compact;
use crate::digest::spec_rg_count_digest;
use crate::digest::spec_rg_json_digest;
use crate::digest::spec_run_check_digest;
use crate::digest::spec_select_string_digest;
use crate::json_fields::opt_view;
use crate::text::chars_of;
use crate::text::utf8_len;
use crate::text::utf8_len_exec;

verus! {

/// A compact replacement candidate for the output of a shell command.
#[derive(Debug, Clone, PartialEq, Eq)]
pub enum ReplacementCandidate {
    GitDiffStatCompact,
    GitChangedFiles,
    RgFilesCompact,
    DiffHunkSummary,
    RunCheckDigest,
    FileExcerptDigest,
    SelectStringDigest,
    RgCountDigest,
    RgFileSetDigest,
    RgJsonDigest,
    GitNameStatusCompact,
    GitNumstatCompact,
    GitFilteredDiffDigest,
    GitHistoryDigest,
    DirectoryListingCompact,
    ProcessTableCompact,
    SearchText { pattern: String, globs: Vec<String>, paths: Vec<String> },
    FileOutline { path: String },
}

/// The value of a candidate, its texts taken as character sequences.
pub enum CandidateView {
    GitDiffStatCompact,
    GitChangedFiles,
    RgFilesCompact,
    DiffHunkSummary,
    RunCheckDigest,
    FileExcerptDigest,
    SelectStringDigest,
    RgCountDigest,
    RgFileSetDigest,
    RgJsonDigest,
    GitNameStatusCompact,
    GitNumstatCompact,
    GitFilteredDiffDigest,
    GitHistoryDigest,
    DirectoryListingCompact,
    ProcessTableCompact,
    SearchText { pattern: Seq<char>, globs: Seq<Seq<char>>, paths: Seq<Seq<char>> },
    FileOutline { path: Seq<char> },
}

pub open spec fn string_views(v: Seq<String>) -> Seq<Seq<char>> {
    v.map_values(|x: String| x@)
}

impl View for ReplacementCandidate {
    type V = CandidateView;

    open spec fn view(&self) -> CandidateView {
        match self {
            ReplacementCandidate::GitDiffStatCompact => CandidateView::GitDiffStatCompact,
            ReplacementCandidate::GitChangedFiles => CandidateView::GitChangedFiles,
            ReplacementCandidate::RgFilesCompact => CandidateView::RgFilesCompact,
            ReplacementCandidate::DiffHunkSummary => CandidateView::DiffHunkSummary,
            ReplacementCandidate::RunCheckDigest => CandidateView::RunCheckDigest,
            ReplacementCandidate::FileExcerptDigest => CandidateView::FileExcerptDigest,
            ReplacementCandidate::SelectStringDigest => CandidateView::SelectStringDigest,
            ReplacementCandidate::RgCountDigest => CandidateView::RgCountDigest,
            ReplacementCandidate::RgFileSetDigest => CandidateView::RgFileSetDigest,
            ReplacementCandidate::RgJsonDigest => CandidateView::RgJsonDigest,
            ReplacementCandidate::GitNameStatusCompact => CandidateView::GitNameStatusCompact,
            ReplacementCandidate::GitNumstatCompact => CandidateView::GitNumstatCompact,
            ReplacementCandidate::GitFilteredDiffDigest => CandidateView::GitFilteredDiffDigest,
            ReplacementCandidate::GitHistoryDigest => CandidateView::GitHistoryDigest,
            ReplacementCandidate::DirectoryListingCompact => CandidateView::DirectoryListingCompact,
            ReplacementCandidate::ProcessTableCompact => CandidateView::ProcessTableCompact,
            ReplacementCandidate::SearchText { pattern, globs, paths } => CandidateView::SearchText {
                pattern: pattern@,
                globs: string_views(globs@),
                paths: string_views(paths@),
            },
            ReplacementCandidate::FileOutline { path } => CandidateView::FileOutline { path: path@ },
        }
    }
}

pub open spec fn spec_name(c: CandidateView) -> Seq<char> {
    match c {
        CandidateView::GitDiffStatCompact => "git_diffstat_compact"@,
        CandidateView::GitChangedFiles => "git_changed_files"@,
        CandidateView::RgFilesCompact => "rg_files_compact"@,
        CandidateView::DiffHunkSummary => "diff_hunk_summary"@,
        CandidateView::RunCheckDigest => "run_check_digest"@,
        CandidateView::FileExcerptDigest => "file_excerpt_digest"@,
        CandidateView::SelectStringDigest => "select_string_digest"@,
        CandidateView::RgCountDigest => "rg_count_digest"@,
        CandidateView::RgFileSetDigest => "rg_file_set_digest"@,
        CandidateView::RgJsonDigest => "rg_json_digest"@,
        CandidateView::GitNameStatusCompact => "git_name_status_compact"@,
        CandidateView::GitNumstatCompact => "git_numstat_compact"@,
        CandidateView::GitFilteredDiffDigest => "git_filtered_diff_digest"@,
        CandidateView::GitHistoryDigest => "git_history_digest"@,
        CandidateView::DirectoryListingCompact => "directory_listing_compact"@,
        CandidateView::ProcessTableCompact => "process_table_compact"@,
        CandidateView::SearchText { .. } => "search_text"@,
        CandidateView::FileOutline { .. } => "file_outline"@,
    }
}

/// Whether the candidate reruns a context operation rather than digesting the
/// command's own output.
pub open spec fn is_rerun(c: CandidateView) -> bool {
    c is SearchText || c is FileOutline
}

pub open spec fn spec_strategy(c: CandidateView) -> Seq<char> {
    if is_rerun(c) {
        "context_op_rerun"@
    } else {
        "baseline_digest"@
    }
}

pub open spec fn spec_intent(c: CandidateView) -> Seq<char> {
    match c {
        CandidateView::RgFileSetDigest => "file_discovery"@,
        CandidateView::SearchText { .. } => "snippet_discovery"@,
        CandidateView::RgCountDigest => "distribution_counting"@,
        CandidateView::RgJsonDigest | CandidateView::SelectStringDigest => "search_output_digest"@,
        CandidateView::RgFilesCompact | CandidateView::DirectoryListingCompact => "repo_inventory"@,
        CandidateView::FileOutline { .. } | CandidateView::FileExcerptDigest => "read_orientation"@,
        CandidateView::GitDiffStatCompact => "git_summary"@,
        CandidateView::GitChangedFiles
        | CandidateView::GitNameStatusCompact
        | CandidateView::GitNumstatCompact => "git_changed_path_summary"@,
        CandidateView::DiffHunkSummary | CandidateView::GitFilteredDiffDigest => "diff_orientation"@,
        CandidateView::GitHistoryDigest => "history_orientation"@,
        CandidateView::RunCheckDigest => "check_diagnostics"@,
        CandidateView::ProcessTableCompact => "runtime_orientation"@,
    }
}

pub open spec fn spec_replacement_policy(c: CandidateView) -> Seq<char> {
    match c {
        CandidateView::GitDiffStatCompact => "direct_only_when_original_is_summary"@,
        CandidateView::RgFileSetDigest => "shadow_or_direct_file_set_only"@,
        CandidateView::SearchText { .. } | CandidateView::FileOutline { .. } => "explicit_tool_or_shadow_only"@,
        CandidateView::DiffHunkSummary
        | CandidateView::GitFilteredDiffDigest
        | CandidateView::RunCheckDigest => "needs_artifact"@,
        _ => "shadow_only"@,
    }
}

pub open spec fn spec_useful_when(c: CandidateView) -> Seq<char> {
    match c {
        CandidateView::RgFileSetDigest => "deciding which files mention a pattern before targeted reads"@,
        CandidateView::SearchText { .. } => "finding representative matches that guide next file reads"@,
        CandidateView::RgCountDigest => "estimating where a pattern is concentrated"@,
        CandidateView::RgJsonDigest | CandidateView::SelectStringDigest => "summarizing large search outputs for routing"@,
        CandidateView::RgFilesCompact | CandidateView::DirectoryListingCompact => "orienting to repo layout or selecting likely directories"@,
        CandidateView::FileOutline { .. } | CandidateView::FileExcerptDigest => "choosing where in a file to read next"@,
        CandidateView::GitDiffStatCompact => "checking change size and touched files"@,
        CandidateView::GitChangedFiles
        | CandidateView::GitNameStatusCompact
        | CandidateView::GitNumstatCompact => "finding which files changed and rough change shape"@,
        CandidateView::DiffHunkSummary | CandidateView::GitFilteredDiffDigest => "triaging where a large diff changed"@,
        CandidateView::GitHistoryDigest => "finding likely recent commits or touched files"@,
        CandidateView::RunCheckDigest => "surfacing likely build or test failures quickly"@,
        CandidateView::ProcessTableCompact => "checking whether relevant processes exist"@,
    }
}

pub open spec fn spec_not_for(c: CandidateView) -> Seq<char> {
    match c {
        CandidateView::RgFileSetDigest => "line evidence, surrounding code context, or exhaustive grep output"@,
        CandidateView::SearchText { .. } => "auditing every grep hit or preserving raw rg formatting"@,
        CandidateView::RgCountDigest => "understanding the matched code or proving exact occurrences"@,
        CandidateView::RgJsonDigest | CandidateView::SelectStringDigest => "exact command output, JSON consumers, or copyable diagnostics"@,
        CandidateView::RgFilesCompact | CandidateView::DirectoryListingCompact => "exhaustive file inventory or scripts that consume the raw list"@,
        CandidateView::FileOutline { .. } | CandidateView::FileExcerptDigest => "editing without reading exact source"@,
        CandidateView::GitDiffStatCompact => "reviewing changed code hunks"@,
        CandidateView::GitChangedFiles
        | CandidateView::GitNameStatusCompact
        | CandidateView::GitNumstatCompact => "reviewing exact diff content"@,
        CandidateView::DiffHunkSummary | CandidateView::GitFilteredDiffDigest => "code review or patch reconstruction"@,
        CandidateView::GitHistoryDigest => "audit trails that need exact git log output"@,
        CandidateView::RunCheckDigest => "full build logs, flaky timing analysis, or copied compiler output"@,
        CandidateView::ProcessTableCompact => "exact PID/table automation without raw output"@,
    }
}

pub open spec fn spec_unsafe_reason(c: CandidateView) -> Seq<char> {
    match c {
        CandidateView::GitDiffStatCompact => "safe only for stat-shaped git diff commands"@,
        CandidateView::GitChangedFiles => "path-only diff output does not satisfy hunk review intent"@,
        CandidateView::RgFilesCompact | CandidateView::DirectoryListingCompact => "path lists are capped and sampled when large"@,
        CandidateView::DiffHunkSummary | CandidateView::GitFilteredDiffDigest => "hunk content is lossy without artifact-backed continuation"@,
        CandidateView::RunCheckDigest => "successful context and non-diagnostic output can be omitted"@,
        CandidateView::FileExcerptDigest | CandidateView::FileOutline { .. } => "body content can be omitted"@,
        CandidateView::SelectStringDigest | CandidateView::RgJsonDigest => "structured or raw match details can be lost or summarized"@,
        CandidateView::RgCountDigest => "match text and line numbers are intentionally omitted"@,
        CandidateView::RgFileSetDigest => "full match lines are omitted unless the original command requested only files"@,
        CandidateView::GitNameStatusCompact | CandidateView::GitNumstatCompact => "status or numstat output may not satisfy hunk review intent"@,
        CandidateView::GitHistoryDigest => "commit bodies, ordering details, and full stats can be omitted"@,
        CandidateView::ProcessTableCompact => "process rows and columns are summarized"@,
        CandidateView::SearchText { .. } => "grouping and caps can omit files or matches"@,
    }
}

impl ReplacementCandidate {
    pub fn name(&self) -> (r: &'static str)
        ensures
            r@ == spec_name(self@),
    {
        match self {
            Self::GitDiffStatCompact => "git_diffstat_compact",
            Self::GitChangedFiles => "git_changed_files",
            Self::RgFilesCompact => "rg_files_compact",
            Self::DiffHunkSummary => "diff_hunk_summary",
            Self::RunCheckDigest => "run_check_digest",
            Self::FileExcerptDigest => "file_excerpt_digest",
            Self::SelectStringDigest => "select_string_digest",
            Self::RgCountDigest => "rg_count_digest",
            Self::RgFileSetDigest => "rg_file_set_digest",
            Self::RgJsonDigest => "rg_json_digest",
            Self::GitNameStatusCompact => "git_name_status_compact",
            Self::GitNumstatCompact => "git_numstat_compact",
            Self::GitFilteredDiffDigest => "git_filtered_diff_digest",
            Self::GitHistoryDigest => "git_history_digest",
            Self::DirectoryListingCompact => "directory_listing_compact",
            Self::ProcessTableCompact => "process_table_compact",
            Self::SearchText { .. } => "search_text",
            Self::FileOutline { .. } => "file_outline",
        }
    }

    pub fn strategy(&self) -> (r: &'static str)
        ensures
            r@ == spec_strategy(self@),
    {
        match self {
            Self::SearchText { .. } | Self::FileOutline { .. } => "context_op_rerun",
            _ => "baseline_digest",
        }
    }

    pub fn intent(&self) -> (r: &'static str)
        ensures
            r@ == spec_intent(self@),
    {
        match self {
            Self::RgFileSetDigest => "file_discovery",
            Self::SearchText { .. } => "snippet_discovery",
            Self::RgCountDigest => "distribution_counting",
            Self::RgJsonDigest | Self::SelectStringDigest => "search_output_digest",
            Self::RgFilesCompact | Self::DirectoryListingCompact => "repo_inventory",
            Self::FileOutline { .. } | Self::FileExcerptDigest => "read_orientation",
            Self::GitDiffStatCompact => "git_summary",
            Self::GitChangedFiles | Self::GitNameStatusCompact | Self::GitNumstatCompact => {
                "git_changed_path_summary"
            },
            Self::DiffHunkSummary | Self::GitFilteredDiffDigest => "diff_orientation",
            Self::GitHistoryDigest => "history_orientation",
            Self::RunCheckDigest => "check_diagnostics",
            Self::ProcessTableCompact => "runtime_orientation",
        }
    }

    pub fn replacement_policy(&self) -> (r: &'static str)
        ensures
            r@ == spec_replacement_policy(self@),
    {
        match self {
            Self::GitDiffStatCompact => "direct_only_when_original_is_summary",
            Self::RgFileSetDigest => "shadow_or_direct_file_set_only",
            Self::SearchText { .. } | Self::FileOutline { .. } => "explicit_tool_or_shadow_only",
            Self::DiffHunkSummary | Self::GitFilteredDiffDigest | Self::RunCheckDigest => {
                "needs_artifact"
            },
            _ => "shadow_only",
        }
    }

    pub fn direct_replacement_safe(&self) -> (r: bool)
        ensures
            r == (self@ is GitDiffStatCompact),
    {
        matches!(self, Self::GitDiffStatCompact)
    }

    pub fn useful_when(&self) -> (r: &'static str)
        ensures
            r@ == spec_useful_when(self@),
    {
        match self {
            Self::RgFileSetDigest => "deciding which files mention a pattern before targeted reads",
            Self::SearchText { .. } => "finding representative matches that guide next file reads",
            Self::RgCountDigest => "estimating where a pattern is concentrated",
            Self::RgJsonDigest | Self::SelectStringDigest => {
                "summarizing large search outputs for routing"
            },
            Self::RgFilesCompact | Self::DirectoryListingCompact => {
                "orienting to repo layout or selecting likely directories"
            },
            Self::FileOutline { .. } | Self::FileExcerptDigest => {
                "choosing where in a file to read next"
            },
            Self::GitDiffStatCompact => "checking change size and touched files",
            Self::GitChangedFiles | Self::GitNameStatusCompact | Self::GitNumstatCompact => {
                "finding which files changed and rough change shape"
            },
            Self::DiffHunkSummary | Self::GitFilteredDiffDigest => {
                "triaging where a large diff changed"
            },
            Self::GitHistoryDigest => "finding likely recent commits or touched files",
            Self::RunCheckDigest => "surfacing likely build or test failures quickly",
            Self::ProcessTableCompact => "checking whether relevant processes exist",
        }
    }

    pub fn not_for(&self) -> (r: &'static str)
        ensures
            r@ == spec_not_for(self@),
    {
        match self {
            Self::RgFileSetDigest => {
                "line evidence, surrounding code context, or exhaustive grep output"
            },
            Self::SearchText { .. } => "auditing every grep hit or preserving raw rg formatting",
            Self::RgCountDigest => "understanding the matched code or proving exact occurrences",
            Self::RgJsonDigest | Self::SelectStringDigest => {
                "exact command output, JSON consumers, or copyable diagnostics"
            },
            Self::RgFilesCompact | Self::DirectoryListingCompact => {
                "exhaustive file inventory or scripts that consume the raw list"
            },
            Self::FileOutline { .. } | Self::FileExcerptDigest => {
                "editing without reading exact source"
            },
            Self::GitDiffStatCompact => "reviewing changed code hunks",
            Self::GitChangedFiles | Self::GitNameStatusCompact | Self::GitNumstatCompact => {
                "reviewing exact diff content"
            },
            Self::DiffHunkSummary | Self::GitFilteredDiffDigest => {
                "code review or patch reconstruction"
            },
            Self::GitHistoryDigest => "audit trails that need exact git log output",
            Self::RunCheckDigest => {
                "full build logs, flaky timing analysis, or copied compiler output"
            },
            Self::ProcessTableCompact => "exact PID/table automation without raw output",
        }
    }

    pub fn unsafe_to_replace_reason(&self) -> (r: &'static str)
        ensures
            r@ == spec_unsafe_reason(self@),
    {
        match self {
            Self::GitDiffStatCompact => "safe only for stat-shaped git diff commands",
            Self::GitChangedFiles => "path-only diff output does not satisfy hunk review intent",
            Self::RgFilesCompact | Self::DirectoryListingCompact => {
                "path lists are capped and sampled when large"
            },
            Self::DiffHunkSummary | Self::GitFilteredDiffDigest => {
                "hunk content is lossy without artifact-backed continuation"
            },
            Self::RunCheckDigest => "successful context and non-diagnostic output can be omitted",
            Self::FileExcerptDigest | Self::FileOutline { .. } => "body content can be omitted",
            Self::SelectStringDigest | Self::RgJsonDigest => {
                "structured or raw match details can be lost or summarized"
            },
            Self::RgCountDigest => "match text and line numbers are intentionally omitted",
            Self::RgFileSetDigest => {
                "full match lines are omitted unless the original command requested only files"
            },
            Self::GitNameStatusCompact | Self::GitNumstatCompact => {
                "status or numstat output may not satisfy hunk review intent"
            },
            Self::GitHistoryDigest => {
                "commit bodies, ordering details, and full stats can be omitted"
            },
            Self::ProcessTableCompact => "process rows and columns are summarized",
            Self::SearchText { .. } => "grouping and caps can omit files or matches",
        }
    }
}

/// Minimum saved tokens for a replacement.
pub const MIN_REPLACE_SAVED_TOKENS: usize = 32;

/// Minimum saved share of the baseline tokens, in percent.
pub const MIN_REPLACE_SAVED_PERCENT: usize = 30;

/// `ceil(bytes / 4)`, at least one.
pub open spec fn spec_estimate_tokens(text: Seq<char>) -> nat {
    let q = (utf8_len(text) + 3) / 4;
    if q == 0 {
        1
    } else {
        q
    }
}

/// Rough token estimate: a quarter of the UTF-8 byte length, rounded up, never zero.
pub fn estimate_tokens(text: &str) -> (r: usize)
    requires
        utf8_len(text@) <= usize::MAX,
    ensures
        r == spec_estimate_tokens(text@),
{
    let chars = chars_of(text);
    let bytes = utf8_len_exec(&chars);
    let q = bytes / 4 + if bytes % 4 == 0 { 0 } else { 1 };
    assert(q == (utf8_len(text@) + 3) / 4) by (nonlinear_arith)
        requires
            q == bytes / 4 + if bytes % 4 == 0 { 0int } else { 1int },
            bytes == utf8_len(text@),
    ;
    if q == 0 {
        1
    } else {
        q
    }
}

/// The replacement rule: the replacement must save at least
/// `MIN_REPLACE_SAVED_TOKENS` tokens and at least `MIN_REPLACE_SAVED_PERCENT`
/// percent of the baseline tokens.
pub open spec fn spec_should_replace(baseline: Seq<char>, replacement: Seq<char>) -> bool {
    let b = spec_estimate_tokens(baseline) as int;
    let r = spec_estimate_tokens(replacement) as int;
    b - r >= MIN_REPLACE_SAVED_TOKENS && (b - r) * 100 >= MIN_REPLACE_SAVED_PERCENT * b
}

pub fn should_replace_model_output(
    baseline_model_visible_output: &str,
    replacement_model_visible_output: &str,
) -> (r: bool)
    requires
        utf8_len(baseline_model_visible_output@) <= usize::MAX,
        utf8_len(replacement_model_visible_output@) <= usize::MAX,
    ensures
        r == spec_should_replace(baseline_model_visible_output@, replacement_model_visible_output@),
{
    let baseline_tokens = estimate_tokens(baseline_model_visible_output);
    let replacement_tokens = estimate_tokens(replacement_model_visible_output);
    if replacement_tokens > baseline_tokens || baseline_tokens - replacement_tokens
        < MIN_REPLACE_SAVED_TOKENS {
        return false;
    }
    let saved = baseline_tokens - replacement_tokens;
    // saved / baseline >= 30%, compared in u128 so that neither product overflows.
    let lhs: u128 = (saved as u128) * 100;
    let b: u128 = baseline_tokens as u128;
    assert(30 * b <= 30 * 0xffff_ffff_ffff_ffff_ffff_ffffu128) by (nonlinear_arith)
        requires
            b <= 0xffff_ffff_ffff_ffff_ffff_ffffu128,
    ;
    let rhs: u128 = 30 * b;
    lhs >= rhs
}

/// Renders the replacement text shown in place of a command's raw output.
pub fn render_replacement_output(command: &str, operation: &str, replacement_output: &str) -> (r:
    String)
    ensures
        r@ == "context_ops_replace: "@ + operation@ + "\nraw_command: "@ + command@
            + "\nraw_output: omitted; rerun the raw command if exact output is needed.\n"@
            + replacement_output@,
{
    let mut s = String::from_str("context_ops_replace: ");
    s.append(operation);
    s.append("\nraw_command: ");
    s.append(command);
    s.append("\nraw_output: omitted; rerun the raw command if exact output is needed.\n");
    s.append(replacement_output);
    s
}

/// A replacement is only ever taken when it saves tokens: the replacement's
/// estimate is strictly below the baseline's whenever the rule accepts it.
pub proof fn law_replacement_saves_tokens(baseline: Seq<char>, replacement: Seq<char>)
    requires
        spec_should_replace(baseline, replacement),
    ensures
        spec_estimate_tokens(replacement) + MIN_REPLACE_SAVED_TOKENS <= spec_estimate_tokens(baseline),
{
}

/// The digest of a baseline output that a candidate renders, if it renders one.
pub open spec fn spec_render_baseline_digest(c: CandidateView, b: Seq<char>) -> Option<Seq<char>> {
    match c {
        CandidateView::GitDiffStatCompact => Some(spec_git_diffstat_compact(b)),
        CandidateView::GitChangedFiles => Some(spec_changed_files_compact("git_changed_files"@, b)),
        CandidateView::RgFilesCompact => Some(spec_changed_files_compact("rg_files_compact"@, b)),
        CandidateView::DiffHunkSummary => Some(spec_diff_hunk_summary(b)),
        CandidateView::RunCheckDigest => Some(spec_run_check_digest(b)),
        CandidateView::FileExcerptDigest => Some(spec_file_excerpt_digest(b)),
        CandidateView::SelectStringDigest => Some(spec_select_string_digest(b)),
        CandidateView::RgCountDigest => Some(spec_rg_count_digest(b)),
        CandidateView::RgFileSetDigest => Some(spec_changed_files_compact("rg_file_set_digest"@, b)),
        CandidateView::RgJsonDigest => Some(spec_rg_json_digest(b)),
        CandidateView::GitNameStatusCompact => Some(spec_git_name_status_compact(b)),
        CandidateView::GitNumstatCompact => Some(spec_git_numstat_compact(b)),
        CandidateView::GitFilteredDiffDigest => Some(spec_git_filtered_diff_digest(b)),
        CandidateView::GitHistoryDigest => Some(spec_git_history_digest(b)),
        CandidateView::DirectoryListingCompact => Some(spec_directory_listing_compact(b)),
        CandidateView::ProcessTableCompact => Some(spec_process_table_compact(b)),
        CandidateView::SearchText { .. } | CandidateView::FileOutline { .. } => None,
    }
}

/// Whether the sums a digest prints fit in `usize` (only the `rg --count`
/// and numstat digests add numbers read from the output).
pub open spec fn digest_sums_fit(c: CandidateView, b: Seq<char>) -> bool {
    match c {
        CandidateView::RgCountDigest => count_total(rg_count_rows(b)) <= usize::MAX,
        CandidateView::GitNumstatCompact => numstat_fits(numstat_rows(b)),
        _ => true,
    }
}

impl ReplacementCandidate {
    /// Renders the compact digest of a baseline command output; rerun
    /// candidates (`SearchText`, `FileOutline`) render none.
    pub fn render_baseline_digest(&self, baseline_model_visible_output: &str) -> (r: Option<String>)
        requires
            digest_sums_fit(self@, baseline_model_visible_output@),
        ensures
            opt_view(r) == spec_render_baseline_digest(self@, baseline_model_visible_output@),
    {
        let b = baseline_model_visible_output;
        match self {
            ReplacementCandidate::GitDiffStatCompact => Some(
                crate::digest::render_git_diffstat_compact(b),
            ),
            ReplacementCandidate::GitChangedFiles => Some(
                crate::digest::render_changed_files_compact("git_changed_files", b),
            ),
            ReplacementCandidate::RgFilesCompact => Some(
                crate::digest::render_changed_files_compact("rg_files_compact", b),
            ),
            ReplacementCandidate::DiffHunkSummary => Some(crate::digest::render_diff_hunk_summary(b)),
            ReplacementCandidate::RunCheckDigest => Some(crate::digest::render_run_check_digest(b)),
            ReplacementCandidate::FileExcerptDigest => Some(
                crate::digest::render_file_excerpt_digest(b),
            ),
            ReplacementCandidate::SelectStringDigest => Some(
                crate::digest::render_select_string_digest(b),
            ),
            ReplacementCandidate::RgCountDigest => Some(crate::digest::render_rg_count_digest(b)),
            ReplacementCandidate::RgFileSetDigest => Some(
                crate::digest::render_changed_files_compact("rg_file_set_digest", b),
            ),
            ReplacementCandidate::RgJsonDigest => Some(crate::digest::render_rg_json_digest(b)),
            ReplacementCandidate::GitNameStatusCompact => Some(
                crate::digest::render_git_name_status_compact(b),
            ),
            ReplacementCandidate::GitNumstatCompact => Some(
                crate::digest::render_git_numstat_compact(b),
            ),
            ReplacementCandidate::GitFilteredDiffDigest => Some(
                crate::digest::render_git_filtered_diff_digest(b),
            ),
            ReplacementCandidate::GitHistoryDigest => Some(
                crate::digest::render_git_history_digest(b),
            ),
            ReplacementCandidate::DirectoryListingCompact => Some(
                crate::digest::render_directory_listing_compact(b),
            ),
            ReplacementCandidate::ProcessTableCompact => Some(
                crate::digest::render_process_table_compact(b),
            ),
            ReplacementCandidate::SearchText { .. } | ReplacementCandidate::FileOutline { .. } => None,
        }
    }

    /// Renders the digest when its sums fit in `usize`; `None` otherwise, and
    /// for the rerun candidates.
    pub fn try_render_baseline_digest(&self, baseline_model_visible_output: &str) -> (r: Option<
        String,
    >)
        ensures
            digest_sums_fit(self@, baseline_model_visible_output@) ==> opt_view(r)
                == spec_render_baseline_digest(self@, baseline_model_visible_output@),
            !digest_sums_fit(self@, baseline_model_visible_output@) ==> r is None,
    {
        let fits = match self {
            ReplacementCandidate::RgCountDigest => rg_count_digest_fits(baseline_model_visible_output),
            ReplacementCandidate::GitNumstatCompact => numstat_digest_fits(
                baseline_model_visible_output,
            ),
            _ => true,
        };
        if fits {
            self.render_baseline_digest(baseline_model_visible_output)
        } else {
            None
        }
    }
}

/// A candidate renders a baseline digest exactly when its strategy is the
/// baseline digest; rerun candidates render none.
pub proof fn law_digest_exists_iff_baseline_strategy(c: CandidateView, b: Seq<char>)
    ensures
        spec_render_baseline_digest(c, b) is Some <==> spec_strategy(c) == "baseline_digest"@,
{
    reveal_strlit("baseline_digest");
    reveal_strlit("context_op_rerun");
    assert("baseline_digest"@[0] != "context_op_rerun"@[0]);
}

/// `d` is `name` alone, or `name` followed by a newline and more: its first
/// line is `name` (a name holds no newline).
pub open spec fn first_line_is(d: Seq<char>, name: Seq<char>) -> bool {
    d == name || (name.len() < d.len() && d.take(name.len() as int) == name && d[name.len() as int]
        == '\n')
}

proof fn lemma_join_first_line(parts: Seq<Seq<char>>)
    requires
        parts.len() >= 1,
    ensures
        first_line_is(join(parts, "\n"@), parts[0]),
    decreases parts.len(),
{
    reveal_strlit("\n");
    if parts.len() > 1 {
        let init = parts.drop_last();
        lemma_join_first_line(init);
        assert(init[0] == parts[0]);
        let j = join(init, "\n"@);
        let d = join(parts, "\n"@);
        assert(d == j + "\n"@ + parts.last());
        assert(d.take(parts[0].len() as int) =~= j.take(parts[0].len() as int) || j == parts[0]);
        if j == parts[0] {
            assert(d.take(parts[0].len() as int) =~= parts[0]);
            assert(d[parts[0].len() as int] == '\n');
        } else {
            assert(d.take(parts[0].len() as int) =~= j.take(parts[0].len() as int));
            assert(d[parts[0].len() as int] == j[parts[0].len() as int]);
        }
    }
}

proof fn lemma_joined_lines_start_with_first()
    ensures
        forall|parts: Seq<Seq<char>>|
            parts.len() >= 1 ==> first_line_is(#[trigger] join(parts, "\n"@), parts[0]),
{
    assert forall|parts: Seq<Seq<char>>| parts.len() >= 1 implies first_line_is(
        #[trigger] join(parts, "\n"@),
        parts[0],
    ) by {
        lemma_join_first_line(parts);
    }
}

#[verifier::spinoff_prover]
proof fn lemma_first_line_git_diffstat_compact(b: Seq<char>)
    ensures
        first_line_is(spec_git_diffstat_compact(b), "git_diffstat_compact"@),
{
    lemma_joined_lines_start_with_first();
}

#[verifier::spinoff_prover]
proof fn lemma_first_line_changed_files_compact(operation: Seq<char>, b: Seq<char>)
    ensures
        first_line_is(spec_changed_files_compact(operation, b), operation),
{
    lemma_joined_lines_start_with_first();
}

#[verifier::spinoff_prover]
proof fn lemma_first_line_diff_hunk_summary(b: Seq<char>)
    ensures
        first_line_is(spec_diff_hunk_summary(b), "diff_hunk_summary"@),
{
    lemma_joined_lines_start_with_first();
}

#[verifier::spinoff_prover]
proof fn lemma_first_line_run_check_digest(b: Seq<char>)
    ensures
        first_line_is(spec_run_check_digest(b), "run_check_digest"@),
{
    lemma_joined_lines_start_with_first();
}

#[verifier::spinoff_prover]
proof fn lemma_first_line_file_excerpt_digest(b: Seq<char>)
    ensures
        first_line_is(spec_file_excerpt_digest(b), "file_excerpt_digest"@),
{
    lemma_joined_lines_start_with_first();
}

#[verifier::spinoff_prover]
proof fn lemma_first_line_select_string_digest(b: Seq<char>)
    ensures
        first_line_is(spec_select_string_digest(b), "select_string_digest"@),
{
    lemma_joined_lines_start_with_first();
}

#[verifier::spinoff_prover]
proof fn lemma_first_line_rg_count_digest(b: Seq<char>)
    ensures
        first_line_is(spec_rg_count_digest(b), "rg_count_digest"@),
{
    lemma_joined_lines_start_with_first();
}

#[verifier::spinoff_prover]
proof fn lemma_first_line_rg_json_digest(b: Seq<char>)
    ensures
        first_line_is(spec_rg_json_digest(b), "rg_json_digest"@),
{
    lemma_joined_lines_start_with_first();
}

#[verifier::spinoff_prover]
proof fn lemma_first_line_git_name_status_compact(b: Seq<char>)
    ensures
        first_line_is(spec_git_name_status_compact(b), "git_name_status_compact"@),
{
    lemma_joined_lines_start_with_first();
}

#[verifier::spinoff_prover]
proof fn lemma_first_line_git_numstat_compact(b: Seq<char>)
    ensures
        first_line_is(spec_git_numstat_compact(b), "git_numstat_compact"@),
{
    lemma_joined_lines_start_with_first();
}

#[verifier::spinoff_prover]
proof fn lemma_first_line_git_filtered_diff_digest(b: Seq<char>)
    ensures
        first_line_is(spec_git_filtered_diff_digest(b), "git_filtered_diff_digest"@),
{
    lemma_joined_lines_start_with_first();
}

#[verifier::spinoff_prover]
proof fn lemma_first_line_git_history_digest(b: Seq<char>)
    ensures
        first_line_is(spec_git_history_digest(b), "git_history_digest"@),
{
    lemma_joined_lines_start_with_first();
}

#[verifier::spinoff_prover]
proof fn lemma_first_line_directory_listing_compact(b: Seq<char>)
    ensures
        first_line_is(spec_directory_listing_compact(b), "directory_listing_compact"@),
{
    lemma_joined_lines_start_with_first();
}

#[verifier::spinoff_prover]
proof fn lemma_first_line_process_table_compact(b: Seq<char>)
    ensures
        first_line_is(spec_process_table_compact(b), "process_table_compact"@),
{
    lemma_joined_lines_start_with_first();
}

/// The first line of every baseline digest is the name of its candidate.
pub proof fn law_digest_starts_with_candidate_name(c: CandidateView, b: Seq<char>)
    ensures
        spec_render_baseline_digest(c, b) matches Some(d) ==> first_line_is(d, spec_name(c)),
{
    match c {
        CandidateView::GitDiffStatCompact => lemma_first_line_git_diffstat_compact(b),
        CandidateView::GitChangedFiles => lemma_first_line_changed_files_compact("git_changed_files"@, b),
        CandidateView::RgFilesCompact => lemma_first_line_changed_files_compact("rg_files_compact"@, b),
        CandidateView::DiffHunkSummary => lemma_first_line_diff_hunk_summary(b),
        CandidateView::RunCheckDigest => lemma_first_line_run_check_digest(b),
        CandidateView::FileExcerptDigest => lemma_first_line_file_excerpt_digest(b),
        CandidateView::SelectStringDigest => lemma_first_line_select_string_digest(b),
        CandidateView::RgCountDigest => lemma_first_line_rg_count_digest(b),
        CandidateView::RgFileSetDigest => lemma_first_line_changed_files_compact("rg_file_set_digest"@, b),
        CandidateView::RgJsonDigest => lemma_first_line_rg_json_digest(b),
        CandidateView::GitNameStatusCompact => lemma_first_line_git_name_status_compact(b),
        CandidateView::GitNumstatCompact => lemma_first_line_git_numstat_compact(b),
        CandidateView::GitFilteredDiffDigest => lemma_first_line_git_filtered_diff_digest(b),
        CandidateView::GitHistoryDigest => lemma_first_line_git_history_digest(b),
        CandidateView::DirectoryListingCompact => lemma_first_line_directory_listing_compact(b),
        CandidateView::ProcessTableCompact => lemma_first_line_process_table_compact(b),
        CandidateView::SearchText { .. } | CandidateView::FileOutline { .. } => {},
    }
}

} // verus!
