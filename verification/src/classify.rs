//! Classification of shell commands into shadow replacement candidates.
use vstd::prelude::*;

use crate::replacement::string_views;
use crate::replacement::CandidateView;
use crate::replacement::ReplacementCandidate;
use crate::shell_words::shlex_split;
use crate::shell_words::shlex_split_result;
use crate::text::chars_of;
use crate::text::clone_chars;
use crate::text::contains;
use crate::text::contains_chars;
use crate::text::contains_str;
use crate::text::ends_with;
use crate::text::ends_with_str;
use crate::text::eq_str;
use crate::text::find_chars;
use crate::text::first_index;
use crate::text::lemma_first_index;
use crate::text::is_blank;
use crate::text::is_blank_chars;
use crate::text::is_first_occurrence;
use crate::text::join;
use crate::text::join_chars;
use crate::text::lower;
use crate::text::lowercase;
use crate::text::occurs_at;
use crate::text::slice_chars;
use crate::text::starts_with;
use crate::text::starts_with_str;
use crate::text::string_of;
use crate::text::trim;
use crate::text::trim_chars;
use crate::text::views;
use crate::text::words;
use crate::text::words_of;

verus! {

// ------------------------------------------------------------ token helpers

pub open spec fn lit_views(lits: Seq<&str>) -> Seq<Seq<char>> {
    lits.map_values(|l: &str| l@)
}

pub open spec fn any_in(t: Seq<Seq<char>>, l: Seq<Seq<char>>) -> bool {
    exists|i: int| 0 <= i < t.len() && l.contains(#[trigger] t[i])
}

pub open spec fn any_lower_in(t: Seq<Seq<char>>, l: Seq<Seq<char>>) -> bool {
    exists|i: int| 0 <= i < t.len() && l.contains(lower(#[trigger] t[i]))
}

pub open spec fn all_in(t: Seq<Seq<char>>, l: Seq<Seq<char>>, nonflag_ok: bool) -> bool {
    forall|i: int|
        0 <= i < t.len() ==> l.contains(#[trigger] t[i]) || (nonflag_ok && !starts_with(
            t[i],
            "-"@,
        ))
}

pub open spec fn starts_any(s: Seq<char>, l: Seq<Seq<char>>) -> bool {
    exists|j: int| 0 <= j < l.len() && starts_with(s, #[trigger] l[j])
}

pub open spec fn contains_any(s: Seq<char>, l: Seq<Seq<char>>) -> bool {
    exists|j: int| 0 <= j < l.len() && contains(s, #[trigger] l[j])
}

pub open spec fn any_starts(t: Seq<Seq<char>>, l: Seq<Seq<char>>) -> bool {
    exists|i: int| 0 <= i < t.len() && starts_any(#[trigger] t[i], l)
}

fn one_of(t: &[char], lits: &[&str]) -> (r: bool)
    ensures
        r == lit_views(lits@).contains(t@),
{
    for i in 0..lits.len()
        invariant
            forall|j: int| 0 <= j < i ==> lits@[j]@ != t@,
    {
        if eq_str(t, lits[i]) {
            assert(lit_views(lits@)[i as int] == t@);
            return true;
        }
    }
    false
}

fn starts_any_exec(s: &[char], lits: &[&str]) -> (r: bool)
    ensures
        r == starts_any(s@, lit_views(lits@)),
{
    for i in 0..lits.len()
        invariant
            forall|j: int| 0 <= j < i ==> !starts_with(s@, #[trigger] lit_views(lits@)[j]),
    {
        if starts_with_str(s, lits[i]) {
            assert(starts_with(s@, lit_views(lits@)[i as int]));
            return true;
        }
    }
    false
}

fn contains_any_exec(s: &[char], lits: &[&str]) -> (r: bool)
    ensures
        r == contains_any(s@, lit_views(lits@)),
{
    for i in 0..lits.len()
        invariant
            forall|j: int| 0 <= j < i ==> !contains(s@, #[trigger] lit_views(lits@)[j]),
    {
        if contains_str(s, lits[i]) {
            assert(contains(s@, lit_views(lits@)[i as int]));
            return true;
        }
    }
    false
}

fn any_in_exec(t: &[Vec<char>], lits: &[&str]) -> (r: bool)
    ensures
        r == any_in(views(t@), lit_views(lits@)),
{
    for i in 0..t.len()
        invariant
            forall|j: int|
                0 <= j < i ==> !lit_views(lits@).contains(#[trigger] views(t@)[j]),
    {
        if one_of(&t[i], lits) {
            assert(lit_views(lits@).contains(views(t@)[i as int]));
            return true;
        }
    }
    false
}

fn any_lower_in_exec(t: &[Vec<char>], lits: &[&str]) -> (r: bool)
    ensures
        r == any_lower_in(views(t@), lit_views(lits@)),
{
    for i in 0..t.len()
        invariant
            forall|j: int|
                0 <= j < i ==> !lit_views(lits@).contains(lower(#[trigger] views(t@)[j])),
    {
        let l = lowercase(&t[i]);
        if one_of(&l, lits) {
            assert(lit_views(lits@).contains(lower(views(t@)[i as int])));
            return true;
        }
    }
    false
}

fn all_in_exec(t: &[Vec<char>], lits: &[&str], nonflag_ok: bool) -> (r: bool)
    ensures
        r == all_in(views(t@), lit_views(lits@), nonflag_ok),
{
    for i in 0..t.len()
        invariant
            forall|j: int|
                0 <= j < i ==> lit_views(lits@).contains(#[trigger] views(t@)[j]) || (nonflag_ok
                    && !starts_with(views(t@)[j], "-"@)),
    {
        let ok = one_of(&t[i], lits) || (nonflag_ok && !starts_with_str(&t[i], "-"));
        if !ok {
            assert(!(lit_views(lits@).contains(views(t@)[i as int]) || (nonflag_ok
                && !starts_with(views(t@)[i as int], "-"@))));
            return false;
        }
    }
    true
}

fn any_starts_exec(t: &[Vec<char>], lits: &[&str]) -> (r: bool)
    ensures
        r == any_starts(views(t@), lit_views(lits@)),
{
    for i in 0..t.len()
        invariant
            forall|j: int| 0 <= j < i ==> !starts_any(#[trigger] views(t@)[j], lit_views(lits@)),
    {
        if starts_any_exec(&t[i], lits) {
            assert(starts_any(views(t@)[i as int], lit_views(lits@)));
            return true;
        }
    }
    false
}

fn tail_tokens(t: &[Vec<char>], start: usize) -> (r: Vec<Vec<char>>)
    requires
        start <= t.len(),
    ensures
        views(r@) == views(t@).skip(start as int),
{
    let mut r: Vec<Vec<char>> = Vec::new();
    let mut i = start;
    while i < t.len()
        invariant
            start <= i <= t.len(),
            views(r@) == views(t@).subrange(start as int, i as int),
        decreases t.len() - i,
    {
        let ghost before = r@;
        r.push(clone_chars(&t[i]));
        assert(views(r@) =~= views(before).push(t@[i as int]@));
        assert(views(t@).subrange(start as int, i + 1) =~= views(t@).subrange(
            start as int,
            i as int,
        ).push(views(t@)[i as int]));
        i += 1;
    }
    r
}

fn to_strings(t: &[Vec<char>]) -> (r: Vec<String>)
    ensures
        string_views(r@) == views(t@),
{
    let mut r: Vec<String> = Vec::new();
    for i in 0..t.len()
        invariant
            string_views(r@) == views(t@).take(i as int),
    {
        let ghost before = r@;
        r.push(string_of(&t[i]));
        assert(string_views(r@) =~= string_views(before).push(t@[i as int]@));
        assert(views(t@).take(i + 1) =~= views(t@).take(i as int).push(views(t@)[i as int]));
    }
    assert(views(t@).take(t.len() as int) =~= views(t@));
    r
}

pub open spec fn cand_opt(r: Option<ReplacementCandidate>) -> Option<CandidateView> {
    match r {
        Some(c) => Some(c@),
        None => None,
    }
}

pub open spec fn chars_opt(p: Option<Vec<char>>) -> Option<Seq<char>> {
    match p {
        Some(v) => Some(v@),
        None => None,
    }
}

pub open spec fn or_else(a: Option<CandidateView>, b: Option<CandidateView>) -> Option<
    CandidateView,
> {
    if a is Some {
        a
    } else {
        b
    }
}

// ------------------------------------------------------------ tokenizing

pub open spec fn shell_control_markers() -> Seq<Seq<char>> {
    lit_views(seq!["\n", "\r", "&&", "||", "|", ";", ">", "<", "$("])
}

pub open spec fn spec_has_shell_control(command: Seq<char>) -> bool {
    contains_any(command, shell_control_markers())
}

fn has_shell_control(command: &[char]) -> (r: bool)
    ensures
        r == spec_has_shell_control(command@),
{
    contains_any_exec(command, &["\n", "\r", "&&", "||", "|", ";", ">", "<", "$("])
}

/// Shell tokens of a command: plain whitespace words when the command has a
/// backslash and no quotes (Windows paths), else the `shlex` words, falling back
/// to whitespace words when the quoting is unbalanced. `None` when there are no
/// tokens.
pub open spec fn spec_shell_tokens(command: Seq<char>) -> Option<Seq<Seq<char>>> {
    let tokens = if command.contains('\\') && !command.contains('"') && !command.contains('\'') {
        words(command)
    } else {
        match shlex_split_result(command) {
            Some(t) => t,
            None => words(command),
        }
    };
    if tokens.len() == 0 {
        None
    } else {
        Some(tokens)
    }
}

fn shell_tokens(command: &[char]) -> (r: Option<Vec<Vec<char>>>)
    ensures
        match r {
            Some(t) => spec_shell_tokens(command@) == Some(views(t@)),
            None => spec_shell_tokens(command@) is None,
        },
{
    let plain = crate::text::contains_char(command, '\\') && !crate::text::contains_char(
        command,
        '"',
    ) && !crate::text::contains_char(command, '\'');
    let tokens = if plain {
        words_of(command)
    } else {
        let s = string_of(command);
        match shlex_split(s.as_str()) {
            Some(v) => {
                let mut t: Vec<Vec<char>> = Vec::new();
                for i in 0..v.len()
                    invariant
                        views(t@) == v@.map_values(|x: String| x@).take(i as int),
                {
                    let ghost before = t@;
                    t.push(chars_of(v[i].as_str()));
                    assert(views(t@) =~= views(before).push(v@[i as int]@));
                    assert(v@.map_values(|x: String| x@).take(i + 1) =~= v@.map_values(
                        |x: String| x@,
                    ).take(i as int).push(v@[i as int]@));
                }
                assert(v@.map_values(|x: String| x@).take(v.len() as int) =~= v@.map_values(
                    |x: String| x@,
                ));
                t
            },
            None => words_of(command),
        }
    };
    if tokens.len() == 0 {
        None
    } else {
        Some(tokens)
    }
}

// ------------------------------------------------------------ git

pub open spec fn git_subcommand_index(t: Seq<Seq<char>>) -> Option<int> {
    if t.len() > 1 && t[1] == "-C"@ {
        if t.len() > 2 {
            Some(3)
        } else {
            None
        }
    } else {
        Some(1)
    }
}

fn git_subcommand_index_exec(t: &[Vec<char>]) -> (r: Option<usize>)
    ensures
        r matches Some(i) ==> git_subcommand_index(views(t@)) == Some(i as int),
        r is None ==> git_subcommand_index(views(t@)) is None,
{
    if t.len() > 1 && eq_str(&t[1], "-C") {
        if t.len() > 2 {
            Some(3)
        } else {
            None
        }
    } else {
        Some(1)
    }
}

pub open spec fn stat_lits() -> Seq<Seq<char>> {
    lit_views(seq!["--stat", "--shortstat"])
}

pub open spec fn spec_stat_shadowable(args: Seq<Seq<char>>) -> bool {
    args.len() > 0 && all_in(
        args,
        lit_views(seq!["--stat", "--shortstat", "--cached", "--staged", "--", "."]),
        false,
    ) && any_in(args, stat_lits())
}

pub open spec fn spec_flag_only_shadowable(args: Seq<Seq<char>>, flag: &str) -> bool {
    args.len() > 0 && all_in(args, lit_views(seq![flag, "--cached", "--staged", "--", "."]), true)
        && any_in(args, lit_views(seq![flag]))
}

pub open spec fn spec_hunk_shadowable(args: Seq<Seq<char>>) -> bool {
    all_in(args, lit_views(seq!["--cached", "--staged", "--", "."]), true) && !any_in(
        args,
        lit_views(seq!["--stat", "--shortstat", "--name-only", "--name-status", "--numstat", "--check"]),
    )
}

pub open spec fn spec_stat_replaceable(args: Seq<Seq<char>>) -> bool {
    args.len() > 0 && all_in(args, lit_views(seq!["--stat", "--shortstat", "--cached", "--staged"]), false)
        && any_in(args, stat_lits())
}

fn git_diff_stat_args_are_shadowable(args: &[Vec<char>]) -> (r: bool)
    ensures
        r == spec_stat_shadowable(views(args@)),
{
    args.len() > 0 && all_in_exec(args, &["--stat", "--shortstat", "--cached", "--staged", "--", "."], false)
        && any_in_exec(args, &["--stat", "--shortstat"])
}

fn flag_only_shadowable(args: &[Vec<char>], flag: &str) -> (r: bool)
    ensures
        r == spec_flag_only_shadowable(views(args@), flag),
{
    let all_lits = [flag, "--cached", "--staged", "--", "."];
    let one = [flag];
    assert(lit_views(all_lits@) =~= lit_views(seq![flag, "--cached", "--staged", "--", "."]));
    assert(lit_views(one@) =~= lit_views(seq![flag]));
    args.len() > 0 && all_in_exec(args, &all_lits, true) && any_in_exec(args, &one)
}

fn git_diff_hunk_args_are_shadowable(args: &[Vec<char>]) -> (r: bool)
    ensures
        r == spec_hunk_shadowable(views(args@)),
{
    all_in_exec(args, &["--cached", "--staged", "--", "."], true) && !any_in_exec(
        args,
        &["--stat", "--shortstat", "--name-only", "--name-status", "--numstat", "--check"],
    )
}

fn git_diff_stat_args_are_replaceable(args: &[Vec<char>]) -> (r: bool)
    ensures
        r == spec_stat_replaceable(views(args@)),
{
    args.len() > 0 && all_in_exec(args, &["--stat", "--shortstat", "--cached", "--staged"], false)
        && any_in_exec(args, &["--stat", "--shortstat"])
}

pub open spec fn spec_classify_git(t: Seq<Seq<char>>) -> Option<CandidateView> {
    if t.len() == 0 || t[0] != "git"@ {
        None
    } else {
        match git_subcommand_index(t) {
            None => None,
            Some(i) => if i >= t.len() {
                None
            } else {
                let sub = t[i];
                let args = t.skip(i + 1);
                if sub == "diff"@ {
                    if spec_stat_shadowable(args) {
                        Some(CandidateView::GitDiffStatCompact)
                    } else if spec_flag_only_shadowable(args, "--name-only") {
                        Some(CandidateView::GitChangedFiles)
                    } else if spec_flag_only_shadowable(args, "--name-status") {
                        Some(CandidateView::GitNameStatusCompact)
                    } else if spec_flag_only_shadowable(args, "--numstat") {
                        Some(CandidateView::GitNumstatCompact)
                    } else if spec_hunk_shadowable(args) {
                        Some(CandidateView::DiffHunkSummary)
                    } else {
                        None
                    }
                } else if sub == "show"@ || sub == "log"@ {
                    Some(CandidateView::GitHistoryDigest)
                } else if sub == "ls-files"@ {
                    Some(CandidateView::DirectoryListingCompact)
                } else {
                    None
                }
            },
        }
    }
}

fn classify_git_candidate(t: &[Vec<char>]) -> (r: Option<ReplacementCandidate>)
    ensures
        cand_opt(r) == spec_classify_git(views(t@)),
{
    if t.len() == 0 || !eq_str(&t[0], "git") {
        return None;
    }
    let index = match git_subcommand_index_exec(t) {
        Some(i) => i,
        None => return None,
    };
    if index >= t.len() {
        return None;
    }
    let args = tail_tokens(t, index + 1);
    let sub = &t[index];
    if eq_str(sub, "diff") {
        if git_diff_stat_args_are_shadowable(&args) {
            Some(ReplacementCandidate::GitDiffStatCompact)
        } else if flag_only_shadowable(&args, "--name-only") {
            Some(ReplacementCandidate::GitChangedFiles)
        } else if flag_only_shadowable(&args, "--name-status") {
            Some(ReplacementCandidate::GitNameStatusCompact)
        } else if flag_only_shadowable(&args, "--numstat") {
            Some(ReplacementCandidate::GitNumstatCompact)
        } else if git_diff_hunk_args_are_shadowable(&args) {
            Some(ReplacementCandidate::DiffHunkSummary)
        } else {
            None
        }
    } else if eq_str(sub, "show") || eq_str(sub, "log") {
        Some(ReplacementCandidate::GitHistoryDigest)
    } else if eq_str(sub, "ls-files") {
        Some(ReplacementCandidate::DirectoryListingCompact)
    } else {
        None
    }
}

pub open spec fn spec_classify_promoted_git_diff(t: Seq<Seq<char>>) -> Option<CandidateView> {
    if t.len() == 0 || t[0] != "git"@ {
        None
    } else {
        match git_subcommand_index(t) {
            None => None,
            Some(i) => if i < t.len() && t[i] == "diff"@ && spec_stat_replaceable(t.skip(i + 1)) {
                Some(CandidateView::GitDiffStatCompact)
            } else {
                None
            },
        }
    }
}

/// The promoted candidate of the words a command splits into: only a plain
/// `git diff --stat` style command qualifies.
pub fn classify_promoted_git_diff_candidate(t: &[Vec<char>]) -> (r: Option<ReplacementCandidate>)
    ensures
        cand_opt(r) == spec_classify_promoted_git_diff(views(t@)),
{
    if t.len() == 0 || !eq_str(&t[0], "git") {
        return None;
    }
    let index = match git_subcommand_index_exec(t) {
        Some(i) => i,
        None => return None,
    };
    if index < t.len() && eq_str(&t[index], "diff") {
        let args = tail_tokens(t, index + 1);
        if git_diff_stat_args_are_replaceable(&args) {
            return Some(ReplacementCandidate::GitDiffStatCompact);
        }
    }
    None
}

// ------------------------------------------------------------ rg search

pub open spec fn rg_reject_lits() -> Seq<Seq<char>> {
    lit_views(seq!["--files", "-l", "--files-with-matches", "--files-without-match", "--count", "--count-matches", "--replace", "--json", "-A", "-B", "-C", "-i", "-F", "-t", "-T", "--after-context", "--before-context", "--context", "--fixed-strings", "--hidden", "--ignore-case", "--type", "--type-not"])
}

/// One option of an `rg` search at index `i`: `None` rejects the command, else
/// the index of the option's last token, the pattern and the globs after it.
pub open spec fn spec_rg_option(
    t: Seq<Seq<char>>,
    i: int,
    pattern: Option<Seq<char>>,
    globs: Seq<Seq<char>>,
) -> Option<(int, Option<Seq<char>>, Seq<Seq<char>>)> {
    let tok = t[i];
    if rg_reject_lits().contains(tok) {
        None
    } else if tok == "-g"@ || tok == "--glob"@ {
        if i + 1 < t.len() {
            Some((i + 1, pattern, globs.push(t[i + 1])))
        } else {
            None
        }
    } else if tok == "-e"@ || tok == "--regexp"@ {
        if i + 1 < t.len() {
            Some((i + 1, Some(t[i + 1]), globs))
        } else {
            None
        }
    } else if lit_views(seq!["-m", "--max-count", "--max-columns", "--color"]).contains(tok) {
        if i + 1 < t.len() {
            Some((i + 1, pattern, globs))
        } else {
            None
        }
    } else if lit_views(seq!["-n", "--line-number", "--column", "--heading", "--no-heading", "--with-filename"]).contains(tok) {
        Some((i, pattern, globs))
    } else if starts_with(tok, "--glob="@) {
        Some((i, pattern, globs.push(tok.skip(7))))
    } else if starts_any(tok, lit_views(seq!["--max-count=", "--max-columns=", "--color="])) {
        Some((i, pattern, globs))
    } else {
        None
    }
}

/// The scan of an `rg` search from token `i`: `None` rejects the command, else
/// the pattern, globs and paths.
pub open spec fn spec_rg_scan(
    t: Seq<Seq<char>>,
    i: int,
    pattern: Option<Seq<char>>,
    globs: Seq<Seq<char>>,
    paths: Seq<Seq<char>>,
) -> Option<(Option<Seq<char>>, Seq<Seq<char>>, Seq<Seq<char>>)>
    decreases t.len() - i,
{
    if i < 1 || i >= t.len() {
        Some((pattern, globs, paths))
    } else {
        let tok = t[i];
        if tok == "--"@ {
            if i + 1 < t.len() {
                Some((Some(t[i + 1]), globs, paths + t.skip(i + 2)))
            } else {
                Some((None, globs, paths))
            }
        } else if starts_with(tok, "-"@) {
            match spec_rg_option(t, i, pattern, globs) {
                None => None,
                Some((j, p, g)) => if j >= i {
                    spec_rg_scan(t, j + 1, p, g, paths)
                } else {
                    None
                },
            }
        } else if pattern is None {
            spec_rg_scan(t, i + 1, Some(tok), globs, paths)
        } else {
            spec_rg_scan(t, i + 1, pattern, globs, paths.push(tok))
        }
    }
}

pub open spec fn spec_classify_rg(t: Seq<Seq<char>>) -> Option<CandidateView> {
    if t.len() == 0 || t[0] != "rg"@ {
        None
    } else {
        match spec_rg_scan(t, 1, None, Seq::empty(), Seq::empty()) {
            None => None,
            Some((p, globs, paths)) => match p {
                None => None,
                Some(pattern) => if is_blank(pattern) {
                    None
                } else {
                    Some(CandidateView::SearchText { pattern, globs, paths })
                },
            },
        }
    }
}

fn parse_rg_option(
    t: &[Vec<char>],
    index: &mut usize,
    pattern: &mut Option<Vec<char>>,
    globs: &mut Vec<Vec<char>>,
) -> (ok: bool)
    requires
        *old(index) < t.len(),
    ensures
        ok ==> spec_rg_option(
            views(t@),
            *old(index) as int,
            chars_opt(*old(pattern)),
            views(old(globs)@),
        ) == Some(
            (
                *final(index) as int,
                chars_opt(*final(pattern)),
                views(final(globs)@),
            ),
        ),
        !ok ==> spec_rg_option(
            views(t@),
            *old(index) as int,
            chars_opt(*old(pattern)),
            views(old(globs)@),
        ) is None,
        *final(index) < t.len(),
        *final(index) >= *old(index),
{
    let i = *index;
    let tok = &t[i];
    assert(views(t@)[i as int] == tok@);
    if one_of(
        tok,
        &[
            "--files",
            "-l",
            "--files-with-matches",
            "--files-without-match",
            "--count",
            "--count-matches",
            "--replace",
            "--json",
            "-A",
            "-B",
            "-C",
            "-i",
            "-F",
            "-t",
            "-T",
            "--after-context",
            "--before-context",
            "--context",
            "--fixed-strings",
            "--hidden",
            "--ignore-case",
            "--type",
            "--type-not",
        ],
    ) {
        return false;
    }
    if eq_str(tok, "-g") || eq_str(tok, "--glob") {
        if i + 1 < t.len() {
            let ghost before = globs@;
            globs.push(clone_chars(&t[i + 1]));
            assert(views(globs@) =~= views(before).push(views(t@)[i + 1]));
            *index = i + 1;
            return true;
        }
        return false;
    }
    if eq_str(tok, "-e") || eq_str(tok, "--regexp") {
        if i + 1 < t.len() {
            *pattern = Some(clone_chars(&t[i + 1]));
            *index = i + 1;
            return true;
        }
        return false;
    }
    if one_of(tok, &["-m", "--max-count", "--max-columns", "--color"]) {
        if i + 1 < t.len() {
            *index = i + 1;
            return true;
        }
        return false;
    }
    if one_of(tok, &["-n", "--line-number", "--column", "--heading", "--no-heading", "--with-filename"]) {
        return true;
    }
    if starts_with_str(tok, "--glob=") {
        proof {
            reveal_strlit("--glob=");
        }
        let ghost before = globs@;
        globs.push(slice_chars(tok, 7, tok.len()));
        assert(views(globs@) =~= views(before).push(tok@.skip(7)));
        return true;
    }
    if starts_any_exec(tok, &["--max-count=", "--max-columns=", "--color="]) {
        return true;
    }
    false
}

fn classify_rg_candidate(t: &[Vec<char>]) -> (r: Option<ReplacementCandidate>)
    ensures
        cand_opt(r) == spec_classify_rg(views(t@)),
{
    if t.len() == 0 || !eq_str(&t[0], "rg") {
        return None;
    }
    let ghost tv = views(t@);
    let mut pattern: Option<Vec<char>> = None;
    let mut paths: Vec<Vec<char>> = Vec::new();
    let mut globs: Vec<Vec<char>> = Vec::new();
    let mut index: usize = 1;
    assert(views(globs@) =~= Seq::<Seq<char>>::empty());
    assert(views(paths@) =~= Seq::<Seq<char>>::empty());
    while index < t.len()
        invariant
            tv == views(t@),
            tv.len() > 0 && tv[0] == "rg"@,
            1 <= index,
            spec_rg_scan(tv, 1, None, Seq::empty(), Seq::empty()) == spec_rg_scan(
                tv,
                index as int,
                chars_opt(pattern),
                views(globs@),
                views(paths@),
            ),
        decreases t.len() - index,
    {
        let tok = &t[index];
        assert(tv[index as int] == tok@);
        if eq_str(tok, "--") {
            let ghost i0 = index;
            let ghost g0 = views(globs@);
            let ghost p0 = views(paths@);
            let ghost pat0 = chars_opt(pattern);
            index += 1;
            pattern = if index < t.len() {
                Some(clone_chars(&t[index]))
            } else {
                None
            };
            let ghost before = paths@;
            if index < t.len() {
                let rest = tail_tokens(t, index + 1);
                for k in 0..rest.len()
                    invariant
                        views(paths@) == views(before) + views(rest@).take(k as int),
                {
                    let ghost b2 = paths@;
                    paths.push(clone_chars(&rest[k]));
                    assert(views(paths@) =~= views(b2).push(rest@[k as int]@));
                    assert(views(rest@).take(k + 1) =~= views(rest@).take(k as int).push(
                        views(rest@)[k as int],
                    ));
                }
                assert(views(rest@).take(rest.len() as int) =~= views(rest@));
                assert(views(paths@) =~= views(before) + tv.skip(index + 1));
                assert(spec_rg_scan(tv, i0 as int, pat0, g0, p0) == Some(
                    (chars_opt(pattern), views(globs@), views(paths@)),
                ));
            } else {
                assert(spec_rg_scan(tv, i0 as int, pat0, g0, p0) == Some(
                    (chars_opt(pattern), views(globs@), views(paths@)),
                ));
            }
            return finish_rg(pattern, globs, paths);
        }
        if starts_with_str(tok, "-") {
            let ghost i0 = index;
            let ok = parse_rg_option(t, &mut index, &mut pattern, &mut globs);
            if !ok {
                return None;
            }
            assert(index >= i0);
        } else if pattern.is_none() {
            pattern = Some(clone_chars(tok));
        } else {
            let ghost before = paths@;
            paths.push(clone_chars(tok));
            assert(views(paths@) =~= views(before).push(tok@));
        }
        index += 1;
    }
    finish_rg(pattern, globs, paths)
}

fn finish_rg(pattern: Option<Vec<char>>, globs: Vec<Vec<char>>, paths: Vec<Vec<char>>) -> (r:
    Option<ReplacementCandidate>)
    ensures
        cand_opt(r) == match chars_opt(pattern) {
            None => None,
            Some(p) => if is_blank(p) {
                None
            } else {
                Some(
                    CandidateView::SearchText {
                        pattern: p,
                        globs: views(globs@),
                        paths: views(paths@),
                    },
                )
            },
        },
{
    match pattern {
        None => None,
        Some(p) => {
            if is_blank_chars(&p) {
                None
            } else {
                let globs_s = to_strings(&globs);
                let paths_s = to_strings(&paths);
                Some(
                    ReplacementCandidate::SearchText {
                        pattern: string_of(&p),
                        globs: globs_s,
                        paths: paths_s,
                    },
                )
            }
        },
    }
}

// ------------------------------------------------------------ rg files

/// Whether the options of `rg --files` from token `i` on are all listing options.
pub open spec fn spec_rg_files_ok(t: Seq<Seq<char>>, i: int) -> bool
    decreases t.len() - i,
{
    if i < 0 || i >= t.len() {
        true
    } else {
        let tok = t[i];
        if lit_views(seq!["--files", "--no-ignore", "--hidden"]).contains(tok) {
            spec_rg_files_ok(t, i + 1)
        } else if tok == "-g"@ || tok == "--glob"@ {
            i + 1 < t.len() && spec_rg_files_ok(t, i + 2)
        } else if starts_with(tok, "--glob="@) {
            spec_rg_files_ok(t, i + 1)
        } else if starts_with(tok, "-"@) {
            false
        } else {
            spec_rg_files_ok(t, i + 1)
        }
    }
}

pub open spec fn spec_classify_rg_files(t: Seq<Seq<char>>) -> Option<CandidateView> {
    if t.len() == 0 || t[0] != "rg"@ || !any_in(t, lit_views(seq!["--files"])) {
        None
    } else if spec_rg_files_ok(t, 1) {
        Some(CandidateView::RgFilesCompact)
    } else {
        None
    }
}

fn classify_rg_files_candidate(t: &[Vec<char>]) -> (r: Option<ReplacementCandidate>)
    ensures
        cand_opt(r) == spec_classify_rg_files(views(t@)),
{
    let files: [&str; 1] = ["--files"];
    assert(lit_views(files@) =~= lit_views(seq!["--files"]));
    if t.len() == 0 || !eq_str(&t[0], "rg") || !any_in_exec(t, &files) {
        return None;
    }
    let ghost tv = views(t@);
    let mut index: usize = 1;
    while index < t.len()
        invariant
            tv == views(t@),
            1 <= index <= t.len(),
            spec_rg_files_ok(tv, 1) == spec_rg_files_ok(tv, index as int),
        decreases t.len() - index,
    {
        let tok = &t[index];
        assert(tv[index as int] == tok@);
        if one_of(tok, &["--files", "--no-ignore", "--hidden"]) {
            index += 1;
        } else if eq_str(tok, "-g") || eq_str(tok, "--glob") {
            if index + 1 >= t.len() {
                return None;
            }
            index += 2;
        } else if starts_with_str(tok, "--glob=") {
            index += 1;
        } else if starts_with_str(tok, "-") {
            return None;
        } else {
            index += 1;
        }
    }
    Some(ReplacementCandidate::RgFilesCompact)
}

// ------------------------------------------------------------ file reads

pub open spec fn outline_stop_lits() -> Seq<Seq<char>> {
    lit_views(seq!["-tail", "-totalcount", "-first", "-last", "-head"])
}

/// Scan of a whole-file read from token `i`: `None` rejects, else the path found.
pub open spec fn spec_outline_scan(t: Seq<Seq<char>>, i: int, path: Option<Seq<char>>) -> Option<
    Option<Seq<char>>,
>
    decreases t.len() + 1 - i,
{
    if i < 0 || i >= t.len() {
        Some(path)
    } else {
        let tok = t[i];
        let low = lower(tok);
        if outline_stop_lits().contains(low) {
            None
        } else if low == "-path"@ || low == "-literalpath"@ {
            let p = if i + 1 < t.len() {
                Some(t[i + 1])
            } else {
                None
            };
            spec_outline_scan(t, i + 2, p)
        } else if starts_with(tok, "-"@) {
            spec_outline_scan(t, i + 1, path)
        } else if path is None {
            spec_outline_scan(t, i + 1, Some(tok))
        } else {
            None
        }
    }
}

pub open spec fn spec_classify_file_outline(t: Seq<Seq<char>>) -> Option<CandidateView> {
    if t.len() == 0 || !lit_views(seq!["cat", "type", "gc", "get-content", "get-content.exe"]).contains(
        lower(t[0]),
    ) {
        None
    } else {
        match spec_outline_scan(t, 1, None) {
            Some(Some(path)) => if !path.contains('*') && !path.contains('?') && !path.contains(
                '[',
            ) {
                Some(CandidateView::FileOutline { path })
            } else {
                None
            },
            _ => None,
        }
    }
}

fn classify_file_outline_candidate(t: &[Vec<char>]) -> (r: Option<ReplacementCandidate>)
    ensures
        cand_opt(r) == spec_classify_file_outline(views(t@)),
{
    if t.len() == 0 {
        return None;
    }
    let command = lowercase(&t[0]);
    if !one_of(&command, &["cat", "type", "gc", "get-content", "get-content.exe"]) {
        return None;
    }
    let ghost tv = views(t@);
    let mut path: Option<Vec<char>> = None;
    let mut index: usize = 1;
    while index < t.len()
        invariant
            tv == views(t@),
            1 <= index <= t.len(),
            spec_outline_scan(tv, 1, None) == spec_outline_scan(tv, index as int, chars_opt(path)),
        decreases t.len() - index,
    {
        let tok = &t[index];
        assert(tv[index as int] == tok@);
        let low = lowercase(tok);
        if one_of(&low, &["-tail", "-totalcount", "-first", "-last", "-head"]) {
            return None;
        } else if eq_str(&low, "-path") || eq_str(&low, "-literalpath") {
            if index + 1 < t.len() {
                assert(tv[index + 1] == t@[index + 1]@);
                path = Some(clone_chars(&t[index + 1]));
                index += 2;
            } else {
                assert(spec_outline_scan(tv, index + 2, None) == Some(None::<Seq<char>>));
                assert(spec_outline_scan(tv, t.len() as int, None) == Some(None::<Seq<char>>));
                path = None;
                index = t.len();
            }
        } else if starts_with_str(tok, "-") {
            index += 1;
        } else if path.is_none() {
            path = Some(clone_chars(tok));
            index += 1;
        } else {
            return None;
        }
    }
    match path {
        Some(p) => {
            if !crate::text::contains_char(&p, '*') && !crate::text::contains_char(&p, '?')
                && !crate::text::contains_char(&p, '[') {
                Some(ReplacementCandidate::FileOutline { path: string_of(&p) })
            } else {
                None
            }
        },
        None => None,
    }
}

pub open spec fn excerpt_flag(low: Seq<char>) -> bool {
    lit_views(seq!["-tail", "-totalcount", "-first", "-last", "-head"]).contains(low)
        || starts_any(low, lit_views(seq!["-tail:", "-totalcount:", "-first:", "-last:"]))
}

pub open spec fn spec_classify_file_excerpt(t: Seq<Seq<char>>) -> Option<CandidateView> {
    if t.len() == 0 {
        None
    } else {
        let command = lower(t[0]);
        if command == "head"@ || command == "tail"@ {
            Some(CandidateView::FileExcerptDigest)
        } else if lit_views(seq!["gc", "get-content", "get-content.exe"]).contains(command) {
            if exists|i: int| 1 <= i < t.len() && excerpt_flag(lower(#[trigger] t[i])) {
                Some(CandidateView::FileExcerptDigest)
            } else {
                None
            }
        } else {
            None
        }
    }
}

fn classify_file_excerpt_digest_candidate(t: &[Vec<char>]) -> (r: Option<ReplacementCandidate>)
    ensures
        cand_opt(r) == spec_classify_file_excerpt(views(t@)),
{
    if t.len() == 0 {
        return None;
    }
    let command = lowercase(&t[0]);
    if eq_str(&command, "head") || eq_str(&command, "tail") {
        return Some(ReplacementCandidate::FileExcerptDigest);
    }
    if !one_of(&command, &["gc", "get-content", "get-content.exe"]) {
        return None;
    }
    let ghost tv = views(t@);
    let flags: [&str; 5] = ["-tail", "-totalcount", "-first", "-last", "-head"];
    let prefixes: [&str; 4] = ["-tail:", "-totalcount:", "-first:", "-last:"];
    assert(lit_views(flags@) =~= lit_views(seq!["-tail", "-totalcount", "-first", "-last", "-head"]));
    assert(lit_views(prefixes@) =~= lit_views(seq!["-tail:", "-totalcount:", "-first:", "-last:"]));
    for i in 1..t.len()
        invariant
            tv == views(t@),
            tv.len() > 0,
            lit_views(seq!["gc", "get-content", "get-content.exe"]).contains(lower(tv[0])),
            lower(tv[0]) != "head"@ && lower(tv[0]) != "tail"@,
            lit_views(flags@) == lit_views(seq!["-tail", "-totalcount", "-first", "-last", "-head"]),
            lit_views(prefixes@) == lit_views(seq!["-tail:", "-totalcount:", "-first:", "-last:"]),
            forall|j: int| 1 <= j < i ==> !excerpt_flag(lower(#[trigger] tv[j])),
    {
        let low = lowercase(&t[i]);
        assert(tv[i as int] == t@[i as int]@);
        if one_of(&low, &flags) || starts_any_exec(&low, &prefixes) {
            assert(excerpt_flag(lower(tv[i as int])));
            return Some(ReplacementCandidate::FileExcerptDigest);
        }
    }
    None
}

// ------------------------------------------------------------ searches and listings

pub open spec fn spec_classify_select_string(t: Seq<Seq<char>>) -> Option<CandidateView> {
    if t.len() > 0 && lit_views(seq!["select-string", "select-string.exe", "sls"]).contains(
        lower(t[0]),
    ) {
        Some(CandidateView::SelectStringDigest)
    } else {
        None
    }
}

fn classify_select_string_digest_candidate(t: &[Vec<char>]) -> (r: Option<ReplacementCandidate>)
    ensures
        cand_opt(r) == spec_classify_select_string(views(t@)),
{
    if t.len() == 0 {
        return None;
    }
    let command = lowercase(&t[0]);
    if one_of(&command, &["select-string", "select-string.exe", "sls"]) {
        Some(ReplacementCandidate::SelectStringDigest)
    } else {
        None
    }
}

pub open spec fn spec_classify_generic_search(t: Seq<Seq<char>>) -> Option<CandidateView> {
    if t.len() == 0 {
        None
    } else if lit_views(seq!["grep", "grep.exe", "findstr", "findstr.exe"]).contains(lower(t[0])) {
        Some(CandidateView::SelectStringDigest)
    } else if lower(t[0]) == "git"@ && t.len() > 1 && t[1] == "grep"@ {
        Some(CandidateView::SelectStringDigest)
    } else {
        None
    }
}

fn classify_generic_search_digest_candidate(t: &[Vec<char>]) -> (r: Option<ReplacementCandidate>)
    ensures
        cand_opt(r) == spec_classify_generic_search(views(t@)),
{
    if t.len() == 0 {
        return None;
    }
    let command = lowercase(&t[0]);
    if one_of(&command, &["grep", "grep.exe", "findstr", "findstr.exe"]) {
        return Some(ReplacementCandidate::SelectStringDigest);
    }
    if eq_str(&command, "git") && t.len() > 1 && eq_str(&t[1], "grep") {
        return Some(ReplacementCandidate::SelectStringDigest);
    }
    None
}

pub open spec fn spec_classify_rg_expansion(t: Seq<Seq<char>>) -> Option<CandidateView> {
    if t.len() == 0 || t[0] != "rg"@ {
        None
    } else if any_in(t, lit_views(seq!["--json"])) || any_starts(t, lit_views(seq!["--json="])) {
        Some(CandidateView::RgJsonDigest)
    } else if any_in(t, lit_views(seq!["-c", "--count", "--count-matches"])) || any_starts(
        t,
        lit_views(seq!["--count=", "--count-matches="]),
    ) {
        Some(CandidateView::RgCountDigest)
    } else if any_in(t, lit_views(seq!["-l", "--files-with-matches", "--files-without-match"])) {
        Some(CandidateView::RgFileSetDigest)
    } else {
        None
    }
}

fn classify_rg_expansion_candidate(t: &[Vec<char>]) -> (r: Option<ReplacementCandidate>)
    ensures
        cand_opt(r) == spec_classify_rg_expansion(views(t@)),
{
    if t.len() == 0 || !eq_str(&t[0], "rg") {
        return None;
    }
    let json: [&str; 1] = ["--json"];
    let json_eq: [&str; 1] = ["--json="];
    let count: [&str; 3] = ["-c", "--count", "--count-matches"];
    let count_eq: [&str; 2] = ["--count=", "--count-matches="];
    let file_set: [&str; 3] = ["-l", "--files-with-matches", "--files-without-match"];
    assert(lit_views(json@) =~= lit_views(seq!["--json"]));
    assert(lit_views(json_eq@) =~= lit_views(seq!["--json="]));
    assert(lit_views(count@) =~= lit_views(seq!["-c", "--count", "--count-matches"]));
    assert(lit_views(count_eq@) =~= lit_views(seq!["--count=", "--count-matches="]));
    assert(lit_views(file_set@) =~= lit_views(
        seq!["-l", "--files-with-matches", "--files-without-match"],
    ));
    if any_in_exec(t, &json) || any_starts_exec(t, &json_eq) {
        return Some(ReplacementCandidate::RgJsonDigest);
    }
    if any_in_exec(t, &count) || any_starts_exec(t, &count_eq) {
        return Some(ReplacementCandidate::RgCountDigest);
    }
    if any_in_exec(t, &file_set) {
        return Some(ReplacementCandidate::RgFileSetDigest);
    }
    None
}

pub open spec fn spec_classify_directory_listing(t: Seq<Seq<char>>) -> Option<CandidateView> {
    if t.len() > 0 && lit_views(
        seq!["get-childitem", "get-childitem.exe", "gci", "ls", "dir"],
    ).contains(lower(t[0])) {
        Some(CandidateView::DirectoryListingCompact)
    } else {
        None
    }
}

fn classify_directory_listing_candidate(t: &[Vec<char>]) -> (r: Option<ReplacementCandidate>)
    ensures
        cand_opt(r) == spec_classify_directory_listing(views(t@)),
{
    if t.len() == 0 {
        return None;
    }
    let command = lowercase(&t[0]);
    if one_of(&command, &["get-childitem", "get-childitem.exe", "gci", "ls", "dir"]) {
        Some(ReplacementCandidate::DirectoryListingCompact)
    } else {
        None
    }
}

pub open spec fn spec_classify_file_inventory(t: Seq<Seq<char>>) -> Option<CandidateView> {
    if t.len() == 0 {
        None
    } else {
        let command = lower(t[0]);
        if command == "git"@ && t.len() > 1 && t[1] == "ls-files"@ {
            Some(CandidateView::DirectoryListingCompact)
        } else if (command == "find"@ || command == "find.exe"@) && any_in(
            t,
            lit_views(seq!["-type", "-name", "-maxdepth"]),
        ) {
            Some(CandidateView::DirectoryListingCompact)
        } else if lit_views(
            seq!["fd", "fd.exe", "fdfind", "fdfind.exe", "tree", "tree.exe"],
        ).contains(command) {
            Some(CandidateView::DirectoryListingCompact)
        } else {
            None
        }
    }
}

fn classify_file_inventory_candidate(t: &[Vec<char>]) -> (r: Option<ReplacementCandidate>)
    ensures
        cand_opt(r) == spec_classify_file_inventory(views(t@)),
{
    if t.len() == 0 {
        return None;
    }
    let command = lowercase(&t[0]);
    if eq_str(&command, "git") && t.len() > 1 && eq_str(&t[1], "ls-files") {
        return Some(ReplacementCandidate::DirectoryListingCompact);
    }
    if (eq_str(&command, "find") || eq_str(&command, "find.exe")) && any_in_exec(
        t,
        &["-type", "-name", "-maxdepth"],
    ) {
        return Some(ReplacementCandidate::DirectoryListingCompact);
    }
    if one_of(&command, &["fd", "fd.exe", "fdfind", "fdfind.exe", "tree", "tree.exe"]) {
        return Some(ReplacementCandidate::DirectoryListingCompact);
    }
    None
}

pub open spec fn spec_classify_process_table(t: Seq<Seq<char>>) -> Option<CandidateView> {
    if t.len() == 0 {
        None
    } else {
        let command = lower(t[0]);
        if lit_views(
            seq!["get-process", "get-process.exe", "gps", "ps", "tasklist", "tasklist.exe"],
        ).contains(command) {
            Some(CandidateView::ProcessTableCompact)
        } else if lit_views(
            seq![
                "get-ciminstance",
                "get-ciminstance.exe",
                "gcim",
                "get-wmiobject",
                "get-wmiobject.exe",
                "gwmi",
            ],
        ).contains(command) && any_lower_in(t, lit_views(seq!["win32_process"])) {
            Some(CandidateView::ProcessTableCompact)
        } else {
            None
        }
    }
}

fn classify_process_table_candidate(t: &[Vec<char>]) -> (r: Option<ReplacementCandidate>)
    ensures
        cand_opt(r) == spec_classify_process_table(views(t@)),
{
    if t.len() == 0 {
        return None;
    }
    let command = lowercase(&t[0]);
    let process_class: [&str; 1] = ["win32_process"];
    assert(lit_views(process_class@) =~= lit_views(seq!["win32_process"]));
    if one_of(
        &command,
        &["get-process", "get-process.exe", "gps", "ps", "tasklist", "tasklist.exe"],
    ) {
        return Some(ReplacementCandidate::ProcessTableCompact);
    }
    if one_of(
        &command,
        &[
            "get-ciminstance",
            "get-ciminstance.exe",
            "gcim",
            "get-wmiobject",
            "get-wmiobject.exe",
            "gwmi",
        ],
    ) && any_lower_in_exec(t, &process_class) {
        return Some(ReplacementCandidate::ProcessTableCompact);
    }
    None
}


// ------------------------------------------------------------ checks

pub open spec fn embedded_scan_lits() -> Seq<Seq<char>> {
    lit_views(
        seq![
            "powershell",
            "powershell.exe",
            "pwsh",
            "pwsh.exe",
            "cmd",
            "cmd.exe",
            "invoke-bounded",
            "start-process",
        ],
    )
}

pub open spec fn check_phrases() -> Seq<Seq<char>> {
    lit_views(
        seq![
            "cargo test",
            "cargo check",
            "cargo build",
            "cargo clippy",
            "cargo fmt",
            "git diff --check",
            "just fmt",
            "just fix",
            "just test",
            "cmake --build",
            "ctest",
            "get-winevent",
            "py_compile",
            "pytest",
            "npm test",
            "pnpm test",
            "yarn test",
            "build-local-codex.ps1",
            "npm run build",
            "npm run lint",
            "pnpm build",
            "pnpm run build",
            "pnpm lint",
            "yarn build",
            "yarn lint",
            "go test",
            "go build",
            "dotnet test",
            "dotnet build",
            "mvn test",
            "mvn verify",
            "gradle test",
            "gradlew test",
            "make test",
            "make check",
            "msbuild",
            "ninja",
            "xcodebuild",
        ],
    )
}

/// Whether a command line mentions one of the well-known check or build invocations.
pub open spec fn spec_looks_like_check(command: Seq<char>) -> bool {
    contains_any(lower(command), check_phrases())
}

fn command_looks_like_check(command: &[char]) -> (r: bool)
    ensures
        r == spec_looks_like_check(command@),
{
    let low = lowercase(command);
    let phrases: [&str; 38] = [
        "cargo test",
        "cargo check",
        "cargo build",
        "cargo clippy",
        "cargo fmt",
        "git diff --check",
        "just fmt",
        "just fix",
        "just test",
        "cmake --build",
        "ctest",
        "get-winevent",
        "py_compile",
        "pytest",
        "npm test",
        "pnpm test",
        "yarn test",
        "build-local-codex.ps1",
        "npm run build",
        "npm run lint",
        "pnpm build",
        "pnpm run build",
        "pnpm lint",
        "yarn build",
        "yarn lint",
        "go test",
        "go build",
        "dotnet test",
        "dotnet build",
        "mvn test",
        "mvn verify",
        "gradle test",
        "gradlew test",
        "make test",
        "make check",
        "msbuild",
        "ninja",
        "xcodebuild",
    ];
    assert(lit_views(phrases@) =~= check_phrases());
    contains_any_exec(&low, &phrases)
}

pub open spec fn build_tool_lits() -> Seq<Seq<char>> {
    lit_views(
        seq![
            "cargo",
            "cmake",
            "ctest",
            "npm",
            "pnpm",
            "yarn",
            "go",
            "dotnet",
            "mvn",
            "gradle",
            "gradlew",
            "make",
            "ninja",
            "msbuild",
            "xcodebuild",
        ],
    )
}

pub open spec fn check_arg_lits() -> Seq<Seq<char>> {
    lit_views(seq!["test", "check", "build", "lint", "verify"])
}

pub open spec fn spec_has_diff_check_pair(t: Seq<Seq<char>>) -> bool {
    exists|i: int| 0 <= i && i + 1 < t.len() && #[trigger] t[i] == "diff"@ && t[i + 1] == "--check"@
}

pub open spec fn spec_has_check_arg(t: Seq<Seq<char>>) -> bool {
    exists|i: int|
        0 <= i < t.len() && (contains(#[trigger] t[i], "--build"@) || check_arg_lits().contains(
            lower(t[i]),
        ))
}

pub open spec fn spec_has_local_build_script(t: Seq<Seq<char>>) -> bool {
    exists|i: int| 0 <= i < t.len() && ends_with(#[trigger] t[i], "build-local-codex.ps1"@)
}

/// Whether the tokens run a check for the given (lowercased) command name.
pub open spec fn spec_is_check(t: Seq<Seq<char>>, command: Seq<char>) -> bool {
    if command == "cargo"@ {
        t.len() > 1 && lit_views(seq!["test", "check", "build", "clippy", "fmt"]).contains(t[1])
    } else if command == "git"@ {
        spec_has_diff_check_pair(t)
    } else if command == "just"@ {
        t.len() > 1 && lit_views(
            seq!["fmt", "fix", "test", "nextest", "argument-comment-lint"],
        ).contains(t[1])
    } else if command == "pytest"@ {
        true
    } else if lit_views(seq!["python", "python.exe", "py"]).contains(command) {
        any_in(t, lit_views(seq!["test", "pytest", "py_compile"]))
    } else if lit_views(seq!["npm", "pnpm", "yarn"]).contains(command) {
        any_in(t, lit_views(seq!["test", "build", "lint", "typecheck", "check"]))
    } else if command == "go"@ {
        t.len() > 1 && lit_views(seq!["test", "build", "vet"]).contains(t[1])
    } else if command == "dotnet"@ {
        t.len() > 1 && lit_views(seq!["test", "build"]).contains(t[1])
    } else if lit_views(seq!["mvn", "mvn.cmd", "mvnw", "mvnw.cmd"]).contains(command) {
        any_in(t, lit_views(seq!["test", "verify", "package", "install", "compile"]))
    } else if lit_views(seq!["gradle", "gradle.bat", "gradlew", "gradlew.bat"]).contains(command) {
        any_in(t, lit_views(seq!["test", "build", "check", "assemble"]))
    } else if lit_views(seq!["make", "mingw32-make", "nmake"]).contains(command) {
        any_in(t, lit_views(seq!["test", "check", "build", "all"]))
    } else if command == "cmake"@ {
        any_in(t, lit_views(seq!["--build"]))
    } else if lit_views(seq!["ctest", "ninja", "msbuild", "msbuild.exe", "xcodebuild"]).contains(
        command,
    ) {
        true
    } else if command == "invoke-bounded"@ {
        any_lower_in(t, build_tool_lits()) && spec_has_check_arg(t)
    } else if lit_views(seq!["powershell", "powershell.exe", "pwsh", "pwsh.exe"]).contains(
        command,
    ) {
        spec_has_local_build_script(t)
    } else {
        false
    }
}

pub open spec fn spec_classify_run_check(t: Seq<Seq<char>>) -> Option<CandidateView> {
    if t.len() == 0 {
        None
    } else {
        let command = lower(t[0]);
        if (embedded_scan_lits().contains(command) && spec_looks_like_check(join(t, " "@)))
            || spec_is_check(t, command) {
            Some(CandidateView::RunCheckDigest)
        } else {
            None
        }
    }
}

fn has_diff_check_pair(t: &[Vec<char>]) -> (r: bool)
    ensures
        r == spec_has_diff_check_pair(views(t@)),
{
    let ghost tv = views(t@);
    for i in 0..t.len()
        invariant
            tv == views(t@),
            forall|j: int|
                0 <= j < i ==> !(j + 1 < tv.len() && #[trigger] tv[j] == "diff"@ && tv[j + 1]
                    == "--check"@),
    {
        if i + 1 < t.len() && eq_str(&t[i], "diff") && eq_str(&t[i + 1], "--check") {
            assert(tv[i as int] == "diff"@ && tv[i + 1] == "--check"@);
            return true;
        }
        assert(!(i + 1 < tv.len() && tv[i as int] == "diff"@ && tv[i + 1] == "--check"@));
    }
    false
}

fn has_check_arg(t: &[Vec<char>]) -> (r: bool)
    ensures
        r == spec_has_check_arg(views(t@)),
{
    let ghost tv = views(t@);
    let args: [&str; 5] = ["test", "check", "build", "lint", "verify"];
    assert(lit_views(args@) =~= check_arg_lits());
    for i in 0..t.len()
        invariant
            tv == views(t@),
            lit_views(args@) == check_arg_lits(),
            forall|j: int|
                0 <= j < i ==> !(contains(#[trigger] tv[j], "--build"@) || check_arg_lits().contains(
                    lower(tv[j]),
                )),
    {
        assert(tv[i as int] == t@[i as int]@);
        if contains_str(&t[i], "--build") || one_of(&lowercase(&t[i]), &args) {
            return true;
        }
    }
    false
}

fn has_local_build_script(t: &[Vec<char>]) -> (r: bool)
    ensures
        r == spec_has_local_build_script(views(t@)),
{
    let ghost tv = views(t@);
    for i in 0..t.len()
        invariant
            tv == views(t@),
            forall|j: int| 0 <= j < i ==> !ends_with(#[trigger] tv[j], "build-local-codex.ps1"@),
    {
        assert(tv[i as int] == t@[i as int]@);
        if ends_with_str(&t[i], "build-local-codex.ps1") {
            return true;
        }
    }
    false
}

fn second_is(t: &[Vec<char>], lits: &[&str]) -> (r: bool)
    ensures
        r == (t.len() > 1 && lit_views(lits@).contains(views(t@)[1])),
{
    t.len() > 1 && one_of(&t[1], lits)
}

fn is_check(t: &[Vec<char>], command: &[char]) -> (r: bool)
    ensures
        r == spec_is_check(views(t@), command@),
{
    if eq_str(command, "cargo") {
        let l: [&str; 5] = ["test", "check", "build", "clippy", "fmt"];
        assert(lit_views(l@) =~= lit_views(seq!["test", "check", "build", "clippy", "fmt"]));
        return second_is(t, &l);
    }
    if eq_str(command, "git") {
        return has_diff_check_pair(t);
    }
    if eq_str(command, "just") {
        let l: [&str; 5] = ["fmt", "fix", "test", "nextest", "argument-comment-lint"];
        assert(lit_views(l@) =~= lit_views(
            seq!["fmt", "fix", "test", "nextest", "argument-comment-lint"],
        ));
        return second_is(t, &l);
    }
    if eq_str(command, "pytest") {
        return true;
    }
    if one_of(command, &["python", "python.exe", "py"]) {
        let l: [&str; 3] = ["test", "pytest", "py_compile"];
        assert(lit_views(l@) =~= lit_views(seq!["test", "pytest", "py_compile"]));
        return any_in_exec(t, &l);
    }
    if one_of(command, &["npm", "pnpm", "yarn"]) {
        let l: [&str; 5] = ["test", "build", "lint", "typecheck", "check"];
        assert(lit_views(l@) =~= lit_views(seq!["test", "build", "lint", "typecheck", "check"]));
        return any_in_exec(t, &l);
    }
    if eq_str(command, "go") {
        let l: [&str; 3] = ["test", "build", "vet"];
        assert(lit_views(l@) =~= lit_views(seq!["test", "build", "vet"]));
        return second_is(t, &l);
    }
    if eq_str(command, "dotnet") {
        let l: [&str; 2] = ["test", "build"];
        assert(lit_views(l@) =~= lit_views(seq!["test", "build"]));
        return second_is(t, &l);
    }
    if one_of(command, &["mvn", "mvn.cmd", "mvnw", "mvnw.cmd"]) {
        let l: [&str; 5] = ["test", "verify", "package", "install", "compile"];
        assert(lit_views(l@) =~= lit_views(seq!["test", "verify", "package", "install", "compile"]));
        return any_in_exec(t, &l);
    }
    if one_of(command, &["gradle", "gradle.bat", "gradlew", "gradlew.bat"]) {
        let l: [&str; 4] = ["test", "build", "check", "assemble"];
        assert(lit_views(l@) =~= lit_views(seq!["test", "build", "check", "assemble"]));
        return any_in_exec(t, &l);
    }
    if one_of(command, &["make", "mingw32-make", "nmake"]) {
        let l: [&str; 4] = ["test", "check", "build", "all"];
        assert(lit_views(l@) =~= lit_views(seq!["test", "check", "build", "all"]));
        return any_in_exec(t, &l);
    }
    if eq_str(command, "cmake") {
        let l: [&str; 1] = ["--build"];
        assert(lit_views(l@) =~= lit_views(seq!["--build"]));
        return any_in_exec(t, &l);
    }
    if one_of(command, &["ctest", "ninja", "msbuild", "msbuild.exe", "xcodebuild"]) {
        return true;
    }
    if eq_str(command, "invoke-bounded") {
        let l: [&str; 15] = [
            "cargo",
            "cmake",
            "ctest",
            "npm",
            "pnpm",
            "yarn",
            "go",
            "dotnet",
            "mvn",
            "gradle",
            "gradlew",
            "make",
            "ninja",
            "msbuild",
            "xcodebuild",
        ];
        assert(lit_views(l@) =~= build_tool_lits());
        return any_lower_in_exec(t, &l) && has_check_arg(t);
    }
    if one_of(command, &["powershell", "powershell.exe", "pwsh", "pwsh.exe"]) {
        return has_local_build_script(t);
    }
    false
}

/// Shells and wrappers whose whole command line is scanned for a check.
fn command_allows_embedded_check_scan(command: &[char]) -> (r: bool)
    ensures
        r == embedded_scan_lits().contains(command@),
{
    let embedded: [&str; 8] = [
        "powershell",
        "powershell.exe",
        "pwsh",
        "pwsh.exe",
        "cmd",
        "cmd.exe",
        "invoke-bounded",
        "start-process",
    ];
    assert(lit_views(embedded@) =~= embedded_scan_lits());
    one_of(command, &embedded)
}

fn classify_run_check_digest_candidate(t: &[Vec<char>]) -> (r: Option<ReplacementCandidate>)
    ensures
        cand_opt(r) == spec_classify_run_check(views(t@)),
{
    if t.len() == 0 {
        return None;
    }
    let command = lowercase(&t[0]);
    if command_allows_embedded_check_scan(&command) && command_looks_like_check(&join_chars(t, " ")) {
        return Some(ReplacementCandidate::RunCheckDigest);
    }
    if is_check(t, &command) {
        Some(ReplacementCandidate::RunCheckDigest)
    } else {
        None
    }
}

// ------------------------------------------------------------ shell-control commands

pub open spec fn pager_lits() -> Seq<Seq<char>> {
    lit_views(
        seq![
            "| head",
            "|head",
            "| tail",
            "|tail",
            "select-object -first",
            "select-object -skip",
            "select-object -last",
        ],
    )
}

pub open spec fn spec_git_filtered_diff_sc(command: Seq<char>) -> Option<CandidateView> {
    let l = lower(command);
    if contains(l, "git diff"@) && l.contains('|') && contains_any(
        l,
        lit_views(seq!["| rg ", "|rg ", "| select-string", "|select-string", "| sls ", "|sls "]),
    ) {
        Some(CandidateView::GitFilteredDiffDigest)
    } else {
        None
    }
}

fn classify_git_filtered_diff_shell_control(command: &[char]) -> (r: Option<ReplacementCandidate>)
    ensures
        cand_opt(r) == spec_git_filtered_diff_sc(command@),
{
    let l = lowercase(command);
    let filters: [&str; 6] = ["| rg ", "|rg ", "| select-string", "|select-string", "| sls ", "|sls "];
    assert(lit_views(filters@) =~= lit_views(
        seq!["| rg ", "|rg ", "| select-string", "|select-string", "| sls ", "|sls "],
    ));
    if contains_str(&l, "git diff") && crate::text::contains_char(&l, '|') && contains_any_exec(
        &l,
        &filters,
    ) {
        Some(ReplacementCandidate::GitFilteredDiffDigest)
    } else {
        None
    }
}

pub open spec fn spec_file_excerpt_sc(command: Seq<char>) -> Option<CandidateView> {
    let l = lower(command);
    if l.contains('|') && (starts_any(l, lit_views(seq!["cat ", "type ", "gc ", "get-content "]))
        || contains_any(l, lit_views(seq![" get-content ", "; get-content ", " gc ", "; gc "])))
        && contains_any(l, pager_lits()) {
        Some(CandidateView::FileExcerptDigest)
    } else {
        None
    }
}

fn classify_file_excerpt_shell_control(command: &[char]) -> (r: Option<ReplacementCandidate>)
    ensures
        cand_opt(r) == spec_file_excerpt_sc(command@),
{
    let l = lowercase(command);
    let starts: [&str; 4] = ["cat ", "type ", "gc ", "get-content "];
    let inner: [&str; 4] = [" get-content ", "; get-content ", " gc ", "; gc "];
    let pagers: [&str; 7] = [
        "| head",
        "|head",
        "| tail",
        "|tail",
        "select-object -first",
        "select-object -skip",
        "select-object -last",
    ];
    assert(lit_views(starts@) =~= lit_views(seq!["cat ", "type ", "gc ", "get-content "]));
    assert(lit_views(inner@) =~= lit_views(seq![" get-content ", "; get-content ", " gc ", "; gc "]));
    assert(lit_views(pagers@) =~= pager_lits());
    if crate::text::contains_char(&l, '|') && (starts_any_exec(&l, &starts) || contains_any_exec(
        &l,
        &inner,
    )) && contains_any_exec(&l, &pagers) {
        Some(ReplacementCandidate::FileExcerptDigest)
    } else {
        None
    }
}

pub open spec fn spec_rg_file_set_sc(command: Seq<char>) -> Option<CandidateView> {
    let l = lower(command);
    if contains(l, "rg --files"@) && l.contains('|') && contains_any(
        l,
        lit_views(
            seq!["| head", "|head", "| tail", "|tail", "select-object -first", "select-object -last"],
        ),
    ) {
        Some(CandidateView::RgFilesCompact)
    } else {
        None
    }
}

fn classify_rg_file_set_shell_control(command: &[char]) -> (r: Option<ReplacementCandidate>)
    ensures
        cand_opt(r) == spec_rg_file_set_sc(command@),
{
    let l = lowercase(command);
    let pagers: [&str; 6] = [
        "| head",
        "|head",
        "| tail",
        "|tail",
        "select-object -first",
        "select-object -last",
    ];
    assert(lit_views(pagers@) =~= lit_views(
        seq!["| head", "|head", "| tail", "|tail", "select-object -first", "select-object -last"],
    ));
    if contains_str(&l, "rg --files") && crate::text::contains_char(&l, '|') && contains_any_exec(
        &l,
        &pagers,
    ) {
        Some(ReplacementCandidate::RgFilesCompact)
    } else {
        None
    }
}

pub open spec fn select_string_marks() -> Seq<Seq<char>> {
    lit_views(
        seq![
            "select-string",
            "| sls ",
            "|sls ",
            "; grep ",
            "| grep ",
            "|grep ",
            "; findstr ",
            "| findstr ",
            "|findstr ",
            "git grep ",
        ],
    )
}

pub open spec fn spec_select_string_sc(command: Seq<char>) -> Option<CandidateView> {
    let l = lower(command);
    if contains_any(l, select_string_marks()) || starts_any(l, lit_views(seq!["grep ", "findstr "])) {
        Some(CandidateView::SelectStringDigest)
    } else {
        None
    }
}

fn classify_select_string_shell_control(command: &[char]) -> (r: Option<ReplacementCandidate>)
    ensures
        cand_opt(r) == spec_select_string_sc(command@),
{
    let l = lowercase(command);
    let marks: [&str; 10] = [
        "select-string",
        "| sls ",
        "|sls ",
        "; grep ",
        "| grep ",
        "|grep ",
        "; findstr ",
        "| findstr ",
        "|findstr ",
        "git grep ",
    ];
    let starts: [&str; 2] = ["grep ", "findstr "];
    assert(lit_views(marks@) =~= select_string_marks());
    assert(lit_views(starts@) =~= lit_views(seq!["grep ", "findstr "]));
    if contains_any_exec(&l, &marks) || starts_any_exec(&l, &starts) {
        Some(ReplacementCandidate::SelectStringDigest)
    } else {
        None
    }
}

pub open spec fn inventory_pager_lits() -> Seq<Seq<char>> {
    lit_views(
        seq![
            "| head",
            "|head",
            "| tail",
            "|tail",
            "select-object -first",
            "select-object -skip",
            "select-object -last",
            "| sort",
            "|sort",
        ],
    )
}

pub open spec fn spec_file_inventory_sc(command: Seq<char>) -> Option<CandidateView> {
    let l = lower(command);
    if l.contains('|') && (starts_any(
        l,
        lit_views(seq!["git ls-files", "find ", "fd ", "fdfind ", "tree "]),
    ) || l == "tree"@ || contains_any(
        l,
        lit_views(seq!["; git ls-files", "; find ", "; fd ", "; fdfind ", "; tree "]),
    )) && contains_any(l, inventory_pager_lits()) {
        Some(CandidateView::DirectoryListingCompact)
    } else {
        None
    }
}

fn classify_file_inventory_shell_control(command: &[char]) -> (r: Option<ReplacementCandidate>)
    ensures
        cand_opt(r) == spec_file_inventory_sc(command@),
{
    let l = lowercase(command);
    let starts: [&str; 5] = ["git ls-files", "find ", "fd ", "fdfind ", "tree "];
    let inner: [&str; 5] = ["; git ls-files", "; find ", "; fd ", "; fdfind ", "; tree "];
    let pagers: [&str; 9] = [
        "| head",
        "|head",
        "| tail",
        "|tail",
        "select-object -first",
        "select-object -skip",
        "select-object -last",
        "| sort",
        "|sort",
    ];
    assert(lit_views(starts@) =~= lit_views(seq!["git ls-files", "find ", "fd ", "fdfind ", "tree "]));
    assert(lit_views(inner@) =~= lit_views(
        seq!["; git ls-files", "; find ", "; fd ", "; fdfind ", "; tree "],
    ));
    assert(lit_views(pagers@) =~= inventory_pager_lits());
    if crate::text::contains_char(&l, '|') && (starts_any_exec(&l, &starts) || eq_str(&l, "tree")
        || contains_any_exec(&l, &inner)) && contains_any_exec(&l, &pagers) {
        Some(ReplacementCandidate::DirectoryListingCompact)
    } else {
        None
    }
}

pub open spec fn listing_pager_lits() -> Seq<Seq<char>> {
    lit_views(
        seq![
            "| head",
            "|head",
            "| tail",
            "|tail",
            "format-table",
            "format-list",
            "select-object -first",
            "select-object -skip",
            "select-object -last",
        ],
    )
}

pub open spec fn spec_directory_listing_sc(command: Seq<char>) -> Option<CandidateView> {
    let l = lower(command);
    if l.contains('|') && (starts_any(l, lit_views(seq!["ls ", "dir ", "gci ", "get-childitem "]))
        || l == "ls"@ || l == "dir"@ || contains_any(
        l,
        lit_views(seq![" get-childitem ", "; get-childitem ", " gci ", "; gci "]),
    )) && contains_any(l, listing_pager_lits()) {
        Some(CandidateView::DirectoryListingCompact)
    } else {
        None
    }
}

fn classify_directory_listing_shell_control(command: &[char]) -> (r: Option<ReplacementCandidate>)
    ensures
        cand_opt(r) == spec_directory_listing_sc(command@),
{
    let l = lowercase(command);
    let starts: [&str; 4] = ["ls ", "dir ", "gci ", "get-childitem "];
    let inner: [&str; 4] = [" get-childitem ", "; get-childitem ", " gci ", "; gci "];
    let pagers: [&str; 9] = [
        "| head",
        "|head",
        "| tail",
        "|tail",
        "format-table",
        "format-list",
        "select-object -first",
        "select-object -skip",
        "select-object -last",
    ];
    assert(lit_views(starts@) =~= lit_views(seq!["ls ", "dir ", "gci ", "get-childitem "]));
    assert(lit_views(inner@) =~= lit_views(
        seq![" get-childitem ", "; get-childitem ", " gci ", "; gci "],
    ));
    assert(lit_views(pagers@) =~= listing_pager_lits());
    if crate::text::contains_char(&l, '|') && (starts_any_exec(&l, &starts) || eq_str(&l, "ls")
        || eq_str(&l, "dir") || contains_any_exec(&l, &inner)) && contains_any_exec(&l, &pagers) {
        Some(ReplacementCandidate::DirectoryListingCompact)
    } else {
        None
    }
}

// ------------------------------------------------------------ the primary segment

pub open spec fn segment_markers() -> Seq<Seq<char>> {
    lit_views(seq!["&&", "||", "|", ";", "\n", "\r"])
}

/// The least first-occurrence position over the markers, or the length of `s`.
pub open spec fn segment_end(s: Seq<char>, markers: Seq<Seq<char>>) -> int
    decreases markers.len(),
{
    if markers.len() == 0 {
        s.len() as int
    } else {
        let e = segment_end(s, markers.drop_last());
        let f = first_index(s, markers.last());
        if f < e {
            f
        } else {
            e
        }
    }
}

/// The command up to its first control operator or line break, trimmed.
pub open spec fn spec_primary_segment(command: Seq<char>) -> Seq<char> {
    trim(command.subrange(0, segment_end(command, segment_markers())))
}

fn primary_shell_segment(command: &[char]) -> (r: Vec<char>)
    ensures
        r@ == spec_primary_segment(command@),
{
    let markers: [&str; 6] = ["&&", "||", "|", ";", "\n", "\r"];
    assert(lit_views(markers@) =~= segment_markers());
    let mut end = command.len();
    assert(lit_views(markers@).take(0) =~= Seq::<Seq<char>>::empty());
    for k in 0..markers.len()
        invariant
            markers.len() == 6,
            lit_views(markers@) == segment_markers(),
            end <= command.len(),
            end as int == segment_end(command@, lit_views(markers@).take(k as int)),
    {
        let m = chars_of(markers[k]);
        let ghost pre = lit_views(markers@).take(k as int);
        let ghost cur = lit_views(markers@).take(k + 1);
        assert(cur.drop_last() =~= pre);
        assert(cur.last() == m@);
        match find_chars(command, &m) {
            Some(i) => {
                proof {
                    lemma_first_index(command@, m@, i as int);
                }
                if i < end {
                    end = i;
                }
            },
            None => {},
        }
    }
    assert(lit_views(markers@).take(6) =~= segment_markers());
    trim_chars(&slice_chars(command, 0, end))
}

pub open spec fn spec_run_check_sc(command: Seq<char>) -> Option<CandidateView> {
    match spec_shell_tokens(spec_primary_segment(command)) {
        Some(t) => spec_classify_run_check(t),
        None => None,
    }
}

fn classify_run_check_shell_control(command: &[char]) -> (r: Option<ReplacementCandidate>)
    ensures
        cand_opt(r) == spec_run_check_sc(command@),
{
    let primary = primary_shell_segment(command);
    match shell_tokens(&primary) {
        Some(t) => classify_run_check_digest_candidate(&t),
        None => None,
    }
}

// ------------------------------------------------------------ the classifiers

pub open spec fn spec_classify_shell_control(command: Seq<char>) -> Option<CandidateView> {
    or_else(
        spec_git_filtered_diff_sc(command),
        or_else(
            spec_file_excerpt_sc(command),
            or_else(
                spec_rg_file_set_sc(command),
                or_else(
                    spec_file_inventory_sc(command),
                    or_else(
                        spec_run_check_sc(command),
                        or_else(
                            spec_select_string_sc(command),
                            or_else(
                                spec_directory_listing_sc(command),
                                if spec_looks_like_check(command) {
                                    Some(CandidateView::RunCheckDigest)
                                } else {
                                    None
                                },
                            ),
                        ),
                    ),
                ),
            ),
        ),
    )
}

fn classify_shell_control_shadow(command: &[char]) -> (r: Option<ReplacementCandidate>)
    ensures
        cand_opt(r) == spec_classify_shell_control(command@),
{
    let r = classify_git_filtered_diff_shell_control(command);
    if r.is_some() {
        return r;
    }
    let r = classify_file_excerpt_shell_control(command);
    if r.is_some() {
        return r;
    }
    let r = classify_rg_file_set_shell_control(command);
    if r.is_some() {
        return r;
    }
    let r = classify_file_inventory_shell_control(command);
    if r.is_some() {
        return r;
    }
    let r = classify_run_check_shell_control(command);
    if r.is_some() {
        return r;
    }
    let r = classify_select_string_shell_control(command);
    if r.is_some() {
        return r;
    }
    let r = classify_directory_listing_shell_control(command);
    if r.is_some() {
        return r;
    }
    if command_looks_like_check(command) {
        Some(ReplacementCandidate::RunCheckDigest)
    } else {
        None
    }
}

/// The first of the token classifiers that recognises the tokens.
pub open spec fn spec_classify_tokens(t: Seq<Seq<char>>) -> Option<CandidateView> {
    or_else(
        spec_classify_promoted_git_diff(t),
        or_else(
            spec_classify_git(t),
            or_else(
                spec_classify_rg_files(t),
                or_else(
                    spec_classify_rg(t),
                    or_else(
                        spec_classify_file_outline(t),
                        or_else(
                            spec_classify_file_excerpt(t),
                            or_else(
                                spec_classify_select_string(t),
                                or_else(
                                    spec_classify_generic_search(t),
                                    or_else(
                                        spec_classify_run_check(t),
                                        or_else(
                                            spec_classify_rg_expansion(t),
                                            or_else(
                                                spec_classify_file_inventory(t),
                                                or_else(
                                                    spec_classify_directory_listing(t),
                                                    spec_classify_process_table(t),
                                                ),
                                            ),
                                        ),
                                    ),
                                ),
                            ),
                        ),
                    ),
                ),
            ),
        ),
    )
}

/// Classifies the words a command splits into: the first recogniser in a
/// fixed order wins (promoted `git diff --stat`, git summaries, `rg --files`,
/// `rg` searches, whole-file reads, excerpts, `Select-String`, generic
/// searches, checks, `rg` expansions, inventories, listings, process tables).
pub fn classify_tokens(t: &[Vec<char>]) -> (r: Option<ReplacementCandidate>)
    ensures
        cand_opt(r) == spec_classify_tokens(views(t@)),
{
    let r = classify_promoted_git_diff_candidate(t);
    if r.is_some() {
        return r;
    }
    let r = classify_git_candidate(t);
    if r.is_some() {
        return r;
    }
    let r = classify_rg_files_candidate(t);
    if r.is_some() {
        return r;
    }
    let r = classify_rg_candidate(t);
    if r.is_some() {
        return r;
    }
    let r = classify_file_outline_candidate(t);
    if r.is_some() {
        return r;
    }
    let r = classify_file_excerpt_digest_candidate(t);
    if r.is_some() {
        return r;
    }
    let r = classify_select_string_digest_candidate(t);
    if r.is_some() {
        return r;
    }
    let r = classify_generic_search_digest_candidate(t);
    if r.is_some() {
        return r;
    }
    let r = classify_run_check_digest_candidate(t);
    if r.is_some() {
        return r;
    }
    let r = classify_rg_expansion_candidate(t);
    if r.is_some() {
        return r;
    }
    let r = classify_file_inventory_candidate(t);
    if r.is_some() {
        return r;
    }
    let r = classify_directory_listing_candidate(t);
    if r.is_some() {
        return r;
    }
    classify_process_table_candidate(t)
}

pub open spec fn spec_classify_shell_replacement(command: Seq<char>) -> Option<CandidateView> {
    if spec_has_shell_control(command) {
        spec_classify_shell_control(command)
    } else {
        match spec_shell_tokens(command) {
            Some(t) => spec_classify_tokens(t),
            None => None,
        }
    }
}

pub open spec fn spec_classify_promoted_replacement(command: Seq<char>) -> Option<CandidateView> {
    if spec_has_shell_control(command) {
        None
    } else {
        match spec_shell_tokens(command) {
            Some(t) => spec_classify_promoted_git_diff(t),
            None => None,
        }
    }
}

/// Classifies a shell command into the shadow candidate that would summarise
/// its output, if any. Commands with control operators go through the
/// shell-control recognisers; others are split into words first.
pub fn classify_shell_replacement(command: &str) -> (r: Option<ReplacementCandidate>)
    ensures
        cand_opt(r) == spec_classify_shell_replacement(command@),
{
    let c = chars_of(command);
    if has_shell_control(&c) {
        return classify_shell_control_shadow(&c);
    }
    match shell_tokens(&c) {
        Some(t) => classify_tokens(&t),
        None => None,
    }
}

/// The candidate whose digest may replace the model-visible output: only a
/// plain `git diff --stat` style command qualifies.
pub fn classify_promoted_replacement(command: &str) -> (r: Option<ReplacementCandidate>)
    ensures
        cand_opt(r) == spec_classify_promoted_replacement(command@),
{
    let c = chars_of(command);
    if has_shell_control(&c) {
        return None;
    }
    match shell_tokens(&c) {
        Some(t) => classify_promoted_git_diff_candidate(&t),
        None => None,
    }
}

/// A promoted replacement is only ever the diff-stat summary, and a command
/// promoted to it classifies as the same candidate in shadow.
pub proof fn law_promotion_is_diff_stat_within_shadow(command: Seq<char>)
    ensures
        spec_classify_promoted_replacement(command) is Some ==> {
            &&& spec_classify_promoted_replacement(command) == Some(CandidateView::GitDiffStatCompact)
            &&& spec_classify_shell_replacement(command) == spec_classify_promoted_replacement(command)
        },
{
}

/// The command words that list processes.
pub open spec fn is_process_listing_word(w: Seq<char>) -> bool {
    w == "get-process"@ || w == "get-process.exe"@ || w == "gps"@ || w == "ps"@ || w == "tasklist"@
        || w == "tasklist.exe"@
}

#[verifier::spinoff_prover]
proof fn lemma_process_word_skips_promoted_git_diff(t: Seq<Seq<char>>)
    requires
        t.len() > 0,
        is_process_listing_word(lower(t[0])),
    ensures
        spec_classify_promoted_git_diff(t) is None,
{
    reveal_strlit("rg");
    reveal_strlit("diff");
    reveal_strlit("get-process");
    reveal_strlit("get-process.exe");
    reveal_strlit("git");
    reveal_strlit("gps");
    reveal_strlit("ps");
    reveal_strlit("tasklist");
    reveal_strlit("tasklist.exe");
    assert(!is_process_listing_word("rg"@)) by {
        assert("rg"@.len() != "get-process"@.len());
        assert("rg"@.len() != "get-process.exe"@.len());
        assert("rg"@.len() != "gps"@.len());
        assert("rg"@[0] != "ps"@[0]);
        assert("rg"@.len() != "tasklist"@.len());
        assert("rg"@.len() != "tasklist.exe"@.len());
    }
    assert(!is_process_listing_word("diff"@)) by {
        assert("diff"@.len() != "get-process"@.len());
        assert("diff"@.len() != "get-process.exe"@.len());
        assert("diff"@.len() != "gps"@.len());
        assert("diff"@.len() != "ps"@.len());
        assert("diff"@.len() != "tasklist"@.len());
        assert("diff"@.len() != "tasklist.exe"@.len());
    }
    assert(!is_process_listing_word("git"@)) by {
        assert("git"@.len() != "get-process"@.len());
        assert("git"@.len() != "get-process.exe"@.len());
        assert("git"@[1] != "gps"@[1]);
        assert("git"@.len() != "ps"@.len());
        assert("git"@.len() != "tasklist"@.len());
        assert("git"@.len() != "tasklist.exe"@.len());
    }
    assert(t[0] != "git"@) by {
        if t[0] == "git"@ {
            assert(lower(t[0]) =~= "git"@);
        }
    }
    assert(t[0] != "rg"@) by {
        if t[0] == "rg"@ {
            assert(lower(t[0]) =~= "rg"@);
        }
    }
}

#[verifier::spinoff_prover]
proof fn lemma_process_word_skips_git(t: Seq<Seq<char>>)
    requires
        t.len() > 0,
        is_process_listing_word(lower(t[0])),
    ensures
        spec_classify_git(t) is None,
{
    reveal_strlit("rg");
    reveal_strlit("--name-only");
    reveal_strlit("--name-status");
    reveal_strlit("--numstat");
    reveal_strlit("diff");
    reveal_strlit("get-process");
    reveal_strlit("get-process.exe");
    reveal_strlit("git");
    reveal_strlit("gps");
    reveal_strlit("log");
    reveal_strlit("ls-files");
    reveal_strlit("ps");
    reveal_strlit("show");
    reveal_strlit("tasklist");
    reveal_strlit("tasklist.exe");
    assert(!is_process_listing_word("rg"@)) by {
        assert("rg"@.len() != "get-process"@.len());
        assert("rg"@.len() != "get-process.exe"@.len());
        assert("rg"@.len() != "gps"@.len());
        assert("rg"@[0] != "ps"@[0]);
        assert("rg"@.len() != "tasklist"@.len());
        assert("rg"@.len() != "tasklist.exe"@.len());
    }
    assert(!is_process_listing_word("--name-only"@)) by {
        assert("--name-only"@[0] != "get-process"@[0]);
        assert("--name-only"@.len() != "get-process.exe"@.len());
        assert("--name-only"@.len() != "gps"@.len());
        assert("--name-only"@.len() != "ps"@.len());
        assert("--name-only"@.len() != "tasklist"@.len());
        assert("--name-only"@.len() != "tasklist.exe"@.len());
    }
    assert(!is_process_listing_word("--name-status"@)) by {
        assert("--name-status"@.len() != "get-process"@.len());
        assert("--name-status"@.len() != "get-process.exe"@.len());
        assert("--name-status"@.len() != "gps"@.len());
        assert("--name-status"@.len() != "ps"@.len());
        assert("--name-status"@.len() != "tasklist"@.len());
        assert("--name-status"@.len() != "tasklist.exe"@.len());
    }
    assert(!is_process_listing_word("--numstat"@)) by {
        assert("--numstat"@.len() != "get-process"@.len());
        assert("--numstat"@.len() != "get-process.exe"@.len());
        assert("--numstat"@.len() != "gps"@.len());
        assert("--numstat"@.len() != "ps"@.len());
        assert("--numstat"@.len() != "tasklist"@.len());
        assert("--numstat"@.len() != "tasklist.exe"@.len());
    }
    assert(!is_process_listing_word("diff"@)) by {
        assert("diff"@.len() != "get-process"@.len());
        assert("diff"@.len() != "get-process.exe"@.len());
        assert("diff"@.len() != "gps"@.len());
        assert("diff"@.len() != "ps"@.len());
        assert("diff"@.len() != "tasklist"@.len());
        assert("diff"@.len() != "tasklist.exe"@.len());
    }
    assert(!is_process_listing_word("git"@)) by {
        assert("git"@.len() != "get-process"@.len());
        assert("git"@.len() != "get-process.exe"@.len());
        assert("git"@[1] != "gps"@[1]);
        assert("git"@.len() != "ps"@.len());
        assert("git"@.len() != "tasklist"@.len());
        assert("git"@.len() != "tasklist.exe"@.len());
    }
    assert(!is_process_listing_word("log"@)) by {
        assert("log"@.len() != "get-process"@.len());
        assert("log"@.len() != "get-process.exe"@.len());
        assert("log"@[0] != "gps"@[0]);
        assert("log"@.len() != "ps"@.len());
        assert("log"@.len() != "tasklist"@.len());
        assert("log"@.len() != "tasklist.exe"@.len());
    }
    assert(!is_process_listing_word("ls-files"@)) by {
        assert("ls-files"@.len() != "get-process"@.len());
        assert("ls-files"@.len() != "get-process.exe"@.len());
        assert("ls-files"@.len() != "gps"@.len());
        assert("ls-files"@.len() != "ps"@.len());
        assert("ls-files"@[0] != "tasklist"@[0]);
        assert("ls-files"@.len() != "tasklist.exe"@.len());
    }
    assert(!is_process_listing_word("show"@)) by {
        assert("show"@.len() != "get-process"@.len());
        assert("show"@.len() != "get-process.exe"@.len());
        assert("show"@.len() != "gps"@.len());
        assert("show"@.len() != "ps"@.len());
        assert("show"@.len() != "tasklist"@.len());
        assert("show"@.len() != "tasklist.exe"@.len());
    }
    assert(t[0] != "git"@) by {
        if t[0] == "git"@ {
            assert(lower(t[0]) =~= "git"@);
        }
    }
    assert(t[0] != "rg"@) by {
        if t[0] == "rg"@ {
            assert(lower(t[0]) =~= "rg"@);
        }
    }
}

#[verifier::spinoff_prover]
proof fn lemma_process_word_skips_rg_files(t: Seq<Seq<char>>)
    requires
        t.len() > 0,
        is_process_listing_word(lower(t[0])),
    ensures
        spec_classify_rg_files(t) is None,
{
    reveal_strlit("git");
    reveal_strlit("--files");
    reveal_strlit("get-process");
    reveal_strlit("get-process.exe");
    reveal_strlit("gps");
    reveal_strlit("ps");
    reveal_strlit("rg");
    reveal_strlit("tasklist");
    reveal_strlit("tasklist.exe");
    assert(!is_process_listing_word("git"@)) by {
        assert("git"@.len() != "get-process"@.len());
        assert("git"@.len() != "get-process.exe"@.len());
        assert("git"@[1] != "gps"@[1]);
        assert("git"@.len() != "ps"@.len());
        assert("git"@.len() != "tasklist"@.len());
        assert("git"@.len() != "tasklist.exe"@.len());
    }
    assert(!is_process_listing_word("--files"@)) by {
        assert("--files"@.len() != "get-process"@.len());
        assert("--files"@.len() != "get-process.exe"@.len());
        assert("--files"@.len() != "gps"@.len());
        assert("--files"@.len() != "ps"@.len());
        assert("--files"@.len() != "tasklist"@.len());
        assert("--files"@.len() != "tasklist.exe"@.len());
    }
    assert(!is_process_listing_word("rg"@)) by {
        assert("rg"@.len() != "get-process"@.len());
        assert("rg"@.len() != "get-process.exe"@.len());
        assert("rg"@.len() != "gps"@.len());
        assert("rg"@[0] != "ps"@[0]);
        assert("rg"@.len() != "tasklist"@.len());
        assert("rg"@.len() != "tasklist.exe"@.len());
    }
    assert(t[0] != "git"@) by {
        if t[0] == "git"@ {
            assert(lower(t[0]) =~= "git"@);
        }
    }
    assert(t[0] != "rg"@) by {
        if t[0] == "rg"@ {
            assert(lower(t[0]) =~= "rg"@);
        }
    }
}

#[verifier::spinoff_prover]
proof fn lemma_process_word_skips_rg(t: Seq<Seq<char>>)
    requires
        t.len() > 0,
        is_process_listing_word(lower(t[0])),
    ensures
        spec_classify_rg(t) is None,
{
    reveal_strlit("git");
    reveal_strlit("get-process");
    reveal_strlit("get-process.exe");
    reveal_strlit("gps");
    reveal_strlit("ps");
    reveal_strlit("rg");
    reveal_strlit("tasklist");
    reveal_strlit("tasklist.exe");
    assert(!is_process_listing_word("git"@)) by {
        assert("git"@.len() != "get-process"@.len());
        assert("git"@.len() != "get-process.exe"@.len());
        assert("git"@[1] != "gps"@[1]);
        assert("git"@.len() != "ps"@.len());
        assert("git"@.len() != "tasklist"@.len());
        assert("git"@.len() != "tasklist.exe"@.len());
    }
    assert(!is_process_listing_word("rg"@)) by {
        assert("rg"@.len() != "get-process"@.len());
        assert("rg"@.len() != "get-process.exe"@.len());
        assert("rg"@.len() != "gps"@.len());
        assert("rg"@[0] != "ps"@[0]);
        assert("rg"@.len() != "tasklist"@.len());
        assert("rg"@.len() != "tasklist.exe"@.len());
    }
    assert(t[0] != "git"@) by {
        if t[0] == "git"@ {
            assert(lower(t[0]) =~= "git"@);
        }
    }
    assert(t[0] != "rg"@) by {
        if t[0] == "rg"@ {
            assert(lower(t[0]) =~= "rg"@);
        }
    }
}

#[verifier::spinoff_prover]
proof fn lemma_process_word_skips_file_outline(t: Seq<Seq<char>>)
    requires
        t.len() > 0,
        is_process_listing_word(lower(t[0])),
    ensures
        spec_classify_file_outline(t) is None,
{
    reveal_strlit("rg");
    reveal_strlit("git");
    reveal_strlit("cat");
    reveal_strlit("gc");
    reveal_strlit("get-content");
    reveal_strlit("get-content.exe");
    reveal_strlit("get-process");
    reveal_strlit("get-process.exe");
    reveal_strlit("gps");
    reveal_strlit("ps");
    reveal_strlit("tasklist");
    reveal_strlit("tasklist.exe");
    reveal_strlit("type");
    assert(!is_process_listing_word("rg"@)) by {
        assert("rg"@.len() != "get-process"@.len());
        assert("rg"@.len() != "get-process.exe"@.len());
        assert("rg"@.len() != "gps"@.len());
        assert("rg"@[0] != "ps"@[0]);
        assert("rg"@.len() != "tasklist"@.len());
        assert("rg"@.len() != "tasklist.exe"@.len());
    }
    assert(!is_process_listing_word("git"@)) by {
        assert("git"@.len() != "get-process"@.len());
        assert("git"@.len() != "get-process.exe"@.len());
        assert("git"@[1] != "gps"@[1]);
        assert("git"@.len() != "ps"@.len());
        assert("git"@.len() != "tasklist"@.len());
        assert("git"@.len() != "tasklist.exe"@.len());
    }
    assert(!is_process_listing_word("cat"@)) by {
        assert("cat"@.len() != "get-process"@.len());
        assert("cat"@.len() != "get-process.exe"@.len());
        assert("cat"@[0] != "gps"@[0]);
        assert("cat"@.len() != "ps"@.len());
        assert("cat"@.len() != "tasklist"@.len());
        assert("cat"@.len() != "tasklist.exe"@.len());
    }
    assert(!is_process_listing_word("gc"@)) by {
        assert("gc"@.len() != "get-process"@.len());
        assert("gc"@.len() != "get-process.exe"@.len());
        assert("gc"@.len() != "gps"@.len());
        assert("gc"@[0] != "ps"@[0]);
        assert("gc"@.len() != "tasklist"@.len());
        assert("gc"@.len() != "tasklist.exe"@.len());
    }
    assert(!is_process_listing_word("get-content"@)) by {
        assert("get-content"@[4] != "get-process"@[4]);
        assert("get-content"@.len() != "get-process.exe"@.len());
        assert("get-content"@.len() != "gps"@.len());
        assert("get-content"@.len() != "ps"@.len());
        assert("get-content"@.len() != "tasklist"@.len());
        assert("get-content"@.len() != "tasklist.exe"@.len());
    }
    assert(!is_process_listing_word("get-content.exe"@)) by {
        assert("get-content.exe"@.len() != "get-process"@.len());
        assert("get-content.exe"@[4] != "get-process.exe"@[4]);
        assert("get-content.exe"@.len() != "gps"@.len());
        assert("get-content.exe"@.len() != "ps"@.len());
        assert("get-content.exe"@.len() != "tasklist"@.len());
        assert("get-content.exe"@.len() != "tasklist.exe"@.len());
    }
    assert(!is_process_listing_word("type"@)) by {
        assert("type"@.len() != "get-process"@.len());
        assert("type"@.len() != "get-process.exe"@.len());
        assert("type"@.len() != "gps"@.len());
        assert("type"@.len() != "ps"@.len());
        assert("type"@.len() != "tasklist"@.len());
        assert("type"@.len() != "tasklist.exe"@.len());
    }
    assert(t[0] != "git"@) by {
        if t[0] == "git"@ {
            assert(lower(t[0]) =~= "git"@);
        }
    }
    assert(t[0] != "rg"@) by {
        if t[0] == "rg"@ {
            assert(lower(t[0]) =~= "rg"@);
        }
    }
}

#[verifier::spinoff_prover]
proof fn lemma_process_word_skips_file_excerpt(t: Seq<Seq<char>>)
    requires
        t.len() > 0,
        is_process_listing_word(lower(t[0])),
    ensures
        spec_classify_file_excerpt(t) is None,
{
    reveal_strlit("rg");
    reveal_strlit("git");
    reveal_strlit("gc");
    reveal_strlit("get-content");
    reveal_strlit("get-content.exe");
    reveal_strlit("get-process");
    reveal_strlit("get-process.exe");
    reveal_strlit("gps");
    reveal_strlit("head");
    reveal_strlit("ps");
    reveal_strlit("tail");
    reveal_strlit("tasklist");
    reveal_strlit("tasklist.exe");
    assert(!is_process_listing_word("rg"@)) by {
        assert("rg"@.len() != "get-process"@.len());
        assert("rg"@.len() != "get-process.exe"@.len());
        assert("rg"@.len() != "gps"@.len());
        assert("rg"@[0] != "ps"@[0]);
        assert("rg"@.len() != "tasklist"@.len());
        assert("rg"@.len() != "tasklist.exe"@.len());
    }
    assert(!is_process_listing_word("git"@)) by {
        assert("git"@.len() != "get-process"@.len());
        assert("git"@.len() != "get-process.exe"@.len());
        assert("git"@[1] != "gps"@[1]);
        assert("git"@.len() != "ps"@.len());
        assert("git"@.len() != "tasklist"@.len());
        assert("git"@.len() != "tasklist.exe"@.len());
    }
    assert(!is_process_listing_word("gc"@)) by {
        assert("gc"@.len() != "get-process"@.len());
        assert("gc"@.len() != "get-process.exe"@.len());
        assert("gc"@.len() != "gps"@.len());
        assert("gc"@[0] != "ps"@[0]);
        assert("gc"@.len() != "tasklist"@.len());
        assert("gc"@.len() != "tasklist.exe"@.len());
    }
    assert(!is_process_listing_word("get-content"@)) by {
        assert("get-content"@[4] != "get-process"@[4]);
        assert("get-content"@.len() != "get-process.exe"@.len());
        assert("get-content"@.len() != "gps"@.len());
        assert("get-content"@.len() != "ps"@.len());
        assert("get-content"@.len() != "tasklist"@.len());
        assert("get-content"@.len() != "tasklist.exe"@.len());
    }
    assert(!is_process_listing_word("get-content.exe"@)) by {
        assert("get-content.exe"@.len() != "get-process"@.len());
        assert("get-content.exe"@[4] != "get-process.exe"@[4]);
        assert("get-content.exe"@.len() != "gps"@.len());
        assert("get-content.exe"@.len() != "ps"@.len());
        assert("get-content.exe"@.len() != "tasklist"@.len());
        assert("get-content.exe"@.len() != "tasklist.exe"@.len());
    }
    assert(!is_process_listing_word("head"@)) by {
        assert("head"@.len() != "get-process"@.len());
        assert("head"@.len() != "get-process.exe"@.len());
        assert("head"@.len() != "gps"@.len());
        assert("head"@.len() != "ps"@.len());
        assert("head"@.len() != "tasklist"@.len());
        assert("head"@.len() != "tasklist.exe"@.len());
    }
    assert(!is_process_listing_word("tail"@)) by {
        assert("tail"@.len() != "get-process"@.len());
        assert("tail"@.len() != "get-process.exe"@.len());
        assert("tail"@.len() != "gps"@.len());
        assert("tail"@.len() != "ps"@.len());
        assert("tail"@.len() != "tasklist"@.len());
        assert("tail"@.len() != "tasklist.exe"@.len());
    }
    assert(t[0] != "git"@) by {
        if t[0] == "git"@ {
            assert(lower(t[0]) =~= "git"@);
        }
    }
    assert(t[0] != "rg"@) by {
        if t[0] == "rg"@ {
            assert(lower(t[0]) =~= "rg"@);
        }
    }
}

#[verifier::spinoff_prover]
proof fn lemma_process_word_skips_select_string(t: Seq<Seq<char>>)
    requires
        t.len() > 0,
        is_process_listing_word(lower(t[0])),
    ensures
        spec_classify_select_string(t) is None,
{
    reveal_strlit("rg");
    reveal_strlit("git");
    reveal_strlit("get-process");
    reveal_strlit("get-process.exe");
    reveal_strlit("gps");
    reveal_strlit("ps");
    reveal_strlit("select-string");
    reveal_strlit("select-string.exe");
    reveal_strlit("sls");
    reveal_strlit("tasklist");
    reveal_strlit("tasklist.exe");
    assert(!is_process_listing_word("rg"@)) by {
        assert("rg"@.len() != "get-process"@.len());
        assert("rg"@.len() != "get-process.exe"@.len());
        assert("rg"@.len() != "gps"@.len());
        assert("rg"@[0] != "ps"@[0]);
        assert("rg"@.len() != "tasklist"@.len());
        assert("rg"@.len() != "tasklist.exe"@.len());
    }
    assert(!is_process_listing_word("git"@)) by {
        assert("git"@.len() != "get-process"@.len());
        assert("git"@.len() != "get-process.exe"@.len());
        assert("git"@[1] != "gps"@[1]);
        assert("git"@.len() != "ps"@.len());
        assert("git"@.len() != "tasklist"@.len());
        assert("git"@.len() != "tasklist.exe"@.len());
    }
    assert(!is_process_listing_word("select-string"@)) by {
        assert("select-string"@.len() != "get-process"@.len());
        assert("select-string"@.len() != "get-process.exe"@.len());
        assert("select-string"@.len() != "gps"@.len());
        assert("select-string"@.len() != "ps"@.len());
        assert("select-string"@.len() != "tasklist"@.len());
        assert("select-string"@.len() != "tasklist.exe"@.len());
    }
    assert(!is_process_listing_word("select-string.exe"@)) by {
        assert("select-string.exe"@.len() != "get-process"@.len());
        assert("select-string.exe"@.len() != "get-process.exe"@.len());
        assert("select-string.exe"@.len() != "gps"@.len());
        assert("select-string.exe"@.len() != "ps"@.len());
        assert("select-string.exe"@.len() != "tasklist"@.len());
        assert("select-string.exe"@.len() != "tasklist.exe"@.len());
    }
    assert(!is_process_listing_word("sls"@)) by {
        assert("sls"@.len() != "get-process"@.len());
        assert("sls"@.len() != "get-process.exe"@.len());
        assert("sls"@[0] != "gps"@[0]);
        assert("sls"@.len() != "ps"@.len());
        assert("sls"@.len() != "tasklist"@.len());
        assert("sls"@.len() != "tasklist.exe"@.len());
    }
    assert(t[0] != "git"@) by {
        if t[0] == "git"@ {
            assert(lower(t[0]) =~= "git"@);
        }
    }
    assert(t[0] != "rg"@) by {
        if t[0] == "rg"@ {
            assert(lower(t[0]) =~= "rg"@);
        }
    }
}

#[verifier::spinoff_prover]
proof fn lemma_process_word_skips_generic_search(t: Seq<Seq<char>>)
    requires
        t.len() > 0,
        is_process_listing_word(lower(t[0])),
    ensures
        spec_classify_generic_search(t) is None,
{
    reveal_strlit("rg");
    reveal_strlit("findstr");
    reveal_strlit("findstr.exe");
    reveal_strlit("get-process");
    reveal_strlit("get-process.exe");
    reveal_strlit("git");
    reveal_strlit("gps");
    reveal_strlit("grep");
    reveal_strlit("grep.exe");
    reveal_strlit("ps");
    reveal_strlit("tasklist");
    reveal_strlit("tasklist.exe");
    assert(!is_process_listing_word("rg"@)) by {
        assert("rg"@.len() != "get-process"@.len());
        assert("rg"@.len() != "get-process.exe"@.len());
        assert("rg"@.len() != "gps"@.len());
        assert("rg"@[0] != "ps"@[0]);
        assert("rg"@.len() != "tasklist"@.len());
        assert("rg"@.len() != "tasklist.exe"@.len());
    }
    assert(!is_process_listing_word("findstr"@)) by {
        assert("findstr"@.len() != "get-process"@.len());
        assert("findstr"@.len() != "get-process.exe"@.len());
        assert("findstr"@.len() != "gps"@.len());
        assert("findstr"@.len() != "ps"@.len());
        assert("findstr"@.len() != "tasklist"@.len());
        assert("findstr"@.len() != "tasklist.exe"@.len());
    }
    assert(!is_process_listing_word("findstr.exe"@)) by {
        assert("findstr.exe"@[0] != "get-process"@[0]);
        assert("findstr.exe"@.len() != "get-process.exe"@.len());
        assert("findstr.exe"@.len() != "gps"@.len());
        assert("findstr.exe"@.len() != "ps"@.len());
        assert("findstr.exe"@.len() != "tasklist"@.len());
        assert("findstr.exe"@.len() != "tasklist.exe"@.len());
    }
    assert(!is_process_listing_word("git"@)) by {
        assert("git"@.len() != "get-process"@.len());
        assert("git"@.len() != "get-process.exe"@.len());
        assert("git"@[1] != "gps"@[1]);
        assert("git"@.len() != "ps"@.len());
        assert("git"@.len() != "tasklist"@.len());
        assert("git"@.len() != "tasklist.exe"@.len());
    }
    assert(!is_process_listing_word("grep"@)) by {
        assert("grep"@.len() != "get-process"@.len());
        assert("grep"@.len() != "get-process.exe"@.len());
        assert("grep"@.len() != "gps"@.len());
        assert("grep"@.len() != "ps"@.len());
        assert("grep"@.len() != "tasklist"@.len());
        assert("grep"@.len() != "tasklist.exe"@.len());
    }
    assert(!is_process_listing_word("grep.exe"@)) by {
        assert("grep.exe"@.len() != "get-process"@.len());
        assert("grep.exe"@.len() != "get-process.exe"@.len());
        assert("grep.exe"@.len() != "gps"@.len());
        assert("grep.exe"@.len() != "ps"@.len());
        assert("grep.exe"@[0] != "tasklist"@[0]);
        assert("grep.exe"@.len() != "tasklist.exe"@.len());
    }
    assert(t[0] != "git"@) by {
        if t[0] == "git"@ {
            assert(lower(t[0]) =~= "git"@);
        }
    }
    assert(t[0] != "rg"@) by {
        if t[0] == "rg"@ {
            assert(lower(t[0]) =~= "rg"@);
        }
    }
}

#[verifier::spinoff_prover]
proof fn lemma_process_word_skips_run_check(t: Seq<Seq<char>>)
    requires
        t.len() > 0,
        is_process_listing_word(lower(t[0])),
    ensures
        spec_classify_run_check(t) is None,
{
    reveal_strlit("rg");
    reveal_strlit("--build");
    reveal_strlit("all");
    reveal_strlit("argument-comment-lint");
    reveal_strlit("assemble");
    reveal_strlit("build");
    reveal_strlit("cargo");
    reveal_strlit("check");
    reveal_strlit("clippy");
    reveal_strlit("cmake");
    reveal_strlit("cmd");
    reveal_strlit("cmd.exe");
    reveal_strlit("compile");
    reveal_strlit("ctest");
    reveal_strlit("dotnet");
    reveal_strlit("fix");
    reveal_strlit("fmt");
    reveal_strlit("get-process");
    reveal_strlit("get-process.exe");
    reveal_strlit("git");
    reveal_strlit("go");
    reveal_strlit("gps");
    reveal_strlit("gradle");
    reveal_strlit("gradle.bat");
    reveal_strlit("gradlew");
    reveal_strlit("gradlew.bat");
    reveal_strlit("install");
    reveal_strlit("invoke-bounded");
    reveal_strlit("just");
    reveal_strlit("lint");
    reveal_strlit("make");
    reveal_strlit("mingw32-make");
    reveal_strlit("msbuild");
    reveal_strlit("msbuild.exe");
    reveal_strlit("mvn");
    reveal_strlit("mvn.cmd");
    reveal_strlit("mvnw");
    reveal_strlit("mvnw.cmd");
    reveal_strlit("nextest");
    reveal_strlit("ninja");
    reveal_strlit("nmake");
    reveal_strlit("npm");
    reveal_strlit("package");
    reveal_strlit("pnpm");
    reveal_strlit("powershell");
    reveal_strlit("powershell.exe");
    reveal_strlit("ps");
    reveal_strlit("pwsh");
    reveal_strlit("pwsh.exe");
    reveal_strlit("py");
    reveal_strlit("py_compile");
    reveal_strlit("pytest");
    reveal_strlit("python");
    reveal_strlit("python.exe");
    reveal_strlit("start-process");
    reveal_strlit("tasklist");
    reveal_strlit("tasklist.exe");
    reveal_strlit("test");
    reveal_strlit("typecheck");
    reveal_strlit("verify");
    reveal_strlit("vet");
    reveal_strlit("xcodebuild");
    reveal_strlit("yarn");
    assert(!is_process_listing_word("rg"@)) by {
        assert("rg"@.len() != "get-process"@.len());
        assert("rg"@.len() != "get-process.exe"@.len());
        assert("rg"@.len() != "gps"@.len());
        assert("rg"@[0] != "ps"@[0]);
        assert("rg"@.len() != "tasklist"@.len());
        assert("rg"@.len() != "tasklist.exe"@.len());
    }
    assert(!is_process_listing_word("--build"@)) by {
        assert("--build"@.len() != "get-process"@.len());
        assert("--build"@.len() != "get-process.exe"@.len());
        assert("--build"@.len() != "gps"@.len());
        assert("--build"@.len() != "ps"@.len());
        assert("--build"@.len() != "tasklist"@.len());
        assert("--build"@.len() != "tasklist.exe"@.len());
    }
    assert(!is_process_listing_word("all"@)) by {
        assert("all"@.len() != "get-process"@.len());
        assert("all"@.len() != "get-process.exe"@.len());
        assert("all"@[0] != "gps"@[0]);
        assert("all"@.len() != "ps"@.len());
        assert("all"@.len() != "tasklist"@.len());
        assert("all"@.len() != "tasklist.exe"@.len());
    }
    assert(!is_process_listing_word("argument-comment-lint"@)) by {
        assert("argument-comment-lint"@.len() != "get-process"@.len());
        assert("argument-comment-lint"@.len() != "get-process.exe"@.len());
        assert("argument-comment-lint"@.len() != "gps"@.len());
        assert("argument-comment-lint"@.len() != "ps"@.len());
        assert("argument-comment-lint"@.len() != "tasklist"@.len());
        assert("argument-comment-lint"@.len() != "tasklist.exe"@.len());
    }
    assert(!is_process_listing_word("assemble"@)) by {
        assert("assemble"@.len() != "get-process"@.len());
        assert("assemble"@.len() != "get-process.exe"@.len());
        assert("assemble"@.len() != "gps"@.len());
        assert("assemble"@.len() != "ps"@.len());
        assert("assemble"@[0] != "tasklist"@[0]);
        assert("assemble"@.len() != "tasklist.exe"@.len());
    }
    assert(!is_process_listing_word("build"@)) by {
        assert("build"@.len() != "get-process"@.len());
        assert("build"@.len() != "get-process.exe"@.len());
        assert("build"@.len() != "gps"@.len());
        assert("build"@.len() != "ps"@.len());
        assert("build"@.len() != "tasklist"@.len());
        assert("build"@.len() != "tasklist.exe"@.len());
    }
    assert(!is_process_listing_word("cargo"@)) by {
        assert("cargo"@.len() != "get-process"@.len());
        assert("cargo"@.len() != "get-process.exe"@.len());
        assert("cargo"@.len() != "gps"@.len());
        assert("cargo"@.len() != "ps"@.len());
        assert("cargo"@.len() != "tasklist"@.len());
        assert("cargo"@.len() != "tasklist.exe"@.len());
    }
    assert(!is_process_listing_word("check"@)) by {
        assert("check"@.len() != "get-process"@.len());
        assert("check"@.len() != "get-process.exe"@.len());
        assert("check"@.len() != "gps"@.len());
        assert("check"@.len() != "ps"@.len());
        assert("check"@.len() != "tasklist"@.len());
        assert("check"@.len() != "tasklist.exe"@.len());
    }
    assert(!is_process_listing_word("clippy"@)) by {
        assert("clippy"@.len() != "get-process"@.len());
        assert("clippy"@.len() != "get-process.exe"@.len());
        assert("clippy"@.len() != "gps"@.len());
        assert("clippy"@.len() != "ps"@.len());
        assert("clippy"@.len() != "tasklist"@.len());
        assert("clippy"@.len() != "tasklist.exe"@.len());
    }
    assert(!is_process_listing_word("cmake"@)) by {
        assert("cmake"@.len() != "get-process"@.len());
        assert("cmake"@.len() != "get-process.exe"@.len());
        assert("cmake"@.len() != "gps"@.len());
        assert("cmake"@.len() != "ps"@.len());
        assert("cmake"@.len() != "tasklist"@.len());
        assert("cmake"@.len() != "tasklist.exe"@.len());
    }
    assert(!is_process_listing_word("cmd"@)) by {
        assert("cmd"@.len() != "get-process"@.len());
        assert("cmd"@.len() != "get-process.exe"@.len());
        assert("cmd"@[0] != "gps"@[0]);
        assert("cmd"@.len() != "ps"@.len());
        assert("cmd"@.len() != "tasklist"@.len());
        assert("cmd"@.len() != "tasklist.exe"@.len());
    }
    assert(!is_process_listing_word("cmd.exe"@)) by {
        assert("cmd.exe"@.len() != "get-process"@.len());
        assert("cmd.exe"@.len() != "get-process.exe"@.len());
        assert("cmd.exe"@.len() != "gps"@.len());
        assert("cmd.exe"@.len() != "ps"@.len());
        assert("cmd.exe"@.len() != "tasklist"@.len());
        assert("cmd.exe"@.len() != "tasklist.exe"@.len());
    }
    assert(!is_process_listing_word("compile"@)) by {
        assert("compile"@.len() != "get-process"@.len());
        assert("compile"@.len() != "get-process.exe"@.len());
        assert("compile"@.len() != "gps"@.len());
        assert("compile"@.len() != "ps"@.len());
        assert("compile"@.len() != "tasklist"@.len());
        assert("compile"@.len() != "tasklist.exe"@.len());
    }
    assert(!is_process_listing_word("ctest"@)) by {
        assert("ctest"@.len() != "get-process"@.len());
        assert("ctest"@.len() != "get-process.exe"@.len());
        assert("ctest"@.len() != "gps"@.len());
        assert("ctest"@.len() != "ps"@.len());
        assert("ctest"@.len() != "tasklist"@.len());
        assert("ctest"@.len() != "tasklist.exe"@.len());
    }
    assert(!is_process_listing_word("dotnet"@)) by {
        assert("dotnet"@.len() != "get-process"@.len());
        assert("dotnet"@.len() != "get-process.exe"@.len());
        assert("dotnet"@.len() != "gps"@.len());
        assert("dotnet"@.len() != "ps"@.len());
        assert("dotnet"@.len() != "tasklist"@.len());
        assert("dotnet"@.len() != "tasklist.exe"@.len());
    }
    assert(!is_process_listing_word("fix"@)) by {
        assert("fix"@.len() != "get-process"@.len());
        assert("fix"@.len() != "get-process.exe"@.len());
        assert("fix"@[0] != "gps"@[0]);
        assert("fix"@.len() != "ps"@.len());
        assert("fix"@.len() != "tasklist"@.len());
        assert("fix"@.len() != "tasklist.exe"@.len());
    }
    assert(!is_process_listing_word("fmt"@)) by {
        assert("fmt"@.len() != "get-process"@.len());
        assert("fmt"@.len() != "get-process.exe"@.len());
        assert("fmt"@[0] != "gps"@[0]);
        assert("fmt"@.len() != "ps"@.len());
        assert("fmt"@.len() != "tasklist"@.len());
        assert("fmt"@.len() != "tasklist.exe"@.len());
    }
    assert(!is_process_listing_word("git"@)) by {
        assert("git"@.len() != "get-process"@.len());
        assert("git"@.len() != "get-process.exe"@.len());
        assert("git"@[1] != "gps"@[1]);
        assert("git"@.len() != "ps"@.len());
        assert("git"@.len() != "tasklist"@.len());
        assert("git"@.len() != "tasklist.exe"@.len());
    }
    assert(!is_process_listing_word("go"@)) by {
        assert("go"@.len() != "get-process"@.len());
        assert("go"@.len() != "get-process.exe"@.len());
        assert("go"@.len() != "gps"@.len());
        assert("go"@[0] != "ps"@[0]);
        assert("go"@.len() != "tasklist"@.len());
        assert("go"@.len() != "tasklist.exe"@.len());
    }
    assert(!is_process_listing_word("gradle"@)) by {
        assert("gradle"@.len() != "get-process"@.len());
        assert("gradle"@.len() != "get-process.exe"@.len());
        assert("gradle"@.len() != "gps"@.len());
        assert("gradle"@.len() != "ps"@.len());
        assert("gradle"@.len() != "tasklist"@.len());
        assert("gradle"@.len() != "tasklist.exe"@.len());
    }
    assert(!is_process_listing_word("gradle.bat"@)) by {
        assert("gradle.bat"@.len() != "get-process"@.len());
        assert("gradle.bat"@.len() != "get-process.exe"@.len());
        assert("gradle.bat"@.len() != "gps"@.len());
        assert("gradle.bat"@.len() != "ps"@.len());
        assert("gradle.bat"@.len() != "tasklist"@.len());
        assert("gradle.bat"@.len() != "tasklist.exe"@.len());
    }
    assert(!is_process_listing_word("gradlew"@)) by {
        assert("gradlew"@.len() != "get-process"@.len());
        assert("gradlew"@.len() != "get-process.exe"@.len());
        assert("gradlew"@.len() != "gps"@.len());
        assert("gradlew"@.len() != "ps"@.len());
        assert("gradlew"@.len() != "tasklist"@.len());
        assert("gradlew"@.len() != "tasklist.exe"@.len());
    }
    assert(!is_process_listing_word("gradlew.bat"@)) by {
        assert("gradlew.bat"@[1] != "get-process"@[1]);
        assert("gradlew.bat"@.len() != "get-process.exe"@.len());
        assert("gradlew.bat"@.len() != "gps"@.len());
        assert("gradlew.bat"@.len() != "ps"@.len());
        assert("gradlew.bat"@.len() != "tasklist"@.len());
        assert("gradlew.bat"@.len() != "tasklist.exe"@.len());
    }
    assert(!is_process_listing_word("install"@)) by {
        assert("install"@.len() != "get-process"@.len());
        assert("install"@.len() != "get-process.exe"@.len());
        assert("install"@.len() != "gps"@.len());
        assert("install"@.len() != "ps"@.len());
        assert("install"@.len() != "tasklist"@.len());
        assert("install"@.len() != "tasklist.exe"@.len());
    }
    assert(!is_process_listing_word("invoke-bounded"@)) by {
        assert("invoke-bounded"@.len() != "get-process"@.len());
        assert("invoke-bounded"@.len() != "get-process.exe"@.len());
        assert("invoke-bounded"@.len() != "gps"@.len());
        assert("invoke-bounded"@.len() != "ps"@.len());
        assert("invoke-bounded"@.len() != "tasklist"@.len());
        assert("invoke-bounded"@.len() != "tasklist.exe"@.len());
    }
    assert(!is_process_listing_word("just"@)) by {
        assert("just"@.len() != "get-process"@.len());
        assert("just"@.len() != "get-process.exe"@.len());
        assert("just"@.len() != "gps"@.len());
        assert("just"@.len() != "ps"@.len());
        assert("just"@.len() != "tasklist"@.len());
        assert("just"@.len() != "tasklist.exe"@.len());
    }
    assert(!is_process_listing_word("lint"@)) by {
        assert("lint"@.len() != "get-process"@.len());
        assert("lint"@.len() != "get-process.exe"@.len());
        assert("lint"@.len() != "gps"@.len());
        assert("lint"@.len() != "ps"@.len());
        assert("lint"@.len() != "tasklist"@.len());
        assert("lint"@.len() != "tasklist.exe"@.len());
    }
    assert(!is_process_listing_word("make"@)) by {
        assert("make"@.len() != "get-process"@.len());
        assert("make"@.len() != "get-process.exe"@.len());
        assert("make"@.len() != "gps"@.len());
        assert("make"@.len() != "ps"@.len());
        assert("make"@.len() != "tasklist"@.len());
        assert("make"@.len() != "tasklist.exe"@.len());
    }
    assert(!is_process_listing_word("mingw32-make"@)) by {
        assert("mingw32-make"@.len() != "get-process"@.len());
        assert("mingw32-make"@.len() != "get-process.exe"@.len());
        assert("mingw32-make"@.len() != "gps"@.len());
        assert("mingw32-make"@.len() != "ps"@.len());
        assert("mingw32-make"@.len() != "tasklist"@.len());
        assert("mingw32-make"@[0] != "tasklist.exe"@[0]);
    }
    assert(!is_process_listing_word("msbuild"@)) by {
        assert("msbuild"@.len() != "get-process"@.len());
        assert("msbuild"@.len() != "get-process.exe"@.len());
        assert("msbuild"@.len() != "gps"@.len());
        assert("msbuild"@.len() != "ps"@.len());
        assert("msbuild"@.len() != "tasklist"@.len());
        assert("msbuild"@.len() != "tasklist.exe"@.len());
    }
    assert(!is_process_listing_word("msbuild.exe"@)) by {
        assert("msbuild.exe"@[0] != "get-process"@[0]);
        assert("msbuild.exe"@.len() != "get-process.exe"@.len());
        assert("msbuild.exe"@.len() != "gps"@.len());
        assert("msbuild.exe"@.len() != "ps"@.len());
        assert("msbuild.exe"@.len() != "tasklist"@.len());
        assert("msbuild.exe"@.len() != "tasklist.exe"@.len());
    }
    assert(!is_process_listing_word("mvn"@)) by {
        assert("mvn"@.len() != "get-process"@.len());
        assert("mvn"@.len() != "get-process.exe"@.len());
        assert("mvn"@[0] != "gps"@[0]);
        assert("mvn"@.len() != "ps"@.len());
        assert("mvn"@.len() != "tasklist"@.len());
        assert("mvn"@.len() != "tasklist.exe"@.len());
    }
    assert(!is_process_listing_word("mvn.cmd"@)) by {
        assert("mvn.cmd"@.len() != "get-process"@.len());
        assert("mvn.cmd"@.len() != "get-process.exe"@.len());
        assert("mvn.cmd"@.len() != "gps"@.len());
        assert("mvn.cmd"@.len() != "ps"@.len());
        assert("mvn.cmd"@.len() != "tasklist"@.len());
        assert("mvn.cmd"@.len() != "tasklist.exe"@.len());
    }
    assert(!is_process_listing_word("mvnw"@)) by {
        assert("mvnw"@.len() != "get-process"@.len());
        assert("mvnw"@.len() != "get-process.exe"@.len());
        assert("mvnw"@.len() != "gps"@.len());
        assert("mvnw"@.len() != "ps"@.len());
        assert("mvnw"@.len() != "tasklist"@.len());
        assert("mvnw"@.len() != "tasklist.exe"@.len());
    }
    assert(!is_process_listing_word("mvnw.cmd"@)) by {
        assert("mvnw.cmd"@.len() != "get-process"@.len());
        assert("mvnw.cmd"@.len() != "get-process.exe"@.len());
        assert("mvnw.cmd"@.len() != "gps"@.len());
        assert("mvnw.cmd"@.len() != "ps"@.len());
        assert("mvnw.cmd"@[0] != "tasklist"@[0]);
        assert("mvnw.cmd"@.len() != "tasklist.exe"@.len());
    }
    assert(!is_process_listing_word("nextest"@)) by {
        assert("nextest"@.len() != "get-process"@.len());
        assert("nextest"@.len() != "get-process.exe"@.len());
        assert("nextest"@.len() != "gps"@.len());
        assert("nextest"@.len() != "ps"@.len());
        assert("nextest"@.len() != "tasklist"@.len());
        assert("nextest"@.len() != "tasklist.exe"@.len());
    }
    assert(!is_process_listing_word("ninja"@)) by {
        assert("ninja"@.len() != "get-process"@.len());
        assert("ninja"@.len() != "get-process.exe"@.len());
        assert("ninja"@.len() != "gps"@.len());
        assert("ninja"@.len() != "ps"@.len());
        assert("ninja"@.len() != "tasklist"@.len());
        assert("ninja"@.len() != "tasklist.exe"@.len());
    }
    assert(!is_process_listing_word("nmake"@)) by {
        assert("nmake"@.len() != "get-process"@.len());
        assert("nmake"@.len() != "get-process.exe"@.len());
        assert("nmake"@.len() != "gps"@.len());
        assert("nmake"@.len() != "ps"@.len());
        assert("nmake"@.len() != "tasklist"@.len());
        assert("nmake"@.len() != "tasklist.exe"@.len());
    }
    assert(!is_process_listing_word("npm"@)) by {
        assert("npm"@.len() != "get-process"@.len());
        assert("npm"@.len() != "get-process.exe"@.len());
        assert("npm"@[0] != "gps"@[0]);
        assert("npm"@.len() != "ps"@.len());
        assert("npm"@.len() != "tasklist"@.len());
        assert("npm"@.len() != "tasklist.exe"@.len());
    }
    assert(!is_process_listing_word("package"@)) by {
        assert("package"@.len() != "get-process"@.len());
        assert("package"@.len() != "get-process.exe"@.len());
        assert("package"@.len() != "gps"@.len());
        assert("package"@.len() != "ps"@.len());
        assert("package"@.len() != "tasklist"@.len());
        assert("package"@.len() != "tasklist.exe"@.len());
    }
    assert(!is_process_listing_word("pnpm"@)) by {
        assert("pnpm"@.len() != "get-process"@.len());
        assert("pnpm"@.len() != "get-process.exe"@.len());
        assert("pnpm"@.len() != "gps"@.len());
        assert("pnpm"@.len() != "ps"@.len());
        assert("pnpm"@.len() != "tasklist"@.len());
        assert("pnpm"@.len() != "tasklist.exe"@.len());
    }
    assert(!is_process_listing_word("powershell"@)) by {
        assert("powershell"@.len() != "get-process"@.len());
        assert("powershell"@.len() != "get-process.exe"@.len());
        assert("powershell"@.len() != "gps"@.len());
        assert("powershell"@.len() != "ps"@.len());
        assert("powershell"@.len() != "tasklist"@.len());
        assert("powershell"@.len() != "tasklist.exe"@.len());
    }
    assert(!is_process_listing_word("powershell.exe"@)) by {
        assert("powershell.exe"@.len() != "get-process"@.len());
        assert("powershell.exe"@.len() != "get-process.exe"@.len());
        assert("powershell.exe"@.len() != "gps"@.len());
        assert("powershell.exe"@.len() != "ps"@.len());
        assert("powershell.exe"@.len() != "tasklist"@.len());
        assert("powershell.exe"@.len() != "tasklist.exe"@.len());
    }
    assert(!is_process_listing_word("pwsh"@)) by {
        assert("pwsh"@.len() != "get-process"@.len());
        assert("pwsh"@.len() != "get-process.exe"@.len());
        assert("pwsh"@.len() != "gps"@.len());
        assert("pwsh"@.len() != "ps"@.len());
        assert("pwsh"@.len() != "tasklist"@.len());
        assert("pwsh"@.len() != "tasklist.exe"@.len());
    }
    assert(!is_process_listing_word("pwsh.exe"@)) by {
        assert("pwsh.exe"@.len() != "get-process"@.len());
        assert("pwsh.exe"@.len() != "get-process.exe"@.len());
        assert("pwsh.exe"@.len() != "gps"@.len());
        assert("pwsh.exe"@.len() != "ps"@.len());
        assert("pwsh.exe"@[0] != "tasklist"@[0]);
        assert("pwsh.exe"@.len() != "tasklist.exe"@.len());
    }
    assert(!is_process_listing_word("py"@)) by {
        assert("py"@.len() != "get-process"@.len());
        assert("py"@.len() != "get-process.exe"@.len());
        assert("py"@.len() != "gps"@.len());
        assert("py"@[1] != "ps"@[1]);
        assert("py"@.len() != "tasklist"@.len());
        assert("py"@.len() != "tasklist.exe"@.len());
    }
    assert(!is_process_listing_word("py_compile"@)) by {
        assert("py_compile"@.len() != "get-process"@.len());
        assert("py_compile"@.len() != "get-process.exe"@.len());
        assert("py_compile"@.len() != "gps"@.len());
        assert("py_compile"@.len() != "ps"@.len());
        assert("py_compile"@.len() != "tasklist"@.len());
        assert("py_compile"@.len() != "tasklist.exe"@.len());
    }
    assert(!is_process_listing_word("pytest"@)) by {
        assert("pytest"@.len() != "get-process"@.len());
        assert("pytest"@.len() != "get-process.exe"@.len());
        assert("pytest"@.len() != "gps"@.len());
        assert("pytest"@.len() != "ps"@.len());
        assert("pytest"@.len() != "tasklist"@.len());
        assert("pytest"@.len() != "tasklist.exe"@.len());
    }
    assert(!is_process_listing_word("python"@)) by {
        assert("python"@.len() != "get-process"@.len());
        assert("python"@.len() != "get-process.exe"@.len());
        assert("python"@.len() != "gps"@.len());
        assert("python"@.len() != "ps"@.len());
        assert("python"@.len() != "tasklist"@.len());
        assert("python"@.len() != "tasklist.exe"@.len());
    }
    assert(!is_process_listing_word("python.exe"@)) by {
        assert("python.exe"@.len() != "get-process"@.len());
        assert("python.exe"@.len() != "get-process.exe"@.len());
        assert("python.exe"@.len() != "gps"@.len());
        assert("python.exe"@.len() != "ps"@.len());
        assert("python.exe"@.len() != "tasklist"@.len());
        assert("python.exe"@.len() != "tasklist.exe"@.len());
    }
    assert(!is_process_listing_word("start-process"@)) by {
        assert("start-process"@.len() != "get-process"@.len());
        assert("start-process"@.len() != "get-process.exe"@.len());
        assert("start-process"@.len() != "gps"@.len());
        assert("start-process"@.len() != "ps"@.len());
        assert("start-process"@.len() != "tasklist"@.len());
        assert("start-process"@.len() != "tasklist.exe"@.len());
    }
    assert(!is_process_listing_word("test"@)) by {
        assert("test"@.len() != "get-process"@.len());
        assert("test"@.len() != "get-process.exe"@.len());
        assert("test"@.len() != "gps"@.len());
        assert("test"@.len() != "ps"@.len());
        assert("test"@.len() != "tasklist"@.len());
        assert("test"@.len() != "tasklist.exe"@.len());
    }
    assert(!is_process_listing_word("typecheck"@)) by {
        assert("typecheck"@.len() != "get-process"@.len());
        assert("typecheck"@.len() != "get-process.exe"@.len());
        assert("typecheck"@.len() != "gps"@.len());
        assert("typecheck"@.len() != "ps"@.len());
        assert("typecheck"@.len() != "tasklist"@.len());
        assert("typecheck"@.len() != "tasklist.exe"@.len());
    }
    assert(!is_process_listing_word("verify"@)) by {
        assert("verify"@.len() != "get-process"@.len());
        assert("verify"@.len() != "get-process.exe"@.len());
        assert("verify"@.len() != "gps"@.len());
        assert("verify"@.len() != "ps"@.len());
        assert("verify"@.len() != "tasklist"@.len());
        assert("verify"@.len() != "tasklist.exe"@.len());
    }
    assert(!is_process_listing_word("vet"@)) by {
        assert("vet"@.len() != "get-process"@.len());
        assert("vet"@.len() != "get-process.exe"@.len());
        assert("vet"@[0] != "gps"@[0]);
        assert("vet"@.len() != "ps"@.len());
        assert("vet"@.len() != "tasklist"@.len());
        assert("vet"@.len() != "tasklist.exe"@.len());
    }
    assert(!is_process_listing_word("xcodebuild"@)) by {
        assert("xcodebuild"@.len() != "get-process"@.len());
        assert("xcodebuild"@.len() != "get-process.exe"@.len());
        assert("xcodebuild"@.len() != "gps"@.len());
        assert("xcodebuild"@.len() != "ps"@.len());
        assert("xcodebuild"@.len() != "tasklist"@.len());
        assert("xcodebuild"@.len() != "tasklist.exe"@.len());
    }
    assert(!is_process_listing_word("yarn"@)) by {
        assert("yarn"@.len() != "get-process"@.len());
        assert("yarn"@.len() != "get-process.exe"@.len());
        assert("yarn"@.len() != "gps"@.len());
        assert("yarn"@.len() != "ps"@.len());
        assert("yarn"@.len() != "tasklist"@.len());
        assert("yarn"@.len() != "tasklist.exe"@.len());
    }
    assert(t[0] != "git"@) by {
        if t[0] == "git"@ {
            assert(lower(t[0]) =~= "git"@);
        }
    }
    assert(t[0] != "rg"@) by {
        if t[0] == "rg"@ {
            assert(lower(t[0]) =~= "rg"@);
        }
    }
}

#[verifier::spinoff_prover]
proof fn lemma_process_word_skips_rg_expansion(t: Seq<Seq<char>>)
    requires
        t.len() > 0,
        is_process_listing_word(lower(t[0])),
    ensures
        spec_classify_rg_expansion(t) is None,
{
    reveal_strlit("git");
    reveal_strlit("--count");
    reveal_strlit("--count-matches");
    reveal_strlit("--files-with-matches");
    reveal_strlit("--files-without-match");
    reveal_strlit("--json");
    reveal_strlit("-c");
    reveal_strlit("-l");
    reveal_strlit("get-process");
    reveal_strlit("get-process.exe");
    reveal_strlit("gps");
    reveal_strlit("ps");
    reveal_strlit("rg");
    reveal_strlit("tasklist");
    reveal_strlit("tasklist.exe");
    assert(!is_process_listing_word("git"@)) by {
        assert("git"@.len() != "get-process"@.len());
        assert("git"@.len() != "get-process.exe"@.len());
        assert("git"@[1] != "gps"@[1]);
        assert("git"@.len() != "ps"@.len());
        assert("git"@.len() != "tasklist"@.len());
        assert("git"@.len() != "tasklist.exe"@.len());
    }
    assert(!is_process_listing_word("--count"@)) by {
        assert("--count"@.len() != "get-process"@.len());
        assert("--count"@.len() != "get-process.exe"@.len());
        assert("--count"@.len() != "gps"@.len());
        assert("--count"@.len() != "ps"@.len());
        assert("--count"@.len() != "tasklist"@.len());
        assert("--count"@.len() != "tasklist.exe"@.len());
    }
    assert(!is_process_listing_word("--count-matches"@)) by {
        assert("--count-matches"@.len() != "get-process"@.len());
        assert("--count-matches"@[0] != "get-process.exe"@[0]);
        assert("--count-matches"@.len() != "gps"@.len());
        assert("--count-matches"@.len() != "ps"@.len());
        assert("--count-matches"@.len() != "tasklist"@.len());
        assert("--count-matches"@.len() != "tasklist.exe"@.len());
    }
    assert(!is_process_listing_word("--files-with-matches"@)) by {
        assert("--files-with-matches"@.len() != "get-process"@.len());
        assert("--files-with-matches"@.len() != "get-process.exe"@.len());
        assert("--files-with-matches"@.len() != "gps"@.len());
        assert("--files-with-matches"@.len() != "ps"@.len());
        assert("--files-with-matches"@.len() != "tasklist"@.len());
        assert("--files-with-matches"@.len() != "tasklist.exe"@.len());
    }
    assert(!is_process_listing_word("--files-without-match"@)) by {
        assert("--files-without-match"@.len() != "get-process"@.len());
        assert("--files-without-match"@.len() != "get-process.exe"@.len());
        assert("--files-without-match"@.len() != "gps"@.len());
        assert("--files-without-match"@.len() != "ps"@.len());
        assert("--files-without-match"@.len() != "tasklist"@.len());
        assert("--files-without-match"@.len() != "tasklist.exe"@.len());
    }
    assert(!is_process_listing_word("--json"@)) by {
        assert("--json"@.len() != "get-process"@.len());
        assert("--json"@.len() != "get-process.exe"@.len());
        assert("--json"@.len() != "gps"@.len());
        assert("--json"@.len() != "ps"@.len());
        assert("--json"@.len() != "tasklist"@.len());
        assert("--json"@.len() != "tasklist.exe"@.len());
    }
    assert(!is_process_listing_word("-c"@)) by {
        assert("-c"@.len() != "get-process"@.len());
        assert("-c"@.len() != "get-process.exe"@.len());
        assert("-c"@.len() != "gps"@.len());
        assert("-c"@[0] != "ps"@[0]);
        assert("-c"@.len() != "tasklist"@.len());
        assert("-c"@.len() != "tasklist.exe"@.len());
    }
    assert(!is_process_listing_word("-l"@)) by {
        assert("-l"@.len() != "get-process"@.len());
        assert("-l"@.len() != "get-process.exe"@.len());
        assert("-l"@.len() != "gps"@.len());
        assert("-l"@[0] != "ps"@[0]);
        assert("-l"@.len() != "tasklist"@.len());
        assert("-l"@.len() != "tasklist.exe"@.len());
    }
    assert(!is_process_listing_word("rg"@)) by {
        assert("rg"@.len() != "get-process"@.len());
        assert("rg"@.len() != "get-process.exe"@.len());
        assert("rg"@.len() != "gps"@.len());
        assert("rg"@[0] != "ps"@[0]);
        assert("rg"@.len() != "tasklist"@.len());
        assert("rg"@.len() != "tasklist.exe"@.len());
    }
    assert(t[0] != "git"@) by {
        if t[0] == "git"@ {
            assert(lower(t[0]) =~= "git"@);
        }
    }
    assert(t[0] != "rg"@) by {
        if t[0] == "rg"@ {
            assert(lower(t[0]) =~= "rg"@);
        }
    }
}

#[verifier::spinoff_prover]
proof fn lemma_process_word_skips_file_inventory(t: Seq<Seq<char>>)
    requires
        t.len() > 0,
        is_process_listing_word(lower(t[0])),
    ensures
        spec_classify_file_inventory(t) is None,
{
    reveal_strlit("rg");
    reveal_strlit("-maxdepth");
    reveal_strlit("-name");
    reveal_strlit("-type");
    reveal_strlit("fd");
    reveal_strlit("fd.exe");
    reveal_strlit("fdfind");
    reveal_strlit("fdfind.exe");
    reveal_strlit("find");
    reveal_strlit("find.exe");
    reveal_strlit("get-process");
    reveal_strlit("get-process.exe");
    reveal_strlit("git");
    reveal_strlit("gps");
    reveal_strlit("ls-files");
    reveal_strlit("ps");
    reveal_strlit("tasklist");
    reveal_strlit("tasklist.exe");
    reveal_strlit("tree");
    reveal_strlit("tree.exe");
    assert(!is_process_listing_word("rg"@)) by {
        assert("rg"@.len() != "get-process"@.len());
        assert("rg"@.len() != "get-process.exe"@.len());
        assert("rg"@.len() != "gps"@.len());
        assert("rg"@[0] != "ps"@[0]);
        assert("rg"@.len() != "tasklist"@.len());
        assert("rg"@.len() != "tasklist.exe"@.len());
    }
    assert(!is_process_listing_word("-maxdepth"@)) by {
        assert("-maxdepth"@.len() != "get-process"@.len());
        assert("-maxdepth"@.len() != "get-process.exe"@.len());
        assert("-maxdepth"@.len() != "gps"@.len());
        assert("-maxdepth"@.len() != "ps"@.len());
        assert("-maxdepth"@.len() != "tasklist"@.len());
        assert("-maxdepth"@.len() != "tasklist.exe"@.len());
    }
    assert(!is_process_listing_word("-name"@)) by {
        assert("-name"@.len() != "get-process"@.len());
        assert("-name"@.len() != "get-process.exe"@.len());
        assert("-name"@.len() != "gps"@.len());
        assert("-name"@.len() != "ps"@.len());
        assert("-name"@.len() != "tasklist"@.len());
        assert("-name"@.len() != "tasklist.exe"@.len());
    }
    assert(!is_process_listing_word("-type"@)) by {
        assert("-type"@.len() != "get-process"@.len());
        assert("-type"@.len() != "get-process.exe"@.len());
        assert("-type"@.len() != "gps"@.len());
        assert("-type"@.len() != "ps"@.len());
        assert("-type"@.len() != "tasklist"@.len());
        assert("-type"@.len() != "tasklist.exe"@.len());
    }
    assert(!is_process_listing_word("fd"@)) by {
        assert("fd"@.len() != "get-process"@.len());
        assert("fd"@.len() != "get-process.exe"@.len());
        assert("fd"@.len() != "gps"@.len());
        assert("fd"@[0] != "ps"@[0]);
        assert("fd"@.len() != "tasklist"@.len());
        assert("fd"@.len() != "tasklist.exe"@.len());
    }
    assert(!is_process_listing_word("fd.exe"@)) by {
        assert("fd.exe"@.len() != "get-process"@.len());
        assert("fd.exe"@.len() != "get-process.exe"@.len());
        assert("fd.exe"@.len() != "gps"@.len());
        assert("fd.exe"@.len() != "ps"@.len());
        assert("fd.exe"@.len() != "tasklist"@.len());
        assert("fd.exe"@.len() != "tasklist.exe"@.len());
    }
    assert(!is_process_listing_word("fdfind"@)) by {
        assert("fdfind"@.len() != "get-process"@.len());
        assert("fdfind"@.len() != "get-process.exe"@.len());
        assert("fdfind"@.len() != "gps"@.len());
        assert("fdfind"@.len() != "ps"@.len());
        assert("fdfind"@.len() != "tasklist"@.len());
        assert("fdfind"@.len() != "tasklist.exe"@.len());
    }
    assert(!is_process_listing_word("fdfind.exe"@)) by {
        assert("fdfind.exe"@.len() != "get-process"@.len());
        assert("fdfind.exe"@.len() != "get-process.exe"@.len());
        assert("fdfind.exe"@.len() != "gps"@.len());
        assert("fdfind.exe"@.len() != "ps"@.len());
        assert("fdfind.exe"@.len() != "tasklist"@.len());
        assert("fdfind.exe"@.len() != "tasklist.exe"@.len());
    }
    assert(!is_process_listing_word("find"@)) by {
        assert("find"@.len() != "get-process"@.len());
        assert("find"@.len() != "get-process.exe"@.len());
        assert("find"@.len() != "gps"@.len());
        assert("find"@.len() != "ps"@.len());
        assert("find"@.len() != "tasklist"@.len());
        assert("find"@.len() != "tasklist.exe"@.len());
    }
    assert(!is_process_listing_word("find.exe"@)) by {
        assert("find.exe"@.len() != "get-process"@.len());
        assert("find.exe"@.len() != "get-process.exe"@.len());
        assert("find.exe"@.len() != "gps"@.len());
        assert("find.exe"@.len() != "ps"@.len());
        assert("find.exe"@[0] != "tasklist"@[0]);
        assert("find.exe"@.len() != "tasklist.exe"@.len());
    }
    assert(!is_process_listing_word("git"@)) by {
        assert("git"@.len() != "get-process"@.len());
        assert("git"@.len() != "get-process.exe"@.len());
        assert("git"@[1] != "gps"@[1]);
        assert("git"@.len() != "ps"@.len());
        assert("git"@.len() != "tasklist"@.len());
        assert("git"@.len() != "tasklist.exe"@.len());
    }
    assert(!is_process_listing_word("ls-files"@)) by {
        assert("ls-files"@.len() != "get-process"@.len());
        assert("ls-files"@.len() != "get-process.exe"@.len());
        assert("ls-files"@.len() != "gps"@.len());
        assert("ls-files"@.len() != "ps"@.len());
        assert("ls-files"@[0] != "tasklist"@[0]);
        assert("ls-files"@.len() != "tasklist.exe"@.len());
    }
    assert(!is_process_listing_word("tree"@)) by {
        assert("tree"@.len() != "get-process"@.len());
        assert("tree"@.len() != "get-process.exe"@.len());
        assert("tree"@.len() != "gps"@.len());
        assert("tree"@.len() != "ps"@.len());
        assert("tree"@.len() != "tasklist"@.len());
        assert("tree"@.len() != "tasklist.exe"@.len());
    }
    assert(!is_process_listing_word("tree.exe"@)) by {
        assert("tree.exe"@.len() != "get-process"@.len());
        assert("tree.exe"@.len() != "get-process.exe"@.len());
        assert("tree.exe"@.len() != "gps"@.len());
        assert("tree.exe"@.len() != "ps"@.len());
        assert("tree.exe"@[1] != "tasklist"@[1]);
        assert("tree.exe"@.len() != "tasklist.exe"@.len());
    }
    assert(t[0] != "git"@) by {
        if t[0] == "git"@ {
            assert(lower(t[0]) =~= "git"@);
        }
    }
    assert(t[0] != "rg"@) by {
        if t[0] == "rg"@ {
            assert(lower(t[0]) =~= "rg"@);
        }
    }
}

#[verifier::spinoff_prover]
proof fn lemma_process_word_skips_directory_listing(t: Seq<Seq<char>>)
    requires
        t.len() > 0,
        is_process_listing_word(lower(t[0])),
    ensures
        spec_classify_directory_listing(t) is None,
{
    reveal_strlit("rg");
    reveal_strlit("git");
    reveal_strlit("dir");
    reveal_strlit("gci");
    reveal_strlit("get-childitem");
    reveal_strlit("get-childitem.exe");
    reveal_strlit("get-process");
    reveal_strlit("get-process.exe");
    reveal_strlit("gps");
    reveal_strlit("ls");
    reveal_strlit("ps");
    reveal_strlit("tasklist");
    reveal_strlit("tasklist.exe");
    assert(!is_process_listing_word("rg"@)) by {
        assert("rg"@.len() != "get-process"@.len());
        assert("rg"@.len() != "get-process.exe"@.len());
        assert("rg"@.len() != "gps"@.len());
        assert("rg"@[0] != "ps"@[0]);
        assert("rg"@.len() != "tasklist"@.len());
        assert("rg"@.len() != "tasklist.exe"@.len());
    }
    assert(!is_process_listing_word("git"@)) by {
        assert("git"@.len() != "get-process"@.len());
        assert("git"@.len() != "get-process.exe"@.len());
        assert("git"@[1] != "gps"@[1]);
        assert("git"@.len() != "ps"@.len());
        assert("git"@.len() != "tasklist"@.len());
        assert("git"@.len() != "tasklist.exe"@.len());
    }
    assert(!is_process_listing_word("dir"@)) by {
        assert("dir"@.len() != "get-process"@.len());
        assert("dir"@.len() != "get-process.exe"@.len());
        assert("dir"@[0] != "gps"@[0]);
        assert("dir"@.len() != "ps"@.len());
        assert("dir"@.len() != "tasklist"@.len());
        assert("dir"@.len() != "tasklist.exe"@.len());
    }
    assert(!is_process_listing_word("gci"@)) by {
        assert("gci"@.len() != "get-process"@.len());
        assert("gci"@.len() != "get-process.exe"@.len());
        assert("gci"@[1] != "gps"@[1]);
        assert("gci"@.len() != "ps"@.len());
        assert("gci"@.len() != "tasklist"@.len());
        assert("gci"@.len() != "tasklist.exe"@.len());
    }
    assert(!is_process_listing_word("get-childitem"@)) by {
        assert("get-childitem"@.len() != "get-process"@.len());
        assert("get-childitem"@.len() != "get-process.exe"@.len());
        assert("get-childitem"@.len() != "gps"@.len());
        assert("get-childitem"@.len() != "ps"@.len());
        assert("get-childitem"@.len() != "tasklist"@.len());
        assert("get-childitem"@.len() != "tasklist.exe"@.len());
    }
    assert(!is_process_listing_word("get-childitem.exe"@)) by {
        assert("get-childitem.exe"@.len() != "get-process"@.len());
        assert("get-childitem.exe"@.len() != "get-process.exe"@.len());
        assert("get-childitem.exe"@.len() != "gps"@.len());
        assert("get-childitem.exe"@.len() != "ps"@.len());
        assert("get-childitem.exe"@.len() != "tasklist"@.len());
        assert("get-childitem.exe"@.len() != "tasklist.exe"@.len());
    }
    assert(!is_process_listing_word("ls"@)) by {
        assert("ls"@.len() != "get-process"@.len());
        assert("ls"@.len() != "get-process.exe"@.len());
        assert("ls"@.len() != "gps"@.len());
        assert("ls"@[0] != "ps"@[0]);
        assert("ls"@.len() != "tasklist"@.len());
        assert("ls"@.len() != "tasklist.exe"@.len());
    }
    assert(t[0] != "git"@) by {
        if t[0] == "git"@ {
            assert(lower(t[0]) =~= "git"@);
        }
    }
    assert(t[0] != "rg"@) by {
        if t[0] == "rg"@ {
            assert(lower(t[0]) =~= "rg"@);
        }
    }
}

/// A command whose first word (in any letter case) lists processes is read
/// as a process table, whatever its arguments.
pub proof fn law_process_listings_are_process_tables(t: Seq<Seq<char>>)
    requires
        t.len() > 0,
        is_process_listing_word(lower(t[0])),
    ensures
        spec_classify_tokens(t) == Some(CandidateView::ProcessTableCompact),
{
    lemma_process_word_skips_promoted_git_diff(t);
    lemma_process_word_skips_git(t);
    lemma_process_word_skips_rg_files(t);
    lemma_process_word_skips_rg(t);
    lemma_process_word_skips_file_outline(t);
    lemma_process_word_skips_file_excerpt(t);
    lemma_process_word_skips_select_string(t);
    lemma_process_word_skips_generic_search(t);
    lemma_process_word_skips_run_check(t);
    lemma_process_word_skips_rg_expansion(t);
    lemma_process_word_skips_file_inventory(t);
    lemma_process_word_skips_directory_listing(t);
    lemma_process_word_is_process_table(t);
}

#[verifier::spinoff_prover]
proof fn lemma_process_word_is_process_table(t: Seq<Seq<char>>)
    requires
        t.len() > 0,
        is_process_listing_word(lower(t[0])),
    ensures
        spec_classify_process_table(t) == Some(CandidateView::ProcessTableCompact),
{
    reveal_strlit("get-process");
    reveal_strlit("get-process.exe");
    reveal_strlit("gps");
    reveal_strlit("ps");
    reveal_strlit("tasklist");
    reveal_strlit("tasklist.exe");
    let l = lit_views(seq!["get-process", "get-process.exe", "gps", "ps", "tasklist", "tasklist.exe"]);
    if lower(t[0]) == "get-process"@ {
        assert(l[0] == "get-process"@);
    }
    if lower(t[0]) == "get-process.exe"@ {
        assert(l[1] == "get-process.exe"@);
    }
    if lower(t[0]) == "gps"@ {
        assert(l[2] == "gps"@);
    }
    if lower(t[0]) == "ps"@ {
        assert(l[3] == "ps"@);
    }
    if lower(t[0]) == "tasklist"@ {
        assert(l[4] == "tasklist"@);
    }
    if lower(t[0]) == "tasklist.exe"@ {
        assert(l[5] == "tasklist.exe"@);
    }
}

/// A plain command (no shell control) whose first word lists processes is
/// classified as a process table.
pub proof fn law_process_listing_commands_classify(command: Seq<char>, t: Seq<Seq<char>>)
    requires
        !spec_has_shell_control(command),
        spec_shell_tokens(command) == Some(t),
        t.len() > 0,
        is_process_listing_word(lower(t[0])),
    ensures
        spec_classify_shell_replacement(command) == Some(CandidateView::ProcessTableCompact),
{
    law_process_listings_are_process_tables(t);
}

} // verus!
