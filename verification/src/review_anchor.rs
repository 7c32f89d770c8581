//! Git evidence for automatic self-review: the anchor taken when a work slice
//! starts, and the review prompt built from it and from the work since.
use vstd::prelude::*;

use crate::digest::entries_view;
use crate::digest::joined_lines;
use crate::digest::tally;
use crate::digest::tally_keys;
use crate::text::append_chars;
use crate::text::append_str;
use crate::text::chars_of;
use crate::text::clone_chars;
use crate::text::contains;
use crate::text::dec;
use crate::text::occurs_at;
use crate::text::ends_with;
use crate::text::starts_with;
use crate::text::join;
use crate::text::join_chars;
use crate::text::lines;
use crate::text::lines_of;
use crate::text::push_dec;
use crate::text::slice_chars;
use crate::text::string_of;
use crate::text::trim;
use crate::text::trim_chars;
use crate::text::views;

verus! {

/// How many files or commands a prompt lists at most.
pub const MAX_PROMPT_LIST_ITEMS: usize = 40;

/// How many characters of `git log` output a prompt keeps.
pub const MAX_GIT_OUTPUT_CHARS: usize = 12000;

/// How many dirty files an anchor copies at most.
pub const MAX_BASELINE_FILES: usize = 32;

/// The largest dirty file an anchor copies, in bytes.
pub const MAX_BASELINE_FILE_BYTES: u64 = 524288;

/// Whether a dirty path is copied as a baseline: a regular file of at most
/// `MAX_BASELINE_FILE_BYTES` bytes.
pub fn baseline_file_allowed(is_file: bool, size: u64) -> (r: bool)
    ensures
        r == (is_file && size <= MAX_BASELINE_FILE_BYTES),
{
    is_file && size <= MAX_BASELINE_FILE_BYTES
}

/// A copy of a file that was dirty when the anchor was taken.
#[derive(Clone)]
pub struct BaselineSnapshot {
    pub repo_path: String,
    pub baseline_path: String,
}

/// What `git` printed when the anchor was taken; `None` where the command failed.
pub struct AnchorEvidence {
    /// `git rev-parse --show-toplevel`, or the error text.
    pub toplevel: Result<String, String>,
    /// `git rev-parse HEAD`.
    pub head: Option<String>,
    /// `git diff --name-only --diff-filter=ACMRTUXB --`.
    pub unstaged: Option<String>,
    /// `git diff --cached --name-only --diff-filter=ACMRTUXB --`.
    pub staged: Option<String>,
    /// `git ls-files --others --exclude-standard`.
    pub untracked: Option<String>,
}

/// What `git` prints when the review prompt is built; `None` where the
/// command failed or was not run.
pub struct WorkEvidence {
    /// `git rev-parse HEAD`.
    pub head: Option<String>,
    /// `git log --oneline {anchor}..HEAD`.
    pub log: Option<String>,
    /// `git diff --name-only {anchor}..HEAD --`.
    pub committed: Option<String>,
    /// `git diff --name-only --`.
    pub unstaged: Option<String>,
    /// `git diff --cached --name-only --`.
    pub staged: Option<String>,
    /// `git ls-files --others --exclude-standard`.
    pub untracked: Option<String>,
}

/// The repository state at the start of a work slice.
#[derive(Clone)]
pub struct GitReviewAnchor {
    cwd: String,
    head: Option<String>,
    dirty_tracked_files: Vec<String>,
    staged_files: Vec<String>,
    untracked_files: Vec<String>,
    baseline_dir: Option<String>,
    baseline_snapshots: Vec<BaselineSnapshot>,
    capture_error: Option<String>,
}

pub struct SnapshotView {
    pub repo_path: Seq<char>,
    pub baseline_path: Seq<char>,
}

pub struct AnchorView {
    pub cwd: Seq<char>,
    pub head: Option<Seq<char>>,
    pub dirty_tracked_files: Seq<Seq<char>>,
    pub staged_files: Seq<Seq<char>>,
    pub untracked_files: Seq<Seq<char>>,
    pub baseline_dir: Option<Seq<char>>,
    pub baseline_snapshots: Seq<SnapshotView>,
    pub capture_error: Option<Seq<char>>,
}

pub open spec fn opt_chars(o: Option<String>) -> Option<Seq<char>> {
    match o {
        Some(s) => Some(s@),
        None => None,
    }
}

pub open spec fn string_seq(v: Seq<String>) -> Seq<Seq<char>> {
    v.map_values(|s: String| s@)
}

pub open spec fn snapshot_views(v: Seq<BaselineSnapshot>) -> Seq<SnapshotView> {
    v.map_values(|b: BaselineSnapshot| SnapshotView { repo_path: b.repo_path@, baseline_path: b.baseline_path@ })
}

impl View for GitReviewAnchor {
    type V = AnchorView;

    closed spec fn view(&self) -> AnchorView {
        AnchorView {
            cwd: self.cwd@,
            head: opt_chars(self.head),
            dirty_tracked_files: string_seq(self.dirty_tracked_files@),
            staged_files: string_seq(self.staged_files@),
            untracked_files: string_seq(self.untracked_files@),
            baseline_dir: opt_chars(self.baseline_dir),
            baseline_snapshots: snapshot_views(self.baseline_snapshots@),
            capture_error: opt_chars(self.capture_error),
        }
    }
}

// ------------------------------------------------------------ git output

/// The trimmed non-empty lines of a command's output; none when it failed.
pub open spec fn git_lines(output: Option<Seq<char>>) -> Seq<Seq<char>> {
    match output {
        Some(o) => nonempty_trimmed(lines(o)),
        None => Seq::<Seq<char>>::empty(),
    }
}

pub open spec fn nonempty_trimmed(ls: Seq<Seq<char>>) -> Seq<Seq<char>>
    decreases ls.len(),
{
    if ls.len() == 0 {
        Seq::<Seq<char>>::empty()
    } else {
        let r = nonempty_trimmed(ls.drop_last());
        let t = trim(ls.last());
        if t.len() > 0 {
            r.push(t)
        } else {
            r
        }
    }
}

/// The trimmed output, when the command succeeded and printed something.
pub open spec fn trimmed_value(output: Option<Seq<char>>) -> Option<Seq<char>> {
    match output {
        Some(o) => if trim(o).len() > 0 {
            Some(trim(o))
        } else {
            None
        },
        None => None,
    }
}

pub(crate) fn to_string_vec(v: &Vec<Vec<char>>) -> (r: Vec<String>)
    ensures
        string_seq(r@) == views(v@),
{
    let mut r: Vec<String> = Vec::new();
    for i in 0..v.len()
        invariant
            string_seq(r@) == views(v@).take(i as int),
    {
        let ghost before = r@;
        r.push(string_of(&v[i]));
        assert(string_seq(r@) =~= string_seq(before).push(v@[i as int]@));
        assert(views(v@).take(i + 1) =~= views(v@).take(i as int).push(views(v@)[i as int]));
    }
    assert(views(v@).take(v.len() as int) =~= views(v@));
    r
}

pub(crate) fn to_chars_vec(v: &Vec<String>) -> (r: Vec<Vec<char>>)
    ensures
        views(r@) == string_seq(v@),
{
    let mut r: Vec<Vec<char>> = Vec::new();
    for i in 0..v.len()
        invariant
            views(r@) == string_seq(v@).take(i as int),
    {
        let ghost before = r@;
        r.push(chars_of(v[i].as_str()));
        assert(views(r@) =~= views(before).push(v@[i as int]@));
        assert(string_seq(v@).take(i + 1) =~= string_seq(v@).take(i as int).push(v@[i as int]@));
    }
    assert(string_seq(v@).take(v.len() as int) =~= string_seq(v@));
    r
}

/// The trimmed non-empty lines of a `git` output.
pub fn git_lines_of(output: &Option<String>) -> (r: Vec<String>)
    ensures
        string_seq(r@) == git_lines(opt_chars(*output)),
{
    match output {
        Some(o) => {
            let ls = lines_of(&chars_of(o.as_str()));
            assert(views(ls@) =~= ls@.map_values(|p: Vec<char>| p@));
            let ghost lv = views(ls@);
            let mut kept: Vec<Vec<char>> = Vec::new();
            for i in 0..ls.len()
                invariant
                    lv == views(ls@),
                    views(kept@) == nonempty_trimmed(lv.take(i as int)),
            {
                assert(lv.take(i + 1).drop_last() =~= lv.take(i as int));
                assert(lv[i as int] == ls@[i as int]@);
                let t = trim_chars(&ls[i]);
                if t.len() > 0 {
                    crate::digest::push_row(&mut kept, t);
                }
            }
            assert(lv.take(ls.len() as int) =~= lv);
            to_string_vec(&kept)
        },
        None => Vec::new(),
    }
}

fn trimmed_value_of(output: &Option<String>) -> (r: Option<String>)
    ensures
        opt_chars(r) == trimmed_value(opt_chars(*output)),
{
    match output {
        Some(o) => {
            let t = trim_chars(&chars_of(o.as_str()));
            if t.len() > 0 {
                Some(string_of(&t))
            } else {
                None
            }
        },
        None => None,
    }
}

/// The distinct paths, sorted.
pub open spec fn unique_paths(paths: Seq<Seq<char>>) -> Seq<Seq<char>> {
    tally(paths).map_values(|e: (Seq<char>, nat)| e.0)
}

pub(crate) fn unique_paths_pub(paths: &Vec<Vec<char>>) -> (r: Vec<Vec<char>>)
    ensures
        views(r@) == unique_paths(views(paths@)),
{
    unique_paths_of(paths)
}

fn unique_paths_of(paths: &Vec<Vec<char>>) -> (r: Vec<Vec<char>>)
    ensures
        views(r@) == unique_paths(views(paths@)),
{
    let counts = tally_keys(paths);
    let ghost ev = entries_view(counts@);
    let mut r: Vec<Vec<char>> = Vec::new();
    for i in 0..counts.len()
        invariant
            ev == entries_view(counts@),
            views(r@) == ev.take(i as int).map_values(|e: (Seq<char>, nat)| e.0),
    {
        assert(ev[i as int].0 == counts@[i as int].0@);
        crate::digest::push_row(&mut r, clone_chars(&counts[i].0));
        assert(ev.take(i + 1).map_values(|e: (Seq<char>, nat)| e.0) =~= ev.take(i as int).map_values(
            |e: (Seq<char>, nat)| e.0,
        ).push(ev[i as int].0));
    }
    assert(ev.take(counts.len() as int) =~= ev);
    r
}

fn push_string_paths(out: &mut Vec<Vec<char>>, v: &Vec<String>)
    ensures
        views(final(out)@) == views(old(out)@) + string_seq(v@),
{
    let part = to_chars_vec(v);
    let n = part.len();
    crate::digest::push_rows(out, &part, n);
    assert(views(part@).take(n as int) =~= views(part@));
}

// ------------------------------------------------------------ quoting and lists

pub open spec fn is_plain_arg_char(c: char) -> bool {
    ('a' <= c <= 'z') || ('A' <= c <= 'Z') || ('0' <= c <= '9') || c == '/' || c == '\\' || c
        == '.' || c == '_' || c == '-' || c == ':'
}

/// `s` with each `'` written as `'\''`.
pub open spec fn escape_quotes(s: Seq<char>) -> Seq<char>
    decreases s.len(),
{
    if s.len() == 0 {
        Seq::<char>::empty()
    } else {
        escape_quotes(s.drop_last()) + if s.last() == '\'' {
            "'\\''"@
        } else {
            seq![s.last()]
        }
    }
}

/// A shell word for `arg`: as it is when it needs no quoting, else in single quotes.
pub open spec fn spec_quote_str(arg: Seq<char>) -> Seq<char> {
    if arg.len() == 0 {
        "''"@
    } else if forall|i: int| 0 <= i < arg.len() ==> is_plain_arg_char(#[trigger] arg[i]) {
        arg
    } else {
        "'"@ + escape_quotes(arg) + "'"@
    }
}

fn quote_str(arg: &[char]) -> (r: Vec<char>)
    ensures
        r@ == spec_quote_str(arg@),
{
    if arg.len() == 0 {
        return chars_of("''");
    }
    let mut plain = true;
    for i in 0..arg.len()
        invariant
            plain == forall|j: int| 0 <= j < i ==> is_plain_arg_char(#[trigger] arg@[j]),
    {
        let c = arg[i];
        if !(('a' <= c && c <= 'z') || ('A' <= c && c <= 'Z') || ('0' <= c && c <= '9') || c == '/'
            || c == '\\' || c == '.' || c == '_' || c == '-' || c == ':') {
            plain = false;
        }
    }
    if plain {
        return clone_chars(arg);
    }
    let mut r = chars_of("'");
    let ghost start = r@;
    for i in 0..arg.len()
        invariant
            start == "'"@,
            r@ == start + escape_quotes(arg@.take(i as int)),
    {
        assert(arg@.take(i + 1).drop_last() =~= arg@.take(i as int));
        if arg[i] == '\'' {
            append_str(&mut r, "'\\''");
        } else {
            r.push(arg[i]);
        }
        assert(r@ =~= start + escape_quotes(arg@.take(i + 1)));
    }
    assert(arg@.take(arg.len() as int) =~= arg@);
    append_str(&mut r, "'");
    r
}

/// Up to the first 40 items joined by `, `, then `... {n} more`; `(none)`
/// for no items.
pub open spec fn format_list(items: Seq<Seq<char>>) -> Seq<char> {
    if items.len() == 0 {
        "(none)"@
    } else {
        let shown = items.take(if items.len() < 40 { items.len() as int } else { 40 });
        join(
            if items.len() > 40 {
                shown.push("... "@ + dec((items.len() - 40) as nat) + " more"@)
            } else {
                shown
            },
            ", "@,
        )
    }
}

fn format_list_of(items: &Vec<Vec<char>>) -> (r: Vec<char>)
    ensures
        r@ == format_list(views(items@)),
{
    if items.len() == 0 {
        return chars_of("(none)");
    }
    let k = crate::digest::min_usize(items.len(), MAX_PROMPT_LIST_ITEMS);
    let mut parts: Vec<Vec<char>> = Vec::new();
    crate::digest::push_rows(&mut parts, items, k);
    if items.len() > MAX_PROMPT_LIST_ITEMS {
        let mut more = chars_of("... ");
        push_dec(&mut more, items.len() - MAX_PROMPT_LIST_ITEMS);
        append_str(&mut more, " more");
        crate::digest::push_row(&mut parts, more);
    }
    join_chars(&parts, ", ")
}

/// `repo -> baseline` for up to the first 40 snapshots; `(none)` for none.
pub open spec fn format_baselines(snaps: Seq<SnapshotView>) -> Seq<char> {
    if snaps.len() == 0 {
        "(none)"@
    } else {
        join(
            snaps.take(if snaps.len() < 40 { snaps.len() as int } else { 40 }).map_values(
                |s: SnapshotView| s.repo_path + " -> "@ + s.baseline_path,
            ),
            ", "@,
        )
    }
}

fn format_baselines_of(snaps: &Vec<BaselineSnapshot>) -> (r: Vec<char>)
    ensures
        r@ == format_baselines(snapshot_views(snaps@)),
{
    if snaps.len() == 0 {
        return chars_of("(none)");
    }
    let k = crate::digest::min_usize(snaps.len(), MAX_PROMPT_LIST_ITEMS);
    let ghost sv = snapshot_views(snaps@);
    let mut parts: Vec<Vec<char>> = Vec::new();
    for i in 0..k
        invariant
            k <= snaps.len(),
            sv == snapshot_views(snaps@),
            views(parts@) == sv.take(i as int).map_values(
                |s: SnapshotView| s.repo_path + " -> "@ + s.baseline_path,
            ),
    {
        let mut part = chars_of(snaps[i].repo_path.as_str());
        append_str(&mut part, " -> ");
        append_str(&mut part, snaps[i].baseline_path.as_str());
        assert(sv[i as int].repo_path == snaps@[i as int].repo_path@);
        crate::digest::push_row(&mut parts, part);
        assert(sv.take(i + 1).map_values(|s: SnapshotView| s.repo_path + " -> "@ + s.baseline_path)
            =~= sv.take(i as int).map_values(
            |s: SnapshotView| s.repo_path + " -> "@ + s.baseline_path,
        ).push(sv[i as int].repo_path + " -> "@ + sv[i as int].baseline_path));
    }
    join_chars(&parts, ", ")
}

/// The quoted paths joined by spaces.
pub open spec fn shell_join(paths: Seq<Seq<char>>) -> Seq<char> {
    join(paths.map_values(|p: Seq<char>| spec_quote_str(p)), " "@)
}

fn shell_join_of(paths: &Vec<Vec<char>>, k: usize) -> (r: Vec<char>)
    requires
        k <= paths.len(),
    ensures
        r@ == shell_join(views(paths@).take(k as int)),
{
    let ghost pv = views(paths@);
    let mut parts: Vec<Vec<char>> = Vec::new();
    for i in 0..k
        invariant
            k <= paths.len(),
            pv == views(paths@),
            views(parts@) == pv.take(i as int).map_values(|p: Seq<char>| spec_quote_str(p)),
    {
        assert(pv[i as int] == paths@[i as int]@);
        crate::digest::push_row(&mut parts, quote_str(&paths[i]));
        assert(pv.take(i + 1).map_values(|p: Seq<char>| spec_quote_str(p)) =~= pv.take(
            i as int,
        ).map_values(|p: Seq<char>| spec_quote_str(p)).push(spec_quote_str(pv[i as int])));
    }
    join_chars(&parts, " ")
}

/// `base` joined with `p` as `PathBuf::join` does with `/` separators.
pub open spec fn path_join(base: Seq<char>, p: Seq<char>) -> Seq<char> {
    if p.len() > 0 && p[0] == '/' {
        p
    } else if base.len() == 0 || base.last() == '/' {
        base + p
    } else {
        base + "/"@ + p
    }
}

pub(crate) fn path_join_of(base: &[char], p: &[char]) -> (r: Vec<char>)
    ensures
        r@ == path_join(base@, p@),
{
    if p.len() > 0 && p[0] == '/' {
        return clone_chars(p);
    }
    let mut r = clone_chars(base);
    if !(base.len() == 0 || base[base.len() - 1] == '/') {
        append_str(&mut r, "/");
    }
    append_chars(&mut r, p);
    r
}

/// The first 12000 characters, then a truncation marker when there were more.
pub open spec fn truncate_output(s: Seq<char>) -> Seq<char> {
    if s.len() > 12000 {
        s.take(12000) + "\n... truncated ..."@
    } else {
        s
    }
}

fn truncate_output_of(s: &[char]) -> (r: Vec<char>)
    ensures
        r@ == truncate_output(s@),
{
    if s.len() > MAX_GIT_OUTPUT_CHARS {
        let mut r = slice_chars(s, 0, MAX_GIT_OUTPUT_CHARS);
        append_str(&mut r, "\n... truncated ...");
        assert(s@.subrange(0, 12000) =~= s@.take(12000));
        r
    } else {
        clone_chars(s)
    }
}

/// A file name for a baseline copy: the path with separators and characters
/// that are special on some file systems replaced by `_`.
pub open spec fn spec_safe_baseline_name(path: Seq<char>) -> Seq<char> {
    path.map_values(
        |c: char|
            if c == '/' || c == '\\' || c == ':' || c == '*' || c == '?' || c == '"' || c == '<' || c
                == '>' || c == '|' {
                '_'
            } else {
                c
            },
    )
}

/// The file name under which a dirty file's baseline copy is stored.
pub fn safe_baseline_name(path: &str) -> (r: String)
    ensures
        r@ == spec_safe_baseline_name(path@),
{
    let p = chars_of(path);
    let mut r: Vec<char> = Vec::new();
    for i in 0..p.len()
        invariant
            r@ == spec_safe_baseline_name(p@.take(i as int)),
    {
        let c = p[i];
        let d = if c == '/' || c == '\\' || c == ':' || c == '*' || c == '?' || c == '"' || c == '<'
            || c == '>' || c == '|' {
            '_'
        } else {
            c
        };
        r.push(d);
        assert(spec_safe_baseline_name(p@.take(i + 1)) =~= spec_safe_baseline_name(
            p@.take(i as int),
        ).push(d));
    }
    assert(p@.take(p.len() as int) =~= p@);
    string_of(&r)
}

// ------------------------------------------------------------ capture

pub open spec fn spec_capture(cwd: Seq<char>, e: AnchorEvidence) -> AnchorView {
    match e.toplevel {
        Ok(root) => AnchorView {
            cwd: trim(root@),
            head: trimmed_value(opt_chars(e.head)),
            dirty_tracked_files: unique_paths(
                git_lines(opt_chars(e.unstaged)) + git_lines(opt_chars(e.staged)),
            ),
            staged_files: git_lines(opt_chars(e.staged)),
            untracked_files: git_lines(opt_chars(e.untracked)),
            baseline_dir: None,
            baseline_snapshots: Seq::<SnapshotView>::empty(),
            capture_error: None,
        },
        Err(err) => AnchorView {
            cwd: cwd,
            head: None,
            dirty_tracked_files: Seq::<Seq<char>>::empty(),
            staged_files: Seq::<Seq<char>>::empty(),
            untracked_files: Seq::<Seq<char>>::empty(),
            baseline_dir: None,
            baseline_snapshots: Seq::<SnapshotView>::empty(),
            capture_error: Some(err@),
        },
    }
}

impl GitReviewAnchor {
    /// The anchor for a working directory, from what `git` printed there: the
    /// repository root and commit, the dirty tracked files (unstaged and staged,
    /// sorted and without repeats), the staged and the untracked files; or the
    /// error when the directory is not in a repository. Baseline copies are
    /// added afterwards with [`GitReviewAnchor::with_baselines`].
    pub fn capture(cwd: String, evidence: AnchorEvidence) -> (r: GitReviewAnchor)
        ensures
            r@ == spec_capture(cwd@, evidence),
    {
        match &evidence.toplevel {
            Ok(root) => {
                let root_dir = string_of(&trim_chars(&chars_of(root.as_str())));
                let unstaged = git_lines_of(&evidence.unstaged);
                let staged = git_lines_of(&evidence.staged);
                let untracked = git_lines_of(&evidence.untracked);
                let mut all: Vec<Vec<char>> = Vec::new();
                push_string_paths(&mut all, &unstaged);
                push_string_paths(&mut all, &staged);
                let dirty = to_string_vec(&unique_paths_of(&all));
                let r = GitReviewAnchor {
                    cwd: root_dir,
                    head: trimmed_value_of(&evidence.head),
                    dirty_tracked_files: dirty,
                    staged_files: staged,
                    untracked_files: untracked,
                    baseline_dir: None,
                    baseline_snapshots: Vec::new(),
                    capture_error: None,
                };
                assert(snapshot_views(r.baseline_snapshots@) =~= Seq::<SnapshotView>::empty());
                r
            },
            Err(err) => {
                let r = GitReviewAnchor {
                    cwd: cwd,
                    head: None,
                    dirty_tracked_files: Vec::new(),
                    staged_files: Vec::new(),
                    untracked_files: Vec::new(),
                    baseline_dir: None,
                    baseline_snapshots: Vec::new(),
                    capture_error: Some(err.clone()),
                };
                assert(string_seq(r.dirty_tracked_files@) =~= Seq::<Seq<char>>::empty());
                assert(string_seq(r.staged_files@) =~= Seq::<Seq<char>>::empty());
                assert(string_seq(r.untracked_files@) =~= Seq::<Seq<char>>::empty());
                assert(snapshot_views(r.baseline_snapshots@) =~= Seq::<SnapshotView>::empty());
                r
            },
        }
    }

    /// The anchor with the baseline copies of its dirty files.
    pub fn with_baselines(self, dir: Option<String>, snapshots: Vec<BaselineSnapshot>) -> (r:
        GitReviewAnchor)
        ensures
            r@ == (AnchorView {
                baseline_dir: opt_chars(dir),
                baseline_snapshots: snapshot_views(snapshots@),
                ..self@
            }),
    {
        GitReviewAnchor { baseline_dir: dir, baseline_snapshots: snapshots, ..self }
    }

    /// The repository root (or the working directory when capture failed).
    pub fn cwd(&self) -> (r: &String)
        ensures
            r@ == self@.cwd,
    {
        &self.cwd
    }

    /// The commit at the anchor, when known.
    pub fn head(&self) -> (r: &Option<String>)
        ensures
            opt_chars(*r) == self@.head,
    {
        &self.head
    }

    /// Whether the capture failed.
    pub fn capture_failed(&self) -> (r: bool)
        ensures
            r == self@.capture_error is Some,
    {
        self.capture_error.is_some()
    }

    /// The dirty tracked files at the anchor.
    pub fn dirty_tracked_files(&self) -> (r: &Vec<String>)
        ensures
            string_seq(r@) == self@.dirty_tracked_files,
    {
        &self.dirty_tracked_files
    }

    /// The directory that holds the baseline copies, if any.
    pub fn baseline_dir(&self) -> (r: &Option<String>)
        ensures
            opt_chars(*r) == self@.baseline_dir,
    {
        &self.baseline_dir
    }
}

// ------------------------------------------------------------ the review prompt

pub const REVIEW_HEADER: &'static str = "Automatic self-review of the just-completed work slice.\n\n";

pub const ANCHORED_INTRO: &'static str = "Please review the changes done since the last self-review checkpoint. Use the git evidence below before relying on conversation memory. Fix actionable findings, then let Codex resume queued work.\n\nReview anchor:\n- repository: ";

pub const ANCHORED_INSTRUCTIONS: &'static str = "\n\nReview instructions:\n- Check for bugs, regressions, maintainability issues, missed tests, and long-term design problems.\n- Prefer targeted file reads and the diff commands above; do not broaden into unrelated repository areas.\n- If you find a concrete repo-controlled issue, apply one coherent repair pass and rerun the most relevant targeted verification before finalizing.\n- If there are no findings, say that explicitly and continue with queued work.";

pub const LIMITED_INSTRUCTIONS: &'static str = ").\n\nReview instructions:\n- First check whether this is expected for the current working directory.\n- If a git repository is available, start with `git status --short`, then inspect targeted diffs for the changed files.\n- Otherwise, use the compact work notes below and the most relevant targeted file reads to review for bugs, regressions, maintainability issues, missed tests, and long-term design problems.\n- If you find a concrete repo-controlled issue, apply one coherent repair pass and rerun the most relevant targeted verification before finalizing.\n- If there are no findings, say that explicitly and continue with queued work.";

/// How the prompt opens when no anchor could be captured.
pub const LIMITED_OPENING: &'static str = "Git evidence is limited: Codex could not capture a git review anchor for `";

/// The heading under which the work notes close every review prompt.
pub const WORK_NOTES_HEADING: &'static str = "\n\nCompact work notes:\n";

/// What the prompt says when no anchor could be captured.
pub open spec fn limited_body(cwd: Seq<char>, error: Seq<char>) -> Seq<char> {
    LIMITED_OPENING@ + cwd + "` ("@ + error
        + LIMITED_INSTRUCTIONS@
}

/// The prompt when no anchor could be captured.
pub open spec fn spec_limited_prompt(cwd: Seq<char>, error: Seq<char>, notes: Seq<char>) -> Seq<char> {
    REVIEW_HEADER@ + limited_body(cwd, error) + WORK_NOTES_HEADING@ + notes + "\n"@
}

fn limited_git_prompt(cwd: &str, error: &str, notes: &str) -> (r: String)
    ensures
        r@ == spec_limited_prompt(cwd@, error@, notes@),
{
    let mut r = chars_of(REVIEW_HEADER);
    append_str(&mut r, LIMITED_OPENING);
    append_str(&mut r, cwd);
    append_str(&mut r, "` (");
    append_str(&mut r, error);
    append_str(&mut r, LIMITED_INSTRUCTIONS);
    append_str(&mut r, WORK_NOTES_HEADING);
    append_str(&mut r, notes);
    append_str(&mut r, "\n");
    string_of(&r)
}

/// The snapshots whose files are among the changed files, in order.
pub open spec fn applicable_snapshots(snaps: Seq<SnapshotView>, changed: Seq<Seq<char>>) -> Seq<
    SnapshotView,
>
    decreases snaps.len(),
{
    if snaps.len() == 0 {
        Seq::<SnapshotView>::empty()
    } else if changed.contains(snaps.last().repo_path) {
        applicable_snapshots(snaps.drop_last(), changed).push(snaps.last())
    } else {
        applicable_snapshots(snaps.drop_last(), changed)
    }
}

/// The command that diffs a file against its baseline copy.
pub open spec fn baseline_command(s: SnapshotView, cwd: Seq<char>) -> Seq<char> {
    "git diff --no-index -- "@ + spec_quote_str(s.baseline_path) + " "@ + spec_quote_str(
        path_join(cwd, s.repo_path),
    )
}

/// The bullet list of baseline diff commands, or a note that none apply.
pub open spec fn baseline_section(snaps: Seq<SnapshotView>, changed: Seq<Seq<char>>, cwd: Seq<char>) -> Seq<char> {
    let applicable = applicable_snapshots(snaps, changed);
    let cmds = applicable.take(if applicable.len() < 40 { applicable.len() as int } else { 40 });
    if cmds.len() == 0 {
        "- (no dirty-at-anchor baseline snapshots apply to the current changed files)"@
    } else {
        join(cmds.map_values(|c: SnapshotView| "- `"@ + baseline_command(c, cwd) + "`"@), "\n"@)
    }
}

pub open spec fn or_text(v: Option<Seq<char>>, fallback: Seq<char>) -> Seq<char> {
    match v {
        Some(x) => x,
        None => fallback,
    }
}

/// The files changed since the anchor: committed, staged, unstaged and
/// untracked, sorted and without repeats.
pub open spec fn changed_since_anchor(a: AnchorView, w: WorkEvidence) -> Seq<Seq<char>> {
    let committed = match a.head {
        Some(_) => git_lines(opt_chars(w.committed)),
        None => Seq::<Seq<char>>::empty(),
    };
    unique_paths(
        committed + git_lines(opt_chars(w.staged)) + git_lines(opt_chars(w.unstaged)) + git_lines(
            opt_chars(w.untracked),
        ),
    )
}

pub open spec fn commits_text(a: AnchorView, w: WorkEvidence) -> Seq<char> {
    let t = match (a.head, opt_chars(w.log)) {
        (Some(_), Some(o)) => truncate_output(trim(o)),
        _ => Seq::<char>::empty(),
    };
    if t.len() > 0 {
        t
    } else {
        "(no commits since anchor or anchor commit unavailable)"@
    }
}

pub open spec fn files_arg(changed: Seq<Seq<char>>) -> Seq<char> {
    let j = shell_join(changed.take(if changed.len() < 40 { changed.len() as int } else { 40 }));
    if j.len() == 0 {
        "<files>"@
    } else {
        j
    }
}

/// The review prompt of an anchor, given what `git` prints now.
pub open spec fn spec_anchor_prompt(a: AnchorView, w: WorkEvidence, notes: Seq<char>) -> Seq<char> {
    match a.capture_error {
        Some(err) => spec_limited_prompt(a.cwd, err, notes),
        None => {
            let changed = changed_since_anchor(a, w);
            let anchor_head = or_text(a.head, "(anchor commit unavailable)"@);
            let current_head = or_text(
                trimmed_value(opt_chars(w.head)),
                "(current commit unavailable)"@,
            );
            let fa = files_arg(changed);
            let diff_cmd = match a.head {
                Some(h) => "git diff "@ + h + "..HEAD -- "@ + fa,
                None => "git diff <anchor>..HEAD -- <files>"@,
            };
            REVIEW_HEADER@ + anchored_body(a, w) + WORK_NOTES_HEADING@ + notes + "\n"@
        },
    }
}

/// What the prompt says of an anchor and the work since it.
pub open spec fn anchored_body(a: AnchorView, w: WorkEvidence) -> Seq<char> {
    let changed = changed_since_anchor(a, w);
    let anchor_head = or_text(a.head, "(anchor commit unavailable)"@);
    let current_head = or_text(trimmed_value(opt_chars(w.head)), "(current commit unavailable)"@);
    let fa = files_arg(changed);
    let diff_cmd = match a.head {
        Some(h) => "git diff "@ + h + "..HEAD -- "@ + fa,
        None => "git diff <anchor>..HEAD -- <files>"@,
    };
    ANCHORED_INTRO@ + a.cwd + "\n- anchor commit: "@ + anchor_head
                + "\n- current commit: "@ + current_head + "\n- dirty tracked files at anchor: "@
                + format_list(a.dirty_tracked_files) + "\n- staged files at anchor: "@ + format_list(
                a.staged_files,
            ) + "\n- untracked files at anchor: "@ + format_list(a.untracked_files)
                + "\n- dirty-at-anchor baseline snapshots: "@ + format_baselines(a.baseline_snapshots)
                + "\n\nWork since anchor:\n- commits since anchor:\n"@ + commits_text(a, w)
                + "\n- changed files since anchor: "@ + format_list(changed)
                + "\n- currently staged files: "@ + format_list(git_lines(opt_chars(w.staged)))
                + "\n- currently unstaged tracked files: "@ + format_list(
                git_lines(opt_chars(w.unstaged)),
            ) + "\n- currently untracked files: "@ + format_list(git_lines(opt_chars(w.untracked)))
                + "\n\nExact diff commands to inspect:\n- `git status --short`\n- `git log --oneline "@
                + anchor_head + "..HEAD`\n- `"@ + diff_cmd + "`\n- `git diff --cached -- "@ + fa
                + "`\n- `git diff -- "@ + fa + "`\n"@ + baseline_section(
                a.baseline_snapshots,
                changed,
                a.cwd,
            ) + ANCHORED_INSTRUCTIONS@
}

fn contains_path(paths: &Vec<Vec<char>>, p: &[char]) -> (r: bool)
    ensures
        r == views(paths@).contains(p@),
{
    for i in 0..paths.len()
        invariant
            forall|j: int| 0 <= j < i ==> views(paths@)[j] != p@,
    {
        if crate::text::chars_eq(&paths[i], p) {
            assert(views(paths@)[i as int] == p@);
            return true;
        }
    }
    false
}

fn baseline_section_of(snaps: &Vec<BaselineSnapshot>, changed: &Vec<Vec<char>>, cwd: &[char]) -> (r:
    Vec<char>)
    ensures
        r@ == baseline_section(snapshot_views(snaps@), views(changed@), cwd@),
{
    let ghost sv = snapshot_views(snaps@);
    let ghost cv = views(changed@);
    let mut applicable: Vec<BaselineSnapshot> = Vec::new();
    for i in 0..snaps.len()
        invariant
            sv == snapshot_views(snaps@),
            cv == views(changed@),
            snapshot_views(applicable@) == applicable_snapshots(sv.take(i as int), cv),
    {
        assert(sv.take(i + 1).drop_last() =~= sv.take(i as int));
        assert(sv[i as int].repo_path == snaps@[i as int].repo_path@);
        if contains_path(changed, &chars_of(snaps[i].repo_path.as_str())) {
            let ghost before = applicable@;
            applicable.push(
                BaselineSnapshot {
                    repo_path: snaps[i].repo_path.clone(),
                    baseline_path: snaps[i].baseline_path.clone(),
                },
            );
            assert(snapshot_views(applicable@) =~= snapshot_views(before).push(sv[i as int]));
        }
    }
    assert(sv.take(snaps.len() as int) =~= sv);
    let ghost av = snapshot_views(applicable@);
    let k = crate::digest::min_usize(applicable.len(), MAX_PROMPT_LIST_ITEMS);
    if k == 0 {
        return chars_of("- (no dirty-at-anchor baseline snapshots apply to the current changed files)");
    }
    let mut lines: Vec<Vec<char>> = Vec::new();
    for i in 0..k
        invariant
            k <= applicable.len(),
            av == snapshot_views(applicable@),
            views(lines@) == av.take(i as int).map_values(
                |c: SnapshotView| "- `"@ + baseline_command(c, cwd@) + "`"@,
            ),
    {
        let s = &applicable[i];
        assert(av[i as int] == SnapshotView { repo_path: s.repo_path@, baseline_path: s.baseline_path@ });
        let mut line = chars_of("- `");
        append_str(&mut line, "git diff --no-index -- ");
        let q1 = quote_str(&chars_of(s.baseline_path.as_str()));
        append_chars(&mut line, &q1);
        append_str(&mut line, " ");
        let q2 = quote_str(&path_join_of(cwd, &chars_of(s.repo_path.as_str())));
        append_chars(&mut line, &q2);
        append_str(&mut line, "`");
        assert(line@ =~= "- `"@ + baseline_command(av[i as int], cwd@) + "`"@);
        crate::digest::push_row(&mut lines, line);
        assert(av.take(i + 1).map_values(|c: SnapshotView| "- `"@ + baseline_command(c, cwd@) + "`"@)
            =~= av.take(i as int).map_values(
            |c: SnapshotView| "- `"@ + baseline_command(c, cwd@) + "`"@,
        ).push("- `"@ + baseline_command(av[i as int], cwd@) + "`"@));
    }
    join_chars(&lines, "\n")
}

impl GitReviewAnchor {
    /// The self-review prompt: the anchor, the work since it as `git` prints
    /// it now, exact diff commands to inspect, and the compact work notes.
    /// When capture failed, a prompt that says the git evidence is limited.
    pub fn prompt(&self, work: &WorkEvidence, work_notes: &str) -> (r: String)
        ensures
            r@ == spec_anchor_prompt(self@, *work, work_notes@),
    {
        if let Some(error) = &self.capture_error {
            return limited_git_prompt(self.cwd.as_str(), error.as_str(), work_notes);
        }
        let ghost a = self@;
        let committed = if self.head.is_some() {
            git_lines_of(&work.committed)
        } else {
            Vec::new()
        };
        let staged = git_lines_of(&work.staged);
        let unstaged = git_lines_of(&work.unstaged);
        let untracked = git_lines_of(&work.untracked);
        let mut all: Vec<Vec<char>> = Vec::new();
        push_string_paths(&mut all, &committed);
        push_string_paths(&mut all, &staged);
        push_string_paths(&mut all, &unstaged);
        push_string_paths(&mut all, &untracked);
        let changed = unique_paths_of(&all);
        assert(views(changed@) == changed_since_anchor(a, *work)) by {
            assert(string_seq(committed@) =~= match a.head {
                Some(_) => git_lines(opt_chars(work.committed)),
                None => Seq::<Seq<char>>::empty(),
            });
        }
        let anchor_head = match &self.head {
            Some(h) => chars_of(h.as_str()),
            None => chars_of("(anchor commit unavailable)"),
        };
        let current_head = match trimmed_value_of(&work.head) {
            Some(h) => chars_of(h.as_str()),
            None => chars_of("(current commit unavailable)"),
        };
        let commits_raw = match (&self.head, &work.log) {
            (Some(_), Some(o)) => truncate_output_of(&trim_chars(&chars_of(o.as_str()))),
            _ => Vec::new(),
        };
        let commits = if commits_raw.len() > 0 {
            commits_raw
        } else {
            chars_of("(no commits since anchor or anchor commit unavailable)")
        };
        let k = crate::digest::min_usize(changed.len(), MAX_PROMPT_LIST_ITEMS);
        let joined = shell_join_of(&changed, k);
        let fa = if joined.len() == 0 {
            chars_of("<files>")
        } else {
            joined
        };
        let diff_cmd = match &self.head {
            Some(h) => {
                let mut c = chars_of("git diff ");
                append_str(&mut c, h.as_str());
                append_str(&mut c, "..HEAD -- ");
                append_chars(&mut c, &fa);
                c
            },
            None => chars_of("git diff <anchor>..HEAD -- <files>"),
        };
        let cwd = chars_of(self.cwd.as_str());
        let section = baseline_section_of(&self.baseline_snapshots, &changed, &cwd);
        let mut r = chars_of(ANCHORED_INTRO);
        append_chars(&mut r, &cwd);
        append_str(&mut r, "\n- anchor commit: ");
        append_chars(&mut r, &anchor_head);
        append_str(&mut r, "\n- current commit: ");
        append_chars(&mut r, &current_head);
        append_str(&mut r, "\n- dirty tracked files at anchor: ");
        append_chars(&mut r, &format_list_of(&to_chars_vec(&self.dirty_tracked_files)));
        append_str(&mut r, "\n- staged files at anchor: ");
        append_chars(&mut r, &format_list_of(&to_chars_vec(&self.staged_files)));
        append_str(&mut r, "\n- untracked files at anchor: ");
        append_chars(&mut r, &format_list_of(&to_chars_vec(&self.untracked_files)));
        append_str(&mut r, "\n- dirty-at-anchor baseline snapshots: ");
        append_chars(&mut r, &format_baselines_of(&self.baseline_snapshots));
        append_str(&mut r, "\n\nWork since anchor:\n- commits since anchor:\n");
        append_chars(&mut r, &commits);
        append_str(&mut r, "\n- changed files since anchor: ");
        append_chars(&mut r, &format_list_of(&changed));
        append_str(&mut r, "\n- currently staged files: ");
        append_chars(&mut r, &format_list_of(&to_chars_vec(&staged)));
        append_str(&mut r, "\n- currently unstaged tracked files: ");
        append_chars(&mut r, &format_list_of(&to_chars_vec(&unstaged)));
        append_str(&mut r, "\n- currently untracked files: ");
        append_chars(&mut r, &format_list_of(&to_chars_vec(&untracked)));
        append_str(
            &mut r,
            "\n\nExact diff commands to inspect:\n- `git status --short`\n- `git log --oneline ",
        );
        append_chars(&mut r, &anchor_head);
        append_str(&mut r, "..HEAD`\n- `");
        append_chars(&mut r, &diff_cmd);
        append_str(&mut r, "`\n- `git diff --cached -- ");
        append_chars(&mut r, &fa);
        append_str(&mut r, "`\n- `git diff -- ");
        append_chars(&mut r, &fa);
        append_str(&mut r, "`\n");
        append_chars(&mut r, &section);
        append_str(&mut r, ANCHORED_INSTRUCTIONS);
        assert(r@ =~= anchored_body(a, *work));
        let mut p = chars_of(REVIEW_HEADER);
        append_chars(&mut p, &r);
        append_str(&mut p, WORK_NOTES_HEADING);
        append_str(&mut p, work_notes);
        append_str(&mut p, "\n");
        assert(p@ =~= REVIEW_HEADER@ + anchored_body(a, *work) + WORK_NOTES_HEADING@ + work_notes@ + "\n"@);
        string_of(&p)
    }
}

// ------------------------------------------------------------ anchors handed out

fn copy_strings(v: &Vec<String>) -> (r: Vec<String>)
    ensures
        string_seq(r@) == string_seq(v@),
{
    to_string_vec(&to_chars_vec(v))
}

fn copy_opt(v: &Option<String>) -> (r: Option<String>)
    ensures
        opt_chars(r) == opt_chars(*v),
{
    match v {
        Some(s) => Some(s.clone()),
        None => None,
    }
}

impl GitReviewAnchor {
    /// A copy of the anchor.
    pub fn duplicate(&self) -> (r: GitReviewAnchor)
        ensures
            r@ == self@,
    {
        let mut snapshots: Vec<BaselineSnapshot> = Vec::new();
        for i in 0..self.baseline_snapshots.len()
            invariant
                snapshot_views(snapshots@) == snapshot_views(self.baseline_snapshots@).take(i as int),
        {
            let s = &self.baseline_snapshots[i];
            let ghost before = snapshots@;
            snapshots.push(
                BaselineSnapshot { repo_path: s.repo_path.clone(), baseline_path: s.baseline_path.clone() },
            );
            assert(snapshot_views(snapshots@) =~= snapshot_views(before).push(
                snapshot_views(self.baseline_snapshots@)[i as int],
            ));
            assert(snapshot_views(self.baseline_snapshots@).take(i + 1) =~= snapshot_views(
                self.baseline_snapshots@,
            ).take(i as int).push(snapshot_views(self.baseline_snapshots@)[i as int]));
        }
        assert(snapshot_views(self.baseline_snapshots@).take(self.baseline_snapshots.len() as int)
            =~= snapshot_views(self.baseline_snapshots@));
        GitReviewAnchor {
            cwd: self.cwd.clone(),
            head: copy_opt(&self.head),
            dirty_tracked_files: copy_strings(&self.dirty_tracked_files),
            staged_files: copy_strings(&self.staged_files),
            untracked_files: copy_strings(&self.untracked_files),
            baseline_dir: copy_opt(&self.baseline_dir),
            baseline_snapshots: snapshots,
            capture_error: copy_opt(&self.capture_error),
        }
    }
}

/// An anchor taken for a later review of the work done since.
pub struct ReviewAnchor {
    anchor: GitReviewAnchor,
}

/// The work slice since an anchor, ready to be reviewed.
pub struct ReviewWorkSlice {
    anchor: GitReviewAnchor,
}

impl ReviewAnchor {
    /// The anchor for a working directory, from what `git` printed there.
    pub fn capture(cwd: String, evidence: AnchorEvidence) -> (r: ReviewAnchor)
        ensures
            r.anchor_view() == spec_capture(cwd@, evidence),
    {
        ReviewAnchor { anchor: GitReviewAnchor::capture(cwd, evidence) }
    }

    pub closed spec fn anchor_view(&self) -> AnchorView {
        self.anchor@
    }

    /// The underlying git anchor.
    pub fn anchor(&self) -> (r: &GitReviewAnchor)
        ensures
            r@ == self.anchor_view(),
    {
        &self.anchor
    }

    /// The work slice since this anchor.
    pub fn work_slice(&self) -> (r: ReviewWorkSlice)
        ensures
            r.anchor_view() == self.anchor_view(),
    {
        ReviewWorkSlice { anchor: self.anchor.duplicate() }
    }
}

impl ReviewWorkSlice {
    pub closed spec fn anchor_view(&self) -> AnchorView {
        self.anchor@
    }

    /// The anchor the slice starts at.
    pub fn anchor(&self) -> (r: &GitReviewAnchor)
        ensures
            r@ == self.anchor_view(),
    {
        &self.anchor
    }

    /// The review prompt for the slice, given what `git` prints now.
    pub fn review_prompt(&self, work: &WorkEvidence, work_notes: &str) -> (r: String)
        ensures
            r@ == spec_anchor_prompt(self.anchor_view(), *work, work_notes@),
    {
        self.anchor.prompt(work, work_notes)
    }
}

/// Every review prompt opens with the self-review header and closes with the
/// compact work notes on their own line; its second paragraph says that git
/// evidence is limited exactly when the anchor could not be captured.
pub proof fn law_prompt_frame(a: AnchorView, w: WorkEvidence, notes: Seq<char>)
    ensures
        starts_with(spec_anchor_prompt(a, w, notes), REVIEW_HEADER@),
        ends_with(spec_anchor_prompt(a, w, notes), WORK_NOTES_HEADING@ + notes + "\n"@),
        (a.capture_error is Some) == starts_with(
            spec_anchor_prompt(a, w, notes),
            REVIEW_HEADER@ + "Git evidence is limited"@,
        ),
{
    let p = spec_anchor_prompt(a, w, notes);
    let h = REVIEW_HEADER@;
    let tail = WORK_NOTES_HEADING@ + notes + "\n"@;
    let g = "Git evidence is limited"@;
    let body = match a.capture_error {
        Some(err) => limited_body(a.cwd, err),
        None => anchored_body(a, w),
    };
    assert(p =~= h + body + tail);
    assert(p.subrange(0, h.len() as int) =~= h);
    assert(p.subrange(p.len() - tail.len(), p.len() as int) =~= tail);
    lemma_body_opening(a, w);
    if starts_with(p, h + g) {
        assert(p.subrange(0, (h + g).len() as int)[h.len() as int] == p[h.len() as int]);
        assert(p[h.len() as int] == body[0]);
    }
    match a.capture_error {
        Some(err) => {
            assert(p.subrange(0, (h + g).len() as int) =~= h + body.take(g.len() as int));
        },
        None => {},
    }
}

proof fn lemma_body_opening(a: AnchorView, w: WorkEvidence)
    ensures
        "Git evidence is limited"@.len() == 23,
        "Git evidence is limited"@[0] == 'G',
        match a.capture_error {
            Some(err) => limited_body(a.cwd, err).len() >= 23 && limited_body(a.cwd, err).take(23)
                == "Git evidence is limited"@,
            None => anchored_body(a, w).len() > 0 && anchored_body(a, w)[0] == 'P',
        },
{
    reveal_strlit("Git evidence is limited");
    reveal_strlit("Git evidence is limited: Codex could not capture a git review anchor for `");
    reveal_strlit("Please review the changes done since the last self-review checkpoint. Use the git evidence below before relying on conversation memory. Fix actionable findings, then let Codex resume queued work.\n\nReview anchor:\n- repository: ");
    match a.capture_error {
        Some(err) => {
            let l = "Git evidence is limited: Codex could not capture a git review anchor for `"@;
            assert(limited_body(a.cwd, err).take(23) =~= l.take(23));
            assert(l.take(23) =~= "Git evidence is limited"@);
        },
        None => {
            assert(anchored_body(a, w)[0] == ANCHORED_INTRO@[0]);
        },
    }
}

/// No character of `s` from position `i` on is `c`.
pub open spec fn lacks_char_from(s: Seq<char>, c: char, i: int) -> bool
    decreases s.len() - i,
{
    if i < 0 || i >= s.len() {
        true
    } else {
        s[i] != c && lacks_char_from(s, c, i + 1)
    }
}

proof fn lemma_lacks_char(s: Seq<char>, c: char, i: int)
    requires
        0 <= i,
        lacks_char_from(s, c, i),
    ensures
        forall|j: int| i <= j < s.len() ==> s[j] != c,
    decreases s.len() - i,
{
    if i < s.len() {
        lemma_lacks_char(s, c, i + 1);
    }
}

proof fn lemma_header_lacks_e()
    ensures
        forall|j: int| 0 <= j < REVIEW_HEADER@.len() ==> REVIEW_HEADER@[j] != 'E',
{
    reveal_strlit("Automatic self-review of the just-completed work slice.\n\n");
    reveal_with_fuel(lacks_char_from, 60);
    assert(lacks_char_from(REVIEW_HEADER@, 'E', 0));
    lemma_lacks_char(REVIEW_HEADER@, 'E', 0);
}

#[verifier::spinoff_prover]
proof fn lemma_limited_instructions_lack_e()
    ensures
        forall|j: int| 0 <= j < LIMITED_INSTRUCTIONS@.len() ==> LIMITED_INSTRUCTIONS@[j] != 'E',
{
    reveal_strlit(").\n\nReview instructions:\n- First check whether this is expected for the current working directory.\n- If a git repository is available, start with `git status --short`, then inspect targeted diffs for the changed files.\n- Otherwise, use the compact work notes below and the most relevant targeted file reads to review for bugs, regressions, maintainability issues, missed tests, and long-term design problems.\n- If you find a concrete repo-controlled issue, apply one coherent repair pass and rerun the most relevant targeted verification before finalizing.\n- If there are no findings, say that explicitly and continue with queued work.");
    reveal_with_fuel(lacks_char_from, 45);
    assert(lacks_char_from(LIMITED_INSTRUCTIONS@, 'E', 600));
    assert(lacks_char_from(LIMITED_INSTRUCTIONS@, 'E', 560));
    assert(lacks_char_from(LIMITED_INSTRUCTIONS@, 'E', 520));
    assert(lacks_char_from(LIMITED_INSTRUCTIONS@, 'E', 480));
    assert(lacks_char_from(LIMITED_INSTRUCTIONS@, 'E', 440));
    assert(lacks_char_from(LIMITED_INSTRUCTIONS@, 'E', 400));
    assert(lacks_char_from(LIMITED_INSTRUCTIONS@, 'E', 360));
    assert(lacks_char_from(LIMITED_INSTRUCTIONS@, 'E', 320));
    assert(lacks_char_from(LIMITED_INSTRUCTIONS@, 'E', 280));
    assert(lacks_char_from(LIMITED_INSTRUCTIONS@, 'E', 240));
    assert(lacks_char_from(LIMITED_INSTRUCTIONS@, 'E', 200));
    assert(lacks_char_from(LIMITED_INSTRUCTIONS@, 'E', 160));
    assert(lacks_char_from(LIMITED_INSTRUCTIONS@, 'E', 120));
    assert(lacks_char_from(LIMITED_INSTRUCTIONS@, 'E', 80));
    assert(lacks_char_from(LIMITED_INSTRUCTIONS@, 'E', 40));
    assert(lacks_char_from(LIMITED_INSTRUCTIONS@, 'E', 0));
    lemma_lacks_char(LIMITED_INSTRUCTIONS@, 'E', 0);
}

/// The heading of the exact diff commands in an anchored prompt.
pub open spec fn diff_heading() -> Seq<char> {
    "Exact diff commands to inspect:"@
}

proof fn lemma_fixed_pieces_lack_e()
    ensures
        forall|j: int| 0 <= j < WORK_NOTES_HEADING@.len() ==> WORK_NOTES_HEADING@[j] != 'E',
        forall|j: int| 0 <= j < LIMITED_OPENING@.len() ==> LIMITED_OPENING@[j] != 'E',
        WORK_NOTES_HEADING@.len() > 0 && WORK_NOTES_HEADING@[0] == '\n' && WORK_NOTES_HEADING@.last() == '\n',
        LIMITED_OPENING@.len() > 0 && LIMITED_OPENING@.last() == '`',
        LIMITED_INSTRUCTIONS@.len() > 0 && LIMITED_INSTRUCTIONS@[0] == ')',
        "` ("@.len() == 3 && "` ("@[0] == '`' && "` ("@[2] == '(' && "` ("@[1] == ' ',
        "\n"@.len() == 1 && "\n"@[0] == '\n',
        REVIEW_HEADER@.len() > 0 && REVIEW_HEADER@.last() == '\n',
{
    reveal_strlit("\n\nCompact work notes:\n");
    reveal_strlit("Git evidence is limited: Codex could not capture a git review anchor for `");
    reveal_strlit(").\n\nReview instructions:\n- First check whether this is expected for the current working directory.\n- If a git repository is available, start with `git status --short`, then inspect targeted diffs for the changed files.\n- Otherwise, use the compact work notes below and the most relevant targeted file reads to review for bugs, regressions, maintainability issues, missed tests, and long-term design problems.\n- If you find a concrete repo-controlled issue, apply one coherent repair pass and rerun the most relevant targeted verification before finalizing.\n- If there are no findings, say that explicitly and continue with queued work.");
    reveal_strlit("` (");
    reveal_strlit("\n");
    reveal_strlit("Automatic self-review of the just-completed work slice.\n\n");
    reveal_with_fuel(lacks_char_from, 80);
    assert(lacks_char_from(WORK_NOTES_HEADING@, 'E', 0));
    lemma_lacks_char(WORK_NOTES_HEADING@, 'E', 0);
    assert(lacks_char_from(LIMITED_OPENING@, 'E', 0));
    lemma_lacks_char(LIMITED_OPENING@, 'E', 0);
}

proof fn lemma_heading_chars()
    ensures
        diff_heading().len() == 31,
        diff_heading()[0] == 'E',
        forall|j: int| 0 <= j < diff_heading().len() ==> diff_heading()[j] != '`' && diff_heading()[j]
            != '(' && diff_heading()[j] != ')' && diff_heading()[j] != '\n',
{
    reveal_strlit("Exact diff commands to inspect:");
    reveal_with_fuel(lacks_char_from, 35);
    assert(lacks_char_from(diff_heading(), '`', 0));
    assert(lacks_char_from(diff_heading(), '(', 0));
    assert(lacks_char_from(diff_heading(), ')', 0));
    assert(lacks_char_from(diff_heading(), '\n', 0));
    lemma_lacks_char(diff_heading(), '`', 0);
    lemma_lacks_char(diff_heading(), '(', 0);
    lemma_lacks_char(diff_heading(), ')', 0);
    lemma_lacks_char(diff_heading(), '\n', 0);
}

/// A text without the first character of `p` does not contain `p`.
proof fn lemma_no_first_char(t: Seq<char>, p: Seq<char>)
    requires
        p.len() > 0,
        forall|j: int| 0 <= j < t.len() ==> t[j] != p[0],
    ensures
        !contains(t, p),
{
    if contains(t, p) {
        let i = choose|i: int| occurs_at(t, p, i);
        assert(t.subrange(i, i + p.len())[0] == t[i]);
    }
}

/// An occurrence of `p` in `x + y` lies in `x` or in `y` when a character at
/// the seam is one that `p` does not hold.
proof fn lemma_seam(x: Seq<char>, y: Seq<char>, p: Seq<char>)
    requires
        p.len() > 0,
        (y.len() > 0 && forall|j: int| 0 <= j < p.len() ==> p[j] != y[0]) || (x.len() > 0 && forall|j: int|
            0 <= j < p.len() ==> p[j] != x.last()),
    ensures
        contains(x + y, p) ==> contains(x, p) || contains(y, p),
{
    let s = x + y;
    if contains(s, p) {
        let i = choose|i: int| occurs_at(s, p, i);
        if i + p.len() <= x.len() {
            assert(x.subrange(i, i + p.len()) =~= s.subrange(i, i + p.len()));
            assert(occurs_at(x, p, i));
        } else if i >= x.len() {
            assert(y.subrange(i - x.len(), i - x.len() + p.len()) =~= s.subrange(i, i + p.len()));
            assert(occurs_at(y, p, i - x.len()));
        } else {
            let k = x.len() - i;
            assert(s.subrange(i, i + p.len())[k] == s[x.len() as int]);
            assert(s.subrange(i, i + p.len())[k - 1] == s[x.len() - 1]);
            if y.len() > 0 && forall|j: int| 0 <= j < p.len() ==> p[j] != y[0] {
                assert(p[k] == y[0]);
            } else {
                assert(p[k - 1] == x.last());
            }
        }
    }
}

/// The limited-evidence prompt carries the diff-command heading only where
/// the directory, the error or the notes carry it: its own text never does.
pub proof fn law_limited_prompt_has_no_diff_heading(cwd: Seq<char>, error: Seq<char>, notes: Seq<char>)
    requires
        !contains(cwd, diff_heading()),
        !contains(error, diff_heading()),
        !contains(notes, diff_heading()),
    ensures
        !contains(spec_limited_prompt(cwd, error, notes), diff_heading()),
{
    let h = diff_heading();
    lemma_fixed_pieces_lack_e();
    lemma_heading_chars();
    lemma_header_lacks_e();
    lemma_limited_instructions_lack_e();
    let t1 = "` ("@;
    let nl = "\n"@;
    let x1 = REVIEW_HEADER@ + LIMITED_OPENING@;
    let x2 = x1 + cwd;
    let x3 = x2 + t1;
    let x4 = x3 + error;
    let x5 = x4 + LIMITED_INSTRUCTIONS@;
    let x6 = x5 + WORK_NOTES_HEADING@;
    let x7 = x6 + notes;
    let x8 = x7 + nl;
    assert(spec_limited_prompt(cwd, error, notes) =~= x8);
    assert forall|j: int| 0 <= j < t1.len() implies t1[j] != 'E' by {}
    assert forall|j: int| 0 <= j < nl.len() implies nl[j] != 'E' by {}
    lemma_no_first_char(REVIEW_HEADER@, h);
    lemma_no_first_char(LIMITED_OPENING@, h);
    lemma_no_first_char(t1, h);
    lemma_no_first_char(LIMITED_INSTRUCTIONS@, h);
    lemma_no_first_char(WORK_NOTES_HEADING@, h);
    lemma_no_first_char(nl, h);
    lemma_seam(REVIEW_HEADER@, LIMITED_OPENING@, h);
    assert(x1.last() == '`');
    lemma_seam(x1, cwd, h);
    lemma_seam(x2, t1, h);
    assert(x3.last() == '(');
    lemma_seam(x3, error, h);
    lemma_seam(x4, LIMITED_INSTRUCTIONS@, h);
    lemma_seam(x5, WORK_NOTES_HEADING@, h);
    assert(x6.last() == '\n');
    lemma_seam(x6, notes, h);
    lemma_seam(x7, nl, h);
}

/// When the anchor could not be captured, the review prompt carries no
/// diff-command heading of its own: one appears only where the directory, the
/// capture error or the notes carry it.
pub proof fn law_failed_capture_prompt_has_no_diff_heading(a: AnchorView, w: WorkEvidence, notes: Seq<char>)
    requires
        a.capture_error is Some,
        !contains(a.cwd, diff_heading()),
        !contains(a.capture_error->0, diff_heading()),
        !contains(notes, diff_heading()),
    ensures
        !contains(spec_anchor_prompt(a, w, notes), diff_heading()),
{
    law_limited_prompt_has_no_diff_heading(a.cwd, a.capture_error->0, notes);
}

/// The changed files since the anchor are exactly the paths git reports as
/// committed since the anchor (when it has a commit), staged, unstaged or
/// untracked: none is dropped and none is added.
pub proof fn law_changed_files_cover_every_report(a: AnchorView, w: WorkEvidence, p: Seq<char>)
    ensures
        changed_since_anchor(a, w).contains(p) <==> (
            (a.head is Some && git_lines(opt_chars(w.committed)).contains(p))
            || git_lines(opt_chars(w.staged)).contains(p)
            || git_lines(opt_chars(w.unstaged)).contains(p)
            || git_lines(opt_chars(w.untracked)).contains(p)),
{
    let committed = match a.head {
        Some(_) => git_lines(opt_chars(w.committed)),
        None => Seq::<Seq<char>>::empty(),
    };
    let s1 = git_lines(opt_chars(w.staged));
    let s2 = git_lines(opt_chars(w.unstaged));
    let s3 = git_lines(opt_chars(w.untracked));
    let all = committed + s1 + s2 + s3;
    crate::path_sample::lemma_tally_keys(all);
    let es = tally(all);
    let u = unique_paths(all);
    assert(u.contains(p) <==> crate::path_sample::has_key(es, p)) by {
        if u.contains(p) {
            let i = choose|i: int| 0 <= i < u.len() && u[i] == p;
            assert(es[i].0 == p);
        }
        if crate::path_sample::has_key(es, p) {
            let i = choose|i: int| 0 <= i < es.len() && #[trigger] es[i].0 == p;
            assert(u[i] == p);
        }
    }
    assert(all.contains(p) <==> (committed.contains(p) || s1.contains(p) || s2.contains(p) || s3.contains(p))) by {
        if all.contains(p) {
            let i = choose|i: int| 0 <= i < all.len() && all[i] == p;
            if i < committed.len() {
                assert(committed[i] == p);
            } else if i < committed.len() + s1.len() {
                assert(s1[i - committed.len()] == p);
            } else if i < committed.len() + s1.len() + s2.len() {
                assert(s2[i - committed.len() - s1.len()] == p);
            } else {
                assert(s3[i - committed.len() - s1.len() - s2.len()] == p);
            }
        }
        if committed.contains(p) {
            let i = choose|i: int| 0 <= i < committed.len() && committed[i] == p;
            assert(all[i] == p);
        }
        if s1.contains(p) {
            let i = choose|i: int| 0 <= i < s1.len() && s1[i] == p;
            assert(all[committed.len() + i] == p);
        }
        if s2.contains(p) {
            let i = choose|i: int| 0 <= i < s2.len() && s2[i] == p;
            assert(all[committed.len() + s1.len() + i] == p);
        }
        if s3.contains(p) {
            let i = choose|i: int| 0 <= i < s3.len() && s3[i] == p;
            assert(all[committed.len() + s1.len() + s2.len() + i] == p);
        }
    }
}

} // verus!
