//! The repository context scout: which files a prompt most likely concerns,
//! and the bounded packet of path hints handed to the model.
use vstd::prelude::*;

use crate::digest::entries_view;
use crate::digest::tally;
use crate::digest::tally_keys;
use crate::review_anchor::unique_paths;
use crate::text::append_chars;
use crate::text::append_str;
use crate::text::chars_lt;
use crate::text::chars_of;
use crate::text::clone_chars;
use crate::text::compare_chars;
use crate::text::contains;
use crate::text::contains_chars;
use crate::text::contains_str;
use crate::text::dec;
use crate::text::ends_with;
use crate::text::ends_with_str;
use crate::text::eq_str;
use crate::text::is_ascii_alnum;
use crate::text::join;
use crate::text::join_chars;
use crate::text::lower;
use crate::text::lowercase;
use crate::text::push_dec;
use crate::text::slice_chars;
use crate::text::starts_with;
use crate::text::starts_with_str;
use crate::text::string_of;
use crate::text::utf8_len;
use crate::text::views;

verus! {

// ------------------------------------------------------------ configuration and records

#[derive(Clone, Copy, PartialEq, Eq, Structural, Debug)]
pub enum RepoContextScoutMode {
    Off,
    Shadow,
    Tool,
}

impl Default for RepoContextScoutMode {
    fn default() -> (r: RepoContextScoutMode)
        ensures
            r == RepoContextScoutMode::Shadow,
    {
        RepoContextScoutMode::Shadow
    }
}

impl RepoContextScoutMode {
    pub fn shadow_enabled(self) -> (r: bool)
        ensures
            r == (self == RepoContextScoutMode::Shadow),
    {
        self == RepoContextScoutMode::Shadow
    }

    pub fn tool_enabled(self) -> (r: bool)
        ensures
            r == (self == RepoContextScoutMode::Tool),
    {
        self == RepoContextScoutMode::Tool
    }
}

#[derive(Clone, Copy, PartialEq, Eq, Structural, Debug)]
pub struct RepoContextScoutConfig {
    pub mode: RepoContextScoutMode,
    pub max_files: usize,
    pub max_file_bytes: u64,
    pub max_anchors_per_file: usize,
    pub max_output_tokens: usize,
    pub max_candidates: usize,
}

impl RepoContextScoutConfig {
    /// Whether an index holding `indexed` files is full: no further file is
    /// read once `max_files` have been indexed.
    pub fn file_limit_reached(&self, indexed: usize) -> (r: bool)
        ensures
            r == (indexed >= self.max_files),
    {
        indexed >= self.max_files
    }
}

impl Default for RepoContextScoutConfig {
    fn default() -> (r: RepoContextScoutConfig)
        ensures
            r == (RepoContextScoutConfig {
                mode: RepoContextScoutMode::Shadow,
                max_files: 5000,
                max_file_bytes: 131072,
                max_anchors_per_file: 24,
                max_output_tokens: 1200,
                max_candidates: 12,
            }),
    {
        RepoContextScoutConfig {
            mode: RepoContextScoutMode::Shadow,
            max_files: 5000,
            max_file_bytes: 131072,
            max_anchors_per_file: 24,
            max_output_tokens: 1200,
            max_candidates: 12,
        }
    }
}

#[derive(Clone, Copy, PartialEq, Eq, Structural, Debug)]
pub enum ScoutCommandMode {
    Scout,
    Status,
    Refresh,
}

#[derive(Clone, Copy, PartialEq, Eq, Structural, Debug)]
pub enum ScoutTrigger {
    Manual,
    FreshTurn,
    Resume,
    Clear,
    PostCompaction,
}

#[derive(Clone, Copy, PartialEq, Eq, Structural, Debug)]
pub enum IndexState {
    Cold,
    Warm,
    Stale,
}

/// A notable line of a file: its 1-based number and its text.
#[derive(Clone, Debug, PartialEq, Eq)]
pub struct Anchor {
    pub line: usize,
    pub text: String,
}

#[derive(Clone, Debug, PartialEq, Eq)]
pub struct FileRecord {
    pub path: String,
    pub size: u64,
    pub modified_unix: u64,
    pub language: String,
    pub line_count: usize,
    pub anchors: Vec<Anchor>,
}

#[derive(Clone, Debug, PartialEq, Eq)]
pub struct ChangedPath {
    pub path: String,
    pub status: String,
}

#[derive(Clone, Debug, PartialEq, Eq)]
pub struct ChangedAreas {
    pub paths: Vec<ChangedPath>,
}

#[derive(Clone, Debug, PartialEq, Eq)]
pub struct RepoIndex {
    pub schema_version: u32,
    pub project_root: String,
    pub generated_at_unix: u64,
    pub git_head: Option<String>,
    pub files: Vec<FileRecord>,
    pub file_limit_reached: bool,
}

/// A file worth reading, with its score in half points.
#[derive(Clone, Debug, PartialEq, Eq)]
pub struct ScoutCandidate {
    pub path: String,
    pub score_halves: u128,
    pub reasons: Vec<String>,
    pub anchors: Vec<Anchor>,
}

#[derive(Clone, Debug, PartialEq, Eq)]
pub struct SupportRoute {
    pub name: String,
    pub reason: String,
    pub path_hints: Vec<String>,
}

pub struct AnchorView {
    pub line: usize,
    pub text: Seq<char>,
}

pub open spec fn anchors_view(v: Seq<Anchor>) -> Seq<AnchorView> {
    v.map_values(|a: Anchor| AnchorView { line: a.line, text: a.text@ })
}

pub open spec fn strs(v: Seq<String>) -> Seq<Seq<char>> {
    v.map_values(|s: String| s@)
}

// ------------------------------------------------------------ tokens

/// A quarter of the UTF-8 length, rounded up.
pub open spec fn spec_approx_tokens(text: Seq<char>) -> nat {
    (utf8_len(text) + 3) / 4
}

/// The exact UTF-8 length of a text.
fn utf8_len_wide(s: &[char]) -> (r: u128)
    ensures
        r == utf8_len(s@),
{
    let mut total: u128 = 0;
    for i in 0..s.len()
        invariant
            total == utf8_len(s@.take(i as int)),
            total <= 4 * i,
    {
        assert(s@.take(i + 1).drop_last() =~= s@.take(i as int));
        let c = s[i];
        let w: u128 = if (c as u32) < 0x80 {
            1
        } else if (c as u32) < 0x800 {
            2
        } else if (c as u32) < 0x10000 {
            3
        } else {
            4
        };
        total = total + w;
    }
    assert(s@.take(s.len() as int) =~= s@);
    total
}

pub(crate) fn approx_tokens_wide(s: &[char]) -> (r: u128)
    ensures
        r == spec_approx_tokens(s@),
{
    let bytes = utf8_len_wide(s);
    proof {
        crate::text::lemma_utf8_len_bounds(s@);
    }
    bytes / 4 + if bytes % 4 == 0 { 0 } else { 1 }
}

/// Rough token estimate of a text: its UTF-8 length divided by four, rounded up.
pub fn approx_tokens(text: &str) -> (r: usize)
    requires
        utf8_len(text@) <= usize::MAX,
    ensures
        r == spec_approx_tokens(text@),
{
    let t = approx_tokens_wide(&chars_of(text));
    assert(t <= usize::MAX);
    t as usize
}

// ------------------------------------------------------------ prompt terms

pub open spec fn is_term_char(c: char) -> bool {
    is_ascii_alnum(c) || c == '_'
}

/// The maximal runs of ASCII letters, digits and `_`, in order.
pub open spec fn term_runs(s: Seq<char>) -> Seq<Seq<char>>
    decreases s.len(),
{
    if s.len() == 0 {
        Seq::<Seq<char>>::empty()
    } else {
        let r = term_runs(s.drop_last());
        if !is_term_char(s.last()) {
            r
        } else if s.len() > 1 && is_term_char(s[s.len() - 2]) {
            r.update(r.len() - 1, r.last().push(s.last()))
        } else {
            r.push(seq![s.last()])
        }
    }
}

pub open spec fn stop_words() -> Seq<Seq<char>> {
    seq![
        "the"@,
        "and"@,
        "for"@,
        "with"@,
        "this"@,
        "that"@,
        "from"@,
        "into"@,
        "please"@,
        "implement"@,
        "plan"@,
        "repo"@,
        "context"@,
        "scout"@,
    ]
}

/// The runs of three or more characters, lowercased, stop words dropped.
pub open spec fn kept_terms(runs: Seq<Seq<char>>) -> Seq<Seq<char>>
    decreases runs.len(),
{
    if runs.len() == 0 {
        Seq::<Seq<char>>::empty()
    } else {
        let r = kept_terms(runs.drop_last());
        let t = lower(runs.last());
        if runs.last().len() >= 3 && !stop_words().contains(t) {
            r.push(t)
        } else {
            r
        }
    }
}

/// The distinct search terms of a prompt, sorted.
pub open spec fn spec_prompt_terms(prompt: Seq<char>) -> Seq<Seq<char>> {
    unique_paths(kept_terms(term_runs(prompt)))
}

fn term_runs_of(s: &[char]) -> (r: Vec<Vec<char>>)
    ensures
        views(r@) == term_runs(s@),
{
    let mut r: Vec<Vec<char>> = Vec::new();
    let mut cur: Vec<char> = Vec::new();
    let mut in_run = false;
    for i in 0..s.len()
        invariant
            in_run ==> i > 0 && is_term_char(s@[i - 1]),
            !in_run ==> (i == 0 || !is_term_char(s@[i - 1])),
            in_run ==> views(r@).push(cur@) == term_runs(s@.take(i as int)),
            !in_run ==> views(r@) == term_runs(s@.take(i as int)),
    {
        let ghost t = s@.take(i + 1);
        assert(t.drop_last() =~= s@.take(i as int));
        assert(t.last() == s@[i as int]);
        let c = s[i];
        let term = ('0' <= c && c <= '9') || ('a' <= c && c <= 'z') || ('A' <= c && c <= 'Z') || c
            == '_';
        if term {
            if in_run {
                assert(t[t.len() - 2] == s@[i - 1]);
                let ghost before = views(r@).push(cur@);
                cur.push(c);
                assert(views(r@).push(cur@) =~= before.update(before.len() - 1, before.last().push(c)));
            } else {
                if i > 0 {
                    assert(t[t.len() - 2] == s@[i - 1]);
                }
                cur = Vec::new();
                cur.push(c);
                assert(cur@ =~= seq![c]);
                in_run = true;
            }
        } else {
            if in_run {
                let mut done: Vec<char> = Vec::new();
                std::mem::swap(&mut done, &mut cur);
                crate::digest::push_row(&mut r, done);
                in_run = false;
            }
        }
    }
    assert(s@.take(s.len() as int) =~= s@);
    if in_run {
        crate::digest::push_row(&mut r, cur);
    }
    r
}

fn is_stop_word(t: &[char]) -> (r: bool)
    ensures
        r == stop_words().contains(t@),
{
    let words: [&str; 14] = [
        "the",
        "and",
        "for",
        "with",
        "this",
        "that",
        "from",
        "into",
        "please",
        "implement",
        "plan",
        "repo",
        "context",
        "scout",
    ];
    let ghost sw = stop_words();
    assert(forall|j: int| 0 <= j < 14 ==> sw[j] == (#[trigger] words@[j])@);
    for k in 0..words.len()
        invariant
            words.len() == 14,
            sw == stop_words(),
            forall|j: int| 0 <= j < 14 ==> sw[j] == (#[trigger] words@[j])@,
            forall|j: int| 0 <= j < k ==> sw[j] != t@,
    {
        if eq_str(t, words[k]) {
            assert(sw[k as int] == t@);
            return true;
        }
    }
    assert(!sw.contains(t@)) by {
        if sw.contains(t@) {
            let j = choose|j: int| 0 <= j < sw.len() && sw[j] == t@;
            assert(sw[j] != t@);
        }
    }
    false
}

pub(crate) fn prompt_terms(prompt: &[char]) -> (r: Vec<Vec<char>>)
    ensures
        views(r@) == spec_prompt_terms(prompt@),
{
    let runs = term_runs_of(prompt);
    let ghost rv = views(runs@);
    let mut kept: Vec<Vec<char>> = Vec::new();
    for i in 0..runs.len()
        invariant
            rv == views(runs@),
            views(kept@) == kept_terms(rv.take(i as int)),
    {
        assert(rv.take(i + 1).drop_last() =~= rv.take(i as int));
        assert(rv[i as int] == runs@[i as int]@);
        let t = lowercase(&runs[i]);
        if runs[i].len() >= 3 && !is_stop_word(&t) {
            crate::digest::push_row(&mut kept, t);
        }
    }
    assert(rv.take(runs.len() as int) =~= rv);
    let counts = tally_keys(&kept);
    let ghost ev = entries_view(counts@);
    let mut r: Vec<Vec<char>> = Vec::new();
    for i in 0..counts.len()
        invariant
            ev == entries_view(counts@),
            views(r@) == ev.take(i as int).map_values(|e: (Seq<char>, nat)| e.0),
    {
        assert(ev[i as int].0 == counts@[i as int].0@);
        crate::digest::push_row(&mut r, clone_chars(&counts[i].0));
        assert(ev.take(i + 1).map_values(|e: (Seq<char>, nat)| e.0) =~= ev.take(i as int).map_values(
            |e: (Seq<char>, nat)| e.0,
        ).push(ev[i as int].0));
    }
    assert(ev.take(counts.len() as int) =~= ev);
    r
}

// ------------------------------------------------------------ ranking

pub struct FileView {
    pub path: Seq<char>,
    pub anchors: Seq<AnchorView>,
}

pub open spec fn files_view(v: Seq<FileRecord>) -> Seq<FileView> {
    v.map_values(|f: FileRecord| FileView { path: f.path@, anchors: anchors_view(f.anchors@) })
}

pub open spec fn review_terms() -> Seq<Seq<char>> {
    seq!["review"@, "fix"@, "test"@, "build"@, "bug"@]
}

/// Whether the prompt asks for review, a fix, tests or a build.
pub open spec fn review_or_fix(terms: Seq<Seq<char>>) -> bool {
    exists|i: int| 0 <= i < terms.len() && review_terms().contains(#[trigger] terms[i])
}

/// Tests, manifests and scripts: where verification lives.
pub open spec fn spec_is_test_or_build_path(path: Seq<char>) -> bool {
    let l = lower(path);
    contains(l, "test"@) || ends_with(l, "cargo.toml"@) || ends_with(l, "package.json"@)
        || starts_with(l, "scripts/"@) || contains(l, "/scripts/"@)
}

pub open spec fn anchor_mentions(anchors: Seq<AnchorView>, term: Seq<char>) -> bool {
    exists|i: int| 0 <= i < anchors.len() && contains(lower(#[trigger] anchors[i].text), term)
}

/// Half points and reasons from the terms: 4 when the path mentions a term,
/// 3 when an anchor does.
pub open spec fn term_score(path: Seq<char>, anchors: Seq<AnchorView>, terms: Seq<Seq<char>>) -> (
    nat,
    Seq<Seq<char>>,
)
    decreases terms.len(),
{
    if terms.len() == 0 {
        (0, Seq::<Seq<char>>::empty())
    } else {
        let prev = term_score(path, anchors, terms.drop_last());
        let t = terms.last();
        let after_path = if contains(lower(path), t) {
            (prev.0 + 4, prev.1.push("path:"@ + t))
        } else {
            prev
        };
        if anchor_mentions(anchors, t) {
            (after_path.0 + 3, after_path.1.push("anchor:"@ + t))
        } else {
            after_path
        }
    }
}

/// A file's score in half points and its reasons: changed files get 8 points
/// (5 unless the prompt asks for review or a fix), each term 2 for the path
/// and 1.5 for an anchor, verification areas 1.5 on review or fix prompts.
pub open spec fn file_score(f: FileView, terms: Seq<Seq<char>>, changed: Seq<Seq<char>>) -> (
    nat,
    Seq<Seq<char>>,
) {
    let rof = review_or_fix(terms);
    let c = if changed.contains(f.path) {
        ((if rof { 16nat } else { 10nat }), seq!["changed"@])
    } else {
        (0nat, Seq::<Seq<char>>::empty())
    };
    let t = term_score(f.path, f.anchors, terms);
    let v = if rof && spec_is_test_or_build_path(f.path) {
        (3nat, seq!["verification_area"@])
    } else {
        (0nat, Seq::<Seq<char>>::empty())
    };
    (c.0 + t.0 + v.0, c.1 + t.1 + v.1)
}

pub struct CandView {
    pub path: Seq<char>,
    pub score: nat,
    pub reasons: Seq<Seq<char>>,
    pub anchors: Seq<AnchorView>,
}

/// The files with a positive score, in index order.
pub open spec fn scored_files(files: Seq<FileView>, terms: Seq<Seq<char>>, changed: Seq<Seq<char>>) -> Seq<
    CandView,
>
    decreases files.len(),
{
    if files.len() == 0 {
        Seq::<CandView>::empty()
    } else {
        let r = scored_files(files.drop_last(), terms, changed);
        let f = files.last();
        let sc = file_score(f, terms, changed);
        if sc.0 > 0 {
            r.push(
                CandView {
                    path: f.path,
                    score: sc.0,
                    reasons: unique_paths(sc.1),
                    anchors: f.anchors.take(if f.anchors.len() < 5 { f.anchors.len() as int } else { 5 }),
                },
            )
        } else {
            r
        }
    }
}

/// Higher scores first, then paths in order.
pub open spec fn cand_before(a: CandView, b: CandView) -> bool {
    a.score > b.score || (a.score == b.score && chars_lt(a.path, b.path))
}

pub open spec fn insert_cand(cs: Seq<CandView>, c: CandView) -> Seq<CandView>
    decreases cs.len(),
{
    if cs.len() == 0 {
        seq![c]
    } else if cand_before(c, cs[0]) {
        seq![c] + cs
    } else {
        seq![cs[0]] + insert_cand(cs.drop_first(), c)
    }
}

pub open spec fn rank_cands(cs: Seq<CandView>) -> Seq<CandView>
    decreases cs.len(),
{
    if cs.len() == 0 {
        Seq::<CandView>::empty()
    } else {
        insert_cand(rank_cands(cs.drop_last()), cs.last())
    }
}

/// The candidates for a prompt, best first, at most `max_candidates`.
pub open spec fn spec_rank_files(files: Seq<FileView>, changed: Seq<Seq<char>>, prompt: Seq<char>, max: nat) -> Seq<
    CandView,
> {
    let ranked = rank_cands(scored_files(files, spec_prompt_terms(prompt), changed));
    ranked.take(if ranked.len() < max { ranked.len() as int } else { max as int })
}

pub open spec fn cand_view(c: ScoutCandidate) -> CandView {
    CandView {
        path: c.path@,
        score: c.score_halves as nat,
        reasons: strs(c.reasons@),
        anchors: anchors_view(c.anchors@),
    }
}

pub open spec fn cands_view(v: Seq<ScoutCandidate>) -> Seq<CandView> {
    v.map_values(|c: ScoutCandidate| cand_view(c))
}

fn is_test_or_build_path(path: &[char]) -> (r: bool)
    ensures
        r == spec_is_test_or_build_path(path@),
{
    let l = lowercase(path);
    contains_str(&l, "test") || ends_with_str(&l, "cargo.toml") || ends_with_str(&l, "package.json")
        || starts_with_str(&l, "scripts/") || contains_str(&l, "/scripts/")
}

fn review_or_fix_exec(terms: &Vec<Vec<char>>) -> (r: bool)
    ensures
        r == review_or_fix(views(terms@)),
{
    let ghost tv = views(terms@);
    let words: [&str; 5] = ["review", "fix", "test", "build", "bug"];
    let ghost rw = review_terms();
    assert(forall|j: int| 0 <= j < 5 ==> rw[j] == (#[trigger] words@[j])@);
    for i in 0..terms.len()
        invariant
            tv == views(terms@),
            words.len() == 5,
            rw == review_terms(),
            forall|j: int| 0 <= j < 5 ==> rw[j] == (#[trigger] words@[j])@,
            forall|j: int| 0 <= j < i ==> !review_terms().contains(#[trigger] tv[j]),
    {
        assert(tv[i as int] == terms@[i as int]@);
        let mut hit = false;
        for k in 0..words.len()
            invariant
                i < terms.len(),
                words.len() == 5,
                rw == review_terms(),
                forall|j: int| 0 <= j < 5 ==> rw[j] == (#[trigger] words@[j])@,
                hit == exists|j: int| 0 <= j < k && rw[j] == terms@[i as int]@,
        {
            if eq_str(&terms[i], words[k]) {
                hit = true;
            }
        }
        assert(hit == rw.contains(tv[i as int]));
        if hit {
            return true;
        }
    }
    false
}

fn anchor_mentions_exec(anchors: &Vec<Anchor>, term: &[char]) -> (r: bool)
    ensures
        r == anchor_mentions(anchors_view(anchors@), term@),
{
    let ghost av = anchors_view(anchors@);
    for i in 0..anchors.len()
        invariant
            av == anchors_view(anchors@),
            forall|j: int| 0 <= j < i ==> !contains(lower(#[trigger] av[j].text), term@),
    {
        assert(av[i as int].text == anchors@[i as int].text@);
        let l = lowercase(&chars_of(anchors[i].text.as_str()));
        if contains_chars(&l, term) {
            assert(contains(lower(av[i as int].text), term@));
            return true;
        }
    }
    false
}

fn copy_anchors(anchors: &Vec<Anchor>, k: usize) -> (r: Vec<Anchor>)
    requires
        k <= anchors.len(),
    ensures
        anchors_view(r@) == anchors_view(anchors@).take(k as int),
{
    let mut r: Vec<Anchor> = Vec::new();
    for i in 0..k
        invariant
            k <= anchors.len(),
            anchors_view(r@) == anchors_view(anchors@).take(i as int),
    {
        let ghost before = r@;
        r.push(Anchor { line: anchors[i].line, text: anchors[i].text.clone() });
        assert(anchors_view(r@) =~= anchors_view(before).push(anchors_view(anchors@)[i as int]));
        assert(anchors_view(anchors@).take(i + 1) =~= anchors_view(anchors@).take(i as int).push(
            anchors_view(anchors@)[i as int],
        ));
    }
    r
}

fn contains_text(v: &Vec<Vec<char>>, p: &[char]) -> (r: bool)
    ensures
        r == views(v@).contains(p@),
{
    for i in 0..v.len()
        invariant
            forall|j: int| 0 <= j < i ==> views(v@)[j] != p@,
    {
        if crate::text::chars_eq(&v[i], p) {
            assert(views(v@)[i as int] == p@);
            return true;
        }
    }
    false
}

fn score_file(f: &FileRecord, terms: &Vec<Vec<char>>, changed: &Vec<Vec<char>>, rof: bool) -> (r: (
    u128,
    Vec<Vec<char>>,
))
    requires
        rof == review_or_fix(views(terms@)),
    ensures
        r.0 == file_score(
            FileView { path: f.path@, anchors: anchors_view(f.anchors@) },
            views(terms@),
            views(changed@),
        ).0,
        views(r.1@) == file_score(
            FileView { path: f.path@, anchors: anchors_view(f.anchors@) },
            views(terms@),
            views(changed@),
        ).1,
{
    let path = chars_of(f.path.as_str());
    let lpath = lowercase(&path);
    let mut score: u128 = 0;
    let mut reasons: Vec<Vec<char>> = Vec::new();
    if contains_text(changed, &path) {
        score = if rof {
            16
        } else {
            10
        };
        crate::digest::push_text(&mut reasons, "changed");
    }
    let ghost base_score = score;
    let ghost base_reasons = views(reasons@);
    let ghost tv = views(terms@);
    let ghost av = anchors_view(f.anchors@);
    for i in 0..terms.len()
        invariant
            tv == views(terms@),
            av == anchors_view(f.anchors@),
            lpath@ == lower(f.path@),
            base_score <= 16,
            score == base_score + term_score(f.path@, av, tv.take(i as int)).0,
            views(reasons@) == base_reasons + term_score(f.path@, av, tv.take(i as int)).1,
            score <= 16 + 7 * i,
    {
        assert(tv.take(i + 1).drop_last() =~= tv.take(i as int));
        assert(tv.take(i + 1).last() == terms@[i as int]@);
        let t = &terms[i];
        if contains_chars(&lpath, t) {
            score = score + 4;
            let mut reason = chars_of("path:");
            append_chars(&mut reason, t);
            crate::digest::push_row(&mut reasons, reason);
        }
        if anchor_mentions_exec(&f.anchors, t) {
            score = score + 3;
            let mut reason = chars_of("anchor:");
            append_chars(&mut reason, t);
            crate::digest::push_row(&mut reasons, reason);
        }
        assert(views(reasons@) =~= base_reasons + term_score(f.path@, av, tv.take(i + 1)).1);
    }
    assert(tv.take(terms.len() as int) =~= tv);
    if rof && is_test_or_build_path(&path) {
        score = score + 3;
        crate::digest::push_text(&mut reasons, "verification_area");
    }
    let ghost fs = file_score(FileView { path: f.path@, anchors: av }, tv, views(changed@));
    assert(views(reasons@) =~= fs.1);
    (score, reasons)
}

fn cand_before_exec(a: &ScoutCandidate, b: &ScoutCandidate) -> (r: bool)
    ensures
        r == cand_before(cand_view(*a), cand_view(*b)),
{
    a.score_halves > b.score_halves || (a.score_halves == b.score_halves && compare_chars(
        &chars_of(a.path.as_str()),
        &chars_of(b.path.as_str()),
    ) < 0)
}

fn candidate_for(f: &FileRecord, terms: &Vec<Vec<char>>, changed: &Vec<Vec<char>>, rof: bool) -> (r:
    Option<ScoutCandidate>)
    requires
        rof == review_or_fix(views(terms@)),
    ensures
        ({
            let fview = FileView { path: f.path@, anchors: anchors_view(f.anchors@) };
            let sc = file_score(fview, views(terms@), views(changed@));
            match r {
                Some(c) => sc.0 > 0 && cand_view(c) == (CandView {
                    path: fview.path,
                    score: sc.0,
                    reasons: unique_paths(sc.1),
                    anchors: fview.anchors.take(
                        if fview.anchors.len() < 5 { fview.anchors.len() as int } else { 5 },
                    ),
                }),
                None => sc.0 == 0,
            }
        }),
{
    let (score, reasons) = score_file(f, terms, changed, rof);
    if score == 0 {
        return None;
    }
    let unique = crate::review_anchor::to_string_vec(&crate::review_anchor::unique_paths_pub(&reasons));
    let k = crate::digest::min_usize(f.anchors.len(), 5);
    Some(
        ScoutCandidate {
            path: f.path.clone(),
            score_halves: score,
            reasons: unique,
            anchors: copy_anchors(&f.anchors, k),
        },
    )
}

fn insert_candidate(ranked: &mut Vec<ScoutCandidate>, cand: ScoutCandidate)
    ensures
        cands_view(final(ranked)@) == insert_cand(cands_view(old(ranked)@), cand_view(cand)),
{
    let ghost c = cand_view(cand);
    let ghost rv = cands_view(ranked@);
    let mut j: usize = 0;
    assert(rv.take(0) =~= Seq::<CandView>::empty());
    assert(rv.skip(0) =~= rv);
    while j < ranked.len() && !cand_before_exec(&cand, &ranked[j])
        invariant
            j <= ranked.len(),
            rv == cands_view(ranked@),
            ranked@ == old(ranked)@,
            c == cand_view(cand),
            insert_cand(rv, c) == rv.take(j as int) + insert_cand(rv.skip(j as int), c),
        decreases ranked.len() - j,
    {
        assert(rv.skip(j as int)[0] == rv[j as int]);
        assert(rv.skip(j as int).drop_first() =~= rv.skip(j + 1));
        assert(rv.take(j + 1) =~= rv.take(j as int) + seq![rv[j as int]]);
        j += 1;
    }
    proof {
        let rest = rv.skip(j as int);
        if j < ranked.len() {
            assert(rest[0] == rv[j as int]);
        } else {
            assert(rest =~= Seq::<CandView>::empty());
        }
        assert(insert_cand(rest, c) == seq![c] + rest);
    }
    ranked.insert(j, cand);
    assert(cands_view(ranked@) =~= rv.take(j as int) + (seq![c] + rv.skip(j as int)));
}

/// Scores the indexed files against the prompt and the changed paths; the
/// best `max_candidates` files, best first.
pub fn rank_files(
    index: &RepoIndex,
    changed: &ChangedAreas,
    prompt: &str,
    config: &RepoContextScoutConfig,
) -> (r: Vec<ScoutCandidate>)
    ensures
        cands_view(r@) == spec_rank_files(
            files_view(index.files@),
            changed.paths@.map_values(|c: ChangedPath| c.path@),
            prompt@,
            config.max_candidates as nat,
        ),
{
    let terms = prompt_terms(&chars_of(prompt));
    let ghost tv = views(terms@);
    let ghost cv = changed.paths@.map_values(|c: ChangedPath| c.path@);
    let mut changed_paths: Vec<Vec<char>> = Vec::new();
    for i in 0..changed.paths.len()
        invariant
            cv == changed.paths@.map_values(|c: ChangedPath| c.path@),
            views(changed_paths@) == cv.take(i as int),
    {
        crate::digest::push_row(&mut changed_paths, chars_of(changed.paths[i].path.as_str()));
        assert(cv.take(i + 1) =~= cv.take(i as int).push(cv[i as int]));
    }
    assert(cv.take(changed.paths.len() as int) =~= cv);
    let rof = review_or_fix_exec(&terms);
    let ghost fv = files_view(index.files@);
    let mut ranked: Vec<ScoutCandidate> = Vec::new();
    for i in 0..index.files.len()
        invariant
            fv == files_view(index.files@),
            tv == views(terms@),
            views(changed_paths@) == cv,
            rof == review_or_fix(tv),
            cands_view(ranked@) == rank_cands(scored_files(fv.take(i as int), tv, cv)),
    {
        let f = &index.files[i];
        let ghost fview = FileView { path: f.path@, anchors: anchors_view(f.anchors@) };
        assert(fv[i as int] == fview);
        assert(fv.take(i + 1).drop_last() =~= fv.take(i as int));
        assert(fv.take(i + 1).last() == fview);
        let ghost prev = scored_files(fv.take(i as int), tv, cv);
        match candidate_for(f, &terms, &changed_paths, rof) {
            Some(cand) => {
                let ghost c = cand_view(cand);
                assert(scored_files(fv.take(i + 1), tv, cv) == prev.push(c));
                assert(prev.push(c).drop_last() =~= prev);
                insert_candidate(&mut ranked, cand);
            },
            None => {
                assert(scored_files(fv.take(i + 1), tv, cv) == prev);
            },
        }
    }
    assert(fv.take(index.files.len() as int) =~= fv);
    let n = crate::digest::min_usize(ranked.len(), config.max_candidates);
    ranked.truncate(n);
    ranked
}

// ------------------------------------------------------------ laws of the ranking

/// Scores never increase along the sequence, and equal scores go by path.
pub open spec fn best_first(cs: Seq<CandView>) -> bool {
    forall|i: int, j: int| 0 <= i < j < cs.len() ==> !cand_before(#[trigger] cs[j], #[trigger] cs[i])
}

proof fn lemma_cand_before_trans(a: CandView, b: CandView, c: CandView)
    requires
        cand_before(a, b),
        cand_before(b, c),
    ensures
        cand_before(a, c),
{
    if a.score == b.score && b.score == c.score {
        crate::text::lemma_chars_lt_trans(a.path, b.path, c.path);
    }
}

proof fn lemma_cand_before_irreflexive(a: CandView)
    ensures
        !cand_before(a, a),
{
    crate::text::lemma_chars_lt_irreflexive(a.path);
}

proof fn lemma_insert_cand(cs: Seq<CandView>, c: CandView)
    requires
        best_first(cs),
    ensures
        best_first(insert_cand(cs, c)),
        insert_cand(cs, c).len() == cs.len() + 1,
        forall|x: CandView| #[trigger] insert_cand(cs, c).contains(x) ==> x == c || cs.contains(x),
    decreases cs.len(),
{
    let r = insert_cand(cs, c);
    if cs.len() == 0 {
    } else if cand_before(c, cs[0]) {
        assert forall|i: int, j: int| 0 <= i < j < r.len() implies !cand_before(#[trigger] r[j], #[trigger] r[i]) by {
            if i == 0 {
                assert(r[j] == cs[j - 1]);
                if j - 1 > 0 {
                    assert(!cand_before(cs[j - 1], cs[0]));
                }
                if cand_before(cs[j - 1], c) {
                    lemma_cand_before_trans(cs[j - 1], c, cs[0]);
                    if j - 1 == 0 {
                        lemma_cand_before_irreflexive(cs[0]);
                    }
                }
            } else {
                assert(r[i] == cs[i - 1]);
                assert(r[j] == cs[j - 1]);
            }
        }
        assert forall|x: CandView| #[trigger] r.contains(x) implies x == c || cs.contains(x) by {
            let k = choose|k: int| 0 <= k < r.len() && r[k] == x;
            if k > 0 {
                assert(cs[k - 1] == x);
            }
        }
    } else {
        let rest = cs.drop_first();
        assert(best_first(rest)) by {
            assert forall|i: int, j: int| 0 <= i < j < rest.len() implies !cand_before(#[trigger] rest[j], #[trigger] rest[i]) by {
                assert(rest[i] == cs[i + 1]);
                assert(rest[j] == cs[j + 1]);
            }
        }
        lemma_insert_cand(rest, c);
        let t = insert_cand(rest, c);
        assert(r == seq![cs[0]] + t);
        assert forall|i: int, j: int| 0 <= i < j < r.len() implies !cand_before(#[trigger] r[j], #[trigger] r[i]) by {
            if i == 0 {
                assert(r[j] == t[j - 1]);
                assert(t.contains(t[j - 1]));
                if t[j - 1] == c {
                } else {
                    let k = choose|k: int| 0 <= k < cs.len() - 1 && rest[k] == t[j - 1];
                    assert(rest[k] == cs[k + 1]);
                }
            } else {
                assert(r[i] == t[i - 1]);
                assert(r[j] == t[j - 1]);
            }
        }
        assert forall|x: CandView| #[trigger] r.contains(x) implies x == c || cs.contains(x) by {
            let k = choose|k: int| 0 <= k < r.len() && r[k] == x;
            if k > 0 {
                assert(t[k - 1] == x);
                assert(t.contains(x));
                if x != c {
                    let m = choose|m: int| 0 <= m < rest.len() && rest[m] == x;
                    assert(cs[m + 1] == x);
                }
            }
        }
    }
}

proof fn lemma_rank_cands(cs: Seq<CandView>)
    ensures
        best_first(rank_cands(cs)),
        rank_cands(cs).len() == cs.len(),
        forall|x: CandView| #[trigger] rank_cands(cs).contains(x) ==> cs.contains(x),
    decreases cs.len(),
{
    if cs.len() > 0 {
        let prev = cs.drop_last();
        lemma_rank_cands(prev);
        lemma_insert_cand(rank_cands(prev), cs.last());
        assert forall|x: CandView| #[trigger] rank_cands(cs).contains(x) implies cs.contains(x) by {
            if x != cs.last() {
                assert(rank_cands(prev).contains(x));
                let k = choose|k: int| 0 <= k < prev.len() && prev[k] == x;
                assert(cs[k] == x);
            } else {
                assert(cs[cs.len() - 1] == x);
            }
        }
    }
}

proof fn lemma_scored_positive(files: Seq<FileView>, terms: Seq<Seq<char>>, changed: Seq<Seq<char>>)
    ensures
        forall|x: CandView| #[trigger] scored_files(files, terms, changed).contains(x) ==> x.score > 0,
    decreases files.len(),
{
    if files.len() > 0 {
        lemma_scored_positive(files.drop_last(), terms, changed);
        let prev = scored_files(files.drop_last(), terms, changed);
        let r = scored_files(files, terms, changed);
        assert forall|x: CandView| #[trigger] r.contains(x) implies x.score > 0 by {
            let k = choose|k: int| 0 <= k < r.len() && r[k] == x;
            if k < prev.len() {
                assert(prev[k] == x);
                assert(prev.contains(x));
            }
        }
    }
}

/// The ranking is best first (scores never rise along it, equal scores go by
/// path), holds at most `max_candidates` files, and gives each a positive score.
pub proof fn law_ranking_is_best_first_and_bounded(
    files: Seq<FileView>,
    changed: Seq<Seq<char>>,
    prompt: Seq<char>,
    max: nat,
)
    ensures
        best_first(spec_rank_files(files, changed, prompt, max)),
        spec_rank_files(files, changed, prompt, max).len() <= max,
        forall|i: int|
            0 <= i < spec_rank_files(files, changed, prompt, max).len() ==> (#[trigger] spec_rank_files(
                files,
                changed,
                prompt,
                max,
            )[i]).score > 0,
{
    let scored = scored_files(files, spec_prompt_terms(prompt), changed);
    let ranked = rank_cands(scored);
    lemma_rank_cands(scored);
    lemma_scored_positive(files, spec_prompt_terms(prompt), changed);
    let r = spec_rank_files(files, changed, prompt, max);
    assert forall|i: int| 0 <= i < r.len() implies (#[trigger] r[i]).score > 0 by {
        assert(r[i] == ranked[i]);
        assert(ranked.contains(ranked[i]));
        assert(scored.contains(ranked[i]));
    }
    assert forall|i: int, j: int| 0 <= i < j < r.len() implies !cand_before(#[trigger] r[j], #[trigger] r[i]) by {
        assert(r[i] == ranked[i]);
        assert(r[j] == ranked[j]);
    }
}

proof fn lemma_term_score_anchor(path: Seq<char>, anchors: Seq<AnchorView>, terms: Seq<Seq<char>>, k: int, i: int)
    requires
        0 <= k < terms.len(),
        0 <= i < anchors.len(),
        contains(lower(anchors[i].text), terms[k]),
    ensures
        term_score(path, anchors, terms).1.contains("anchor:"@ + terms[k]),
        term_score(path, anchors, terms).0 >= 3,
    decreases terms.len(),
{
    let prev = term_score(path, anchors, terms.drop_last());
    if k < terms.len() - 1 {
        lemma_term_score_anchor(path, anchors, terms.drop_last(), k, i);
        assert(terms.drop_last()[k] == terms[k]);
        let j = choose|j: int| 0 <= j < prev.1.len() && prev.1[j] == "anchor:"@ + terms[k];
        let t = terms.last();
        let after_path = if contains(lower(path), t) {
            (prev.0 + 4, prev.1.push("path:"@ + t))
        } else {
            prev
        };
        assert(after_path.1[j] == prev.1[j]);
        if anchor_mentions(anchors, t) {
            assert(after_path.1.push("anchor:"@ + t)[j] == after_path.1[j]);
        }
    } else {
        assert(anchor_mentions(anchors, terms.last()));
        let r = term_score(path, anchors, terms).1;
        assert(r[r.len() - 1] == "anchor:"@ + terms[k]);
    }
}

/// An anchor that mentions a prompt term, wherever it stands among the file's
/// anchors, earns the file the anchor reason for that term and at least 1.5
/// points (3 half points).
pub proof fn law_any_anchor_mentioning_a_term_counts(
    f: FileView,
    terms: Seq<Seq<char>>,
    changed: Seq<Seq<char>>,
    k: int,
    i: int,
)
    requires
        0 <= k < terms.len(),
        0 <= i < f.anchors.len(),
        contains(lower(f.anchors[i].text), terms[k]),
    ensures
        file_score(f, terms, changed).1.contains("anchor:"@ + terms[k]),
        file_score(f, terms, changed).0 >= 3,
{
    lemma_term_score_anchor(f.path, f.anchors, terms, k, i);
    let rof = review_or_fix(terms);
    let c = if changed.contains(f.path) {
        ((if rof { 16nat } else { 10nat }), seq!["changed"@])
    } else {
        (0nat, Seq::<Seq<char>>::empty())
    };
    let t = term_score(f.path, f.anchors, terms);
    let v = if rof && spec_is_test_or_build_path(f.path) {
        (3nat, seq!["verification_area"@])
    } else {
        (0nat, Seq::<Seq<char>>::empty())
    };
    let j = choose|j: int| 0 <= j < t.1.len() && t.1[j] == "anchor:"@ + terms[k];
    assert((c.1 + t.1 + v.1)[c.1.len() + j] == t.1[j]);
}

/// Every indexed file with a positive score is a candidate before ranking,
/// with its score.
pub proof fn law_scored_files_keep_every_positive_file(
    files: Seq<FileView>,
    terms: Seq<Seq<char>>,
    changed: Seq<Seq<char>>,
    idx: int,
)
    requires
        0 <= idx < files.len(),
        file_score(files[idx], terms, changed).0 > 0,
    ensures
        exists|j: int|
            0 <= j < scored_files(files, terms, changed).len() && (#[trigger] scored_files(files, terms, changed)[j]).path
                == files[idx].path && scored_files(files, terms, changed)[j].score == file_score(
                files[idx],
                terms,
                changed,
            ).0,
    decreases files.len(),
{
    let r = scored_files(files.drop_last(), terms, changed);
    let s = scored_files(files, terms, changed);
    if idx < files.len() - 1 {
        assert(files.drop_last()[idx] == files[idx]);
        law_scored_files_keep_every_positive_file(files.drop_last(), terms, changed, idx);
        let j = choose|j: int| 0 <= j < r.len() && (#[trigger] r[j]).path == files[idx].path && r[j].score
            == file_score(files[idx], terms, changed).0;
        assert(s[j] == r[j]);
    } else {
        assert(s[s.len() - 1].path == files[idx].path);
    }
}

} // verus!
