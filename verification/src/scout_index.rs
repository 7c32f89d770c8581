//! What the scout reads from a repository: languages, skipped paths, the
//! anchors of a file and the changed paths that `git status` reports.
use vstd::prelude::*;

use crate::scout::Anchor;
use crate::scout::AnchorView;
use crate::scout::anchors_view;
use crate::scout_packet::prefix_of;
use crate::text::chars_of;
use crate::text::contains_char;
use crate::text::ends_with;
use crate::text::ends_with_str;
use crate::text::eq_str;
use crate::text::lines;
use crate::text::lines_of;
use crate::text::lower;
use crate::text::lowercase;
use crate::text::replace_char;
use crate::text::replace_char_exec;
use crate::text::split_on;
use crate::text::split_on_char;
use crate::text::starts_with;
use crate::text::starts_with_str;
use crate::text::string_of;
use crate::text::trim;
use crate::text::trim_chars;
use crate::text::views;

verus! {

// ------------------------------------------------------------ languages and skipped paths

/// The language of a path, by its extension, case aside.
pub open spec fn spec_language_for_path(path: Seq<char>) -> Seq<char> {
    let l = lower(path);
    if ends_with(l, ".rs"@) {
        "rust"@
    } else if ends_with(l, ".ts"@) || ends_with(l, ".tsx"@) {
        "typescript"@
    } else if ends_with(l, ".js"@) || ends_with(l, ".jsx"@) || ends_with(l, ".mjs"@) {
        "javascript"@
    } else if ends_with(l, ".py"@) {
        "python"@
    } else if ends_with(l, ".ps1"@) || ends_with(l, ".psm1"@) || ends_with(l, ".psd1"@) {
        "powershell"@
    } else if ends_with(l, ".c"@) || ends_with(l, ".cc"@) || ends_with(l, ".cpp"@) || ends_with(l, ".cxx"@)
        || ends_with(l, ".h"@) || ends_with(l, ".hpp"@) || ends_with(l, ".hh"@) || ends_with(l, ".hxx"@) {
        "cpp"@
    } else if ends_with(l, ".md"@) || ends_with(l, ".markdown"@) {
        "markdown"@
    } else if ends_with(l, ".toml"@) {
        "toml"@
    } else if ends_with(l, ".json"@) {
        "json"@
    } else if ends_with(l, ".yml"@) || ends_with(l, ".yaml"@) {
        "yaml"@
    } else {
        "text"@
    }
}

pub fn language_for_path(path: &str) -> (r: &'static str)
    ensures
        r@ == spec_language_for_path(path@),
{
    let l = lowercase(&chars_of(path));
    if ends_with_str(&l, ".rs") {
        "rust"
    } else if ends_with_str(&l, ".ts") || ends_with_str(&l, ".tsx") {
        "typescript"
    } else if ends_with_str(&l, ".js") || ends_with_str(&l, ".jsx") || ends_with_str(&l, ".mjs") {
        "javascript"
    } else if ends_with_str(&l, ".py") {
        "python"
    } else if ends_with_str(&l, ".ps1") || ends_with_str(&l, ".psm1") || ends_with_str(&l, ".psd1") {
        "powershell"
    } else if ends_with_str(&l, ".c") || ends_with_str(&l, ".cc") || ends_with_str(&l, ".cpp")
        || ends_with_str(&l, ".cxx") || ends_with_str(&l, ".h") || ends_with_str(&l, ".hpp")
        || ends_with_str(&l, ".hh") || ends_with_str(&l, ".hxx") {
        "cpp"
    } else if ends_with_str(&l, ".md") || ends_with_str(&l, ".markdown") {
        "markdown"
    } else if ends_with_str(&l, ".toml") {
        "toml"
    } else if ends_with_str(&l, ".json") {
        "json"
    } else if ends_with_str(&l, ".yml") || ends_with_str(&l, ".yaml") {
        "yaml"
    } else {
        "text"
    }
}

pub open spec fn skipped_dirs() -> Seq<Seq<char>> {
    seq![
        ".git"@,
        ".hg"@,
        ".svn"@,
        "target"@,
        "node_modules"@,
        "dist"@,
        "build"@,
        "coverage"@,
        ".cache"@,
        ".pytest_cache"@,
        "__pycache__"@,
        "_deps"@,
        ".venv"@,
        "logs"@,
        "build_standalone"@,
        "graphify-out"@,
        "repomix-output"@,
        ".gsd"@,
    ]
}

pub open spec fn skipped_part(part: Seq<char>) -> bool {
    skipped_dirs().contains(part) || starts_with(part, "cmake-build"@)
}

/// A path with a build, cache, vendor or VCS directory among its parts,
/// either slash counting as a separator.
pub open spec fn spec_is_skipped_path(relative: Seq<char>) -> bool {
    let parts = split_on(replace_char(relative, '\\', '/'), '/');
    exists|i: int| 0 <= i < parts.len() && skipped_part(#[trigger] parts[i])
}

fn in_words(t: &[char], words: &[&str]) -> (r: bool)
    ensures
        r == words@.map_values(|w: &str| w@).contains(t@),
{
    let ghost g = words@.map_values(|w: &str| w@);
    for k in 0..words.len()
        invariant
            g == words@.map_values(|w: &str| w@),
            forall|j: int| 0 <= j < k ==> g[j] != t@,
    {
        assert(g[k as int] == words@[k as int]@);
        if eq_str(t, words[k]) {
            return true;
        }
    }
    false
}

pub fn is_skipped_path(relative: &str) -> (r: bool)
    ensures
        r == spec_is_skipped_path(relative@),
{
    let parts = split_on_char(&replace_char_exec(&chars_of(relative), '\\', '/'), '/');
    let ghost pv = parts@.map_values(|p: Vec<char>| p@);
    let dirs: [&str; 18] = [
        ".git",
        ".hg",
        ".svn",
        "target",
        "node_modules",
        "dist",
        "build",
        "coverage",
        ".cache",
        ".pytest_cache",
        "__pycache__",
        "_deps",
        ".venv",
        "logs",
        "build_standalone",
        "graphify-out",
        "repomix-output",
        ".gsd",
    ];
    assert(dirs@.map_values(|w: &str| w@) =~= skipped_dirs());
    for i in 0..parts.len()
        invariant
            pv == parts@.map_values(|p: Vec<char>| p@),
            dirs@.map_values(|w: &str| w@) == skipped_dirs(),
            pv == split_on(replace_char(relative@, '\\', '/'), '/'),
            forall|j: int| 0 <= j < i ==> !skipped_part(#[trigger] pv[j]),
    {
        assert(pv[i as int] == parts@[i as int]@);
        if in_words(&parts[i], &dirs) || starts_with_str(&parts[i], "cmake-build") {
            assert(skipped_part(pv[i as int]));
            return true;
        }
    }
    false
}

// ------------------------------------------------------------ anchors

pub open spec fn starts_any(t: Seq<char>, prefixes: Seq<Seq<char>>) -> bool {
    exists|i: int| 0 <= i < prefixes.len() && starts_with(t, #[trigger] prefixes[i])
}

pub open spec fn rust_prefixes() -> Seq<Seq<char>> {
    seq![
        "pub fn "@,
        "fn "@,
        "pub struct "@,
        "struct "@,
        "pub enum "@,
        "enum "@,
        "pub trait "@,
        "trait "@,
        "impl "@,
        "mod "@,
    ]
}

pub open spec fn script_prefixes() -> Seq<Seq<char>> {
    seq![
        "export function "@,
        "function "@,
        "export class "@,
        "class "@,
        "export interface "@,
        "interface "@,
        "export type "@,
        "type "@,
        "const "@,
    ]
}

pub open spec fn python_prefixes() -> Seq<Seq<char>> {
    seq!["def "@, "class "@]
}

pub open spec fn powershell_prefixes() -> Seq<Seq<char>> {
    seq!["function "@, "param("@, "class "@, "using "@, "Import-Module"@]
}

pub open spec fn cpp_prefixes() -> Seq<Seq<char>> {
    seq!["#include"@, "namespace "@, "class "@, "struct "@, "enum "@]
}

pub open spec fn control_prefixes() -> Seq<Seq<char>> {
    seq!["if "@, "for "@, "while "@, "switch "@, "return "@]
}

/// Whether a trimmed line declares something worth an anchor in `language`.
pub open spec fn keep_line(language: Seq<char>, t: Seq<char>) -> bool {
    if language == "rust"@ {
        starts_any(t, rust_prefixes())
    } else if language == "javascript"@ || language == "typescript"@ {
        starts_any(t, script_prefixes())
    } else if language == "python"@ {
        starts_any(t, python_prefixes())
    } else if language == "powershell"@ {
        starts_any(t, powershell_prefixes())
    } else if language == "markdown"@ {
        t.len() > 0 && t[0] == '#'
    } else if language == "toml"@ {
        t.len() > 0 && t[0] == '['
    } else {
        false
    }
}

pub open spec fn anchor_at(idx: nat, t: Seq<char>) -> AnchorView {
    AnchorView { line: (idx + 1) as usize, text: prefix_of(t, 160) }
}

/// The anchors of the lines from number `idx` on, added to `acc`; the scan
/// stops once `limit` anchors are reached (after the first one when `limit` is 0).
pub open spec fn anchors_from(
    language: Seq<char>,
    ls: Seq<Seq<char>>,
    idx: nat,
    acc: Seq<AnchorView>,
    limit: nat,
) -> Seq<AnchorView>
    decreases ls.len(),
{
    if ls.len() == 0 {
        acc
    } else {
        let t = trim(ls[0]);
        if keep_line(language, t) {
            let acc2 = acc.push(anchor_at(idx, t));
            if acc2.len() >= limit {
                acc2
            } else {
                anchors_from(language, ls.drop_first(), idx + 1, acc2, limit)
            }
        } else {
            anchors_from(language, ls.drop_first(), idx + 1, acc, limit)
        }
    }
}

pub open spec fn count_char(s: Seq<char>, c: char) -> nat
    decreases s.len(),
{
    if s.len() == 0 {
        0
    } else {
        count_char(s.drop_last(), c) + if s.last() == c {
            1nat
        } else {
            0nat
        }
    }
}

/// Braces opened minus braces closed, saturating at both ends.
pub open spec fn spec_update_brace_depth(depth: nat, line: Seq<char>) -> nat {
    let opened = if depth + count_char(line, '{') > usize::MAX {
        usize::MAX as nat
    } else {
        depth + count_char(line, '{')
    };
    if opened > count_char(line, '}') {
        (opened - count_char(line, '}')) as nat
    } else {
        0
    }
}

/// A call or declaration line that is not a control statement and ends a
/// statement or opens a body.
pub open spec fn spec_looks_like_cpp_function(line: Seq<char>) -> bool {
    line.contains('(') && line.contains(')') && !starts_any(line, control_prefixes()) && line.len() > 0
        && (line.last() == '{' || line.last() == ';')
}

/// The C and C++ scan: includes and type declarations anywhere, function
/// lines at brace depth at most one; blank lines skipped.
pub open spec fn cpp_anchors_from(
    ls: Seq<Seq<char>>,
    idx: nat,
    depth: nat,
    acc: Seq<AnchorView>,
    limit: nat,
) -> Seq<AnchorView>
    decreases ls.len(),
{
    if ls.len() == 0 {
        acc
    } else {
        let t = trim(ls[0]);
        if t.len() == 0 {
            cpp_anchors_from(ls.drop_first(), idx + 1, depth, acc, limit)
        } else {
            let keep = starts_any(t, cpp_prefixes()) || (depth <= 1 && spec_looks_like_cpp_function(t));
            let acc2 = if keep {
                acc.push(anchor_at(idx, t))
            } else {
                acc
            };
            if keep && acc2.len() >= limit {
                acc2
            } else {
                cpp_anchors_from(ls.drop_first(), idx + 1, spec_update_brace_depth(depth, t), acc2, limit)
            }
        }
    }
}

pub open spec fn spec_anchors_for_text(language: Seq<char>, text: Seq<char>, limit: nat) -> Seq<AnchorView> {
    if language == "cpp"@ {
        cpp_anchors_from(lines(text), 0, 0, Seq::<AnchorView>::empty(), limit)
    } else {
        anchors_from(language, lines(text), 0, Seq::<AnchorView>::empty(), limit)
    }
}

fn starts_any_exec(t: &[char], prefixes: &[&str]) -> (r: bool)
    ensures
        r == starts_any(t@, prefixes@.map_values(|w: &str| w@)),
{
    let ghost g = prefixes@.map_values(|w: &str| w@);
    for k in 0..prefixes.len()
        invariant
            g == prefixes@.map_values(|w: &str| w@),
            forall|j: int| 0 <= j < k ==> !starts_with(t@, #[trigger] g[j]),
    {
        assert(g[k as int] == prefixes@[k as int]@);
        if starts_with_str(t, prefixes[k]) {
            return true;
        }
    }
    false
}

fn keep_line_exec(language: &[char], t: &[char]) -> (r: bool)
    ensures
        r == keep_line(language@, t@),
{
    if eq_str(language, "rust") {
        let ps: [&str; 10] = [
            "pub fn ",
            "fn ",
            "pub struct ",
            "struct ",
            "pub enum ",
            "enum ",
            "pub trait ",
            "trait ",
            "impl ",
            "mod ",
        ];
        assert(ps@.map_values(|w: &str| w@) =~= rust_prefixes());
        starts_any_exec(t, &ps)
    } else if eq_str(language, "javascript") || eq_str(language, "typescript") {
        let ps: [&str; 9] = [
            "export function ",
            "function ",
            "export class ",
            "class ",
            "export interface ",
            "interface ",
            "export type ",
            "type ",
            "const ",
        ];
        assert(ps@.map_values(|w: &str| w@) =~= script_prefixes());
        starts_any_exec(t, &ps)
    } else if eq_str(language, "python") {
        let ps: [&str; 2] = ["def ", "class "];
        assert(ps@.map_values(|w: &str| w@) =~= python_prefixes());
        starts_any_exec(t, &ps)
    } else if eq_str(language, "powershell") {
        let ps: [&str; 5] = ["function ", "param(", "class ", "using ", "Import-Module"];
        assert(ps@.map_values(|w: &str| w@) =~= powershell_prefixes());
        starts_any_exec(t, &ps)
    } else if eq_str(language, "markdown") {
        t.len() > 0 && t[0] == '#'
    } else if eq_str(language, "toml") {
        t.len() > 0 && t[0] == '['
    } else {
        false
    }
}

fn anchor_of(idx: usize, t: &[char]) -> (r: Anchor)
    requires
        idx < usize::MAX,
    ensures
        (AnchorView { line: r.line, text: r.text@ }) == anchor_at(idx as nat, t@),
{
    let k = crate::digest::min_usize(t.len(), 160);
    let text = crate::text::slice_chars(t, 0, k);
    assert(t@.subrange(0, t@.len() as int) =~= t@);
    Anchor { line: idx + 1, text: string_of(&text) }
}

fn count_char_exec(s: &[char], c: char) -> (r: usize)
    ensures
        r == count_char(s@, c),
{
    let mut n: usize = 0;
    for i in 0..s.len()
        invariant
            n == count_char(s@.take(i as int), c),
            n <= i,
    {
        assert(s@.take(i + 1).drop_last() =~= s@.take(i as int));
        if s[i] == c {
            n = n + 1;
        }
    }
    assert(s@.take(s.len() as int) =~= s@);
    n
}

pub fn update_brace_depth(depth: usize, line: &[char]) -> (r: usize)
    ensures
        r == spec_update_brace_depth(depth as nat, line@),
{
    let opens = count_char_exec(line, '{');
    let closes = count_char_exec(line, '}');
    depth.saturating_add(opens).saturating_sub(closes)
}

pub fn looks_like_cpp_function(line: &[char]) -> (r: bool)
    ensures
        r == spec_looks_like_cpp_function(line@),
{
    if !contains_char(line, '(') || !contains_char(line, ')') {
        return false;
    }
    let ps: [&str; 5] = ["if ", "for ", "while ", "switch ", "return "];
    assert(ps@.map_values(|w: &str| w@) =~= control_prefixes());
    if starts_any_exec(line, &ps) {
        return false;
    }
    line.len() > 0 && (line[line.len() - 1] == '{' || line[line.len() - 1] == ';')
}

fn cpp_anchors_for_text(text: &[char], limit: usize) -> (r: Vec<Anchor>)
    ensures
        anchors_view(r@) == cpp_anchors_from(lines(text@), 0, 0, Seq::<AnchorView>::empty(), limit as nat),
{
    let ls = lines_of(text);
    let ghost lv = views(ls@);
    assert(lv =~= lines(text@));
    let mut anchors: Vec<Anchor> = Vec::new();
    let mut depth: usize = 0;
    assert(lv.skip(0) =~= lv);
    assert(anchors_view(anchors@) =~= Seq::<AnchorView>::empty());
    let ps: [&str; 5] = ["#include", "namespace ", "class ", "struct ", "enum "];
    assert(ps@.map_values(|w: &str| w@) =~= cpp_prefixes());
    for i in 0..ls.len()
        invariant
            lv == views(ls@),
            lv == lines(text@),
            ps@.map_values(|w: &str| w@) == cpp_prefixes(),
            cpp_anchors_from(lv, 0, 0, Seq::<AnchorView>::empty(), limit as nat) == cpp_anchors_from(
                lv.skip(i as int),
                i as nat,
                depth as nat,
                anchors_view(anchors@),
                limit as nat,
            ),
    {
        let ghost rest = lv.skip(i as int);
        assert(rest[0] == ls@[i as int]@);
        assert(rest.drop_first() =~= lv.skip(i + 1));
        let t = trim_chars(&ls[i]);
        if t.len() > 0 {
            let keep = starts_any_exec(&t, &ps) || (
            depth <= 1 && looks_like_cpp_function(&t));
            assert(keep == (starts_any(t@, cpp_prefixes()) || (depth <= 1 && spec_looks_like_cpp_function(t@))));
            if keep {
                let ghost before = anchors_view(anchors@);
                anchors.push(anchor_of(i, &t));
                assert(anchors_view(anchors@) =~= before.push(anchor_at(i as nat, t@)));
                if anchors.len() >= limit {
                    assert(cpp_anchors_from(rest, i as nat, depth as nat, before, limit as nat) == anchors_view(
                        anchors@,
                    ));
                    return anchors;
                }
            }
            depth = update_brace_depth(depth, &t);
        }
    }
    assert(lv.skip(ls.len() as int) =~= Seq::<Seq<char>>::empty());
    anchors
}

/// The anchors of a file: the declaration lines of its language, trimmed and
/// cut to 160 characters, at most `limit` of them (at least one, if any).
pub fn anchors_for_text(language: &str, text: &str, limit: usize) -> (r: Vec<Anchor>)
    ensures
        anchors_view(r@) == spec_anchors_for_text(language@, text@, limit as nat),
{
    let lang = chars_of(language);
    let chars = chars_of(text);
    if eq_str(&lang, "cpp") {
        return cpp_anchors_for_text(&chars, limit);
    }
    let ls = lines_of(&chars);
    let ghost lv = views(ls@);
    assert(lv =~= lines(text@));
    let mut anchors: Vec<Anchor> = Vec::new();
    assert(lv.skip(0) =~= lv);
    assert(anchors_view(anchors@) =~= Seq::<AnchorView>::empty());
    for i in 0..ls.len()
        invariant
            lv == views(ls@),
            lv == lines(text@),
            lang@ == language@,
            language@ != "cpp"@,
            anchors_from(language@, lv, 0, Seq::<AnchorView>::empty(), limit as nat) == anchors_from(
                language@,
                lv.skip(i as int),
                i as nat,
                anchors_view(anchors@),
                limit as nat,
            ),
    {
        let ghost rest = lv.skip(i as int);
        assert(rest[0] == ls@[i as int]@);
        assert(rest.drop_first() =~= lv.skip(i + 1));
        let t = trim_chars(&ls[i]);
        if keep_line_exec(&lang, &t) {
            let ghost before = anchors_view(anchors@);
            anchors.push(anchor_of(i, &t));
            assert(anchors_view(anchors@) =~= before.push(anchor_at(i as nat, t@)));
            if anchors.len() >= limit {
                assert(anchors_from(language@, rest, i as nat, before, limit as nat) == anchors_view(anchors@));
                return anchors;
            }
        }
    }
    assert(lv.skip(ls.len() as int) =~= Seq::<Seq<char>>::empty());
    anchors
}

// ------------------------------------------------------------ file records

pub open spec fn file_line_count(size: u64, contents: Option<Seq<char>>, max_bytes: u64) -> nat {
    match contents {
        Some(t) => if size <= max_bytes {
            lines(t).len()
        } else {
            0
        },
        None => 0,
    }
}

pub open spec fn file_anchors(
    language: Seq<char>,
    size: u64,
    contents: Option<Seq<char>>,
    max_bytes: u64,
    limit: nat,
) -> Seq<AnchorView> {
    match contents {
        Some(t) => if size <= max_bytes {
            spec_anchors_for_text(language, t, limit)
        } else {
            Seq::<AnchorView>::empty()
        },
        None => Seq::<AnchorView>::empty(),
    }
}

/// The record of an indexed file. `contents` is the file read as text, or
/// `None` where it could not be read; a file over `max_file_bytes` counts no
/// lines and has no anchors.
pub fn file_record(
    relative: &str,
    size: u64,
    modified_unix: u64,
    contents: Option<&str>,
    config: &crate::scout::RepoContextScoutConfig,
) -> (r: crate::scout::FileRecord)
    ensures
        r.path@ == relative@,
        r.size == size,
        r.modified_unix == modified_unix,
        r.language@ == spec_language_for_path(relative@),
        r.line_count == file_line_count(
            size,
            match contents {
                Some(t) => Some(t@),
                None => None,
            },
            config.max_file_bytes,
        ),
        anchors_view(r.anchors@) == file_anchors(
            spec_language_for_path(relative@),
            size,
            match contents {
                Some(t) => Some(t@),
                None => None,
            },
            config.max_file_bytes,
            config.max_anchors_per_file as nat,
        ),
{
    let language = language_for_path(relative);
    let mut line_count: usize = 0;
    let mut anchors: Vec<Anchor> = Vec::new();
    assert(anchors_view(anchors@) =~= Seq::<AnchorView>::empty());
    if size <= config.max_file_bytes {
        match contents {
            Some(t) => {
                line_count = lines_of(&chars_of(t)).len();
                anchors = anchors_for_text(language, t, config.max_anchors_per_file);
            },
            None => {},
        }
    }
    crate::scout::FileRecord {
        path: string_of(&chars_of(relative)),
        size,
        modified_unix,
        language: string_of(&chars_of(language)),
        line_count,
        anchors,
    }
}

// ------------------------------------------------------------ changed paths

/// The index of the character that starts at byte `b`, if one does.
pub open spec fn char_at_byte(p: Seq<char>, b: nat) -> Option<nat>
    decreases p.len(),
{
    if b == 0 {
        Some(0)
    } else if p.len() == 0 {
        None
    } else if crate::text::utf8_width(p[0]) > b {
        None
    } else {
        match char_at_byte(p.drop_first(), (b - crate::text::utf8_width(p[0])) as nat) {
            Some(k) => Some(k + 1),
            None => None,
        }
    }
}

pub open spec fn slashes(p: Seq<char>) -> Seq<char> {
    replace_char(p, '\\', '/')
}

pub open spec fn is_rename(status: Seq<char>) -> bool {
    status.contains('R') || status.contains('C')
}

/// The pieces that are not empty, in order.
pub open spec fn drop_empty(ps: Seq<Seq<char>>) -> Seq<Seq<char>>
    decreases ps.len(),
{
    if ps.len() == 0 {
        ps
    } else if ps.last().len() == 0 {
        drop_empty(ps.drop_last())
    } else {
        drop_empty(ps.drop_last()).push(ps.last())
    }
}

/// Sets `k` to `v` in entries sorted by key.
pub open spec fn put_entry(es: Seq<(Seq<char>, Seq<char>)>, k: Seq<char>, v: Seq<char>) -> Seq<
    (Seq<char>, Seq<char>),
>
    decreases es.len(),
{
    if es.len() == 0 {
        seq![(k, v)]
    } else if es[0].0 == k {
        es.update(0, (k, v))
    } else if crate::text::chars_lt(k, es[0].0) {
        seq![(k, v)] + es
    } else {
        seq![es[0]] + put_entry(es.drop_first(), k, v)
    }
}

/// Adds `k` with `v` unless `k` is there already.
pub open spec fn put_absent(es: Seq<(Seq<char>, Seq<char>)>, k: Seq<char>, v: Seq<char>) -> Seq<
    (Seq<char>, Seq<char>),
>
    decreases es.len(),
{
    if es.len() == 0 {
        seq![(k, v)]
    } else if es[0].0 == k {
        es
    } else if crate::text::chars_lt(k, es[0].0) {
        seq![(k, v)] + es
    } else {
        seq![es[0]] + put_absent(es.drop_first(), k, v)
    }
}

/// The entries of `git status --porcelain=v1 -z`: a two-letter status, a
/// space and the path; a rename or copy takes its new path from the next piece.
pub open spec fn porcelain_entries(parts: Seq<Seq<char>>, acc: Seq<(Seq<char>, Seq<char>)>) -> Seq<
    (Seq<char>, Seq<char>),
>
    decreases parts.len(),
{
    if parts.len() == 0 {
        acc
    } else {
        let p = parts[0];
        let rest = parts.drop_first();
        if crate::text::utf8_len(p) < 4 {
            porcelain_entries(rest, acc)
        } else {
            let status = prefix_of(p, 2);
            let k = match char_at_byte(p, 3) {
                Some(k) => k,
                None => 0,
            };
            if is_rename(status) && rest.len() > 0 {
                porcelain_entries(rest.drop_first(), put_entry(acc, slashes(rest[0]), status))
            } else {
                porcelain_entries(rest, put_entry(acc, slashes(p.skip(k as int)), status))
            }
        }
    }
}

/// Every entry read has a character boundary at byte 3, where its path starts.
pub open spec fn porcelain_ok(parts: Seq<Seq<char>>) -> bool
    decreases parts.len(),
{
    if parts.len() == 0 {
        true
    } else {
        let p = parts[0];
        let rest = parts.drop_first();
        if crate::text::utf8_len(p) < 4 {
            porcelain_ok(rest)
        } else {
            char_at_byte(p, 3) is Some && if is_rename(prefix_of(p, 2)) && rest.len() > 0 {
                porcelain_ok(rest.drop_first())
            } else {
                porcelain_ok(rest)
            }
        }
    }
}

/// The untracked paths, one per line, each added with status `??` unless
/// `git status` named it already.
pub open spec fn untracked_entries(ls: Seq<Seq<char>>, acc: Seq<(Seq<char>, Seq<char>)>) -> Seq<
    (Seq<char>, Seq<char>),
>
    decreases ls.len(),
{
    if ls.len() == 0 {
        acc
    } else {
        let t = trim(ls[0]);
        let next = if t.len() == 0 {
            acc
        } else {
            put_absent(acc, slashes(t), "??"@)
        };
        untracked_entries(ls.drop_first(), next)
    }
}

pub open spec fn status_parts(status: Seq<char>) -> Seq<Seq<char>> {
    drop_empty(split_on(status, '\0'))
}

/// The changed paths, sorted, from the two outputs of git (either may be missing).
pub open spec fn spec_changed_areas(status: Option<Seq<char>>, untracked: Option<Seq<char>>) -> Seq<
    (Seq<char>, Seq<char>),
> {
    let from_status = match status {
        Some(s) => porcelain_entries(status_parts(s), Seq::<(Seq<char>, Seq<char>)>::empty()),
        None => Seq::<(Seq<char>, Seq<char>)>::empty(),
    };
    match untracked {
        Some(u) => untracked_entries(lines(u), from_status),
        None => from_status,
    }
}

pub open spec fn changed_view(v: Seq<crate::scout::ChangedPath>) -> Seq<(Seq<char>, Seq<char>)> {
    v.map_values(|c: crate::scout::ChangedPath| (c.path@, c.status@))
}

pub open spec fn pairs_view(v: Seq<(Vec<char>, Vec<char>)>) -> Seq<(Seq<char>, Seq<char>)> {
    v.map_values(|e: (Vec<char>, Vec<char>)| (e.0@, e.1@))
}

fn put_entry_exec(es: &mut Vec<(Vec<char>, Vec<char>)>, k: &[char], v: &[char], overwrite: bool)
    ensures
        pairs_view(final(es)@) == if overwrite {
            put_entry(pairs_view(old(es)@), k@, v@)
        } else {
            put_absent(pairs_view(old(es)@), k@, v@)
        },
{
    let ghost ev = pairs_view(es@);
    let ghost target = if overwrite {
        put_entry(ev, k@, v@)
    } else {
        put_absent(ev, k@, v@)
    };
    assert(ev.take(0) =~= Seq::<(Seq<char>, Seq<char>)>::empty());
    assert(ev.skip(0) =~= ev);
    let mut j: usize = 0;
    while j < es.len()
        invariant
            ev == pairs_view(es@),
            es@ == old(es)@,
            j <= es.len(),
            target == (if overwrite {
                put_entry(ev, k@, v@)
            } else {
                put_absent(ev, k@, v@)
            }),
            target == ev.take(j as int) + (if overwrite {
                put_entry(ev.skip(j as int), k@, v@)
            } else {
                put_absent(ev.skip(j as int), k@, v@)
            }),
        decreases es.len() - j,
    {
        let c = crate::text::compare_chars(&es[j].0, k);
        let ghost rest = ev.skip(j as int);
        assert(rest[0] == ev[j as int]);
        assert(ev[j as int] == (es@[j as int].0@, es@[j as int].1@));
        if c == 0 {
            if overwrite {
                es.set(j, (crate::text::clone_chars(k), crate::text::clone_chars(v)));
                assert(pairs_view(es@) =~= ev.take(j as int) + rest.update(0, (k@, v@)));
            } else {
                assert(ev.take(j as int) + rest =~= ev);
            }
            return;
        }
        if c > 0 {
            es.insert(j, (crate::text::clone_chars(k), crate::text::clone_chars(v)));
            assert(pairs_view(es@) =~= ev.take(j as int) + (seq![(k@, v@)] + rest));
            return;
        }
        assert(rest.drop_first() =~= ev.skip(j + 1));
        assert(ev.take(j + 1) =~= ev.take(j as int) + seq![ev[j as int]]);
        j += 1;
    }
    assert(ev.skip(j as int) =~= Seq::<(Seq<char>, Seq<char>)>::empty());
    es.push((crate::text::clone_chars(k), crate::text::clone_chars(v)));
    assert(ev.take(j as int) =~= ev);
    assert(pairs_view(es@) =~= ev + seq![(k@, v@)]);
}

fn drop_empty_exec(ps: Vec<Vec<char>>) -> (r: Vec<Vec<char>>)
    ensures
        views(r@) == drop_empty(views(ps@)),
{
    let ghost pv = views(ps@);
    let mut r: Vec<Vec<char>> = Vec::new();
    for i in 0..ps.len()
        invariant
            pv == views(ps@),
            views(r@) == drop_empty(pv.take(i as int)),
    {
        assert(pv.take(i + 1).drop_last() =~= pv.take(i as int));
        if ps[i].len() > 0 {
            crate::digest::push_row(&mut r, crate::text::clone_chars(&ps[i]));
        }
    }
    assert(pv.take(ps.len() as int) =~= pv);
    r
}

/// The index of the character at byte 3 of `p`, where `char_at_byte` finds one.
fn byte3_char(p: &[char]) -> (r: Option<usize>)
    ensures
        match r {
            Some(k) => char_at_byte(p@, 3) == Some(k as nat),
            None => char_at_byte(p@, 3) is None,
        },
{
    let mut i: usize = 0;
    let mut left: usize = 3;
    assert(p@.skip(0) =~= p@);
    while left > 0
        invariant
            i <= p.len(),
            left <= 3,
            char_at_byte(p@, 3) == match char_at_byte(p@.skip(i as int), left as nat) {
                Some(k) => Some((k + i) as nat),
                None => None,
            },
        decreases left,
    {
        let ghost rest = p@.skip(i as int);
        if i >= p.len() {
            assert(rest.len() == 0);
            return None;
        }
        assert(rest[0] == p@[i as int]);
        assert(rest.drop_first() =~= p@.skip(i + 1));
        let w = crate::text::utf8_width_exec(p[i]);
        if w > left {
            return None;
        }
        left = left - w;
        i = i + 1;
        proof {
            assert(crate::text::utf8_width(p@[(i - 1) as int]) >= 1);
        }
    }
    Some(i)
}

fn parse_porcelain_z(parts: &Vec<Vec<char>>, es: &mut Vec<(Vec<char>, Vec<char>)>)
    requires
        porcelain_ok(views(parts@)),
    ensures
        pairs_view(final(es)@) == porcelain_entries(views(parts@), pairs_view(old(es)@)),
{
    let ghost pv = views(parts@);
    let ghost target = porcelain_entries(pv, pairs_view(es@));
    let mut i: usize = 0;
    assert(pv.skip(0) =~= pv);
    while i < parts.len()
        invariant
            pv == views(parts@),
            i <= parts.len(),
            porcelain_ok(pv.skip(i as int)),
            target == porcelain_entries(pv.skip(i as int), pairs_view(es@)),
        decreases parts.len() - i,
    {
        let ghost rest = pv.skip(i as int);
        assert(rest[0] == parts@[i as int]@);
        assert(rest.drop_first() =~= pv.skip(i + 1));
        let p = &parts[i];
        if crate::text::utf8_len_exec(p) < 4 {
            i = i + 1;
        } else {
            let status = prefix_chars2(p);
            let k = match byte3_char(p) {
                Some(k) => k,
                None => {
                    assert(false);
                    0
                },
            };
            proof {
                lemma_char_at_byte_bound(p@, 3);
            }
            if (contains_char(&status, 'R') || contains_char(&status, 'C')) && i + 1 < parts.len() {
                assert(rest.drop_first()[0] == parts@[i + 1]@);
                assert(rest.drop_first().drop_first() =~= pv.skip(i + 2));
                let key = replace_char_exec(&parts[i + 1], '\\', '/');
                put_entry_exec(es, &key, &status, true);
                i = i + 2;
            } else {
                let path = crate::text::slice_chars(p, k, p.len());
                assert(path@ =~= p@.skip(k as int));
                let key = replace_char_exec(&path, '\\', '/');
                put_entry_exec(es, &key, &status, true);
                i = i + 1;
            }
        }
    }
    assert(pv.skip(i as int) =~= Seq::<Seq<char>>::empty());
}

proof fn lemma_char_at_byte_bound(p: Seq<char>, b: nat)
    ensures
        match char_at_byte(p, b) {
            Some(k) => k <= p.len(),
            None => true,
        },
    decreases p.len(),
{
    if b > 0 && p.len() > 0 && crate::text::utf8_width(p[0]) <= b {
        lemma_char_at_byte_bound(p.drop_first(), (b - crate::text::utf8_width(p[0])) as nat);
    }
}

fn prefix_chars2(p: &[char]) -> (r: Vec<char>)
    ensures
        r@ == prefix_of(p@, 2),
{
    let k = crate::digest::min_usize(p.len(), 2);
    let r = crate::text::slice_chars(p, 0, k);
    assert(p@.subrange(0, p@.len() as int) =~= p@);
    r
}

/// The changed paths of a repository, sorted by path, from the output of
/// `git status --porcelain=v1 -z --untracked-files=all` and of
/// `git ls-files --others --exclude-standard`, each `None` where git failed.
pub fn changed_areas(status: Option<&str>, untracked: Option<&str>) -> (r: crate::scout::ChangedAreas)
    requires
        match status {
            Some(s) => porcelain_ok(status_parts(s@)),
            None => true,
        },
    ensures
        changed_view(r.paths@) == spec_changed_areas(
            match status {
                Some(s) => Some(s@),
                None => None,
            },
            match untracked {
                Some(u) => Some(u@),
                None => None,
            },
        ),
{
    let mut es: Vec<(Vec<char>, Vec<char>)> = Vec::new();
    assert(pairs_view(es@) =~= Seq::<(Seq<char>, Seq<char>)>::empty());
    match status {
        Some(s) => {
            let parts = drop_empty_exec(split_on_char(&chars_of(s), '\0'));
            assert(views(parts@) == status_parts(s@));
            parse_porcelain_z(&parts, &mut es);
        },
        None => {},
    }
    match untracked {
        Some(u) => {
            let ls = lines_of(&chars_of(u));
            let ghost lv = views(ls@);
            assert(lv =~= lines(u@));
            let ghost target = untracked_entries(lv, pairs_view(es@));
            assert(lv.skip(0) =~= lv);
            for i in 0..ls.len()
                invariant
                    lv == views(ls@),
                    target == untracked_entries(lv.skip(i as int), pairs_view(es@)),
            {
                let ghost rest = lv.skip(i as int);
                assert(rest[0] == ls@[i as int]@);
                assert(rest.drop_first() =~= lv.skip(i + 1));
                let t = trim_chars(&ls[i]);
                if t.len() > 0 {
                    let key = replace_char_exec(&t, '\\', '/');
                    put_entry_exec(&mut es, &key, &chars_of("??"), false);
                }
            }
            assert(lv.skip(ls.len() as int) =~= Seq::<Seq<char>>::empty());
        },
        None => {},
    }
    let ghost ev = pairs_view(es@);
    let mut paths: Vec<crate::scout::ChangedPath> = Vec::new();
    for i in 0..es.len()
        invariant
            ev == pairs_view(es@),
            changed_view(paths@) == ev.take(i as int),
    {
        let ghost before = paths@;
        paths.push(crate::scout::ChangedPath { path: string_of(&es[i].0), status: string_of(&es[i].1) });
        assert(changed_view(paths@) =~= changed_view(before).push(ev[i as int]));
        assert(ev.take(i + 1) =~= ev.take(i as int).push(ev[i as int]));
    }
    assert(ev.take(es.len() as int) =~= ev);
    crate::scout::ChangedAreas { paths }
}

// ------------------------------------------------------------ changed files over the index

/// The changed paths that the index lacks and the scout does not skip, each
/// once, in the order `git` reported them: the files to read and add.
pub open spec fn spec_overlay_paths(indexed: Seq<Seq<char>>, changed: Seq<Seq<char>>) -> Seq<Seq<char>>
    decreases changed.len(),
{
    if changed.len() == 0 {
        Seq::<Seq<char>>::empty()
    } else {
        let prev = spec_overlay_paths(indexed, changed.drop_last());
        let p = changed.last();
        if indexed.contains(p) || prev.contains(p) || spec_is_skipped_path(p) {
            prev
        } else {
            prev.push(p)
        }
    }
}

fn contains_view(v: &Vec<Vec<char>>, p: &[char]) -> (r: bool)
    ensures
        r == views(v@).contains(p@),
{
    for i in 0..v.len()
        invariant
            forall|j: int| 0 <= j < i ==> views(v@)[j] != p@,
    {
        if crate::text::chars_eq(&v[i], p) {
            assert(views(v@)[i as int] == p@);
            return true;
        }
    }
    false
}

pub fn overlay_paths(index: &crate::scout::RepoIndex, changed: &crate::scout::ChangedAreas) -> (r: Vec<String>)
    ensures
        crate::scout::strs(r@) == spec_overlay_paths(
            index.files@.map_values(|f: crate::scout::FileRecord| f.path@),
            changed.paths@.map_values(|c: crate::scout::ChangedPath| c.path@),
        ),
{
    let ghost iv = index.files@.map_values(|f: crate::scout::FileRecord| f.path@);
    let ghost cv = changed.paths@.map_values(|c: crate::scout::ChangedPath| c.path@);
    let mut indexed: Vec<Vec<char>> = Vec::new();
    for i in 0..index.files.len()
        invariant
            iv == index.files@.map_values(|f: crate::scout::FileRecord| f.path@),
            views(indexed@) == iv.take(i as int),
    {
        crate::digest::push_row(&mut indexed, chars_of(index.files[i].path.as_str()));
        assert(iv.take(i + 1) =~= iv.take(i as int).push(iv[i as int]));
    }
    assert(iv.take(index.files.len() as int) =~= iv);
    let mut kept: Vec<Vec<char>> = Vec::new();
    for i in 0..changed.paths.len()
        invariant
            iv == views(indexed@),
            cv == changed.paths@.map_values(|c: crate::scout::ChangedPath| c.path@),
            views(kept@) == spec_overlay_paths(iv, cv.take(i as int)),
    {
        assert(cv.take(i + 1).drop_last() =~= cv.take(i as int));
        assert(cv.take(i + 1).last() == changed.paths@[i as int].path@);
        let p = chars_of(changed.paths[i].path.as_str());
        if !contains_view(&indexed, &p) && !contains_view(&kept, &p) && !is_skipped_path(
            changed.paths[i].path.as_str(),
        ) {
            crate::digest::push_row(&mut kept, p);
        }
    }
    assert(cv.take(changed.paths.len() as int) =~= cv);
    let mut r: Vec<String> = Vec::new();
    for i in 0..kept.len()
        invariant
            crate::scout::strs(r@) == views(kept@).take(i as int),
    {
        let ghost before = r@;
        r.push(string_of(&kept[i]));
        assert(crate::scout::strs(r@) =~= crate::scout::strs(before).push(views(kept@)[i as int]));
        assert(views(kept@).take(i + 1) =~= views(kept@).take(i as int).push(views(kept@)[i as int]));
    }
    assert(views(kept@).take(kept.len() as int) =~= views(kept@));
    r
}

// ------------------------------------------------------------ laws of the changed paths

/// Strictly increasing keys: sorted, each key once.
pub open spec fn keys_sorted(es: Seq<(Seq<char>, Seq<char>)>) -> bool {
    forall|i: int, j: int| 0 <= i < j < es.len() ==> crate::text::chars_lt(#[trigger] es[i].0, #[trigger] es[j].0)
}

pub open spec fn put_with(es: Seq<(Seq<char>, Seq<char>)>, k: Seq<char>, v: Seq<char>, overwrite: bool) -> Seq<
    (Seq<char>, Seq<char>),
> {
    if overwrite {
        put_entry(es, k, v)
    } else {
        put_absent(es, k, v)
    }
}

proof fn lemma_put_sorted(es: Seq<(Seq<char>, Seq<char>)>, k: Seq<char>, v: Seq<char>, overwrite: bool)
    requires
        keys_sorted(es),
    ensures
        keys_sorted(put_with(es, k, v, overwrite)),
        forall|x: (Seq<char>, Seq<char>)| #[trigger] put_with(es, k, v, overwrite).contains(x) ==> x.0 == k || es.contains(x),
    decreases es.len(),
{
    let r = put_with(es, k, v, overwrite);
    if es.len() == 0 {
    } else if es[0].0 == k {
        assert forall|x: (Seq<char>, Seq<char>)| #[trigger] r.contains(x) implies x.0 == k || es.contains(x) by {
            let m = choose|m: int| 0 <= m < r.len() && r[m] == x;
            if m > 0 {
                assert(es[m] == x);
            }
        }
    } else if crate::text::chars_lt(k, es[0].0) {
        assert forall|i: int, j: int| 0 <= i < j < r.len() implies crate::text::chars_lt(#[trigger] r[i].0, #[trigger] r[j].0) by {
            if i == 0 {
                assert(r[j] == es[j - 1]);
                if j - 1 > 0 {
                    crate::text::lemma_chars_lt_trans(k, es[0].0, es[j - 1].0);
                }
            } else {
                assert(r[i] == es[i - 1]);
                assert(r[j] == es[j - 1]);
            }
        }
        assert forall|x: (Seq<char>, Seq<char>)| #[trigger] r.contains(x) implies x.0 == k || es.contains(x) by {
            let m = choose|m: int| 0 <= m < r.len() && r[m] == x;
            if m > 0 {
                assert(es[m - 1] == x);
            }
        }
    } else {
        let rest = es.drop_first();
        assert(keys_sorted(rest)) by {
            assert forall|i: int, j: int| 0 <= i < j < rest.len() implies crate::text::chars_lt(#[trigger] rest[i].0, #[trigger] rest[j].0) by {
                assert(rest[i] == es[i + 1]);
                assert(rest[j] == es[j + 1]);
            }
        }
        lemma_put_sorted(rest, k, v, overwrite);
        let t = put_with(rest, k, v, overwrite);
        assert(r == seq![es[0]] + t);
        crate::text::lemma_chars_lt_total(k, es[0].0);
        assert forall|i: int, j: int| 0 <= i < j < r.len() implies crate::text::chars_lt(#[trigger] r[i].0, #[trigger] r[j].0) by {
            if i == 0 {
                assert(r[j] == t[j - 1]);
                assert(t.contains(t[j - 1]));
                if t[j - 1].0 == k {
                } else {
                    let m = choose|m: int| 0 <= m < rest.len() && rest[m] == t[j - 1];
                    assert(rest[m] == es[m + 1]);
                }
            } else {
                assert(r[i] == t[i - 1]);
                assert(r[j] == t[j - 1]);
            }
        }
        assert forall|x: (Seq<char>, Seq<char>)| #[trigger] r.contains(x) implies x.0 == k || es.contains(x) by {
            let m = choose|m: int| 0 <= m < r.len() && r[m] == x;
            if m > 0 {
                assert(t[m - 1] == x);
                assert(t.contains(x));
                if x.0 != k {
                    let q = choose|q: int| 0 <= q < rest.len() && rest[q] == x;
                    assert(es[q + 1] == x);
                }
            }
        }
    }
}

proof fn lemma_porcelain_sorted(parts: Seq<Seq<char>>, acc: Seq<(Seq<char>, Seq<char>)>)
    requires
        keys_sorted(acc),
    ensures
        keys_sorted(porcelain_entries(parts, acc)),
    decreases parts.len(),
{
    if parts.len() > 0 {
        let p = parts[0];
        let rest = parts.drop_first();
        if crate::text::utf8_len(p) >= 4 {
            let status = prefix_of(p, 2);
            let k = match char_at_byte(p, 3) {
                Some(k) => k,
                None => 0,
            };
            if is_rename(status) && rest.len() > 0 {
                lemma_put_sorted(acc, slashes(rest[0]), status, true);
                lemma_porcelain_sorted(rest.drop_first(), put_entry(acc, slashes(rest[0]), status));
            } else {
                lemma_put_sorted(acc, slashes(p.skip(k as int)), status, true);
                lemma_porcelain_sorted(rest, put_entry(acc, slashes(p.skip(k as int)), status));
            }
        } else {
            lemma_porcelain_sorted(rest, acc);
        }
    }
}

proof fn lemma_untracked_sorted(ls: Seq<Seq<char>>, acc: Seq<(Seq<char>, Seq<char>)>)
    requires
        keys_sorted(acc),
    ensures
        keys_sorted(untracked_entries(ls, acc)),
    decreases ls.len(),
{
    if ls.len() > 0 {
        let t = trim(ls[0]);
        if t.len() == 0 {
            lemma_untracked_sorted(ls.drop_first(), acc);
        } else {
            lemma_put_sorted(acc, slashes(t), "??"@, false);
            lemma_untracked_sorted(ls.drop_first(), put_absent(acc, slashes(t), "??"@));
        }
    }
}

/// The changed paths come sorted by path, each path once.
pub proof fn law_changed_paths_sorted_and_unique(status: Option<Seq<char>>, untracked: Option<Seq<char>>)
    ensures
        keys_sorted(spec_changed_areas(status, untracked)),
{
    let empty = Seq::<(Seq<char>, Seq<char>)>::empty();
    let from_status = match status {
        Some(s) => {
            lemma_porcelain_sorted(status_parts(s), empty);
            porcelain_entries(status_parts(s), empty)
        },
        None => empty,
    };
    match untracked {
        Some(u) => lemma_untracked_sorted(lines(u), from_status),
        None => {},
    }
}

} // verus!
