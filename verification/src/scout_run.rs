//! What a scout run computes once the repository has been read: the cache
//! key, the index state, the bundle and the shadow record.
use vstd::prelude::*;

use crate::digest::file_name;
use crate::review_anchor::path_join;
use crate::review_anchor::path_join_of;
use crate::scout::approx_tokens_wide;
use crate::scout::cands_view;
use crate::scout::rank_files;
use crate::scout::spec_approx_tokens;
use crate::scout::spec_rank_files;
use crate::scout::files_view;
use crate::scout::ChangedAreas;
use crate::scout::ChangedPath;
use crate::scout::IndexState;
use crate::scout::RepoContextScoutConfig;
use crate::scout::RepoIndex;
use crate::scout::ScoutCandidate;
use crate::scout::ScoutCommandMode;
use crate::scout::ScoutTrigger;
use crate::scout::SupportRoute;
use crate::scout_index::slashes;
use crate::scout_packet::format_packet;
use crate::scout_packet::prefix_of;
use crate::scout_packet::routes_view;
use crate::scout_packet::spec_format_packet;
use crate::scout_packet::spec_support_routes;
use crate::scout_packet::support_routes_for_prompt;
use crate::task_memory::hex;
use crate::task_memory::sha1_of_text;
use crate::text::append_chars;
use crate::text::append_str;
use crate::text::chars_of;
use crate::text::string_of;

verus! {

// ------------------------------------------------------------ records

/// One scout request; paths are given as text.
#[derive(Clone, Copy, Debug)]
pub struct ScoutRequest<'a> {
    pub project_root: &'a str,
    pub codex_home: &'a str,
    pub prompt: &'a str,
    pub config: RepoContextScoutConfig,
    pub mode: ScoutCommandMode,
    pub trigger: ScoutTrigger,
}

#[derive(Clone, Debug, PartialEq, Eq)]
pub struct ScoutStatus {
    pub repo_key: String,
    pub cache_dir: String,
    pub index_path: String,
    pub generated_at_unix: u64,
    pub index_state: IndexState,
    pub indexed_files: usize,
    pub git_head: Option<String>,
    pub changed_paths: Vec<ChangedPath>,
}

#[derive(Clone, Debug, PartialEq, Eq)]
pub struct ScoutBundle {
    pub repo_key: String,
    pub project_root: String,
    pub status: ScoutStatus,
    pub candidates: Vec<ScoutCandidate>,
    pub support_routes: Vec<SupportRoute>,
    pub packet_tokens: usize,
    pub packet: String,
}

#[derive(Clone, Debug, PartialEq, Eq)]
pub struct ShadowRecord {
    pub timestamp_unix: u64,
    pub trigger: ScoutTrigger,
    pub prompt_hash: String,
    pub repo_key: String,
    pub index_state: IndexState,
    pub selected_paths: Vec<String>,
    pub support_routes: Vec<SupportRoute>,
    pub packet_tokens: usize,
    pub changed_path_count: usize,
    pub fallback_reason: Option<String>,
    pub verdict: String,
}

/// Where a repository's scout cache lives.
#[derive(Clone, Debug, PartialEq, Eq)]
pub struct CachePaths {
    pub repo_key: String,
    pub dir: String,
    pub index: String,
    pub shadow: String,
}

// ------------------------------------------------------------ keys

/// The first twelve hexadecimal digits of the SHA-1 of a text.
pub open spec fn spec_short_hash(value: Seq<char>) -> Seq<char> {
    prefix_of(hex(sha1_of_text(value)), 12)
}

pub fn short_hash(value: &str) -> (r: String)
    ensures
        r@ == spec_short_hash(value@),
{
    let digest = crate::task_memory::hex_of(&crate::task_memory::sha1_digest(value));
    let k = crate::digest::min_usize(digest.len(), 12);
    let p = crate::text::slice_chars(&digest, 0, k);
    assert(digest@.subrange(0, digest@.len() as int) =~= digest@);
    string_of(&p)
}

/// The last named component of a path, or `repo` when it has none.
pub open spec fn leaf_name(root: Seq<char>) -> Seq<char> {
    match file_name(root) {
        Some(n) => if n.len() > 0 {
            n
        } else {
            "repo"@
        },
        None => "repo"@,
    }
}

/// The cache key of a repository root: its leaf name and a short hash of the
/// root with forward slashes.
pub open spec fn spec_repo_key(root: Seq<char>) -> Seq<char> {
    leaf_name(root) + "-"@ + spec_short_hash(slashes(root))
}

pub fn repo_key(root: &str) -> (r: String)
    ensures
        r@ == spec_repo_key(root@),
{
    let chars = chars_of(root);
    let mut key = match crate::digest::file_name_of(&chars) {
        Some(n) => if n.len() > 0 {
            n
        } else {
            chars_of("repo")
        },
        None => chars_of("repo"),
    };
    append_str(&mut key, "-");
    let slashed = string_of(&crate::text::replace_char_exec(&chars, '\\', '/'));
    append_str(&mut key, short_hash(slashed.as_str()).as_str());
    string_of(&key)
}

/// The cache directory, index and shadow log of the repository at `root`
/// under `codex_home`.
pub fn cache_paths(codex_home: &str, root: &str) -> (r: CachePaths)
    ensures
        r.repo_key@ == spec_repo_key(root@),
        r.dir@ == path_join(path_join(codex_home@, "context-scout"@), spec_repo_key(root@)),
        r.index@ == path_join(r.dir@, "index.json"@),
        r.shadow@ == path_join(r.dir@, "shadow.jsonl"@),
{
    let key = repo_key(root);
    let dir = path_join_of(&path_join_of(&chars_of(codex_home), &chars_of("context-scout")), &chars_of(key.as_str()));
    let index = path_join_of(&dir, &chars_of("index.json"));
    let shadow = path_join_of(&dir, &chars_of("shadow.jsonl"));
    CachePaths { repo_key: key, dir: string_of(&dir), index: string_of(&index), shadow: string_of(&shadow) }
}

// ------------------------------------------------------------ index state

pub open spec fn opt_view(o: Option<String>) -> Option<Seq<char>> {
    match o {
        Some(s) => Some(s@),
        None => None,
    }
}

/// Cold without a saved index, stale when the saved index was built at
/// another HEAD, warm otherwise.
pub open spec fn spec_index_state(had_index: bool, indexed_head: Option<Seq<char>>, current_head: Option<
    Seq<char>,
>) -> IndexState {
    if !had_index {
        IndexState::Cold
    } else if indexed_head != current_head {
        IndexState::Stale
    } else {
        IndexState::Warm
    }
}

fn opt_str_eq(a: &Option<String>, b: &Option<String>) -> (r: bool)
    ensures
        r == (opt_view(*a) == opt_view(*b)),
{
    match (a, b) {
        (Some(x), Some(y)) => crate::text::chars_eq(&chars_of(x.as_str()), &chars_of(y.as_str())),
        (None, None) => true,
        _ => false,
    }
}

pub fn index_state_for(had_index: bool, indexed_head: &Option<String>, current_head: &Option<String>) -> (r:
    IndexState)
    ensures
        r == spec_index_state(had_index, opt_view(*indexed_head), opt_view(*current_head)),
{
    if !had_index {
        IndexState::Cold
    } else if !opt_str_eq(indexed_head, current_head) {
        IndexState::Stale
    } else {
        IndexState::Warm
    }
}

// ------------------------------------------------------------ the bundle

fn clone_string(s: &String) -> (r: String)
    ensures
        r@ == s@,
{
    string_of(&chars_of(s.as_str()))
}

fn clone_opt_string(o: &Option<String>) -> (r: Option<String>)
    ensures
        opt_view(r) == opt_view(*o),
{
    match o {
        Some(s) => Some(clone_string(s)),
        None => None,
    }
}

fn clone_changed(v: &Vec<ChangedPath>) -> (r: Vec<ChangedPath>)
    ensures
        crate::scout_index::changed_view(r@) == crate::scout_index::changed_view(v@),
{
    let ghost cv = crate::scout_index::changed_view(v@);
    let mut r: Vec<ChangedPath> = Vec::new();
    for i in 0..v.len()
        invariant
            cv == crate::scout_index::changed_view(v@),
            crate::scout_index::changed_view(r@) == cv.take(i as int),
    {
        let ghost before = r@;
        r.push(ChangedPath { path: clone_string(&v[i].path), status: clone_string(&v[i].status) });
        assert(crate::scout_index::changed_view(r@) =~= crate::scout_index::changed_view(before).push(
            cv[i as int],
        ));
        assert(cv.take(i + 1) =~= cv.take(i as int).push(cv[i as int]));
    }
    assert(cv.take(v.len() as int) =~= cv);
    r
}

/// The candidates of a run: none for a status request, else the ranking.
pub open spec fn spec_run_candidates(
    mode: ScoutCommandMode,
    index: RepoIndex,
    changed: Seq<ChangedPath>,
    prompt: Seq<char>,
    config: RepoContextScoutConfig,
) -> Seq<crate::scout::CandView> {
    if mode == ScoutCommandMode::Status {
        Seq::<crate::scout::CandView>::empty()
    } else {
        spec_rank_files(
            files_view(index.files@),
            changed.map_values(|c: ChangedPath| c.path@),
            prompt,
            config.max_candidates as nat,
        )
    }
}

/// A token count as a `usize`, saturating.
pub open spec fn token_count(packet: Seq<char>) -> nat {
    if spec_approx_tokens(packet) > usize::MAX {
        usize::MAX as nat
    } else {
        spec_approx_tokens(packet)
    }
}

/// The bundle of a scout run, from what was read: the cache paths, the root,
/// whether an index was saved before, the index with the changed files laid
/// over it, the changed paths and the current HEAD.
pub fn scout_bundle(
    cache: &CachePaths,
    project_root: &str,
    had_index: bool,
    index: &RepoIndex,
    changed: &ChangedAreas,
    current_head: &Option<String>,
    request: &ScoutRequest,
) -> (r: ScoutBundle)
    ensures
        r.repo_key@ == cache.repo_key@,
        r.project_root@ == project_root@,
        r.status.repo_key@ == cache.repo_key@,
        r.status.cache_dir@ == cache.dir@,
        r.status.index_path@ == cache.index@,
        r.status.generated_at_unix == index.generated_at_unix,
        r.status.index_state == spec_index_state(had_index, opt_view(index.git_head), opt_view(*current_head)),
        r.status.indexed_files == index.files@.len(),
        opt_view(r.status.git_head) == opt_view(index.git_head),
        crate::scout_index::changed_view(r.status.changed_paths@) == crate::scout_index::changed_view(
            changed.paths@,
        ),
        cands_view(r.candidates@) == spec_run_candidates(
            request.mode,
            *index,
            changed.paths@,
            request.prompt@,
            request.config,
        ),
        routes_view(r.support_routes@) == spec_support_routes(request.prompt@, r.candidates@),
        r.packet@ == spec_format_packet(
            *index,
            changed.paths@,
            r.candidates@,
            r.support_routes@,
            r.status.index_state,
            request.prompt@,
            request.config.max_output_tokens as nat,
        ),
        r.packet_tokens == token_count(r.packet@),
{
    let index_state = index_state_for(had_index, &index.git_head, current_head);
    let candidates = if request.mode == ScoutCommandMode::Status {
        let v: Vec<ScoutCandidate> = Vec::new();
        assert(cands_view(v@) =~= Seq::<crate::scout::CandView>::empty());
        v
    } else {
        rank_files(index, changed, request.prompt, &request.config)
    };
    let routes = support_routes_for_prompt(request.prompt, &candidates);
    let packet = format_packet(
        index,
        &changed.paths,
        &candidates,
        &routes,
        index_state,
        request.prompt,
        &request.config,
    );
    let wide = approx_tokens_wide(&chars_of(packet.as_str()));
    let packet_tokens: usize = if wide > usize::MAX as u128 {
        usize::MAX
    } else {
        wide as usize
    };
    let status = ScoutStatus {
        repo_key: clone_string(&cache.repo_key),
        cache_dir: clone_string(&cache.dir),
        index_path: clone_string(&cache.index),
        generated_at_unix: index.generated_at_unix,
        index_state,
        indexed_files: index.files.len(),
        git_head: clone_opt_string(&index.git_head),
        changed_paths: clone_changed(&changed.paths),
    };
    ScoutBundle {
        repo_key: clone_string(&cache.repo_key),
        project_root: string_of(&chars_of(project_root)),
        status,
        candidates,
        support_routes: routes,
        packet_tokens,
        packet,
    }
}

pub open spec fn candidate_paths(cands: Seq<ScoutCandidate>) -> Seq<Seq<char>> {
    cands.map_values(|c: ScoutCandidate| c.path@)
}

/// The shadow log's record of a run: what the bundle selected, or the error
/// text and a fallback verdict when the run failed.
pub fn shadow_record(
    timestamp_unix: u64,
    trigger: ScoutTrigger,
    prompt_hash: String,
    outcome: Result<ScoutBundle, String>,
    fallback_repo_key: &str,
) -> (r: ShadowRecord)
    ensures
        r.timestamp_unix == timestamp_unix,
        r.trigger == trigger,
        r.prompt_hash@ == prompt_hash@,
        match outcome {
            Ok(b) => {
                &&& r.repo_key@ == b.repo_key@
                &&& r.index_state == b.status.index_state
                &&& crate::scout::strs(r.selected_paths@) == candidate_paths(b.candidates@)
                &&& r.support_routes@ == b.support_routes@
                &&& r.packet_tokens == b.packet_tokens
                &&& r.changed_path_count == b.status.changed_paths@.len()
                &&& r.fallback_reason is None
                &&& r.verdict@ == "recorded"@
            },
            Err(e) => {
                &&& r.repo_key@ == fallback_repo_key@
                &&& r.index_state == IndexState::Cold
                &&& r.selected_paths@.len() == 0
                &&& r.support_routes@.len() == 0
                &&& r.packet_tokens == 0
                &&& r.changed_path_count == 0
                &&& opt_view(r.fallback_reason) == Some(e@)
                &&& r.verdict@ == "fallback"@
            },
        },
{
    match outcome {
        Ok(bundle) => {
            let mut selected: Vec<String> = Vec::new();
            for i in 0..bundle.candidates.len()
                invariant
                    crate::scout::strs(selected@) == candidate_paths(bundle.candidates@).take(i as int),
            {
                let ghost before = selected@;
                selected.push(clone_string(&bundle.candidates[i].path));
                assert(crate::scout::strs(selected@) =~= crate::scout::strs(before).push(
                    bundle.candidates@[i as int].path@,
                ));
                assert(candidate_paths(bundle.candidates@).take(i + 1) =~= candidate_paths(
                    bundle.candidates@,
                ).take(i as int).push(bundle.candidates@[i as int].path@));
            }
            assert(candidate_paths(bundle.candidates@).take(bundle.candidates.len() as int)
                =~= candidate_paths(bundle.candidates@));
            let changed_path_count = bundle.status.changed_paths.len();
            ShadowRecord {
                timestamp_unix,
                trigger,
                prompt_hash,
                repo_key: bundle.repo_key,
                index_state: bundle.status.index_state,
                selected_paths: selected,
                support_routes: bundle.support_routes,
                packet_tokens: bundle.packet_tokens,
                changed_path_count,
                fallback_reason: None,
                verdict: string_of(&chars_of("recorded")),
            }
        },
        Err(e) => ShadowRecord {
            timestamp_unix,
            trigger,
            prompt_hash,
            repo_key: string_of(&chars_of(fallback_repo_key)),
            index_state: IndexState::Cold,
            selected_paths: Vec::new(),
            support_routes: Vec::new(),
            packet_tokens: 0,
            changed_path_count: 0,
            fallback_reason: Some(e),
            verdict: string_of(&chars_of("fallback")),
        },
    }
}

} // verus!
