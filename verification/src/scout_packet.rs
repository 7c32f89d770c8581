//! The scout's output: support routes suggested by the prompt and the packet
//! of path hints, capped to a token budget.
use vstd::prelude::*;

use crate::digest::min_usize;
use crate::digest::push_row;
use crate::digest::push_text;
use crate::scout::approx_tokens_wide;
use crate::scout::prompt_terms;
use crate::scout::spec_approx_tokens;
use crate::scout::spec_prompt_terms;
use crate::scout::strs;
use crate::scout::Anchor;
use crate::scout::ChangedPath;
use crate::scout::IndexState;
use crate::scout::RepoContextScoutConfig;
use crate::scout::RepoIndex;
use crate::scout::ScoutCandidate;
use crate::scout::SupportRoute;
use crate::text::append_chars;
use crate::text::append_str;
use crate::text::chars_of;
use crate::text::dec;
use crate::text::dec_chars_u128;
use crate::text::join;
use crate::text::join_chars;
use crate::text::push_dec;
use crate::text::slice_chars;
use crate::text::string_of;
use crate::text::trim_end;
use crate::text::trim_end_chars;
use crate::text::trim_start;
use crate::text::trim_start_chars;
use crate::text::utf8_len;
use crate::text::utf8_len_exec;
use crate::text::views;

verus! {

// ------------------------------------------------------------ support routes

pub open spec fn group_hit(terms: Seq<Seq<char>>, group: Seq<Seq<char>>) -> bool {
    exists|i: int| 0 <= i < terms.len() && group.contains(#[trigger] terms[i])
}

pub open spec fn resume_group() -> Seq<Seq<char>> {
    seq!["resume"@, "continue"@, "history"@, "previous"@]
}

pub open spec fn topology_group() -> Seq<Seq<char>> {
    seq!["architecture"@, "topology"@, "flow"@, "graph"@]
}

pub open spec fn handoff_group() -> Seq<Seq<char>> {
    seq!["handoff"@, "review"@, "parallel"@]
}

pub open spec fn symbol_group() -> Seq<Seq<char>> {
    seq!["symbol"@, "reference"@, "function"@, "type"@]
}

pub struct RouteView {
    pub name: Seq<char>,
    pub reason: Seq<char>,
    pub path_hints: Seq<Seq<char>>,
}

pub open spec fn route_view(r: SupportRoute) -> RouteView {
    RouteView { name: r.name@, reason: r.reason@, path_hints: strs(r.path_hints@) }
}

pub open spec fn routes_view(v: Seq<SupportRoute>) -> Seq<RouteView> {
    v.map_values(|r: SupportRoute| route_view(r))
}

pub open spec fn route_if(hit: bool, name: Seq<char>, reason: Seq<char>, hints: Seq<Seq<char>>) -> Seq<
    RouteView,
> {
    if hit {
        seq![RouteView { name, reason, path_hints: hints }]
    } else {
        Seq::<RouteView>::empty()
    }
}

/// The paths of the first twelve candidates.
pub open spec fn route_hints(cands: Seq<ScoutCandidate>) -> Seq<Seq<char>> {
    cands.take(if cands.len() < 12 { cands.len() as int } else { 12 }).map_values(
        |c: ScoutCandidate| c.path@,
    )
}

/// The routes whose words the prompt's terms mention, in a fixed order, each
/// with the first twelve candidate paths as hints.
pub open spec fn spec_support_routes(prompt: Seq<char>, cands: Seq<ScoutCandidate>) -> Seq<RouteView> {
    let terms = spec_prompt_terms(prompt);
    let hints = route_hints(cands);
    route_if(
        group_hit(terms, resume_group()),
        "gsd2_artifact_exploration_prompt"@,
        "prior command artifacts may avoid rerunning broad exploration"@,
        hints,
    ) + route_if(
        group_hit(terms, topology_group()),
        "graphify_topology_prompt"@,
        "relationship/topology question"@,
        hints,
    ) + route_if(
        group_hit(terms, handoff_group()),
        "repomix_artifact_context_prompt"@,
        "scoped artifact may help review or handoff"@,
        hints,
    ) + route_if(
        group_hit(terms, symbol_group()),
        "serena_semantic_lookup_prompt"@,
        "symbol lookup can refine candidate files"@,
        hints,
    )
}

fn group_hit_exec(terms: &Vec<Vec<char>>, words: &[&str]) -> (r: bool)
    ensures
        r == group_hit(views(terms@), words@.map_values(|w: &str| w@)),
{
    let ghost tv = views(terms@);
    let ghost g = words@.map_values(|w: &str| w@);
    for i in 0..terms.len()
        invariant
            tv == views(terms@),
            g == words@.map_values(|w: &str| w@),
            forall|j: int| 0 <= j < i ==> !g.contains(#[trigger] tv[j]),
    {
        let mut hit = false;
        for k in 0..words.len()
            invariant
                i < terms.len(),
                tv == views(terms@),
                g == words@.map_values(|w: &str| w@),
                hit == exists|j: int| 0 <= j < k && g[j] == tv[i as int],
        {
            assert(g[k as int] == words@[k as int]@);
            if crate::text::eq_str(&terms[i], words[k]) {
                hit = true;
            }
        }
        if hit {
            return true;
        }
        assert(!g.contains(tv[i as int]));
    }
    false
}

fn strings_of(v: &Vec<Vec<char>>) -> (r: Vec<String>)
    ensures
        strs(r@) == views(v@),
{
    let mut r: Vec<String> = Vec::new();
    for i in 0..v.len()
        invariant
            strs(r@) == views(v@).take(i as int),
    {
        let ghost before = r@;
        r.push(string_of(&v[i]));
        assert(strs(r@) =~= strs(before).push(views(v@)[i as int]));
        assert(views(v@).take(i + 1) =~= views(v@).take(i as int).push(views(v@)[i as int]));
    }
    assert(views(v@).take(v.len() as int) =~= views(v@));
    r
}

fn push_route(
    routes: &mut Vec<SupportRoute>,
    hit: bool,
    name: &str,
    reason: &str,
    hints: &Vec<Vec<char>>,
)
    ensures
        routes_view(final(routes)@) == routes_view(old(routes)@) + route_if(
            hit,
            name@,
            reason@,
            views(hints@),
        ),
{
    let ghost before = routes@;
    if hit {
        routes.push(
            SupportRoute {
                name: string_of(&chars_of(name)),
                reason: string_of(&chars_of(reason)),
                path_hints: strings_of(hints),
            },
        );
        assert(routes_view(routes@) =~= routes_view(before) + route_if(hit, name@, reason@, views(hints@)));
    } else {
        assert(routes_view(routes@) =~= routes_view(before) + route_if(hit, name@, reason@, views(hints@)));
    }
}

/// The support routes the prompt suggests, with the leading candidates as hints.
pub fn support_routes_for_prompt(prompt: &str, candidates: &[ScoutCandidate]) -> (r: Vec<SupportRoute>)
    ensures
        routes_view(r@) == spec_support_routes(prompt@, candidates@),
{
    let terms = prompt_terms(&chars_of(prompt));
    let ghost tv = views(terms@);
    let n = min_usize(candidates.len(), 12);
    let mut hints: Vec<Vec<char>> = Vec::new();
    for i in 0..n
        invariant
            n <= candidates.len(),
            n == (if candidates@.len() < 12 { candidates@.len() as int } else { 12 }),
            views(hints@) == candidates@.take(i as int).map_values(|c: ScoutCandidate| c.path@),
    {
        push_row(&mut hints, chars_of(candidates[i].path.as_str()));
        assert(candidates@.take(i + 1).map_values(|c: ScoutCandidate| c.path@) =~= candidates@.take(
            i as int,
        ).map_values(|c: ScoutCandidate| c.path@).push(candidates@[i as int].path@));
    }
    assert(views(hints@) == route_hints(candidates@));
    let g1: [&str; 4] = ["resume", "continue", "history", "previous"];
    let g2: [&str; 4] = ["architecture", "topology", "flow", "graph"];
    let g3: [&str; 3] = ["handoff", "review", "parallel"];
    let g4: [&str; 4] = ["symbol", "reference", "function", "type"];
    assert(g1@.map_values(|w: &str| w@) =~= resume_group());
    assert(g2@.map_values(|w: &str| w@) =~= topology_group());
    assert(g3@.map_values(|w: &str| w@) =~= handoff_group());
    assert(g4@.map_values(|w: &str| w@) =~= symbol_group());
    let mut routes: Vec<SupportRoute> = Vec::new();
    let h1 = group_hit_exec(&terms, &g1);
    push_route(
        &mut routes,
        h1,
        "gsd2_artifact_exploration_prompt",
        "prior command artifacts may avoid rerunning broad exploration",
        &hints,
    );
    let h2 = group_hit_exec(&terms, &g2);
    push_route(&mut routes, h2, "graphify_topology_prompt", "relationship/topology question", &hints);
    let h3 = group_hit_exec(&terms, &g3);
    push_route(
        &mut routes,
        h3,
        "repomix_artifact_context_prompt",
        "scoped artifact may help review or handoff",
        &hints,
    );
    let h4 = group_hit_exec(&terms, &g4);
    push_route(
        &mut routes,
        h4,
        "serena_semantic_lookup_prompt",
        "symbol lookup can refine candidate files",
        &hints,
    );
    routes
}

// ------------------------------------------------------------ the packet

pub open spec fn state_name(s: IndexState) -> Seq<char> {
    match s {
        IndexState::Cold => "Cold"@,
        IndexState::Warm => "Warm"@,
        IndexState::Stale => "Stale"@,
    }
}

/// The first `n` characters of a text, or all of it.
pub open spec fn prefix_of(s: Seq<char>, n: nat) -> Seq<char> {
    if s.len() <= n {
        s
    } else {
        s.take(n as int)
    }
}

pub open spec fn changed_line(c: ChangedPath) -> Seq<char> {
    "- "@ + c.status@ + " "@ + c.path@
}

/// Up to sixteen changed paths, and how many were left out.
pub open spec fn changed_lines(changed: Seq<ChangedPath>) -> Seq<Seq<char>> {
    if changed.len() == 0 {
        Seq::<Seq<char>>::empty()
    } else {
        let shown = changed.take(if changed.len() < 16 { changed.len() as int } else { 16 }).map_values(
            |c: ChangedPath| changed_line(c),
        );
        let listed = seq!["changed_paths:"@] + shown;
        if changed.len() > 16 {
            listed.push("- omitted_changed_paths: "@ + dec((changed.len() - 16) as nat))
        } else {
            listed
        }
    }
}

pub open spec fn head_lines(index: RepoIndex, changed: Seq<ChangedPath>, state: IndexState, prompt: Seq<char>) -> Seq<
    Seq<char>,
> {
    let base = seq![
        "<repo_context_scout>"@,
        "role: bounded repo-state scout; use as path hints, not proof"@,
        "index_state: "@ + state_name(state) + "; indexed_files: "@ + dec(index.files@.len())
            + "; changed_paths: "@ + dec(changed.len()),
        "project_root: "@ + index.project_root@,
        "task_prompt_digest: "@ + prefix_of(prompt, 180),
    ];
    let with_head = match index.git_head {
        Some(h) => base.push("git_head: "@ + prefix_of(h@, 12)),
        None => base,
    };
    let with_warning = if index.file_limit_reached {
        with_head.push("warning: file inventory hit max_files; scout may be incomplete"@)
    } else {
        with_head
    };
    with_warning + changed_lines(changed)
}

/// A score in half points written with one decimal, as `{:.1}` writes it.
pub open spec fn score_text(halves: nat) -> Seq<char> {
    dec(halves / 2) + if halves % 2 == 1 {
        ".5"@
    } else {
        ".0"@
    }
}

pub open spec fn anchor_text(a: Anchor) -> Seq<char> {
    "L"@ + dec(a.line as nat) + " "@ + a.text@
}

pub open spec fn candidate_lines(c: ScoutCandidate) -> Seq<Seq<char>> {
    let first = "- "@ + c.path@ + " ("@ + score_text(c.score_halves as nat) + ") - "@ + join(
        strs(c.reasons@),
        ", "@,
    );
    if c.anchors@.len() == 0 {
        seq![first]
    } else {
        let shown = c.anchors@.take(if c.anchors@.len() < 3 { c.anchors@.len() as int } else { 3 }).map_values(
            |a: Anchor| anchor_text(a),
        );
        seq![first, "  anchors: "@ + join(shown, "; "@)]
    }
}

pub open spec fn fallback_line() -> Seq<char> {
    "fallback_required: true; packet capped by max_output_tokens"@
}

pub open spec fn closing_line() -> Seq<char> {
    "</repo_context_scout>"@
}

/// The candidate lines, one candidate after another; once the lines reach
/// the budget, the fallback and closing lines end them (second component true).
pub open spec fn read_lines(lines: Seq<Seq<char>>, cands: Seq<ScoutCandidate>, max: nat) -> (
    Seq<Seq<char>>,
    bool,
)
    decreases cands.len(),
{
    if cands.len() == 0 {
        (lines, false)
    } else {
        let next = lines + candidate_lines(cands[0]);
        if spec_approx_tokens(join(next, "\n"@)) >= max {
            (next + seq![fallback_line(), closing_line()], true)
        } else {
            read_lines(next, cands.drop_first(), max)
        }
    }
}

pub open spec fn route_lines(routes: Seq<SupportRoute>) -> Seq<Seq<char>> {
    if routes.len() == 0 {
        Seq::<Seq<char>>::empty()
    } else {
        seq!["support_routes:"@] + routes.map_values(
            |r: SupportRoute| "- "@ + r.name@ + " - "@ + r.reason@,
        )
    }
}

pub open spec fn cap_suffix() -> Seq<char> {
    "\nfallback_required: true; packet capped by max_output_tokens\n</repo_context_scout>"@
}

/// `max * 4`, saturating at `usize::MAX`.
pub open spec fn char_budget(max: nat) -> nat {
    if max * 4 > usize::MAX {
        usize::MAX as nat
    } else {
        max * 4
    }
}

/// A packet over its budget keeps as many leading characters as four per
/// token allow, less the fallback suffix, and then the suffix.
pub open spec fn spec_cap_packet(packet: Seq<char>, max: nat) -> Seq<char> {
    if max == 0 || spec_approx_tokens(packet) <= max {
        packet
    } else if utf8_len(cap_suffix()) >= char_budget(max) {
        trim_start(cap_suffix())
    } else {
        trim_end(prefix_of(packet, (char_budget(max) - utf8_len(cap_suffix())) as nat)) + cap_suffix()
    }
}

pub open spec fn spec_format_packet(
    index: RepoIndex,
    changed: Seq<ChangedPath>,
    cands: Seq<ScoutCandidate>,
    routes: Seq<SupportRoute>,
    state: IndexState,
    prompt: Seq<char>,
    max: nat,
) -> Seq<char> {
    let head = head_lines(index, changed, state, prompt);
    let read = if cands.len() == 0 {
        (head, false)
    } else {
        read_lines(head.push("recommended_reads:"@), cands, max)
    };
    if read.1 {
        spec_cap_packet(join(read.0, "\n"@), max)
    } else {
        spec_cap_packet(join(read.0 + route_lines(routes) + seq![closing_line()], "\n"@), max)
    }
}

fn prefix_chars(s: &[char], n: usize) -> (r: Vec<char>)
    ensures
        r@ == prefix_of(s@, n as nat),
{
    let k = min_usize(s.len(), n);
    let r = slice_chars(s, 0, k);
    assert(s@.subrange(0, s@.len() as int) =~= s@);
    r
}

/// Caps a packet to `max_tokens` tokens; 0 means no cap.
pub fn cap_packet(packet: &[char], max_tokens: usize) -> (r: Vec<char>)
    ensures
        r@ == spec_cap_packet(packet@, max_tokens as nat),
{
    if max_tokens == 0 || approx_tokens_wide(packet) <= max_tokens as u128 {
        return slice_chars(packet, 0, packet.len());
    }
    let suffix = chars_of("\nfallback_required: true; packet capped by max_output_tokens\n</repo_context_scout>");
    let max_chars: usize = if max_tokens > usize::MAX / 4 {
        usize::MAX
    } else {
        max_tokens * 4
    };
    assert(max_chars == char_budget(max_tokens as nat));
    let suffix_len = utf8_len_exec(&suffix);
    if suffix_len >= max_chars {
        return trim_start_chars(&suffix);
    }
    let prefix = prefix_chars(packet, max_chars - suffix_len);
    let mut r = trim_end_chars(&prefix);
    append_chars(&mut r, &suffix);
    r
}

fn state_name_exec(state: IndexState) -> (r: Vec<char>)
    ensures
        r@ == state_name(state),
{
    match state {
        IndexState::Cold => chars_of("Cold"),
        IndexState::Warm => chars_of("Warm"),
        IndexState::Stale => chars_of("Stale"),
    }
}

fn changed_lines_exec(changed: &Vec<ChangedPath>) -> (r: Vec<Vec<char>>)
    ensures
        views(r@) == changed_lines(changed@),
{
    let mut r: Vec<Vec<char>> = Vec::new();
    if changed.len() == 0 {
        return r;
    }
    push_text(&mut r, "changed_paths:");
    let k = min_usize(changed.len(), 16);
    let ghost cs = changed@;
    for i in 0..k
        invariant
            k == (if cs.len() < 16 { cs.len() as int } else { 16 }),
            cs == changed@,
            views(r@) == seq!["changed_paths:"@] + cs.take(i as int).map_values(
                |c: ChangedPath| changed_line(c),
            ),
    {
        let mut row = chars_of("- ");
        append_str(&mut row, changed[i].status.as_str());
        append_str(&mut row, " ");
        append_str(&mut row, changed[i].path.as_str());
        assert(row@ =~= changed_line(cs[i as int]));
        push_row(&mut r, row);
        assert(cs.take(i + 1).map_values(|c: ChangedPath| changed_line(c)) =~= cs.take(i as int).map_values(
            |c: ChangedPath| changed_line(c),
        ).push(changed_line(cs[i as int])));
    }
    if changed.len() > 16 {
        let mut row = chars_of("- omitted_changed_paths: ");
        push_dec(&mut row, changed.len() - 16);
        push_row(&mut r, row);
    }
    r
}

fn head_lines_exec(index: &RepoIndex, changed: &Vec<ChangedPath>, state: IndexState, prompt: &[char]) -> (r: Vec<
    Vec<char>,
>)
    ensures
        views(r@) == head_lines(*index, changed@, state, prompt@),
{
    let mut r: Vec<Vec<char>> = Vec::new();
    push_text(&mut r, "<repo_context_scout>");
    push_text(&mut r, "role: bounded repo-state scout; use as path hints, not proof");
    let mut row = chars_of("index_state: ");
    append_chars(&mut row, &state_name_exec(state));
    append_str(&mut row, "; indexed_files: ");
    push_dec(&mut row, index.files.len());
    append_str(&mut row, "; changed_paths: ");
    push_dec(&mut row, changed.len());
    push_row(&mut r, row);
    let mut row = chars_of("project_root: ");
    append_str(&mut row, index.project_root.as_str());
    push_row(&mut r, row);
    let mut row = chars_of("task_prompt_digest: ");
    append_chars(&mut row, &prefix_chars(prompt, 180));
    push_row(&mut r, row);
    match &index.git_head {
        Some(h) => {
            let mut row = chars_of("git_head: ");
            append_chars(&mut row, &prefix_chars(&chars_of(h.as_str()), 12));
            push_row(&mut r, row);
        },
        None => {},
    }
    if index.file_limit_reached {
        push_text(&mut r, "warning: file inventory hit max_files; scout may be incomplete");
    }
    let ghost before = views(r@);
    let c = changed_lines_exec(changed);
    let ghost cv = views(c@);
    for i in 0..c.len()
        invariant
            cv == views(c@),
            views(r@) == before + cv.take(i as int),
    {
        push_row(&mut r, crate::text::clone_chars(&c[i]));
        assert(cv.take(i + 1) =~= cv.take(i as int).push(cv[i as int]));
    }
    assert(cv.take(c.len() as int) =~= cv);
    r
}

fn anchor_text_exec(a: &Anchor) -> (r: Vec<char>)
    ensures
        r@ == anchor_text(*a),
{
    let mut row = chars_of("L");
    push_dec(&mut row, a.line);
    append_str(&mut row, " ");
    append_str(&mut row, a.text.as_str());
    row
}

fn candidate_lines_exec(c: &ScoutCandidate) -> (r: Vec<Vec<char>>)
    ensures
        views(r@) == candidate_lines(*c),
{
    let mut first = chars_of("- ");
    append_str(&mut first, c.path.as_str());
    append_str(&mut first, " (");
    append_chars(&mut first, &dec_chars_u128(c.score_halves / 2));
    if c.score_halves % 2 == 1 {
        append_str(&mut first, ".5");
    } else {
        append_str(&mut first, ".0");
    }
    append_str(&mut first, ") - ");
    let mut reasons: Vec<Vec<char>> = Vec::new();
    for i in 0..c.reasons.len()
        invariant
            views(reasons@) == strs(c.reasons@).take(i as int),
    {
        push_row(&mut reasons, chars_of(c.reasons[i].as_str()));
        assert(strs(c.reasons@).take(i + 1) =~= strs(c.reasons@).take(i as int).push(c.reasons@[i as int]@));
    }
    assert(strs(c.reasons@).take(c.reasons.len() as int) =~= strs(c.reasons@));
    append_chars(&mut first, &join_chars(&reasons, ", "));
    let ghost first_v = first@;
    assert(first_v =~= "- "@ + c.path@ + " ("@ + score_text(c.score_halves as nat) + ") - "@ + join(
        strs(c.reasons@),
        ", "@,
    ));
    let mut r: Vec<Vec<char>> = Vec::new();
    push_row(&mut r, first);
    if c.anchors.len() == 0 {
        assert(views(r@) =~= seq![first_v]);
        return r;
    }
    let k = min_usize(c.anchors.len(), 3);
    let ghost av = c.anchors@;
    let mut shown: Vec<Vec<char>> = Vec::new();
    for i in 0..k
        invariant
            av == c.anchors@,
            k == (if av.len() < 3 { av.len() as int } else { 3 }),
            views(shown@) == av.take(i as int).map_values(|a: Anchor| anchor_text(a)),
    {
        push_row(&mut shown, anchor_text_exec(&c.anchors[i]));
        assert(av.take(i + 1).map_values(|a: Anchor| anchor_text(a)) =~= av.take(i as int).map_values(
            |a: Anchor| anchor_text(a),
        ).push(anchor_text(av[i as int])));
    }
    let mut second = chars_of("  anchors: ");
    append_chars(&mut second, &join_chars(&shown, "; "));
    let ghost second_v = second@;
    push_row(&mut r, second);
    assert(views(r@) =~= seq![first_v, second_v]);
    r
}

fn append_rows(out: &mut Vec<Vec<char>>, rows: &Vec<Vec<char>>)
    ensures
        views(final(out)@) == views(old(out)@) + views(rows@),
{
    let ghost before = views(out@);
    for i in 0..rows.len()
        invariant
            views(out@) == before + views(rows@).take(i as int),
    {
        push_row(out, crate::text::clone_chars(&rows[i]));
        assert(views(rows@).take(i + 1) =~= views(rows@).take(i as int).push(views(rows@)[i as int]));
    }
    assert(views(rows@).take(rows.len() as int) =~= views(rows@));
}

fn route_lines_exec(routes: &[SupportRoute]) -> (r: Vec<Vec<char>>)
    ensures
        views(r@) == route_lines(routes@),
{
    let mut r: Vec<Vec<char>> = Vec::new();
    if routes.len() == 0 {
        return r;
    }
    push_text(&mut r, "support_routes:");
    let ghost rs = routes@;
    for i in 0..routes.len()
        invariant
            rs == routes@,
            views(r@) == seq!["support_routes:"@] + rs.take(i as int).map_values(
                |r: SupportRoute| "- "@ + r.name@ + " - "@ + r.reason@,
            ),
    {
        let mut row = chars_of("- ");
        append_str(&mut row, routes[i].name.as_str());
        append_str(&mut row, " - ");
        append_str(&mut row, routes[i].reason.as_str());
        push_row(&mut r, row);
        assert(rs.take(i + 1).map_values(|r: SupportRoute| "- "@ + r.name@ + " - "@ + r.reason@) =~= rs.take(
            i as int,
        ).map_values(|r: SupportRoute| "- "@ + r.name@ + " - "@ + r.reason@).push(
            "- "@ + rs[i as int].name@ + " - "@ + rs[i as int].reason@,
        ));
    }
    assert(rs.take(routes.len() as int) =~= rs);
    r
}

/// The packet handed to the model: index state, changed paths, recommended
/// reads with anchors and support routes, capped to `max_output_tokens`.
pub fn format_packet(
    index: &RepoIndex,
    changed: &Vec<ChangedPath>,
    candidates: &[ScoutCandidate],
    routes: &[SupportRoute],
    index_state: IndexState,
    prompt: &str,
    config: &RepoContextScoutConfig,
) -> (r: String)
    ensures
        r@ == spec_format_packet(
            *index,
            changed@,
            candidates@,
            routes@,
            index_state,
            prompt@,
            config.max_output_tokens as nat,
        ),
{
    let max = config.max_output_tokens;
    let mut lines = head_lines_exec(index, changed, index_state, &chars_of(prompt));
    let ghost head = views(lines@);
    if candidates.len() > 0 {
        push_text(&mut lines, "recommended_reads:");
        let ghost start = views(lines@);
        let ghost cs = candidates@;
        assert(cs.skip(0) =~= cs);
        for i in 0..candidates.len()
            invariant
                cs == candidates@,
                cs.len() > 0,
                start == head.push("recommended_reads:"@),
                head == head_lines(*index, changed@, index_state, prompt@),
                max == config.max_output_tokens,
                read_lines(start, cs, max as nat) == read_lines(views(lines@), cs.skip(i as int), max as nat),
        {
            let ghost cur = views(lines@);
            assert(cs.skip(i as int)[0] == cs[i as int]);
            assert(cs.skip(i as int).drop_first() =~= cs.skip(i + 1));
            let ghost next = cur + candidate_lines(cs[i as int]);
            let cl = candidate_lines_exec(&candidates[i]);
            append_rows(&mut lines, &cl);
            assert(views(lines@) == next);
            let joined = join_chars(&lines, "\n");
            if approx_tokens_wide(&joined) >= max as u128 {
                assert(read_lines(cur, cs.skip(i as int), max as nat) == (
                    next + seq![fallback_line(), closing_line()],
                    true,
                ));
                push_text(&mut lines, "fallback_required: true; packet capped by max_output_tokens");
                push_text(&mut lines, "</repo_context_scout>");
                assert(views(lines@) =~= cur + candidate_lines(cs[i as int]) + seq![fallback_line(), closing_line()]);
                assert(read_lines(start, cs, max as nat) == (views(lines@), true));
                let packet = join_chars(&lines, "\n");
                assert(packet@ == join(views(lines@), "\n"@));
                return string_of(&cap_packet(&packet, max));
            }
        }
        assert(cs.skip(cs.len() as int) =~= Seq::<ScoutCandidate>::empty());
    }
    let ghost read_v = views(lines@);
    assert(read_v == (if candidates@.len() == 0 {
        (head, false)
    } else {
        read_lines(head.push("recommended_reads:"@), candidates@, max as nat)
    }).0);
    let rl = route_lines_exec(routes);
    append_rows(&mut lines, &rl);
    push_text(&mut lines, "</repo_context_scout>");
    assert(views(lines@) =~= read_v + route_lines(routes@) + seq![closing_line()]);
    let packet = join_chars(&lines, "\n");
    string_of(&cap_packet(&packet, max))
}

// ------------------------------------------------------------ the budget

/// A packet of ASCII text keeps to a budget with room for the fallback suffix.
pub proof fn law_capped_packet_keeps_budget(packet: Seq<char>, max: nat)
    requires
        crate::text::is_ascii_text(packet),
        utf8_len(cap_suffix()) < char_budget(max),
    ensures
        spec_approx_tokens(spec_cap_packet(packet, max)) <= max,
{
    if max == 0 || spec_approx_tokens(packet) <= max {
    } else {
        let prefix = prefix_of(packet, (char_budget(max) - utf8_len(cap_suffix())) as nat);
        let kept = trim_end(prefix);
        crate::text::lemma_trail_ws_bound(prefix);
        assert(crate::text::is_ascii_text(kept)) by {
            assert forall|i: int| 0 <= i < kept.len() implies (#[trigger] kept[i] as u32) < 0x80 by {
                assert(kept[i] == prefix[i]);
                assert(prefix[i] == packet[i]);
            }
        }
        crate::text::lemma_utf8_len_ascii(kept);
        crate::text::lemma_utf8_len_concat(kept, cap_suffix());
        assert(utf8_len(kept + cap_suffix()) <= char_budget(max));
        assert(char_budget(max) <= max * 4);
    }
}

} // verus!
