//! Task memory: a compact, near-verbatim record of the active user request
//! and the current plan, injected when the context is under pressure.
use vstd::prelude::*;

use sha1::Digest;

use crate::text::append_chars;
use crate::text::append_str;
use crate::text::chars_of;
use crate::text::clone_chars;
use crate::text::contains;
use crate::text::find_chars;
use crate::text::first_index;
use crate::text::is_ws;
use crate::text::join;
use crate::text::join_chars;
use crate::text::lemma_first_index;
use crate::text::lines;
use crate::text::lines_of;
use crate::text::lower;
use crate::text::lowercase;
use crate::text::occurs_at;
use crate::text::slice_chars;
use crate::text::starts_with;
use crate::text::starts_with_str;
use crate::text::string_of;
use crate::text::trim;
use crate::text::trim_chars;
use crate::text::trim_end;
use crate::text::trim_end_chars;
use crate::text::trim_start;
use crate::text::trim_start_chars;
use crate::text::utf8_len;
use crate::text::views;

verus! {

pub const TASK_MEMORY_START_MARKER: &'static str = "<task_memory>";

pub const TASK_MEMORY_END_MARKER: &'static str = "</task_memory>";

/// Token budgets of the whole memory, of the plan and of the request.
pub const TOTAL_TOKEN_BUDGET: usize = 2500;

pub const PLAN_TOKEN_BUDGET: usize = 1900;

pub const REQUEST_TOKEN_BUDGET: usize = 600;

/// How far below the auto-compaction limit memory is injected, at most.
pub const PRESSURE_TOKEN_THRESHOLD: i64 = 64000;

/// How often the same memory is injected under pressure, at most.
pub const MAX_SAME_DIGEST_PRESSURE_INJECTIONS: u8 = 2;

pub const MIN_USER_MESSAGES_BETWEEN_INJECTIONS: usize = 3;

/// The least time between two injections of the same memory, in milliseconds.
pub const MIN_PRESSURE_INJECTION_INTERVAL_MS: u64 = 600000;

/// The status of a plan step.
#[derive(Clone, Copy, PartialEq, Eq, Structural, Debug)]
pub enum StepStatus {
    Pending,
    InProgress,
    Completed,
}

/// One step of an `update_plan` call.
#[derive(Clone, Debug)]
pub struct PlanStep {
    pub step: String,
    pub status: StepStatus,
}

/// The arguments of an `update_plan` call.
#[derive(Clone, Debug)]
pub struct UpdatePlanArgs {
    pub explanation: Option<String>,
    pub plan: Vec<PlanStep>,
}

/// A history item the memory is built from. An `update_plan` call carries
/// its parsed arguments, or `None` when they did not parse.
#[derive(Clone, Debug)]
pub enum TaskMemoryInputItem {
    UserMessage(String),
    AssistantMessage(String),
    UpdatePlanCall(Option<UpdatePlanArgs>),
}

pub struct StepView {
    pub step: Seq<char>,
    pub status: StepStatus,
}

pub struct PlanArgsView {
    pub explanation: Option<Seq<char>>,
    pub plan: Seq<StepView>,
}

pub enum ItemView {
    UserMessage(Seq<char>),
    AssistantMessage(Seq<char>),
    UpdatePlanCall(Option<PlanArgsView>),
}

pub open spec fn opt_text(o: Option<String>) -> Option<Seq<char>> {
    match o {
        Some(s) => Some(s@),
        None => None,
    }
}

pub open spec fn args_view(a: UpdatePlanArgs) -> PlanArgsView {
    PlanArgsView {
        explanation: opt_text(a.explanation),
        plan: a.plan@.map_values(|s: PlanStep| StepView { step: s.step@, status: s.status }),
    }
}

impl View for TaskMemoryInputItem {
    type V = ItemView;

    open spec fn view(&self) -> ItemView {
        match self {
            TaskMemoryInputItem::UserMessage(m) => ItemView::UserMessage(m@),
            TaskMemoryInputItem::AssistantMessage(m) => ItemView::AssistantMessage(m@),
            TaskMemoryInputItem::UpdatePlanCall(a) => ItemView::UpdatePlanCall(
                match a {
                    Some(x) => Some(args_view(*x)),
                    None => None,
                },
            ),
        }
    }
}

pub open spec fn items_view(items: Seq<TaskMemoryInputItem>) -> Seq<ItemView> {
    items.map_values(|i: TaskMemoryInputItem| i@)
}

// ------------------------------------------------------------ recognising memory text

/// Whether a text starts with `<task_memory>` and ends with `</task_memory>`
/// (ASCII case ignored, surrounding blanks ignored).
pub open spec fn spec_is_task_memory_text(text: Seq<char>) -> bool {
    let s = trim_start(text);
    let e = trim_end(text);
    s.len() >= 13 && lower(s.take(13)) == TASK_MEMORY_START_MARKER@ && e.len() >= 14 && lower(
        e.skip(e.len() - 14),
    ) == TASK_MEMORY_END_MARKER@
}

fn is_task_memory_chars(text: &[char]) -> (r: bool)
    ensures
        r == spec_is_task_memory_text(text@),
{
    let s = trim_start_chars(text);
    let e = trim_end_chars(text);
    if s.len() < 13 || e.len() < 14 {
        return false;
    }
    let head = lowercase(&slice_chars(&s, 0, 13));
    let tail = lowercase(&slice_chars(&e, e.len() - 14, e.len()));
    assert(s@.subrange(0, 13) =~= s@.take(13));
    assert(e@.subrange(e@.len() - 14, e@.len() as int) =~= e@.skip(e@.len() - 14));
    crate::text::eq_str(&head, TASK_MEMORY_START_MARKER) && crate::text::eq_str(
        &tail,
        TASK_MEMORY_END_MARKER,
    )
}

/// Whether a text is a rendered task memory.
pub fn is_task_memory_text(text: &str) -> (r: bool)
    ensures
        r == spec_is_task_memory_text(text@),
{
    is_task_memory_chars(&chars_of(text))
}

/// What follows `Digest: ` on the first trimmed line that starts with it.
pub open spec fn digest_line(ls: Seq<Seq<char>>) -> Option<Seq<char>>
    decreases ls.len(),
{
    if ls.len() == 0 {
        None
    } else if starts_with(trim(ls[0]), "Digest: "@) {
        Some(trim(ls[0]).skip(8))
    } else {
        digest_line(ls.drop_first())
    }
}

pub open spec fn spec_task_memory_text_digest(text: Seq<char>) -> Option<Seq<char>> {
    if spec_is_task_memory_text(text) {
        digest_line(lines(text))
    } else {
        None
    }
}

/// The digest a rendered task memory records, if the text is one and has it.
pub fn task_memory_text_digest(text: &str) -> (r: Option<String>)
    ensures
        opt_text(r) == spec_task_memory_text_digest(text@),
{
    let c = chars_of(text);
    if !is_task_memory_chars(&c) {
        return None;
    }
    let ls = lines_of(&c);
    let ghost lv = views(ls@);
    assert(lv =~= ls@.map_values(|p: Vec<char>| p@));
    assert(lv.skip(0) =~= lv);
    for i in 0..ls.len()
        invariant
            lv == views(ls@),
            lv == lines(text@),
            spec_is_task_memory_text(text@),
            digest_line(lv) == digest_line(lv.skip(i as int)),
    {
        assert(lv.skip(i as int)[0] == ls@[i as int]@);
        assert(lv.skip(i as int).drop_first() =~= lv.skip(i + 1));
        let t = trim_chars(&ls[i]);
        if starts_with_str(&t, "Digest: ") {
            proof {
                reveal_strlit("Digest: ");
            }
            let d = slice_chars(&t, 8, t.len());
            assert(d@ =~= t@.skip(8));
            return Some(string_of(&d));
        }
    }
    assert(lv.skip(ls.len() as int) =~= Seq::<Seq<char>>::empty());
    None
}

// ------------------------------------------------------------ user messages

/// A user message that counts as the user's own: not blank, not a summary
/// handed over from an earlier model, not a task memory.
pub open spec fn spec_real_user_message(item: ItemView, prefix: Seq<char>) -> Option<Seq<char>> {
    match item {
        ItemView::UserMessage(m) => {
            let t = trim(m);
            if t.len() == 0 || starts_with(t, prefix) || spec_is_task_memory_text(t) {
                None
            } else {
                Some(m)
            }
        },
        _ => None,
    }
}

fn real_user_message(item: &TaskMemoryInputItem, prefix: &str) -> (r: Option<Vec<char>>)
    ensures
        match r {
            Some(m) => spec_real_user_message(item@, prefix@) == Some(m@),
            None => spec_real_user_message(item@, prefix@) is None,
        },
{
    match item {
        TaskMemoryInputItem::UserMessage(m) => {
            let c = chars_of(m.as_str());
            let t = trim_chars(&c);
            if t.len() == 0 || starts_with_str(&t, prefix) || is_task_memory_chars(&t) {
                None
            } else {
                Some(c)
            }
        },
        _ => None,
    }
}

pub open spec fn count_real_user_messages(items: Seq<ItemView>, prefix: Seq<char>) -> nat
    decreases items.len(),
{
    if items.len() == 0 {
        0
    } else {
        count_real_user_messages(items.drop_last(), prefix) + if spec_real_user_message(
            items.last(),
            prefix,
        ) is Some {
            1nat
        } else {
            0nat
        }
    }
}

/// How many items are the user's own messages.
pub fn real_user_message_count(items: &[TaskMemoryInputItem], summary_prefix: &str) -> (r: usize)
    ensures
        r as nat == count_real_user_messages(items_view(items@), summary_prefix@),
{
    let ghost iv = items_view(items@);
    let mut n: usize = 0;
    for i in 0..items.len()
        invariant
            iv == items_view(items@),
            n as nat == count_real_user_messages(iv.take(i as int), summary_prefix@),
            n <= i,
    {
        assert(iv.take(i + 1).drop_last() =~= iv.take(i as int));
        assert(iv[i as int] == items@[i as int]@);
        if real_user_message(&items[i], summary_prefix).is_some() {
            n += 1;
        }
    }
    assert(iv.take(items.len() as int) =~= iv);
    n
}

pub open spec fn is_trim_char(c: char) -> bool {
    crate::text::is_ascii_punct(c) || is_ws(c)
}

/// `s` without leading and trailing ASCII punctuation and blanks.
pub open spec fn strip_edges(s: Seq<char>) -> Seq<char>
    decreases s.len(),
{
    if s.len() > 0 && is_trim_char(s[0]) {
        strip_edges(s.drop_first())
    } else if s.len() > 0 && is_trim_char(s.last()) {
        strip_edges(s.drop_last())
    } else {
        s
    }
}

pub open spec fn continuation_phrases() -> Seq<Seq<char>> {
    seq![
        "go on"@,
        "continue"@,
        "please continue"@,
        "carry on"@,
        "resume"@,
        "keep going"@,
        "do it"@,
        "fix it"@,
        "finish it"@,
        "go ahead"@,
    ]
}

/// Whether a message only asks to continue ("go on", "continue", ...).
pub open spec fn spec_is_continuation_only(text: Seq<char>) -> bool {
    continuation_phrases().contains(lower(strip_edges(trim(text))))
}

fn strip_edges_of(s: &[char]) -> (r: Vec<char>)
    ensures
        r@ == strip_edges(s@),
{
    let mut a: usize = 0;
    let mut b: usize = s.len();
    assert(s@.subrange(0, s@.len() as int) =~= s@);
    while a < b && (crate::text::is_ascii_punct_exec(s[a]) || crate::text::is_whitespace(s[a])
        || crate::text::is_ascii_punct_exec(s[b - 1]) || crate::text::is_whitespace(s[b - 1]))
        invariant
            a <= b <= s.len(),
            strip_edges(s@) == strip_edges(s@.subrange(a as int, b as int)),
        decreases b - a,
    {
        let ghost cur = s@.subrange(a as int, b as int);
        assert(cur[0] == s@[a as int]);
        assert(cur.last() == s@[b - 1]);
        if crate::text::is_ascii_punct_exec(s[a]) || crate::text::is_whitespace(s[a]) {
            assert(cur.drop_first() =~= s@.subrange(a + 1, b as int));
            a += 1;
        } else {
            assert(cur.drop_last() =~= s@.subrange(a as int, b - 1));
            b -= 1;
        }
    }
    proof {
        if a < b {
            let cur = s@.subrange(a as int, b as int);
            assert(cur[0] == s@[a as int]);
            assert(cur.last() == s@[b - 1]);
        }
    }
    slice_chars(s, a, b)
}

fn is_continuation_only(text: &[char]) -> (r: bool)
    ensures
        r == spec_is_continuation_only(text@),
{
    let n = lowercase(&strip_edges_of(&trim_chars(text)));
    let phrases: [&str; 10] = [
        "go on",
        "continue",
        "please continue",
        "carry on",
        "resume",
        "keep going",
        "do it",
        "fix it",
        "finish it",
        "go ahead",
    ];
    let ghost pv = continuation_phrases();
    assert(forall|j: int| 0 <= j < 10 ==> pv[j] == (#[trigger] phrases@[j])@);
    for k in 0..phrases.len()
        invariant
            phrases.len() == 10,
            pv == continuation_phrases(),
            forall|j: int| 0 <= j < 10 ==> pv[j] == (#[trigger] phrases@[j])@,
            n@ == lower(strip_edges(trim(text@))),
            forall|j: int| 0 <= j < k ==> pv[j] != n@,
    {
        if crate::text::eq_str(&n, phrases[k]) {
            assert(pv[k as int] == n@);
            assert(continuation_phrases().contains(n@));
            return true;
        }
    }
    assert(!pv.contains(n@)) by {
        if pv.contains(n@) {
            let j = choose|j: int| 0 <= j < pv.len() && pv[j] == n@;
            assert(pv[j] != n@);
        }
    }
    false
}

/// The user's own messages that do more than ask to continue, with their
/// positions.
pub open spec fn substantive_messages(items: Seq<ItemView>, prefix: Seq<char>) -> Seq<
    (int, Seq<char>),
>
    decreases items.len(),
{
    if items.len() == 0 {
        Seq::<(int, Seq<char>)>::empty()
    } else {
        let r = substantive_messages(items.drop_last(), prefix);
        match spec_real_user_message(items.last(), prefix) {
            Some(m) => if !spec_is_continuation_only(m) {
                r.push((items.len() - 1, m))
            } else {
                r
            },
            None => r,
        }
    }
}

pub open spec fn indexed_view(v: Seq<(usize, Vec<char>)>) -> Seq<(int, Seq<char>)> {
    v.map_values(|e: (usize, Vec<char>)| (e.0 as int, e.1@))
}

fn substantive_user_messages(items: &[TaskMemoryInputItem], prefix: &str) -> (r: Vec<(usize, Vec<char>)>)
    ensures
        indexed_view(r@) == substantive_messages(items_view(items@), prefix@),
        forall|j: int| 0 <= j < r@.len() ==> (#[trigger] r@[j]).0 < items@.len(),
{
    let ghost iv = items_view(items@);
    let mut r: Vec<(usize, Vec<char>)> = Vec::new();
    for i in 0..items.len()
        invariant
            iv == items_view(items@),
            indexed_view(r@) == substantive_messages(iv.take(i as int), prefix@),
            forall|j: int| 0 <= j < r@.len() ==> (#[trigger] r@[j]).0 < i,
    {
        assert(iv.take(i + 1).drop_last() =~= iv.take(i as int));
        assert(iv[i as int] == items@[i as int]@);
        match real_user_message(&items[i], prefix) {
            Some(m) => {
                if !is_continuation_only(&m) {
                    let ghost before = r@;
                    let ghost mv = m@;
                    r.push((i, m));
                    assert(indexed_view(r@) =~= indexed_view(before).push((i as int, mv)));
                }
            },
            None => {},
        }
    }
    assert(iv.take(items.len() as int) =~= iv);
    r
}

// ------------------------------------------------------------ plans

/// The text between the first `<proposed_plan>` and the next `</proposed_plan>`.
/// The history's proposed plans are read with the stream-parsing utilities
/// (`extract_proposed_plan_text`, then `strip_citations`), which this crate
/// cannot depend on; this block extraction is the library's own reading of a
/// plan, and citations are left in place.
pub open spec fn proposed_plan_block(text: Seq<char>) -> Option<Seq<char>> {
    let open = "<proposed_plan>"@;
    let close = "</proposed_plan>"@;
    if !contains(text, open) {
        None
    } else {
        let rest = text.skip(first_index(text, open) + open.len());
        if !contains(rest, close) {
            None
        } else {
            Some(rest.take(first_index(rest, close)))
        }
    }
}

/// The proposed plan of an assistant message, trimmed, if it is not blank.
pub open spec fn spec_proposed_plan_text(item: ItemView) -> Option<Seq<char>> {
    match item {
        ItemView::AssistantMessage(m) => match proposed_plan_block(m) {
            Some(p) => if trim(p).len() > 0 {
                Some(trim(p))
            } else {
                None
            },
            None => None,
        },
        _ => None,
    }
}

fn proposed_plan_text(item: &TaskMemoryInputItem) -> (r: Option<Vec<char>>)
    ensures
        match r {
            Some(p) => spec_proposed_plan_text(item@) == Some(p@),
            None => spec_proposed_plan_text(item@) is None,
        },
{
    match item {
        TaskMemoryInputItem::AssistantMessage(m) => {
            let c = chars_of(m.as_str());
            let open = chars_of("<proposed_plan>");
            let close = chars_of("</proposed_plan>");
            let start = match find_chars(&c, &open) {
                Some(i) => i,
                None => return None,
            };
            proof {
                lemma_first_index(c@, open@, start as int);
                assert(occurs_at(c@, open@, start as int));
            }
            let olen = open.len();
            assert(start + olen <= c.len());
            let rest = slice_chars(&c, start + olen, c.len());
            assert(rest@ =~= c@.skip(start + open@.len()));
            let end = match find_chars(&rest, &close) {
                Some(j) => j,
                None => return None,
            };
            proof {
                lemma_first_index(rest@, close@, end as int);
                assert(occurs_at(rest@, close@, end as int));
            }
            let block = slice_chars(&rest, 0, end);
            assert(block@ =~= rest@.take(end as int));
            let t = trim_chars(&block);
            if t.len() > 0 {
                Some(t)
            } else {
                None
            }
        },
        _ => None,
    }
}

pub open spec fn status_label(s: StepStatus) -> Seq<char> {
    match s {
        StepStatus::Pending => "pending"@,
        StepStatus::InProgress => "in_progress"@,
        StepStatus::Completed => "completed"@,
    }
}

/// `- [status] step` lines for the steps.
pub open spec fn step_lines(steps: Seq<StepView>) -> Seq<char>
    decreases steps.len(),
{
    if steps.len() == 0 {
        Seq::<char>::empty()
    } else {
        step_lines(steps.drop_last()) + "- ["@ + status_label(steps.last().status) + "] "@ + trim(
            steps.last().step,
        ) + "\n"@
    }
}

/// The plan of an `update_plan` call as text: the explanation when it is not
/// blank, then a line per step; none when the text is blank or the call's
/// arguments did not parse.
pub open spec fn spec_update_plan_text(item: ItemView) -> Option<Seq<char>> {
    match item {
        ItemView::UpdatePlanCall(Some(args)) => {
            let head = match args.explanation {
                Some(e) => if trim(e).len() > 0 {
                    "Explanation: "@ + trim(e) + "\n\n"@
                } else {
                    Seq::<char>::empty()
                },
                None => Seq::<char>::empty(),
            };
            let t = trim(head + step_lines(args.plan));
            if t.len() > 0 {
                Some(t)
            } else {
                None
            }
        },
        _ => None,
    }
}

fn step_status_label(status: &StepStatus) -> (r: &'static str)
    ensures
        r@ == status_label(*status),
{
    match status {
        StepStatus::Pending => "pending",
        StepStatus::InProgress => "in_progress",
        StepStatus::Completed => "completed",
    }
}

fn update_plan_text(item: &TaskMemoryInputItem) -> (r: Option<Vec<char>>)
    ensures
        match r {
            Some(p) => spec_update_plan_text(item@) == Some(p@),
            None => spec_update_plan_text(item@) is None,
        },
{
    match item {
        TaskMemoryInputItem::UpdatePlanCall(Some(args)) => {
            let mut text: Vec<char> = Vec::new();
            match &args.explanation {
                Some(e) => {
                    let t = trim_chars(&chars_of(e.as_str()));
                    if t.len() > 0 {
                        append_str(&mut text, "Explanation: ");
                        append_chars(&mut text, &t);
                        append_str(&mut text, "\n\n");
                    }
                },
                None => {},
            }
            let ghost head = text@;
            let ghost sv = args_view(*args).plan;
            for i in 0..args.plan.len()
                invariant
                    sv == args_view(*args).plan,
                    text@ == head + step_lines(sv.take(i as int)),
            {
                let s = &args.plan[i];
                assert(sv[i as int] == StepView { step: s.step@, status: s.status });
                assert(sv.take(i + 1).drop_last() =~= sv.take(i as int));
                append_str(&mut text, "- [");
                append_str(&mut text, step_status_label(&s.status));
                append_str(&mut text, "] ");
                append_chars(&mut text, &trim_chars(&chars_of(s.step.as_str())));
                append_str(&mut text, "\n");
                assert(text@ =~= head + step_lines(sv.take(i + 1)));
            }
            assert(sv.take(args.plan.len() as int) =~= sv);
            let t = trim_chars(&text);
            if t.len() > 0 {
                Some(t)
            } else {
                None
            }
        },
        _ => None,
    }
}

pub open spec fn plan_of(item: ItemView) -> Option<Seq<char>> {
    match spec_proposed_plan_text(item) {
        Some(p) => Some(p),
        None => spec_update_plan_text(item),
    }
}

/// The last item that holds a plan, with its position.
pub open spec fn latest_plan(items: Seq<ItemView>) -> Option<(int, Seq<char>)>
    decreases items.len(),
{
    if items.len() == 0 {
        None
    } else {
        match plan_of(items.last()) {
            Some(p) => Some((items.len() - 1, p)),
            None => latest_plan(items.drop_last()),
        }
    }
}

fn latest_plan_of(items: &[TaskMemoryInputItem]) -> (r: Option<(usize, Vec<char>)>)
    ensures
        match r {
            Some((i, p)) => latest_plan(items_view(items@)) == Some((i as int, p@)),
            None => latest_plan(items_view(items@)) is None,
        },
{
    let ghost iv = items_view(items@);
    let mut k = items.len();
    assert(iv.take(k as int) =~= iv);
    while k > 0
        invariant
            k <= items.len(),
            iv == items_view(items@),
            latest_plan(iv) == latest_plan(iv.take(k as int)),
        decreases k,
    {
        assert(iv.take(k as int).drop_last() =~= iv.take(k - 1));
        assert(iv.take(k as int).last() == items@[k - 1]@);
        let item = &items[k - 1];
        match proposed_plan_text(item) {
            Some(p) => return Some((k - 1, p)),
            None => {},
        }
        match update_plan_text(item) {
            Some(p) => return Some((k - 1, p)),
            None => {},
        }
        k -= 1;
    }
    None
}

// ------------------------------------------------------------ budgets and digests

/// Whether a text is left as it is under a token budget: when it is blank or
/// its token count (as the token estimator counts it) is within the budget;
/// otherwise it is truncated to the budget.
pub open spec fn within_budget(text: Seq<char>, max_tokens: nat, token_count: nat) -> bool {
    trim(text).len() == 0 || token_count <= max_tokens
}

/// Whether `text` stays as it is under a budget of `max_tokens`, given the
/// token count the estimator gives for it; when it does not, the text is
/// truncated to the budget before it is used.
pub fn within_token_budget(text: &str, max_tokens: usize, token_count: usize) -> (r: bool)
    ensures
        r == within_budget(text@, max_tokens as nat, token_count as nat),
{
    trim_chars(&chars_of(text)).len() == 0 || token_count <= max_tokens
}

/// What `sha1` computes over the UTF-8 bytes of a text.
pub uninterp spec fn sha1_of_text(text: Seq<char>) -> Seq<u8>;

/// Hashes the UTF-8 bytes of `text` with the `sha1` crate
/// (`Sha1::digest`). The contract claims that the result is the named
/// `sha1_of_text` of the text, and that it is 20 bytes long, the size of a
/// SHA-1 digest.
#[verifier::external_body]
pub(crate) fn sha1_digest(text: &str) -> (r: Vec<u8>)
    ensures
        r@ == sha1_of_text(text@),
        r@.len() == 20,
{
    sha1::Sha1::digest(text.as_bytes()).to_vec()
}

pub open spec fn hex_digit(d: u8) -> char {
    if d < 10 {
        (48 + d) as char
    } else {
        (87 + d) as char
    }
}

/// Lowercase hexadecimal, two digits per byte.
pub open spec fn hex(bytes: Seq<u8>) -> Seq<char>
    decreases bytes.len(),
{
    if bytes.len() == 0 {
        Seq::<char>::empty()
    } else {
        hex(bytes.drop_last()) + seq![hex_digit(bytes.last() / 16), hex_digit(bytes.last() % 16)]
    }
}

fn hex_digit_exec(d: u8) -> (r: char)
    requires
        d < 16,
    ensures
        r == hex_digit(d),
{
    let code: u32 = if d < 10 {
        48 + d as u32
    } else {
        87 + d as u32
    };
    let c = crate::text::char_from_ascii(code);
    c
}

pub fn hex_of(bytes: &[u8]) -> (r: Vec<char>)
    ensures
        r@ == hex(bytes@),
{
    let mut r: Vec<char> = Vec::new();
    for i in 0..bytes.len()
        invariant
            r@ == hex(bytes@.take(i as int)),
    {
        let b = bytes[i];
        assert(bytes@.take(i + 1).drop_last() =~= bytes@.take(i as int));
        assert(bytes@.take(i + 1).last() == b);
        r.push(hex_digit_exec(b / 16));
        r.push(hex_digit_exec(b % 16));
        assert(r@ =~= hex(bytes@.take(i + 1)));
    }
    assert(bytes@.take(bytes.len() as int) =~= bytes@);
    r
}

/// The digest of a memory body: its SHA-1 in lowercase hexadecimal.
pub open spec fn digest_for_body(body: Seq<char>) -> Seq<char> {
    hex(sha1_of_text(body))
}

// ------------------------------------------------------------ building memory

/// A built task memory: its digest and its body.
#[derive(Clone, Debug)]
pub struct BuiltTaskMemory {
    digest: String,
    body: String,
}

pub open spec fn last_message_before(msgs: Seq<(int, Seq<char>)>, index: int) -> Option<Seq<char>>
    decreases msgs.len(),
{
    if msgs.len() == 0 {
        None
    } else if msgs.last().0 < index {
        Some(msgs.last().1)
    } else {
        last_message_before(msgs.drop_last(), index)
    }
}

pub open spec fn messages_after(msgs: Seq<(int, Seq<char>)>, index: int) -> Seq<Seq<char>>
    decreases msgs.len(),
{
    if msgs.len() == 0 {
        Seq::<Seq<char>>::empty()
    } else if msgs.last().0 > index {
        messages_after(msgs.drop_last(), index).push(msgs.last().1)
    } else {
        messages_after(msgs.drop_last(), index)
    }
}

/// The request the plan answers (the last message before the plan, or the
/// last message when there is no plan) and the directives given after it.
pub open spec fn request_parts(active: Option<Seq<char>>, directives: Seq<Seq<char>>) -> Seq<Seq<char>> {
    (match active {
        Some(p) => seq!["Active user request:\n"@ + trim(p)],
        None => Seq::<Seq<char>>::empty(),
    }) + if directives.len() > 0 {
        seq![
            "Later user directives:\n"@ + join(
                directives.map_values(|d: Seq<char>| "- "@ + trim(d)),
                "\n"@,
            ),
        ]
    } else {
        Seq::<Seq<char>>::empty()
    }
}

pub open spec fn memory_body(request_text: Seq<char>, plan_text: Option<Seq<char>>) -> Seq<char> {
    "# Task Memory\n"@ + "Policy: near-verbatim active task and plan memory.\n"@ + (if trim(
        request_text,
    ).len() > 0 {
        "\n## User Prompt And Directives\n"@ + trim(request_text) + "\n"@
    } else {
        Seq::<char>::empty()
    }) + match plan_text {
        Some(t) => if trim(t).len() > 0 {
            "\n## Current Plan\n"@ + trim(t) + "\n"@
        } else {
            Seq::<char>::empty()
        },
        None => Seq::<char>::empty(),
    }
}

/// The parts of the memory built from the history, before token budgets
/// apply: `None` when there is neither a user request nor a plan; else the
/// request text (the active request and the later directives) and the plan.
pub open spec fn spec_task_memory_parts(items: Seq<ItemView>, prefix: Seq<char>) -> Option<
    (Seq<char>, Option<Seq<char>>),
> {
    let plan = latest_plan(items);
    let msgs = substantive_messages(items, prefix);
    let active = match plan {
        Some((pi, _)) => last_message_before(msgs, pi),
        None => if msgs.len() > 0 {
            Some(msgs.last().1)
        } else {
            None
        },
    };
    let directives = match plan {
        Some((pi, _)) => messages_after(msgs, pi),
        None => Seq::<Seq<char>>::empty(),
    };
    if active is None && plan is None && directives.len() == 0 {
        None
    } else {
        Some(
            (
                join(request_parts(active, directives), "\n\n"@),
                match plan {
                    Some((_, t)) => Some(t),
                    None => None,
                },
            ),
        )
    }
}

/// The request text and plan of a task memory, before token budgets apply.
pub struct TaskMemoryParts {
    pub request_text: String,
    pub plan_text: Option<String>,
}

impl BuiltTaskMemory {
    pub closed spec fn digest_view(&self) -> Seq<char> {
        self.digest@
    }

    pub closed spec fn body_view(&self) -> Seq<char> {
        self.body@
    }

    pub fn digest(&self) -> (r: &str)
        ensures
            r@ == self.digest_view(),
    {
        self.digest.as_str()
    }

    pub fn body(&self) -> (r: &str)
        ensures
            r@ == self.body_view(),
    {
        self.body.as_str()
    }

    /// The body between the task memory markers, one per line.
    pub fn render(self) -> (r: String)
        ensures
            r@ == TASK_MEMORY_START_MARKER@ + "\n"@ + trim(self.body_view()) + "\n"@
                + TASK_MEMORY_END_MARKER@,
    {
        render_task_memory_body(self.body.as_str())
    }
}

/// The body, trimmed, between the task memory markers on lines of their own.
fn render_task_memory_body(body: &str) -> (r: String)
    ensures
        r@ == TASK_MEMORY_START_MARKER@ + "\n"@ + trim(body@) + "\n"@ + TASK_MEMORY_END_MARKER@,
{
    let mut r = chars_of(TASK_MEMORY_START_MARKER);
    append_str(&mut r, "\n");
    append_chars(&mut r, &trim_chars(&chars_of(body)));
    append_str(&mut r, "\n");
    append_str(&mut r, TASK_MEMORY_END_MARKER);
    string_of(&r)
}

/// The parts a task memory is built from, `summary_prefix` marking the
/// summaries an earlier model handed over: the request the latest plan
/// answers (or the last request when there is no plan), the directives given
/// after the plan, and the plan; `None` when there is none of these. Token
/// budgets are applied to the parts afterwards.
pub fn task_memory_parts(items: &[TaskMemoryInputItem], summary_prefix: &str) -> (r: Option<
    TaskMemoryParts,
>)
    ensures
        match r {
            Some(p) => spec_task_memory_parts(items_view(items@), summary_prefix@) == Some(
                (p.request_text@, opt_text(p.plan_text)),
            ),
            None => spec_task_memory_parts(items_view(items@), summary_prefix@) is None,
        },
{
    let ghost iv = items_view(items@);
    let plan = latest_plan_of(items);
    let msgs = substantive_user_messages(items, summary_prefix);
    let ghost mv = indexed_view(msgs@);
    let active: Option<Vec<char>> = match &plan {
        Some((pi, _)) => {
            let mut k = msgs.len();
            assert(mv.take(k as int) =~= mv);
            while k > 0 && !(msgs[k - 1].0 < *pi)
                invariant
                    k <= msgs.len(),
                    mv == indexed_view(msgs@),
                    last_message_before(mv, *pi as int) == last_message_before(
                        mv.take(k as int),
                        *pi as int,
                    ),
                decreases k,
            {
                assert(mv.take(k as int).drop_last() =~= mv.take(k - 1));
                assert(mv.take(k as int).last() == (msgs@[k - 1].0 as int, msgs@[k - 1].1@));
                k -= 1;
            }
            if k > 0 {
                assert(mv.take(k as int).last() == (msgs@[k - 1].0 as int, msgs@[k - 1].1@));
                Some(clone_chars(&msgs[k - 1].1))
            } else {
                None
            }
        },
        None => if msgs.len() > 0 {
            assert(mv.last() == (msgs@[msgs.len() - 1].0 as int, msgs@[msgs.len() - 1].1@));
            Some(clone_chars(&msgs[msgs.len() - 1].1))
        } else {
            None
        },
    };
    let ghost dv = match plan {
        Some((pi, _)) => messages_after(mv, pi as int),
        None => Seq::<Seq<char>>::empty(),
    };
    let mut directives: Vec<Vec<char>> = Vec::new();
    match &plan {
        Some((pi, _)) => {
            for i in 0..msgs.len()
                invariant
                    mv == indexed_view(msgs@),
                    views(directives@) == messages_after(mv.take(i as int), *pi as int),
            {
                assert(mv.take(i + 1).drop_last() =~= mv.take(i as int));
                assert(mv.take(i + 1).last() == (msgs@[i as int].0 as int, msgs@[i as int].1@));
                if msgs[i].0 > *pi {
                    crate::digest::push_row(&mut directives, clone_chars(&msgs[i].1));
                }
            }
            assert(mv.take(msgs.len() as int) =~= mv);
        },
        None => {},
    }
    assert(views(directives@) =~= dv);
    if active.is_none() && plan.is_none() && directives.len() == 0 {
        return None;
    }
    let mut parts: Vec<Vec<char>> = Vec::new();
    match &active {
        Some(p) => {
            let mut line = chars_of("Active user request:\n");
            append_chars(&mut line, &trim_chars(p));
            crate::digest::push_row(&mut parts, line);
        },
        None => {},
    }
    if directives.len() > 0 {
        let ghost d = views(directives@);
        let mut bullets: Vec<Vec<char>> = Vec::new();
        for i in 0..directives.len()
            invariant
                d == views(directives@),
                views(bullets@) == d.take(i as int).map_values(|x: Seq<char>| "- "@ + trim(x)),
        {
            let mut b = chars_of("- ");
            append_chars(&mut b, &trim_chars(&directives[i]));
            assert(d[i as int] == directives@[i as int]@);
            crate::digest::push_row(&mut bullets, b);
            assert(d.take(i + 1).map_values(|x: Seq<char>| "- "@ + trim(x)) =~= d.take(i as int).map_values(
                |x: Seq<char>| "- "@ + trim(x),
            ).push("- "@ + trim(d[i as int])));
        }
        assert(d.take(directives.len() as int) =~= d);
        let mut line = chars_of("Later user directives:\n");
        append_chars(&mut line, &join_chars(&bullets, "\n"));
        crate::digest::push_row(&mut parts, line);
    }
    let ghost av = match active {
        Some(p) => Some(p@),
        None => None::<Seq<char>>,
    };
    assert(views(parts@) =~= request_parts(av, dv));
    let request_text = join_chars(&parts, "\n\n");
    let plan_text: Option<String> = match &plan {
        Some((_, t)) => Some(string_of(t)),
        None => None,
    };
    Some(TaskMemoryParts { request_text: string_of(&request_text), plan_text })
}

/// The memory body from the budgeted request text and plan: a heading, the
/// policy line, then each non-blank part, trimmed, under its heading.
pub fn task_memory_body(request_text: &str, plan_text: Option<&str>) -> (r: String)
    ensures
        r@ == memory_body(
            request_text@,
            match plan_text {
                Some(t) => Some(t@),
                None => None,
            },
        ),
{
    let mut body = chars_of("# Task Memory\n");
    append_str(&mut body, "Policy: near-verbatim active task and plan memory.\n");
    let rt = trim_chars(&chars_of(request_text));
    if rt.len() > 0 {
        append_str(&mut body, "\n## User Prompt And Directives\n");
        append_chars(&mut body, &rt);
        append_str(&mut body, "\n");
    }
    match plan_text {
        Some(t) => {
            let tt = trim_chars(&chars_of(t));
            if tt.len() > 0 {
                append_str(&mut body, "\n## Current Plan\n");
                append_chars(&mut body, &tt);
                append_str(&mut body, "\n");
            }
        },
        None => {},
    }
    string_of(&body)
}

/// The memory of a budgeted body: its digest is the SHA-1 of the body in
/// lowercase hexadecimal, and the stored body is `Digest: `, the digest, a
/// blank line and the body.
pub fn finish_task_memory(body: &str) -> (r: BuiltTaskMemory)
    ensures
        r.digest_view() == digest_for_body(body@),
        r.body_view() == "Digest: "@ + digest_for_body(body@) + "\n\n"@ + body@,
        is_hex_text(r.digest_view()),
        r.digest_view().len() == 40,
{
    let bytes = sha1_digest(body);
    proof {
        lemma_digest_is_hex(body@, bytes@);
    }
    let digest = hex_of(&bytes);
    let mut full = chars_of("Digest: ");
    append_chars(&mut full, &digest);
    append_str(&mut full, "\n\n");
    append_str(&mut full, body);
    BuiltTaskMemory { digest: string_of(&digest), body: string_of(&full) }
}

// ------------------------------------------------------------ injection under pressure

/// `limit / 3`, rounded toward zero as `i64` division does.
pub open spec fn third_toward_zero(limit: i64) -> int {
    if limit >= 0 {
        limit / 3
    } else {
        -((-(limit as int)) / 3)
    }
}

/// The token count from which memory is injected: a third of the
/// auto-compaction limit, at most 64000.
pub open spec fn pressure_threshold(auto_compact_limit: i64) -> int {
    let third = third_toward_zero(auto_compact_limit);
    if third < PRESSURE_TOKEN_THRESHOLD {
        third
    } else {
        PRESSURE_TOKEN_THRESHOLD as int
    }
}

/// Whether the estimated context size calls for injecting task memory.
pub fn should_inject_under_pressure(estimated_tokens: i64, auto_compact_limit: i64) -> (r: bool)
    ensures
        r == (estimated_tokens >= pressure_threshold(auto_compact_limit)),
{
    let third: i64 = if auto_compact_limit >= 0 {
        auto_compact_limit / 3
    } else {
        let m: i128 = -(auto_compact_limit as i128);
        let q: i128 = m / 3;
        (-q) as i64
    };
    let threshold = if third < PRESSURE_TOKEN_THRESHOLD {
        third
    } else {
        PRESSURE_TOKEN_THRESHOLD
    };
    estimated_tokens >= threshold
}

/// When memory was last injected, and how often with the same digest.
pub struct TaskMemoryThrottleState {
    last_digest: Option<String>,
    same_digest_injections: u8,
    last_injected_at: Option<u64>,
    last_injected_user_message_count: usize,
}

pub struct ThrottleView {
    pub last_digest: Option<Seq<char>>,
    pub same_digest_injections: u8,
    pub last_injected_at: Option<u64>,
    pub last_injected_user_message_count: usize,
}

impl View for TaskMemoryThrottleState {
    type V = ThrottleView;

    closed spec fn view(&self) -> ThrottleView {
        ThrottleView {
            last_digest: opt_text(self.last_digest),
            same_digest_injections: self.same_digest_injections,
            last_injected_at: self.last_injected_at,
            last_injected_user_message_count: self.last_injected_user_message_count,
        }
    }
}

impl Default for TaskMemoryThrottleState {
    fn default() -> (r: TaskMemoryThrottleState)
        ensures
            r@ == (ThrottleView {
                last_digest: None,
                same_digest_injections: 0,
                last_injected_at: None,
                last_injected_user_message_count: 0,
            }),
    {
        TaskMemoryThrottleState {
            last_digest: None,
            same_digest_injections: 0,
            last_injected_at: None,
            last_injected_user_message_count: 0,
        }
    }
}

/// Whether memory with `digest` is injected now, and the state after.
/// A new digest is always injected. The same digest is injected at most
/// twice, and again only after three more user messages or ten minutes.
pub open spec fn spec_should_inject(t: ThrottleView, digest: Seq<char>, count: usize, now: u64) -> (
    bool,
    ThrottleView,
) {
    let injected = ThrottleView {
        last_digest: Some(digest),
        same_digest_injections: 1,
        last_injected_at: Some(now),
        last_injected_user_message_count: count,
    };
    if t.last_digest != Some(digest) {
        (true, injected)
    } else if t.same_digest_injections >= MAX_SAME_DIGEST_PRESSURE_INJECTIONS {
        (false, t)
    } else {
        let new_messages = if count >= t.last_injected_user_message_count {
            count - t.last_injected_user_message_count
        } else {
            0
        };
        let enough_time = match t.last_injected_at {
            Some(last) => (if now >= last { now - last } else { 0 })
                >= MIN_PRESSURE_INJECTION_INTERVAL_MS,
            None => true,
        };
        if new_messages < MIN_USER_MESSAGES_BETWEEN_INJECTIONS && !enough_time {
            (false, t)
        } else {
            (
                true,
                ThrottleView {
                    same_digest_injections: if t.same_digest_injections < 255 {
                        (t.same_digest_injections + 1) as u8
                    } else {
                        255
                    },
                    last_injected_at: Some(now),
                    last_injected_user_message_count: count,
                    ..t
                },
            )
        }
    }
}

impl TaskMemoryThrottleState {
    /// Decides whether memory with `digest` is injected at `now`
    /// (milliseconds), given how many real user messages the history has.
    pub fn should_inject(&mut self, digest: &str, real_user_message_count: usize, now: u64) -> (r:
        bool)
        ensures
            (r, final(self)@) == spec_should_inject(old(self)@, digest@, real_user_message_count, now),
    {
        let same = match &self.last_digest {
            Some(d) => crate::text::chars_eq(&chars_of(d.as_str()), &chars_of(digest)),
            None => false,
        };
        if !same {
            self.last_digest = Some(String::from_str(digest));
            self.same_digest_injections = 1;
            self.last_injected_at = Some(now);
            self.last_injected_user_message_count = real_user_message_count;
            return true;
        }
        if self.same_digest_injections >= MAX_SAME_DIGEST_PRESSURE_INJECTIONS {
            return false;
        }
        let enough_new_user_messages = real_user_message_count.saturating_sub(
            self.last_injected_user_message_count,
        ) >= MIN_USER_MESSAGES_BETWEEN_INJECTIONS;
        let enough_time = match self.last_injected_at {
            Some(last) => now.saturating_sub(last) >= MIN_PRESSURE_INJECTION_INTERVAL_MS,
            None => true,
        };
        if !enough_new_user_messages && !enough_time {
            return false;
        }
        self.same_digest_injections = self.same_digest_injections.saturating_add(1);
        self.last_injected_at = Some(now);
        self.last_injected_user_message_count = real_user_message_count;
        true
    }

    /// Forgets the injection history after compaction, keeping the digest
    /// of the memory that survived it.
    pub fn reset_after_compaction(&mut self, digest: Option<&str>)
        ensures
            final(self)@ == (ThrottleView {
                last_digest: match digest {
                    Some(d) => Some(d@),
                    None => None,
                },
                same_digest_injections: 0,
                last_injected_at: None,
                last_injected_user_message_count: 0,
            }),
    {
        self.last_digest = match digest {
            Some(d) => Some(String::from_str(d)),
            None => None,
        };
        self.same_digest_injections = 0;
        self.last_injected_at = None;
        self.last_injected_user_message_count = 0;
    }
}

// ------------------------------------------------------------ laws

/// A memory with a digest that differs from the last one is always injected,
/// and afterwards counts as injected once.
pub proof fn law_new_digest_is_injected(t: ThrottleView, digest: Seq<char>, count: usize, now: u64)
    requires
        t.last_digest != Some(digest),
    ensures
        spec_should_inject(t, digest, count, now).0,
        spec_should_inject(t, digest, count, now).1.same_digest_injections == 1,
{
}

/// The same memory is never injected more than twice in a row: once the
/// count has reached two, further requests for that digest are refused and
/// leave the state as it is.
pub proof fn law_same_digest_injected_at_most_twice(
    t: ThrottleView,
    digest: Seq<char>,
    count: usize,
    now: u64,
)
    requires
        t.last_digest == Some(digest),
        t.same_digest_injections >= 2,
    ensures
        !spec_should_inject(t, digest, count, now).0,
        spec_should_inject(t, digest, count, now).1 == t,
{
}

/// An accepted injection of the same digest raises the count by one, so at
/// most two follow any change of digest.
pub proof fn law_injection_count_stays_bounded(t: ThrottleView, digest: Seq<char>, count: usize, now: u64)
    requires
        t.same_digest_injections <= 2,
    ensures
        spec_should_inject(t, digest, count, now).1.same_digest_injections <= 2,
{
}

/// The injection threshold never exceeds 64000 tokens nor a third of the
/// auto-compaction limit.
pub proof fn law_pressure_threshold_is_capped(limit: i64)
    ensures
        pressure_threshold(limit) <= 64000,
        pressure_threshold(limit) <= third_toward_zero(limit),
{
}

/// A rendered task memory is recognised as task memory text.
pub proof fn law_rendered_memory_is_recognized(body: Seq<char>)
    ensures
        spec_is_task_memory_text(
            TASK_MEMORY_START_MARKER@ + "\n"@ + trim(body) + "\n"@ + TASK_MEMORY_END_MARKER@,
        ),
{
    reveal_strlit("<task_memory>");
    reveal_strlit("</task_memory>");
    reveal_strlit("\n");
    let r = TASK_MEMORY_START_MARKER@ + "\n"@ + trim(body) + "\n"@ + TASK_MEMORY_END_MARKER@;
    assert(r[0] == '<');
    assert(!is_ws(r[0]));
    crate::text::lemma_lead_ws_facts(r);
    assert(lead_ws_zero(r));
    assert(trim_start(r) =~= r);
    assert(r.last() == '>');
    crate::text::lemma_trail_ws_facts(r);
    assert(trim_end(r) =~= r);
    assert(r.take(13) =~= TASK_MEMORY_START_MARKER@);
    assert(r.skip(r.len() - 14) =~= TASK_MEMORY_END_MARKER@);
    assert(lower(TASK_MEMORY_START_MARKER@) =~= TASK_MEMORY_START_MARKER@);
    assert(lower(TASK_MEMORY_END_MARKER@) =~= TASK_MEMORY_END_MARKER@);
}

spec fn lead_ws_zero(s: Seq<char>) -> bool {
    crate::text::lead_ws(s) == 0
}

/// A rendered task memory never counts as a message of the user's own.
pub proof fn law_memory_is_not_a_user_message(body: Seq<char>, prefix: Seq<char>)
    ensures
        spec_real_user_message(
            ItemView::UserMessage(
                TASK_MEMORY_START_MARKER@ + "\n"@ + trim(body) + "\n"@ + TASK_MEMORY_END_MARKER@,
            ),
            prefix,
        ) is None,
{
    law_rendered_memory_is_recognized(body);
    let r = TASK_MEMORY_START_MARKER@ + "\n"@ + trim(body) + "\n"@ + TASK_MEMORY_END_MARKER@;
    reveal_strlit("<task_memory>");
    reveal_strlit("</task_memory>");
    crate::text::lemma_lead_ws_facts(r);
    crate::text::lemma_trail_ws_facts(r);
    assert(r[0] == '<');
    assert(r.last() == '>');
    assert(trim_start(r) =~= r);
    assert(trim_end(r) =~= r);
    assert(trim(r) =~= r);
}

/// The count of real user messages is the number of items that are user
/// messages whose trimmed text is not blank, does not start with the summary
/// prefix and is not task memory text; with an empty prefix every message
/// starts with it, so the count is zero.
pub proof fn law_real_user_messages_are_a_filtered_count(items: Seq<ItemView>, prefix: Seq<char>)
    ensures
        count_real_user_messages(items, prefix) == items.filter(
            |item: ItemView| spec_real_user_message(item, prefix) is Some,
        ).len(),
        prefix.len() == 0 ==> count_real_user_messages(items, prefix) == 0,
    decreases items.len(),
{
    reveal(Seq::filter);
    if items.len() > 0 {
        law_real_user_messages_are_a_filtered_count(items.drop_last(), prefix);
        if prefix.len() == 0 {
            match items.last() {
                ItemView::UserMessage(m) => {
                    assert(trim(m).subrange(0, 0) =~= prefix);
                },
                _ => {},
            }
        }
    }
}

pub open spec fn is_lower_hex(c: char) -> bool {
    ('0' <= c && c <= '9') || ('a' <= c && c <= 'f')
}

/// A non-empty text of lowercase hexadecimal digits.
pub open spec fn is_hex_text(d: Seq<char>) -> bool {
    d.len() > 0 && forall|i: int| 0 <= i < d.len() ==> is_lower_hex(#[trigger] d[i])
}

proof fn lemma_hex_digits(bytes: Seq<u8>)
    ensures
        hex(bytes).len() == 2 * bytes.len(),
        forall|i: int| 0 <= i < hex(bytes).len() ==> is_lower_hex(#[trigger] hex(bytes)[i]),
    decreases bytes.len(),
{
    if bytes.len() > 0 {
        lemma_hex_digits(bytes.drop_last());
        let b = bytes.last();
        assert(b / 16 < 16);
        let h = hex(bytes);
        let p = hex(bytes.drop_last());
        assert forall|i: int| 0 <= i < h.len() implies is_lower_hex(#[trigger] h[i]) by {
            if i < p.len() {
                assert(h[i] == p[i]);
            } else if i == p.len() {
                assert(h[i] == hex_digit(b / 16));
            } else {
                assert(h[i] == hex_digit(b % 16));
            }
        }
    }
}

/// The digest of a built memory is forty lowercase hexadecimal digits.
pub proof fn lemma_digest_is_hex(body: Seq<char>, bytes: Seq<u8>)
    requires
        bytes == sha1_of_text(body),
        bytes.len() == 20,
    ensures
        is_hex_text(digest_for_body(body)),
        digest_for_body(body).len() == 40,
{
    lemma_hex_digits(bytes);
}

/// The rendered form of a built memory's stored body.
pub open spec fn rendered_memory(digest: Seq<char>, body: Seq<char>) -> Seq<char> {
    TASK_MEMORY_START_MARKER@ + "\n"@ + trim("Digest: "@ + digest + "\n\n"@ + body) + "\n"@
        + TASK_MEMORY_END_MARKER@
}

/// A rendered memory is task memory text, and the digest read back from it
/// is the digest it was built with.
pub proof fn law_rendered_digest_reads_back(digest: Seq<char>, body: Seq<char>)
    requires
        is_hex_text(digest),
    ensures
        spec_is_task_memory_text(rendered_memory(digest, body)),
        spec_task_memory_text_digest(rendered_memory(digest, body)) == Some(digest),
{
    reveal_strlit("Digest: ");
    reveal_strlit("<task_memory>");
    reveal_strlit("</task_memory>");
    reveal_strlit("\n");
    reveal_strlit("\n\n");
    let f = "Digest: "@ + digest + "\n\n"@ + body;
    law_rendered_memory_is_recognized(f);
    let p1 = "Digest: "@ + digest;
    let n1 = p1.len() as int;
    assert(f[0] == 'D');
    crate::text::lemma_lead_ws_facts(f);
    assert(crate::text::lead_ws(f) == 0);
    assert(trim_start(f) =~= f);
    crate::text::lemma_trail_ws_facts(f);
    let m = f.len() - crate::text::trail_ws(f);
    assert(f[n1 - 1] == digest.last());
    assert(is_lower_hex(digest[digest.len() - 1]));
    assert(!is_ws(f[n1 - 1]));
    assert(m >= n1);
    let t = trim(f);
    assert(t =~= f.take(m));
    let mm = TASK_MEMORY_START_MARKER@;
    let e = TASK_MEMORY_END_MARKER@;
    let r = rendered_memory(digest, body);
    let w = if m == n1 {
        e
    } else {
        f.subrange(n1 + 1, m) + "\n"@ + e
    };
    if m == n1 {
        assert(t =~= p1);
    } else {
        assert(f[n1] == '\n');
        assert(t =~= p1 + seq!['\n'] + f.subrange(n1 + 1, m));
    }
    assert(r =~= mm + seq!['\n'] + (p1 + seq!['\n'] + w));
    assert(!mm.contains('\n')) by {
        if mm.contains('\n') {
            let i = choose|i: int| 0 <= i < mm.len() && mm[i] == '\n';
        }
    }
    assert(!p1.contains('\n')) by {
        if p1.contains('\n') {
            let i = choose|i: int| 0 <= i < p1.len() && p1[i] == '\n';
            if i >= 8 {
                assert(p1[i] == digest[i - 8]);
                assert(is_lower_hex(digest[i - 8]));
            }
        }
    }
    crate::text::lemma_split_on_concat(mm, p1 + seq!['\n'] + w, '\n');
    crate::text::lemma_split_on_concat(p1, w, '\n');
    crate::text::lemma_split_on_no_sep(mm, '\n');
    crate::text::lemma_split_on_no_sep(p1, '\n');
    crate::text::lemma_split_on_nonempty(w, '\n');
    let sp = crate::text::split_on(r, '\n');
    assert(sp =~= seq![mm, p1] + crate::text::split_on(w, '\n'));
    let ls = lines(r);
    assert(sp.len() >= 3);
    assert(ls[0] == crate::text::strip_cr(mm));
    assert(ls[1] == crate::text::strip_cr(p1));
    assert(crate::text::strip_cr(mm) =~= mm);
    assert(p1.last() == digest.last());
    assert(crate::text::strip_cr(p1) =~= p1);
    lemma_trim_ends_kept(mm);
    lemma_trim_ends_kept(p1);
    assert(!starts_with(mm, "Digest: "@)) by {
        assert(mm.subrange(0, 8)[0] == '<');
    }
    assert(p1.subrange(0, 8) =~= "Digest: "@);
    assert(ls.len() >= 2);
    assert(ls.drop_first()[0] == p1);
    assert(p1.skip(8) =~= digest);
    assert(trim(ls[0]) == mm);
    assert(!starts_with(trim(ls[0]), "Digest: "@));
    assert(digest_line(ls) == digest_line(ls.drop_first()));
    assert(trim(ls.drop_first()[0]) == p1);
    assert(starts_with(p1, "Digest: "@));
    assert(digest_line(ls.drop_first()) == Some(p1.skip(8)));
}

/// A text that neither starts nor ends with whitespace is its own trim.
proof fn lemma_trim_ends_kept(s: Seq<char>)
    requires
        s.len() > 0,
        !is_ws(s[0]),
        !is_ws(s.last()),
    ensures
        trim(s) == s,
{
    crate::text::lemma_lead_ws_facts(s);
    assert(trim_start(s) =~= s);
    crate::text::lemma_trail_ws_facts(s);
    assert(trim_end(s) =~= s);
}

/// Without a plan, the active request is the latest substantive user message
/// of the history (the one with the highest index), trimmed, and there is no
/// plan text.
pub proof fn law_active_request_is_latest_without_plan(items: Seq<ItemView>, prefix: Seq<char>)
    requires
        latest_plan(items) is None,
        substantive_messages(items, prefix).len() > 0,
    ensures
        spec_task_memory_parts(items, prefix) == Some(
            (
                "Active user request:\n"@ + trim(substantive_messages(items, prefix).last().1),
                None::<Seq<char>>,
            ),
        ),
        forall|j: int|
            0 <= j < substantive_messages(items, prefix).len() ==> (#[trigger] substantive_messages(
                items,
                prefix,
            )[j]).0 <= substantive_messages(items, prefix).last().0,
{
    let msgs = substantive_messages(items, prefix);
    let parts = request_parts(Some(msgs.last().1), Seq::<Seq<char>>::empty());
    assert(parts =~= seq!["Active user request:\n"@ + trim(msgs.last().1)]);
    lemma_substantive_indices_increase(items, prefix);
}

/// The messages come in the order of the history: their indices increase.
proof fn lemma_substantive_indices_increase(items: Seq<ItemView>, prefix: Seq<char>)
    ensures
        forall|i: int, j: int|
            0 <= i < j < substantive_messages(items, prefix).len() ==> (#[trigger] substantive_messages(
                items,
                prefix,
            )[i]).0 < (#[trigger] substantive_messages(items, prefix)[j]).0,
        forall|i: int|
            0 <= i < substantive_messages(items, prefix).len() ==> 0 <= (
            #[trigger] substantive_messages(items, prefix)[i]).0 < items.len(),
    decreases items.len(),
{
    if items.len() > 0 {
        let init = items.drop_last();
        lemma_substantive_indices_increase(init, prefix);
        let r = substantive_messages(init, prefix);
        let s = substantive_messages(items, prefix);
        if s.len() > r.len() {
            assert(s == r.push((items.len() - 1, s.last().1)));
            assert forall|i: int| 0 <= i < r.len() implies #[trigger] s[i] == r[i] by {}
            assert forall|i: int, j: int| 0 <= i < j < s.len() implies (#[trigger] s[i]).0 < (#[trigger] s[j]).0 by {
                if j < r.len() {
                    assert(s[i] == r[i] && s[j] == r[j]);
                } else {
                    assert(s[i] == r[i]);
                    assert(r[i].0 < init.len());
                }
            }
            assert forall|i: int| 0 <= i < s.len() implies 0 <= (#[trigger] s[i]).0 < items.len() by {
                if i < r.len() {
                    assert(s[i] == r[i]);
                }
            }
        } else {
            assert(s == r);
        }
    }
}

} // verus!
