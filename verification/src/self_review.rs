//! When to ask for an automatic self-review, what to say, and the plan-review
//! checkpoints.
use vstd::prelude::*;

use crate::review_anchor::spec_anchor_prompt;
use crate::review_anchor::string_seq;
use crate::review_anchor::AnchorView;
use crate::review_anchor::GitReviewAnchor;
use crate::review_anchor::WorkEvidence;
use crate::text::append_chars;
use crate::text::append_str;
use crate::text::chars_of;
use crate::text::dec;
use crate::text::join;
use crate::text::join_chars;
use crate::text::push_dec;
use crate::text::slice_chars;
use crate::text::string_of;
use crate::text::trim;
use crate::text::trim_chars;
use crate::text::views;

verus! {

/// How long after an automatic review no reminder is given, in milliseconds.
pub const SELF_REVIEW_COOLDOWN_MS: u64 = 600000;

/// How many recent commands are kept.
pub const MAX_RECORDED_COMMANDS: usize = 6;

/// How many changed paths are kept.
pub const MAX_RECORDED_PATHS: usize = 12;

/// How many characters of a note are kept.
pub const MAX_NOTE_CHARS: usize = 180;

pub const PLAN_UPDATED_MESSAGE: &'static str = "Plan updated";

pub const SELF_REVIEW_CHECKPOINT_MESSAGE: &'static str = "Plan updated\n\nSelf-review checkpoint before continuing: actively review the plan as if the user had asked \"review and improve the plan\". First compare the plan to the user's prompt and confirm it actually plans the requested work. Then check task order, missing verification, assumptions that materially affect value/correctness/integration, stale context, user constraints, and user/remote overlap. Revise the plan first if any issue is found.\n\n<prototype_first_policy>\nFor feature, tool/runtime, memory, agent, DAB, cache, prompt/context-reducer, or expensive-verification work, first consider whether a focused demo, canary, fixture, or lab script would make the highest-value path cheaper, more observable, or easier to verify before changing the main path. Use the prototype to enable the right architectural move when it is worthwhile; skip it for trivial edits, exact narrow fixes, or when a direct targeted test is cheaper.\n</prototype_first_policy>\n\n<coherent_repair_policy>\nWhen self-review finds a concrete, repo-controlled caveat that is directly fixable and verifiable, prefer one coherent repair pass before proceeding. Stop instead of repairing when the blocker is external, destructive, or not reproducible from current evidence.\n</coherent_repair_policy>";

/// What the tracker has seen of the current turn.
pub struct SelfReviewTracker {
    command_count: usize,
    patch_count: usize,
    plan_update_count: usize,
    recent_commands: Vec<String>,
    changed_paths: Vec<String>,
    saw_review_this_turn: bool,
    suppress_current_turn: bool,
    suppress_next_turn: bool,
    last_auto_review_started_at: Option<u64>,
    cwd: Option<String>,
    git_anchor: Option<GitReviewAnchor>,
}

pub struct TrackerView {
    pub command_count: nat,
    pub patch_count: nat,
    pub plan_update_count: nat,
    pub recent_commands: Seq<Seq<char>>,
    pub changed_paths: Seq<Seq<char>>,
    pub saw_review_this_turn: bool,
    pub suppress_current_turn: bool,
    pub suppress_next_turn: bool,
    pub last_auto_review_started_at: Option<u64>,
    pub cwd: Option<Seq<char>>,
    pub git_anchor: Option<AnchorView>,
}

pub open spec fn anchor_opt(a: Option<GitReviewAnchor>) -> Option<AnchorView> {
    match a {
        Some(x) => Some(x@),
        None => None,
    }
}

impl View for SelfReviewTracker {
    type V = TrackerView;

    closed spec fn view(&self) -> TrackerView {
        TrackerView {
            command_count: self.command_count as nat,
            patch_count: self.patch_count as nat,
            plan_update_count: self.plan_update_count as nat,
            recent_commands: string_seq(self.recent_commands@),
            changed_paths: string_seq(self.changed_paths@),
            saw_review_this_turn: self.saw_review_this_turn,
            suppress_current_turn: self.suppress_current_turn,
            suppress_next_turn: self.suppress_next_turn,
            last_auto_review_started_at: self.last_auto_review_started_at,
            cwd: crate::review_anchor::opt_chars(self.cwd),
            git_anchor: anchor_opt(self.git_anchor),
        }
    }
}

/// A tracker that has seen nothing.
pub open spec fn fresh_tracker() -> TrackerView {
    TrackerView {
        command_count: 0,
        patch_count: 0,
        plan_update_count: 0,
        recent_commands: Seq::<Seq<char>>::empty(),
        changed_paths: Seq::<Seq<char>>::empty(),
        saw_review_this_turn: false,
        suppress_current_turn: false,
        suppress_next_turn: false,
        last_auto_review_started_at: None,
        cwd: None,
        git_anchor: None,
    }
}

/// Well-formedness: the recorded lists stay within their caps and hold no
/// repeats, and a note is never empty.
pub open spec fn recent_list_ok(items: Seq<Seq<char>>, max: nat) -> bool {
    &&& items.len() <= max
    &&& forall|i: int, j: int| 0 <= i < j < items.len() ==> items[i] != items[j]
    &&& forall|i: int| 0 <= i < items.len() ==> (#[trigger] items[i]).len() > 0
}

pub open spec fn tracker_ok(t: TrackerView) -> bool {
    &&& recent_list_ok(t.recent_commands, 6)
    &&& recent_list_ok(t.changed_paths, 12)
}

// ------------------------------------------------------------ notes

/// The first 180 characters, then `...` when there were more.
pub open spec fn truncate_note(s: Seq<char>) -> Seq<char> {
    if s.len() > 180 {
        s.take(180) + "..."@
    } else {
        s
    }
}

/// The list after recording `value`: trimmed and truncated, ignored when
/// empty or already present, else appended with the oldest entry dropped
/// when the list is full.
pub open spec fn push_recent(items: Seq<Seq<char>>, value: Seq<char>, max: nat) -> Seq<Seq<char>> {
    let v = truncate_note(trim(value));
    if v.len() == 0 || items.contains(v) {
        items
    } else if items.len() >= max {
        items.drop_first().push(v)
    } else {
        items.push(v)
    }
}

fn truncate_note_of(s: &[char]) -> (r: Vec<char>)
    ensures
        r@ == truncate_note(s@),
{
    if s.len() > MAX_NOTE_CHARS {
        let mut r = slice_chars(s, 0, MAX_NOTE_CHARS);
        append_str(&mut r, "...");
        assert(s@.subrange(0, 180) =~= s@.take(180));
        r
    } else {
        crate::text::clone_chars(s)
    }
}

fn push_recent_exec(items: &mut Vec<String>, value: &str, max_items: usize)
    requires
        max_items > 0,
    ensures
        string_seq(final(items)@) == push_recent(string_seq(old(items)@), value@, max_items as nat),
{
    let v = truncate_note_of(&trim_chars(&chars_of(value)));
    if v.len() == 0 {
        return;
    }
    let ghost iv = string_seq(items@);
    for i in 0..items.len()
        invariant
            iv == string_seq(items@),
            items@ == old(items)@,
            v@ == truncate_note(trim(value@)),
            v@.len() > 0,
            forall|j: int| 0 <= j < i ==> iv[j] != v@,
    {
        let c = chars_of(items[i].as_str());
        if crate::text::chars_eq(&c, &v) {
            assert(iv[i as int] == v@);
            return;
        }
    }
    assert(!iv.contains(v@));
    if items.len() >= max_items {
        let ghost before = items@;
        items.remove(0);
        assert(string_seq(items@) =~= iv.drop_first());
    }
    let ghost mid = items@;
    items.push(string_of(&v));
    assert(string_seq(items@) =~= string_seq(mid).push(v@));
}

proof fn lemma_push_recent_ok(items: Seq<Seq<char>>, value: Seq<char>, max: nat)
    requires
        recent_list_ok(items, max),
        max > 0,
    ensures
        recent_list_ok(push_recent(items, value, max), max),
{
    let v = truncate_note(trim(value));
    if !(v.len() == 0 || items.contains(v)) {
        let r = push_recent(items, value, max);
        let base = if items.len() >= max {
            items.drop_first()
        } else {
            items
        };
        assert(r == base.push(v));
        assert forall|i: int, j: int| 0 <= i < j < r.len() implies r[i] != r[j] by {
            if j == r.len() - 1 {
                if items.len() >= max {
                    assert(r[i] == items[i + 1]);
                } else {
                    assert(r[i] == items[i]);
                }
            } else if items.len() >= max {
                assert(r[i] == items[i + 1] && r[j] == items[j + 1]);
            }
        }
        assert forall|i: int| 0 <= i < r.len() implies (#[trigger] r[i]).len() > 0 by {
            if i < r.len() - 1 && items.len() >= max {
                assert(r[i] == items[i + 1]);
            }
        }
    }
}

// ------------------------------------------------------------ transitions

pub open spec fn spec_reset_turn(t: TrackerView) -> TrackerView {
    TrackerView {
        suppress_current_turn: t.suppress_next_turn,
        last_auto_review_started_at: t.last_auto_review_started_at,
        cwd: t.cwd,
        git_anchor: t.git_anchor,
        ..fresh_tracker()
    }
}

pub open spec fn spec_note_plan_update(t: TrackerView) -> TrackerView {
    TrackerView { plan_update_count: t.plan_update_count + 1, ..t }
}

pub open spec fn spec_note_command(t: TrackerView, command: Seq<char>) -> TrackerView {
    TrackerView {
        command_count: t.command_count + 1,
        recent_commands: push_recent(t.recent_commands, command, 6),
        ..t
    }
}

/// The changed paths after recording each of `paths` in turn.
pub open spec fn push_all_recent(items: Seq<Seq<char>>, paths: Seq<Seq<char>>) -> Seq<Seq<char>>
    decreases paths.len(),
{
    if paths.len() == 0 {
        items
    } else {
        push_recent(push_all_recent(items, paths.drop_last()), paths.last(), 12)
    }
}

pub open spec fn spec_note_patch(t: TrackerView, paths: Seq<Seq<char>>) -> TrackerView {
    TrackerView {
        patch_count: t.patch_count + 1,
        changed_paths: push_all_recent(t.changed_paths, paths),
        ..t
    }
}

pub open spec fn spec_note_explicit_review(t: TrackerView) -> TrackerView {
    TrackerView { saw_review_this_turn: true, ..t }
}

pub open spec fn spec_note_automatic_review_started(t: TrackerView, now: u64) -> TrackerView {
    TrackerView {
        saw_review_this_turn: true,
        suppress_next_turn: true,
        last_auto_review_started_at: Some(now),
        ..t
    }
}

/// Whether `now` is less than the cooldown after the last automatic review.
pub open spec fn in_cooldown(t: TrackerView, now: u64) -> bool {
    match t.last_auto_review_started_at {
        Some(started) => (if now >= started { now - started } else { 0 }) < SELF_REVIEW_COOLDOWN_MS,
        None => false,
    }
}

/// A reminder is due when files changed this turn, no review was seen, the
/// turn is not the one an automatic review runs in, and no cooldown applies.
pub open spec fn spec_should_remind(t: TrackerView, now: u64) -> bool {
    !t.saw_review_this_turn && !t.suppress_current_turn && !in_cooldown(t, now) && t.patch_count
        > 0
}

/// `- note` lines: file-change steps, commands, plan updates, then the
/// changed paths and the recent commands when there are any.
pub open spec fn spec_compact_work_notes(t: TrackerView) -> Seq<char> {
    let notes = seq![
        "file-change steps: "@ + dec(t.patch_count),
        "commands completed: "@ + dec(t.command_count),
        "plan updates: "@ + dec(t.plan_update_count),
    ] + if t.changed_paths.len() > 0 {
        seq!["changed paths: "@ + join(t.changed_paths, ", "@)]
    } else {
        Seq::<Seq<char>>::empty()
    } + if t.recent_commands.len() > 0 {
        seq!["recent commands: "@ + join(t.recent_commands, " | "@)]
    } else {
        Seq::<Seq<char>>::empty()
    };
    join(notes.map_values(|n: Seq<char>| "- "@ + n), "\n"@)
}

pub open spec fn spec_reminder_message(t: TrackerView) -> Seq<char> {
    let work = if t.patch_count > 0 && t.command_count > 0 {
        dec(t.patch_count) + " file-change step(s) and "@ + dec(t.command_count) + " command(s)"@
    } else if t.patch_count > 0 {
        dec(t.patch_count) + " file-change step(s)"@
    } else {
        dec(t.command_count) + " command(s)"@
    };
    "Self-review required: "@ + work
        + " completed without an explicit review. Starting an automatic review of current changes before finalizing."@
}

pub const FALLBACK_REVIEW_INSTRUCTIONS: &'static str = "Automatic self-review of the just-completed work slice.\n\nDo a focused review as if the user asked: review your last actions since the previous explicit or automatic review and improve if needed.\n\nGround the review in repository state, not full conversation history:\n- Start with `git status --short`.\n- If there are uncommitted changes, inspect `git diff --stat` and then targeted `git diff -- <path>` for relevant files.\n- If the tree is clean or the notes indicate committed work, inspect the relevant commit with `git show --stat --oneline HEAD` and targeted `git show HEAD -- <path>`.\n- Use the compact work notes below only as orientation; they are intentionally concise so this still works after compaction.\n- Check correctness, regressions, user constraints, missing tests, and whether verification is sufficient.\n- For feature, tool/runtime, memory, agent, DAB, cache, prompt/context-reducer, or expensive-verification work, check whether a focused demo, canary, fixture, or lab script would have made the highest-value path cheaper, more observable, or easier to verify; skip this for trivial edits, exact narrow fixes, or when a direct targeted test is cheaper.\n- If the review finds a concrete repo-controlled caveat, apply one coherent repair pass and rerun the most relevant targeted verification before finalizing.\n- Return prioritized review findings. If there are no findings, say that in the review output.\n\nCompact work notes:\n";

/// The anchored prompt when there is an anchor, else the generic review
/// instructions, with the compact work notes either way.
pub open spec fn spec_review_instructions(t: TrackerView, work: WorkEvidence) -> Seq<char> {
    match t.git_anchor {
        Some(a) => spec_anchor_prompt(a, work, spec_compact_work_notes(t)),
        None => FALLBACK_REVIEW_INSTRUCTIONS@ + spec_compact_work_notes(t) + "\n"@,
    }
}

impl Default for SelfReviewTracker {
    fn default() -> (r: SelfReviewTracker)
        ensures
            r@ == fresh_tracker(),
    {
        let r = SelfReviewTracker {
            command_count: 0,
            patch_count: 0,
            plan_update_count: 0,
            recent_commands: Vec::new(),
            changed_paths: Vec::new(),
            saw_review_this_turn: false,
            suppress_current_turn: false,
            suppress_next_turn: false,
            last_auto_review_started_at: None,
            cwd: None,
            git_anchor: None,
        };
        assert(string_seq(r.recent_commands@) =~= Seq::<Seq<char>>::empty());
        assert(string_seq(r.changed_paths@) =~= Seq::<Seq<char>>::empty());
        r
    }
}

impl SelfReviewTracker {
    /// A tracker for a working directory, with the anchor captured there.
    pub fn new(cwd: String, anchor: GitReviewAnchor) -> (r: SelfReviewTracker)
        ensures
            r@ == (TrackerView { cwd: Some(cwd@), git_anchor: Some(anchor@), ..fresh_tracker() }),
    {
        let mut tracker = SelfReviewTracker::default();
        tracker.git_anchor = Some(anchor);
        tracker.cwd = Some(cwd);
        tracker
    }

    /// The working directory, if set.
    pub fn cwd(&self) -> (r: &Option<String>)
        ensures
            crate::review_anchor::opt_chars(*r) == self@.cwd,
    {
        &self.cwd
    }

    /// The current review anchor, if any.
    pub fn review_anchor(&self) -> (r: &Option<GitReviewAnchor>)
        ensures
            anchor_opt(*r) == self@.git_anchor,
    {
        &self.git_anchor
    }

    /// Moves to a working directory. Returns whether the anchor must be
    /// refreshed there: not when the directory is the same and an anchor exists.
    pub fn set_cwd(&mut self, cwd: String) -> (refresh: bool)
        ensures
            refresh == !(old(self)@.cwd == Some(cwd@) && old(self)@.git_anchor is Some),
            final(self)@ == (if refresh {
                TrackerView { cwd: Some(cwd@), ..old(self)@ }
            } else {
                old(self)@
            }),
    {
        let same = match &self.cwd {
            Some(c) => {
                let a = chars_of(c.as_str());
                let b = chars_of(cwd.as_str());
                crate::text::chars_eq(&a, &b)
            },
            None => false,
        };
        if same && self.git_anchor.is_some() {
            return false;
        }
        self.cwd = Some(cwd);
        true
    }

    /// Sets the working directory and installs the anchor captured there;
    /// returns the previous anchor, whose baseline copies the caller removes.
    pub fn refresh_review_anchor_at_cwd(&mut self, cwd: String, anchor: GitReviewAnchor) -> (r:
        Option<GitReviewAnchor>)
        ensures
            anchor_opt(r) == old(self)@.git_anchor,
            final(self)@ == (TrackerView {
                cwd: Some(cwd@),
                git_anchor: Some(anchor@),
                ..old(self)@
            }),
    {
        self.cwd = Some(cwd);
        self.refresh_review_anchor(Some(anchor))
    }

    /// Installs the anchor captured at the current directory (none without
    /// one); returns the previous anchor, whose baseline copies the caller removes.
    pub fn refresh_review_anchor(&mut self, anchor: Option<GitReviewAnchor>) -> (r: Option<
        GitReviewAnchor,
    >)
        ensures
            anchor_opt(r) == old(self)@.git_anchor,
            final(self)@ == (TrackerView { git_anchor: anchor_opt(anchor), ..old(self)@ }),
    {
        let previous = self.git_anchor.take();
        self.git_anchor = anchor;
        previous
    }

    /// Starts a new turn: only the cooldown, the directory, the anchor and
    /// the suppression requested for this turn carry over.
    pub fn reset_turn(&mut self)
        ensures
            final(self)@ == spec_reset_turn(old(self)@),
    {
        let last_auto_review_started_at = self.last_auto_review_started_at;
        let suppress_current_turn = self.suppress_next_turn;
        let cwd = self.cwd.take();
        let git_anchor = self.git_anchor.take();
        let mut reset = SelfReviewTracker::default();
        reset.suppress_current_turn = suppress_current_turn;
        reset.last_auto_review_started_at = last_auto_review_started_at;
        reset.cwd = cwd;
        reset.git_anchor = git_anchor;
        *self = reset;
    }

    pub fn note_plan_update(&mut self)
        requires
            old(self)@.plan_update_count < usize::MAX,
        ensures
            final(self)@ == spec_note_plan_update(old(self)@),
    {
        self.plan_update_count += 1;
    }

    pub fn note_command(&mut self, command: &str)
        requires
            old(self)@.command_count < usize::MAX,
        ensures
            final(self)@ == spec_note_command(old(self)@, command@),
    {
        self.command_count += 1;
        push_recent_exec(&mut self.recent_commands, command, MAX_RECORDED_COMMANDS);
    }

    pub fn note_patch(&mut self, paths: Vec<String>)
        requires
            old(self)@.patch_count < usize::MAX,
        ensures
            final(self)@ == spec_note_patch(old(self)@, string_seq(paths@)),
    {
        self.patch_count += 1;
        let mut changed: Vec<String> = Vec::new();
        std::mem::swap(&mut changed, &mut self.changed_paths);
        let ghost start = string_seq(changed@);
        for i in 0..paths.len()
            invariant
                string_seq(changed@) == push_all_recent(start, string_seq(paths@).take(i as int)),
        {
            assert(string_seq(paths@).take(i + 1).drop_last() =~= string_seq(paths@).take(i as int));
            push_recent_exec(&mut changed, paths[i].as_str(), MAX_RECORDED_PATHS);
        }
        assert(string_seq(paths@).take(paths.len() as int) =~= string_seq(paths@));
        self.changed_paths = changed;
    }

    pub fn note_explicit_review(&mut self)
        ensures
            final(self)@ == spec_note_explicit_review(old(self)@),
    {
        self.saw_review_this_turn = true;
    }

    /// Records that an automatic review started at `now` (milliseconds).
    pub fn note_automatic_review_started(&mut self, now: u64)
        ensures
            final(self)@ == spec_note_automatic_review_started(old(self)@, now),
    {
        self.saw_review_this_turn = true;
        self.suppress_next_turn = true;
        self.last_auto_review_started_at = Some(now);
    }

    /// Whether a self-review reminder is due at `now` (milliseconds).
    pub fn should_remind(&self, now: u64) -> (r: bool)
        ensures
            r == spec_should_remind(self@, now),
    {
        let in_cooldown = match self.last_auto_review_started_at {
            Some(started) => now.saturating_sub(started) < SELF_REVIEW_COOLDOWN_MS,
            None => false,
        };
        !self.saw_review_this_turn && !self.suppress_current_turn && !in_cooldown
            && self.patch_count > 0
    }

    pub fn reminder_message(&self) -> (r: String)
        ensures
            r@ == spec_reminder_message(self@),
    {
        let mut work: Vec<char> = Vec::new();
        if self.patch_count > 0 && self.command_count > 0 {
            push_dec(&mut work, self.patch_count);
            append_str(&mut work, " file-change step(s) and ");
            push_dec(&mut work, self.command_count);
            append_str(&mut work, " command(s)");
        } else if self.patch_count > 0 {
            push_dec(&mut work, self.patch_count);
            append_str(&mut work, " file-change step(s)");
        } else {
            push_dec(&mut work, self.command_count);
            append_str(&mut work, " command(s)");
        }
        let mut r = chars_of("Self-review required: ");
        append_chars(&mut r, &work);
        append_str(
            &mut r,
            " completed without an explicit review. Starting an automatic review of current changes before finalizing.",
        );
        string_of(&r)
    }

    fn compact_work_notes(&self) -> (r: Vec<char>)
        ensures
            r@ == spec_compact_work_notes(self@),
    {
        let mut notes: Vec<Vec<char>> = Vec::new();
        let mut a = chars_of("file-change steps: ");
        push_dec(&mut a, self.patch_count);
        crate::digest::push_row(&mut notes, a);
        let mut b = chars_of("commands completed: ");
        push_dec(&mut b, self.command_count);
        crate::digest::push_row(&mut notes, b);
        let mut c = chars_of("plan updates: ");
        push_dec(&mut c, self.plan_update_count);
        crate::digest::push_row(&mut notes, c);
        if self.changed_paths.len() > 0 {
            let mut line = chars_of("changed paths: ");
            let paths = crate::review_anchor::to_chars_vec(&self.changed_paths);
            append_chars(&mut line, &join_chars(&paths, ", "));
            crate::digest::push_row(&mut notes, line);
        }
        if self.recent_commands.len() > 0 {
            let mut line = chars_of("recent commands: ");
            let cmds = crate::review_anchor::to_chars_vec(&self.recent_commands);
            append_chars(&mut line, &join_chars(&cmds, " | "));
            crate::digest::push_row(&mut notes, line);
        }
        let ghost nv = views(notes@);
        let mut lines: Vec<Vec<char>> = Vec::new();
        for i in 0..notes.len()
            invariant
                nv == views(notes@),
                views(lines@) == nv.take(i as int).map_values(|n: Seq<char>| "- "@ + n),
        {
            let mut line = chars_of("- ");
            append_chars(&mut line, &notes[i]);
            assert(nv[i as int] == notes@[i as int]@);
            crate::digest::push_row(&mut lines, line);
            assert(nv.take(i + 1).map_values(|n: Seq<char>| "- "@ + n) =~= nv.take(i as int).map_values(
                |n: Seq<char>| "- "@ + n,
            ).push("- "@ + nv[i as int]));
        }
        assert(nv.take(notes.len() as int) =~= nv);
        assert(nv =~= seq![
            "file-change steps: "@ + dec(self@.patch_count),
            "commands completed: "@ + dec(self@.command_count),
            "plan updates: "@ + dec(self@.plan_update_count),
        ] + if self@.changed_paths.len() > 0 {
            seq!["changed paths: "@ + join(self@.changed_paths, ", "@)]
        } else {
            Seq::<Seq<char>>::empty()
        } + if self@.recent_commands.len() > 0 {
            seq!["recent commands: "@ + join(self@.recent_commands, " | "@)]
        } else {
            Seq::<Seq<char>>::empty()
        });
        join_chars(&lines, "\n")
    }

    /// The review instructions: the anchored prompt, given what `git` prints
    /// now, when there is an anchor; the generic instructions otherwise.
    pub fn review_instructions(&self, work: &WorkEvidence) -> (r: String)
        ensures
            r@ == spec_review_instructions(self@, *work),
    {
        let notes = self.compact_work_notes();
        match &self.git_anchor {
            Some(anchor) => anchor.prompt(work, string_of(&notes).as_str()),
            None => {
                let mut r = chars_of(FALLBACK_REVIEW_INSTRUCTIONS);
                append_chars(&mut r, &notes);
                append_str(&mut r, "\n");
                string_of(&r)
            },
        }
    }
}

// ------------------------------------------------------------ plan checkpoints

/// The plan tool's reply, with the self-review checkpoint when asked for.
pub fn plan_tool_response(include_self_review_checkpoint: bool) -> (r: String)
    ensures
        r@ == if include_self_review_checkpoint {
            SELF_REVIEW_CHECKPOINT_MESSAGE@
        } else {
            PLAN_UPDATED_MESSAGE@
        },
{
    if include_self_review_checkpoint {
        String::from_str(SELF_REVIEW_CHECKPOINT_MESSAGE)
    } else {
        String::from_str(PLAN_UPDATED_MESSAGE)
    }
}

pub open spec fn spec_is_plan_review_candidate(
    plan_len: nat,
    explanation: Option<Seq<char>>,
    has_completed_step: bool,
) -> bool {
    let has_substance = plan_len >= 2 || match explanation {
        Some(e) => trim(e).len() > 0,
        None => false,
    };
    has_substance && !has_completed_step
}

/// A plan deserves a review when it has two or more steps or a non-blank
/// explanation, and no step is completed yet.
pub fn is_plan_review_candidate(
    plan_len: usize,
    explanation: Option<&str>,
    has_completed_step: bool,
) -> (r: bool)
    ensures
        r == spec_is_plan_review_candidate(
            plan_len as nat,
            match explanation {
                Some(e) => Some(e@),
                None => None,
            },
            has_completed_step,
        ),
{
    let has_substance = plan_len >= 2 || match explanation {
        Some(e) => trim_chars(&chars_of(e)).len() > 0,
        None => false,
    };
    has_substance && !has_completed_step
}

pub const PLAN_SELF_REVIEW_PROMPT: &'static str = "Self-review the plan below before implementation.\n\nRead through the plan against the current conversation and repository context. Start by comparing the plan to the user's prompt: identify the requested outcome, required constraints, and important details, then verify the plan actually covers them without drifting into adjacent work. Use targeted file reads or searches only if the context is insufficient. Improve task order, missing verification, assumptions that materially affect value/correctness/integration, stale context, user constraints, and whether feature/tool/runtime/context work should start with a focused demo, canary, fixture, or lab script. Do not downgrade a valuable architectural fix to a safest-looking patch when ownership evidence supports the larger coherent slice. Keep the result practical and implementation-ready.\n\nReturn the revised plan as the next proposed plan. If the plan is already strong, keep it and add only the minimal clarifications needed.\n\nCurrent plan:\n";

/// The prompt that asks for a review of the plan, the plan appended.
pub fn plan_self_review_prompt(plan_markdown: &str) -> (r: String)
    ensures
        r@ == PLAN_SELF_REVIEW_PROMPT@ + plan_markdown@,
{
    let mut r = String::from_str(PLAN_SELF_REVIEW_PROMPT);
    r.append(plan_markdown);
    r
}

pub const PLAN_COMPLETION_PROMPT: &'static str = "The current plan appears complete.\n\nReview the completed work against the user's request and repository state. Decide whether the work is genuinely done or whether a follow-up planning iteration is needed. Follow-up may happen only after the current plan is complete; this is that completion checkpoint.\n\nIf a self-review just ran, first account for its findings and any actions already taken or still needed. Do not open unrelated follow-up scope until review findings are resolved or represented in the next plan.\n\nIf another iteration is needed, return the next proposed plan. That next plan should go through the normal cycle: first proposed plan, plan self-review, revised plan if needed, then coherent worker/subagent execution and supervision. If no follow-up is needed, say that directly and summarize the final readiness/verification state.";

pub open spec fn spec_plan_completion_followup_prompt(completed: Option<Seq<char>>) -> Seq<char> {
    PLAN_COMPLETION_PROMPT@ + match completed {
        Some(p) => if trim(p).len() > 0 {
            "\nCompleted plan:\n"@ + trim(p)
        } else {
            Seq::<char>::empty()
        },
        None => Seq::<char>::empty(),
    }
}

/// The completion checkpoint prompt, with the completed plan when it is not blank.
pub fn plan_completion_followup_prompt(completed_plan_markdown: Option<&str>) -> (r: String)
    ensures
        r@ == spec_plan_completion_followup_prompt(
            match completed_plan_markdown {
                Some(p) => Some(p@),
                None => None,
            },
        ),
{
    let mut r = chars_of(PLAN_COMPLETION_PROMPT);
    match completed_plan_markdown {
        Some(p) => {
            let t = trim_chars(&chars_of(p));
            if t.len() > 0 {
                append_str(&mut r, "\nCompleted plan:\n");
                append_chars(&mut r, &t);
            }
        },
        None => {},
    }
    string_of(&r)
}

// ------------------------------------------------------------ laws

/// A reminder is only ever due after a file change in the turn.
pub proof fn law_reminder_needs_a_patch(t: TrackerView, now: u64)
    requires
        spec_should_remind(t, now),
    ensures
        t.patch_count > 0,
{
}

/// An explicit review suppresses the reminder for the rest of the turn,
/// whatever is recorded afterwards.
pub proof fn law_explicit_review_suppresses_reminder(t: TrackerView, now: u64, command: Seq<char>, paths: Seq<Seq<char>>)
    ensures
        !spec_should_remind(spec_note_explicit_review(t), now),
        !spec_should_remind(spec_note_patch(spec_note_explicit_review(t), paths), now),
        !spec_should_remind(spec_note_command(spec_note_explicit_review(t), command), now),
{
}

/// The turn that runs an automatic review never asks for another one.
pub proof fn law_automatic_review_turn_is_not_reminded(t: TrackerView, started: u64, now: u64, paths: Seq<Seq<char>>)
    ensures
        !spec_should_remind(
            spec_note_patch(spec_reset_turn(spec_note_automatic_review_started(t, started)), paths),
            now,
        ),
{
}

/// After an automatic review no reminder is due within the cooldown, in any
/// later turn; once the cooldown has passed, a file change makes one due again.
pub proof fn law_cooldown_after_automatic_review(t: TrackerView, started: u64, now: u64, paths: Seq<Seq<char>>)
    ensures
        ({
            let later = spec_note_patch(
                spec_reset_turn(spec_reset_turn(spec_note_automatic_review_started(t, started))),
                paths,
            );
            &&& (started <= now < started + SELF_REVIEW_COOLDOWN_MS ==> !spec_should_remind(later, now))
            &&& (now >= started + SELF_REVIEW_COOLDOWN_MS ==> spec_should_remind(later, now))
        }),
{
}

/// Recording notes keeps the recent lists within their caps, without
/// repeats and without empty entries.
pub proof fn law_recorded_notes_stay_bounded(t: TrackerView, command: Seq<char>, paths: Seq<Seq<char>>)
    requires
        tracker_ok(t),
    ensures
        tracker_ok(spec_note_command(t, command)),
        tracker_ok(spec_note_patch(t, paths)),
        tracker_ok(spec_reset_turn(t)),
    decreases paths.len(),
{
    lemma_push_recent_ok(t.recent_commands, command, 6);
    lemma_push_all_recent_ok(t.changed_paths, paths);
}

proof fn lemma_push_all_recent_ok(items: Seq<Seq<char>>, paths: Seq<Seq<char>>)
    requires
        recent_list_ok(items, 12),
    ensures
        recent_list_ok(push_all_recent(items, paths), 12),
    decreases paths.len(),
{
    if paths.len() > 0 {
        lemma_push_all_recent_ok(items, paths.drop_last());
        lemma_push_recent_ok(push_all_recent(items, paths.drop_last()), paths.last(), 12);
    }
}

/// A plan with a completed step is never sent for review.
pub proof fn law_completed_plans_skip_review(plan_len: nat, explanation: Option<Seq<char>>)
    ensures
        !spec_is_plan_review_candidate(plan_len, explanation, true),
{
}

} // verus!
