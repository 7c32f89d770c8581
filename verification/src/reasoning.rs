//! The deterministic side of the logic-engine comparison: the cases and
//! outcomes, the Prolog program written for a case and the reading of what
//! the engine prints.
use vstd::prelude::*;

use crate::digest::push_row;
use crate::text::append_chars;
use crate::text::append_str;
use crate::text::chars_of;
use crate::text::dec;
use crate::text::ends_with;
use crate::text::join;
use crate::text::join_chars;
use crate::text::lines;
use crate::text::lines_of;
use crate::text::parse_usize;
use crate::text::parse_usize_exec;
use crate::text::push_dec;
use crate::text::starts_with;
use crate::text::string_of;
use crate::text::trim;
use crate::text::trim_chars;
use crate::text::views;

verus! {

/// An exec-policy decision, from the most to the least permissive.
#[derive(Clone, Copy, PartialEq, Eq, Structural, Debug)]
pub enum Decision {
    Allow,
    Prompt,
    Forbidden,
}

/// Errors of the optional logic engines.
#[derive(Clone, Debug, PartialEq, Eq)]
pub enum ReasoningError {
    Unavailable { engine: String, reason: String },
    WriteProgram { engine: String, source: String },
    Run { engine: String, source: String },
    Failed { engine: String, status: String, stderr: String },
    Parse { engine: String, output: String },
    InvalidCase(String),
}

pub open spec fn reasoning_error_message(e: ReasoningError) -> Seq<char> {
    match e {
        ReasoningError::Unavailable { engine, reason } => "logic engine `"@ + engine@ + "` is unavailable: "@
            + reason@,
        ReasoningError::WriteProgram { engine, source } => "failed to write logic program for `"@ + engine@
            + "`: "@ + source@,
        ReasoningError::Run { engine, source } => "failed to run logic engine `"@ + engine@ + "`: "@ + source@,
        ReasoningError::Failed { engine, status, stderr } => "logic engine `"@ + engine@ + "` exited with status "@
            + status@ + ": "@ + stderr@,
        ReasoningError::Parse { engine, output } => "could not parse `"@ + engine@ + "` output: "@ + output@,
        ReasoningError::InvalidCase(m) => "invalid reasoning case: "@ + m@,
    }
}

impl ReasoningError {
    /// The error's message.
    pub fn message(&self) -> (r: String)
        ensures
            r@ == reasoning_error_message(*self),
    {
        let mut v: Vec<char>;
        match self {
            ReasoningError::Unavailable { engine, reason } => {
                v = chars_of("logic engine `");
                append_str(&mut v, engine.as_str());
                append_str(&mut v, "` is unavailable: ");
                append_str(&mut v, reason.as_str());
            },
            ReasoningError::WriteProgram { engine, source } => {
                v = chars_of("failed to write logic program for `");
                append_str(&mut v, engine.as_str());
                append_str(&mut v, "`: ");
                append_str(&mut v, source.as_str());
            },
            ReasoningError::Run { engine, source } => {
                v = chars_of("failed to run logic engine `");
                append_str(&mut v, engine.as_str());
                append_str(&mut v, "`: ");
                append_str(&mut v, source.as_str());
            },
            ReasoningError::Failed { engine, status, stderr } => {
                v = chars_of("logic engine `");
                append_str(&mut v, engine.as_str());
                append_str(&mut v, "` exited with status ");
                append_str(&mut v, status.as_str());
                append_str(&mut v, ": ");
                append_str(&mut v, stderr.as_str());
            },
            ReasoningError::Parse { engine, output } => {
                v = chars_of("could not parse `");
                append_str(&mut v, engine.as_str());
                append_str(&mut v, "` output: ");
                append_str(&mut v, output.as_str());
            },
            ReasoningError::InvalidCase(m) => {
                v = chars_of("invalid reasoning case: ");
                append_str(&mut v, m.as_str());
            },
        }
        string_of(&v)
    }
}

/// Whether an optional logic engine can run here.
#[derive(Clone, Debug, PartialEq, Eq)]
pub enum ReasonerAvailability {
    Available,
    Unavailable(String),
}

impl ReasonerAvailability {
    /// `available`, or `unavailable: ` and the reason.
    pub fn fmt(&self) -> (r: String)
        ensures
            r@ == match self {
                ReasonerAvailability::Available => "available"@,
                ReasonerAvailability::Unavailable(reason) => "unavailable: "@ + reason@,
            },
    {
        match self {
            ReasonerAvailability::Available => string_of(&chars_of("available")),
            ReasonerAvailability::Unavailable(reason) => {
                let mut v = chars_of("unavailable: ");
                append_str(&mut v, reason.as_str());
                string_of(&v)
            },
        }
    }
}

/// A prefix rule: the tokens a command must start with, and its decision.
#[derive(Clone, Debug, PartialEq, Eq)]
pub struct PrefixRuleFact {
    pub id: String,
    pub pattern: Vec<String>,
    pub decision: Decision,
}

impl PrefixRuleFact {
    pub fn new(id: String, pattern: Vec<String>, decision: Decision) -> (r: Self)
        ensures
            r.id == id,
            r.pattern == pattern,
            r.decision == decision,
    {
        PrefixRuleFact { id, pattern, decision }
    }
}

/// An absolute host executable path and its bare name.
#[derive(Clone, Debug, PartialEq, Eq)]
pub struct PathAliasFact {
    pub path: String,
    pub name: String,
}

impl PathAliasFact {
    pub fn new(path: String, name: String) -> (r: Self)
        ensures
            r.path == path,
            r.name == name,
    {
        PathAliasFact { path, name }
    }
}

/// The paths allowed for a host executable.
#[derive(Clone, Debug, PartialEq, Eq)]
pub struct HostExecutableFact {
    pub name: String,
    pub paths: Vec<String>,
}

impl HostExecutableFact {
    pub fn new(name: String, paths: Vec<String>) -> (r: Self)
        ensures
            r.name == name,
            r.paths == paths,
    {
        HostExecutableFact { name, paths }
    }
}

/// Kind of installable tool in the suggestion model.
#[derive(Clone, Copy, PartialEq, Eq, Structural, Debug)]
pub enum SuggestedToolType {
    Connector,
    Plugin,
}

/// A deterministic exec-policy comparison case.
#[derive(Clone, Debug, PartialEq, Eq)]
pub struct ExecPolicyCase {
    pub name: String,
    pub rules: Vec<PrefixRuleFact>,
    pub commands: Vec<Vec<String>>,
    pub fallback_decision: Decision,
    pub path_aliases: Vec<PathAliasFact>,
    pub host_executables: Vec<HostExecutableFact>,
    pub expected_decision: Decision,
}

impl ExecPolicyCase {
    /// A case without path aliases or host executables.
    pub fn new(
        name: String,
        rules: Vec<PrefixRuleFact>,
        commands: Vec<Vec<String>>,
        fallback_decision: Decision,
        expected_decision: Decision,
    ) -> (r: Self)
        ensures
            r.name == name,
            r.rules == rules,
            r.commands == commands,
            r.fallback_decision == fallback_decision,
            r.path_aliases@.len() == 0,
            r.host_executables@.len() == 0,
            r.expected_decision == expected_decision,
    {
        ExecPolicyCase {
            name,
            rules,
            commands,
            fallback_decision,
            path_aliases: Vec::new(),
            host_executables: Vec::new(),
            expected_decision,
        }
    }

    pub fn with_path_aliases(self, path_aliases: Vec<PathAliasFact>) -> (r: Self)
        ensures
            r == (ExecPolicyCase { path_aliases, ..self }),
    {
        ExecPolicyCase { path_aliases, ..self }
    }

    pub fn with_host_executables(self, host_executables: Vec<HostExecutableFact>) -> (r: Self)
        ensures
            r == (ExecPolicyCase { host_executables, ..self }),
    {
        ExecPolicyCase { host_executables, ..self }
    }
}

/// What a deterministic reasoner concludes for a case.
#[derive(Clone, Copy, PartialEq, Eq, Structural, Debug)]
pub struct ExecPolicyOutcome {
    pub decision: Decision,
    pub policy_match_count: usize,
}

/// A deterministic logic engine that decides exec-policy cases; its users
/// implement it for the engines they run.
pub trait DeterministicReasoner {
    fn availability(&self) -> ReasonerAvailability;

    fn evaluate_exec_policy(&self, case: &ExecPolicyCase) -> Result<ExecPolicyOutcome, ReasoningError>;
}

/// A tool suggestion can complete only after a failed search, on a client
/// that supports it, for a tool that is neither disabled nor already there.
pub fn completion_possible(
    search_failed: bool,
    client_supported: bool,
    disabled_by_user: bool,
    already_accessible: bool,
) -> (r: bool)
    ensures
        r == (search_failed && client_supported && !disabled_by_user && !already_accessible),
{
    search_failed && client_supported && !disabled_by_user && !already_accessible
}

/// The checks made before a case is evaluated: it needs a command, and every
/// rule a first token.
pub open spec fn spec_check_case(case: ExecPolicyCase) -> Option<Seq<char>> {
    if case.commands@.len() == 0 {
        Some(case.name@ + " has no commands"@)
    } else if exists|i: int| 0 <= i < case.rules@.len() && (#[trigger] case.rules@[i]).pattern@.len() == 0 {
        Some(case.name@ + " has an empty prefix rule"@)
    } else {
        None
    }
}

pub fn check_exec_policy_case(case: &ExecPolicyCase) -> (r: Result<(), ReasoningError>)
    ensures
        match spec_check_case(*case) {
            None => r is Ok,
            Some(m) => r matches Err(ReasoningError::InvalidCase(t)) && t@ == m,
        },
{
    if case.commands.len() == 0 {
        let mut v = chars_of(case.name.as_str());
        append_str(&mut v, " has no commands");
        return Err(ReasoningError::InvalidCase(string_of(&v)));
    }
    for i in 0..case.rules.len()
        invariant
            case.commands@.len() > 0,
            forall|j: int| 0 <= j < i ==> (#[trigger] case.rules@[j]).pattern@.len() > 0,
    {
        if case.rules[i].pattern.len() == 0 {
            let mut v = chars_of(case.name.as_str());
            append_str(&mut v, " has an empty prefix rule");
            return Err(ReasoningError::InvalidCase(string_of(&v)));
        }
    }
    Ok(())
}

// ------------------------------------------------------------ the Prolog program

pub open spec fn decision_atom(d: Decision) -> Seq<char> {
    match d {
        Decision::Allow => "allow"@,
        Decision::Prompt => "prompt"@,
        Decision::Forbidden => "forbidden"@,
    }
}

fn decision_atom_exec(d: Decision) -> (r: &'static str)
    ensures
        r@ == decision_atom(d),
{
    match d {
        Decision::Allow => "allow",
        Decision::Prompt => "prompt",
        Decision::Forbidden => "forbidden",
    }
}

/// A backslash or a quote gets a backslash before it.
pub open spec fn escape_atom(s: Seq<char>) -> Seq<char>
    decreases s.len(),
{
    if s.len() == 0 {
        s
    } else {
        let c = s.last();
        escape_atom(s.drop_last()) + if c == '\\' || c == '\'' {
            seq!['\\', c]
        } else {
            seq![c]
        }
    }
}

/// A quoted Prolog atom.
pub open spec fn prolog_atom(s: Seq<char>) -> Seq<char> {
    "'"@ + escape_atom(s) + "'"@
}

pub open spec fn strings_view(v: Seq<String>) -> Seq<Seq<char>> {
    v.map_values(|s: String| s@)
}

/// A Prolog list of quoted atoms.
pub open spec fn prolog_list(values: Seq<Seq<char>>) -> Seq<char> {
    "["@ + join(values.map_values(|v: Seq<char>| prolog_atom(v)), ", "@) + "]"@
}

fn prolog_atom_exec(s: &str) -> (r: Vec<char>)
    ensures
        r@ == prolog_atom(s@),
{
    let c = chars_of(s);
    let mut r = chars_of("'");
    let ghost start = r@;
    for i in 0..c.len()
        invariant
            start == "'"@,
            r@ == start + escape_atom(c@.take(i as int)),
    {
        assert(c@.take(i + 1).drop_last() =~= c@.take(i as int));
        let ch = c[i];
        if ch == '\\' || ch == '\'' {
            r.push('\\');
        }
        r.push(ch);
        assert(r@ =~= start + escape_atom(c@.take(i + 1)));
    }
    assert(c@.take(c.len() as int) =~= c@);
    append_str(&mut r, "'");
    r
}

fn prolog_list_exec(values: &Vec<String>) -> (r: Vec<char>)
    ensures
        r@ == prolog_list(strings_view(values@)),
{
    let ghost vv = strings_view(values@);
    let mut atoms: Vec<Vec<char>> = Vec::new();
    for i in 0..values.len()
        invariant
            vv == strings_view(values@),
            views(atoms@) == vv.take(i as int).map_values(|v: Seq<char>| prolog_atom(v)),
    {
        push_row(&mut atoms, prolog_atom_exec(values[i].as_str()));
        assert(vv.take(i + 1).map_values(|v: Seq<char>| prolog_atom(v)) =~= vv.take(i as int).map_values(
            |v: Seq<char>| prolog_atom(v),
        ).push(prolog_atom(vv[i as int])));
    }
    assert(vv.take(values.len() as int) =~= vv);
    let mut r = chars_of("[");
    append_chars(&mut r, &join_chars(&atoms, ", "));
    append_str(&mut r, "]");
    r
}

/// The rules every program starts with.
pub const PROLOG_RULES: &'static str = r#"
decision_rank(allow, 1).
decision_rank(prompt, 2).
decision_rank(forbidden, 3).

:- dynamic prefix_rule/3.
:- dynamic path_alias/2.
:- dynamic host_executable/2.

starts_with(_, []).
starts_with([H|T], [H|PT]) :- starts_with(T, PT).

exact_matched(CommandId, RuleId, Decision) :-
    command(CommandId, Command),
    prefix_rule(RuleId, Prefix, Decision),
    starts_with(Command, Prefix).

has_exact_match(CommandId) :- once(exact_matched(CommandId, _, _)).

host_canonical([Path|Rest], [Name|Rest]) :-
    path_alias(Path, Name),
    \+ host_executable(Name, _),
    !.
host_canonical([Path|Rest], [Name|Rest]) :-
    path_alias(Path, Name),
    host_executable(Name, Paths),
    member(Path, Paths),
    !.

host_matched(CommandId, RuleId, Decision) :-
    command(CommandId, Command),
    host_canonical(Command, Canonical),
    prefix_rule(RuleId, Prefix, Decision),
    starts_with(Canonical, Prefix).

matched(CommandId, RuleId, Decision) :-
    command(CommandId, _),
    has_exact_match(CommandId),
    exact_matched(CommandId, RuleId, Decision).
matched(CommandId, RuleId, Decision) :-
    command(CommandId, _),
    \+ has_exact_match(CommandId),
    host_matched(CommandId, RuleId, Decision).

command_decision(CommandId, Decision) :-
    matched(CommandId, _, Decision).
command_decision(CommandId, Decision) :-
    command(CommandId, _),
    \+ matched(CommandId, _, _),
    fallback_decision(Decision).

best_decision(Decision) :-
    findall(Rank-Decision, (command_decision(_, Decision), decision_rank(Decision, Rank)), Pairs),
    Pairs \= [],
    sort(Pairs, Sorted),
    last(Sorted, _-Decision),
    !.
best_decision(Decision) :- fallback_decision(Decision).

main :-
    best_decision(Decision),
    findall(RuleId, matched(_, RuleId, _), RuleIds),
    length(RuleIds, Count),
    format('decision(~w).~n', [Decision]),
    format('match_count(~w).~n', [Count]).
"#;

pub open spec fn command_fact(i: nat, command: Seq<String>) -> Seq<char> {
    "command("@ + dec(i) + ", "@ + prolog_list(strings_view(command)) + ").\n"@
}

pub open spec fn command_facts(commands: Seq<Vec<String>>) -> Seq<Seq<char>> {
    Seq::new(commands.len(), |i: int| command_fact(i as nat, commands[i]@))
}

pub open spec fn rule_fact(r: PrefixRuleFact) -> Seq<char> {
    "prefix_rule("@ + prolog_atom(r.id@) + ", "@ + prolog_list(strings_view(r.pattern@)) + ", "@
        + decision_atom(r.decision) + ").\n"@
}

pub open spec fn alias_fact(a: PathAliasFact) -> Seq<char> {
    "path_alias("@ + prolog_atom(a.path@) + ", "@ + prolog_atom(a.name@) + ").\n"@
}

pub open spec fn host_fact(h: HostExecutableFact) -> Seq<char> {
    "host_executable("@ + prolog_atom(h.name@) + ", "@ + prolog_list(strings_view(h.paths@)) + ").\n"@
}

/// The program for a case: the fixed rules, then one fact per command, rule,
/// path alias and host executable, then the fallback decision.
pub open spec fn spec_render_prolog_program(case: ExecPolicyCase) -> Seq<char> {
    PROLOG_RULES@ + join(command_facts(case.commands@), ""@) + join(
        case.rules@.map_values(|r: PrefixRuleFact| rule_fact(r)),
        ""@,
    ) + join(case.path_aliases@.map_values(|a: PathAliasFact| alias_fact(a)), ""@) + join(
        case.host_executables@.map_values(|h: HostExecutableFact| host_fact(h)),
        ""@,
    ) + "fallback_decision("@ + decision_atom(case.fallback_decision) + ").\n"@
}

proof fn lemma_join_empty_push(parts: Seq<Seq<char>>, x: Seq<char>)
    ensures
        join(parts.push(x), ""@) == join(parts, ""@) + x,
{
    crate::text::lemma_join_push(parts, x, ""@);
    reveal_strlit("");
    if parts.len() == 0 {
        assert(join(parts, ""@) =~= Seq::<char>::empty());
        assert(join(parts, ""@) + x =~= x);
    } else {
        assert(join(parts, ""@) + ""@ =~= join(parts, ""@));
    }
}

pub fn render_prolog_program(case: &ExecPolicyCase) -> (r: String)
    ensures
        r@ == spec_render_prolog_program(*case),
{
    let mut program = chars_of(PROLOG_RULES);
    let ghost base = program@;
    let ghost cf = command_facts(case.commands@);
    for i in 0..case.commands.len()
        invariant
            base == PROLOG_RULES@,
            cf == command_facts(case.commands@),
            program@ == base + join(cf.take(i as int), ""@),
    {
        let mut row = chars_of("command(");
        push_dec(&mut row, i);
        append_str(&mut row, ", ");
        append_chars(&mut row, &prolog_list_exec(&case.commands[i]));
        append_str(&mut row, ").\n");
        assert(row@ == cf[i as int]);
        proof {
            lemma_join_empty_push(cf.take(i as int), cf[i as int]);
            assert(cf.take(i + 1) =~= cf.take(i as int).push(cf[i as int]));
        }
        append_chars(&mut program, &row);
    }
    assert(cf.take(case.commands.len() as int) =~= cf);
    let ghost after_commands = program@;
    let ghost rf = case.rules@.map_values(|r: PrefixRuleFact| rule_fact(r));
    for i in 0..case.rules.len()
        invariant
            rf == case.rules@.map_values(|r: PrefixRuleFact| rule_fact(r)),
            program@ == after_commands + join(rf.take(i as int), ""@),
    {
        let rule = &case.rules[i];
        let mut row = chars_of("prefix_rule(");
        append_chars(&mut row, &prolog_atom_exec(rule.id.as_str()));
        append_str(&mut row, ", ");
        append_chars(&mut row, &prolog_list_exec(&rule.pattern));
        append_str(&mut row, ", ");
        append_str(&mut row, decision_atom_exec(rule.decision));
        append_str(&mut row, ").\n");
        assert(row@ == rf[i as int]);
        proof {
            lemma_join_empty_push(rf.take(i as int), rf[i as int]);
            assert(rf.take(i + 1) =~= rf.take(i as int).push(rf[i as int]));
        }
        append_chars(&mut program, &row);
    }
    assert(rf.take(case.rules.len() as int) =~= rf);
    let ghost after_rules = program@;
    let ghost af = case.path_aliases@.map_values(|a: PathAliasFact| alias_fact(a));
    for i in 0..case.path_aliases.len()
        invariant
            af == case.path_aliases@.map_values(|a: PathAliasFact| alias_fact(a)),
            program@ == after_rules + join(af.take(i as int), ""@),
    {
        let alias = &case.path_aliases[i];
        let mut row = chars_of("path_alias(");
        append_chars(&mut row, &prolog_atom_exec(alias.path.as_str()));
        append_str(&mut row, ", ");
        append_chars(&mut row, &prolog_atom_exec(alias.name.as_str()));
        append_str(&mut row, ").\n");
        assert(row@ == af[i as int]);
        proof {
            lemma_join_empty_push(af.take(i as int), af[i as int]);
            assert(af.take(i + 1) =~= af.take(i as int).push(af[i as int]));
        }
        append_chars(&mut program, &row);
    }
    assert(af.take(case.path_aliases.len() as int) =~= af);
    let ghost after_aliases = program@;
    let ghost hf = case.host_executables@.map_values(|h: HostExecutableFact| host_fact(h));
    for i in 0..case.host_executables.len()
        invariant
            hf == case.host_executables@.map_values(|h: HostExecutableFact| host_fact(h)),
            program@ == after_aliases + join(hf.take(i as int), ""@),
    {
        let host = &case.host_executables[i];
        let mut row = chars_of("host_executable(");
        append_chars(&mut row, &prolog_atom_exec(host.name.as_str()));
        append_str(&mut row, ", ");
        append_chars(&mut row, &prolog_list_exec(&host.paths));
        append_str(&mut row, ").\n");
        assert(row@ == hf[i as int]);
        proof {
            lemma_join_empty_push(hf.take(i as int), hf[i as int]);
            assert(hf.take(i + 1) =~= hf.take(i as int).push(hf[i as int]));
        }
        append_chars(&mut program, &row);
    }
    assert(hf.take(case.host_executables.len() as int) =~= hf);
    append_str(&mut program, "fallback_decision(");
    append_str(&mut program, decision_atom_exec(case.fallback_decision));
    append_str(&mut program, ").\n");
    assert(program@ =~= spec_render_prolog_program(*case));
    string_of(&program)
}

// ------------------------------------------------------------ reading the engine's output

/// The text between a prefix and a suffix that a line starts and ends with.
pub open spec fn between(line: Seq<char>, prefix: Seq<char>, suffix: Seq<char>) -> Option<Seq<char>> {
    if starts_with(line, prefix) && ends_with(line.skip(prefix.len() as int), suffix) {
        let rest = line.skip(prefix.len() as int);
        Some(rest.take(rest.len() - suffix.len()))
    } else {
        None
    }
}

pub open spec fn decision_of_atom(raw: Seq<char>) -> Option<Decision> {
    if raw == "allow"@ {
        Some(Decision::Allow)
    } else if raw == "prompt"@ {
        Some(Decision::Prompt)
    } else if raw == "forbidden"@ {
        Some(Decision::Forbidden)
    } else {
        None
    }
}

/// Reads `decision(..).` and `match_count(..).` lines, the last of each
/// counting; `None` when one of them does not parse.
pub open spec fn scan_prolog(ls: Seq<Seq<char>>, decision: Option<Decision>, count: Option<usize>) -> Option<
    (Option<Decision>, Option<usize>),
>
    decreases ls.len(),
{
    if ls.len() == 0 {
        Some((decision, count))
    } else {
        let t = trim(ls[0]);
        let rest = ls.drop_first();
        match between(t, "decision("@, ")."@) {
            Some(raw) => match decision_of_atom(raw) {
                Some(d) => scan_prolog(rest, Some(d), count),
                None => None,
            },
            None => match between(t, "match_count("@, ")."@) {
                Some(raw) => match parse_usize(raw) {
                    Some(n) => scan_prolog(rest, decision, Some(n)),
                    None => None,
                },
                None => scan_prolog(rest, decision, count),
            },
        }
    }
}

/// The outcome the engine printed, or `None` where the output does not give
/// both a decision and a match count.
pub open spec fn spec_parse_prolog_outcome(output: Seq<char>) -> Option<ExecPolicyOutcome> {
    match scan_prolog(lines(output), None, None) {
        Some((Some(d), Some(n))) => Some(ExecPolicyOutcome { decision: d, policy_match_count: n }),
        _ => None,
    }
}

fn between_exec(line: &[char], prefix: &str, suffix: &str) -> (r: Option<Vec<char>>)
    ensures
        match r {
            Some(v) => between(line@, prefix@, suffix@) == Some(v@),
            None => between(line@, prefix@, suffix@) is None,
        },
{
    if !crate::text::starts_with_str(line, prefix) {
        return None;
    }
    let p = chars_of(prefix);
    let rest = crate::text::slice_chars(line, p.len(), line.len());
    assert(rest@ =~= line@.skip(prefix@.len() as int));
    if !crate::text::ends_with_str(&rest, suffix) {
        return None;
    }
    let s = chars_of(suffix);
    let inner = crate::text::slice_chars(&rest, 0, rest.len() - s.len());
    assert(inner@ =~= rest@.take(rest@.len() - suffix@.len()));
    Some(inner)
}

fn parse_decision_atom(raw: &[char]) -> (r: Option<Decision>)
    ensures
        r == decision_of_atom(raw@),
{
    if crate::text::eq_str(raw, "allow") {
        Some(Decision::Allow)
    } else if crate::text::eq_str(raw, "prompt") {
        Some(Decision::Prompt)
    } else if crate::text::eq_str(raw, "forbidden") {
        Some(Decision::Forbidden)
    } else {
        None
    }
}

/// Reads the outcome that the Prolog program prints; a parse error, with the
/// whole output, where it does not give both values or one does not parse.
pub fn parse_prolog_outcome(output: &str) -> (r: Result<ExecPolicyOutcome, ReasoningError>)
    ensures
        match spec_parse_prolog_outcome(output@) {
            Some(o) => r == Ok::<ExecPolicyOutcome, ReasoningError>(o),
            None => r matches Err(ReasoningError::Parse { engine, output: text }) && engine@ == "swipl"@
                && text@ == output@,
        },
{
    let ls = lines_of(&chars_of(output));
    let ghost lv = views(ls@);
    assert(lv =~= lines(output@));
    let ghost target = scan_prolog(lv, None, None);
    let mut decision: Option<Decision> = None;
    let mut count: Option<usize> = None;
    let mut failed = false;
    assert(lv.skip(0) =~= lv);
    let mut i: usize = 0;
    while i < ls.len()
        invariant
            lv == views(ls@),
            lv == lines(output@),
            i <= ls.len(),
            target == scan_prolog(lv, None, None),
            !failed ==> target == scan_prolog(lv.skip(i as int), decision, count),
            failed ==> target is None,
        ensures
            !failed ==> i == ls.len(),
            !failed ==> target == scan_prolog(lv.skip(i as int), decision, count),
            failed ==> target is None,
        decreases ls.len() - i,
    {
        let ghost rest = lv.skip(i as int);
        assert(rest[0] == ls@[i as int]@);
        assert(rest.drop_first() =~= lv.skip(i + 1));
        let t = trim_chars(&ls[i]);
        match between_exec(&t, "decision(", ").") {
            Some(raw) => match parse_decision_atom(&raw) {
                Some(d) => {
                    decision = Some(d);
                },
                None => {
                    failed = true;
                    break;
                },
            },
            None => match between_exec(&t, "match_count(", ").") {
                Some(raw) => match parse_usize_exec(&raw) {
                    Some(n) => {
                        count = Some(n);
                    },
                    None => {
                        failed = true;
                        break;
                    },
                },
                None => {},
            },
        }
        i = i + 1;
    }
    if !failed {
        assert(lv.skip(i as int) =~= Seq::<Seq<char>>::empty());
    }
    match (decision, count) {
        (Some(d), Some(n)) => {
            if !failed {
                return Ok(ExecPolicyOutcome { decision: d, policy_match_count: n });
            }
        },
        _ => {},
    }
    Err(ReasoningError::Parse { engine: string_of(&chars_of("swipl")), output: string_of(&chars_of(output)) })
}

/// Every decision's atom reads back as that decision.
pub proof fn law_decision_atoms_read_back(d: Decision)
    ensures
        decision_of_atom(decision_atom(d)) == Some(d),
{
    reveal_strlit("allow");
    reveal_strlit("prompt");
    reveal_strlit("forbidden");
    assert("prompt"@[0] != "allow"@[0]);
    assert("forbidden"@[0] != "allow"@[0]);
    assert("forbidden"@[0] != "prompt"@[0]);
}

/// The command facts are numbered by position: the fact of the `i`-th command
/// carries id `i`, so distinct commands never share an id.
pub proof fn law_command_ids_are_positions(commands: Seq<Vec<String>>)
    ensures
        command_facts(commands).len() == commands.len(),
        forall|i: int|
            0 <= i < commands.len() ==> starts_with(
                #[trigger] command_facts(commands)[i],
                "command("@ + dec(i as nat) + ", "@,
            ),
{
    assert forall|i: int| 0 <= i < commands.len() implies starts_with(
        #[trigger] command_facts(commands)[i],
        "command("@ + dec(i as nat) + ", "@,
    ) by {
        let p = "command("@ + dec(i as nat) + ", "@;
        let f = command_facts(commands)[i];
        assert(f == p + prolog_list(strings_view(commands[i]@)) + ").\n"@);
        assert(f.subrange(0, p.len() as int) =~= p);
    }
}

} // verus!
