use codex_logic::reasoning::check_exec_policy_case;
use codex_logic::reasoning::completion_possible;
use codex_logic::reasoning::parse_prolog_outcome;
use codex_logic::reasoning::render_prolog_program;
use codex_logic::reasoning::Decision;
use codex_logic::reasoning::ExecPolicyCase;
use codex_logic::reasoning::ExecPolicyOutcome;
use codex_logic::reasoning::HostExecutableFact;
use codex_logic::reasoning::PathAliasFact;
use codex_logic::reasoning::PrefixRuleFact;
use codex_logic::reasoning::ReasonerAvailability;
use codex_logic::reasoning::ReasoningError;
use codex_logic::reasoning::PROLOG_RULES;

fn case() -> ExecPolicyCase {
    ExecPolicyCase::new(
        "git-case".to_string(),
        vec![PrefixRuleFact::new(
            "git_push".to_string(),
            vec!["git".to_string(), "push".to_string()],
            Decision::Prompt,
        )],
        vec![vec!["git".to_string(), "push".to_string()]],
        Decision::Allow,
        Decision::Prompt,
    )
}

#[test]
fn prolog_program_lists_facts_after_the_rules() {
    let program = render_prolog_program(
        &case()
            .with_path_aliases(vec![PathAliasFact::new("/usr/bin/git".to_string(), "git".to_string())])
            .with_host_executables(vec![HostExecutableFact::new(
                "git".to_string(),
                vec!["/usr/bin/git".to_string()],
            )]),
    );
    let facts = program.strip_prefix(PROLOG_RULES).expect("rules first");
    assert_eq!(
        facts,
        "command(0, ['git', 'push']).\nprefix_rule('git_push', ['git', 'push'], prompt).\npath_alias('/usr/bin/git', 'git').\nhost_executable('git', ['/usr/bin/git']).\nfallback_decision(allow).\n"
    );
}

#[test]
fn prolog_atoms_escape_quotes_and_backslashes() {
    let program = render_prolog_program(&ExecPolicyCase::new(
        "q".to_string(),
        vec![],
        vec![vec!["it's".to_string(), "a\\b".to_string()]],
        Decision::Forbidden,
        Decision::Forbidden,
    ));
    assert!(program.ends_with("command(0, ['it\\'s', 'a\\\\b']).\nfallback_decision(forbidden).\n"));
}

#[test]
fn prolog_outcome_reads_the_last_decision_and_count() {
    assert_eq!(
        parse_prolog_outcome("decision(allow).\n  match_count(2).\ndecision(forbidden).\n").unwrap(),
        ExecPolicyOutcome {
            decision: Decision::Forbidden,
            policy_match_count: 2
        }
    );
}

#[test]
fn prolog_outcome_errors_carry_the_whole_output() {
    match parse_prolog_outcome("decision(maybe).\nmatch_count(1).\n") {
        Err(ReasoningError::Parse { engine, output }) => {
            assert_eq!(engine, "swipl");
            assert_eq!(output, "decision(maybe).\nmatch_count(1).\n");
        }
        other => panic!("unexpected {other:?}"),
    }
    assert!(parse_prolog_outcome("decision(allow).\n").is_err());
    assert!(parse_prolog_outcome("decision(allow).\nmatch_count(-1).\n").is_err());
}

#[test]
fn cases_need_commands_and_nonempty_rules() {
    assert!(check_exec_policy_case(&case()).is_ok());
    let mut empty = case();
    empty.commands.clear();
    match check_exec_policy_case(&empty) {
        Err(ReasoningError::InvalidCase(m)) => assert_eq!(m, "git-case has no commands"),
        other => panic!("unexpected {other:?}"),
    }
    let mut bad_rule = case();
    bad_rule.rules[0].pattern.clear();
    let err = check_exec_policy_case(&bad_rule).unwrap_err();
    assert_eq!(err.message(), "invalid reasoning case: git-case has an empty prefix rule");
}

#[test]
fn suggestions_complete_only_after_failed_search_on_supported_clients() {
    assert!(completion_possible(true, true, false, false));
    assert!(!completion_possible(false, true, false, false));
    assert!(!completion_possible(true, true, true, false));
    assert!(!completion_possible(true, true, false, true));
}

#[test]
fn availability_renders_its_reason() {
    assert_eq!(ReasonerAvailability::Available.fmt(), "available");
    assert_eq!(
        ReasonerAvailability::Unavailable("no swipl".to_string()).fmt(),
        "unavailable: no swipl"
    );
}
