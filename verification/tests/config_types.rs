use codex_logic::config_types::MultiAgentMode;
use codex_logic::config_types::ProfileV2Name;

#[test]
fn profile_v2_name_rejects_paths_and_empty_names() {
    let err = ProfileV2Name::from_str("../foo").unwrap_err();
    assert_eq!(
        err.value(),
        "../foo",
        "dots and slashes are disallowed to prevent reading arbitrary files"
    );
    let err = ProfileV2Name::from_str("").unwrap_err();
    assert_eq!(err.value(), "", "profile name cannot be empty");
}

#[test]
fn profile_names_accept_plain_words() {
    let name = ProfileV2Name::from_str("work_2-b").unwrap();
    assert_eq!(name.as_str(), "work_2-b");
    assert_eq!(name.fmt(), "work_2-b");
    assert!(ProfileV2Name::from_str("wörk").is_err());
    assert_eq!(
        ProfileV2Name::from_str("a b").unwrap_err().message(),
        "invalid --profile value `a b`; pass a plain name such as `work`"
    );
}

#[test]
fn multi_agent_mode_defaults_to_explicit_requests() {
    assert_eq!(MultiAgentMode::default(), MultiAgentMode::ExplicitRequestOnly);
    assert_eq!(MultiAgentMode::Proactive.fmt(), "proactive");
}

#[test]
fn profile_names_with_path_characters_are_refused() {
    for value in ["a/b", "a.b", "a\\b", "..", "/etc"] {
        assert_eq!(ProfileV2Name::from_str(value).unwrap_err().value(), value);
    }
}
