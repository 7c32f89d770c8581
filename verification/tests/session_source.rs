use codex_logic::session_source::InternalSessionSource;
use codex_logic::session_source::Product;
use codex_logic::session_source::SessionSource;
use codex_logic::session_source::SubAgentSource;

#[test]
fn session_source_from_startup_arg_maps_known_values() {
    assert_eq!(SessionSource::from_startup_arg("vscode").unwrap(), SessionSource::VSCode);
    assert_eq!(SessionSource::from_startup_arg("app-server").unwrap(), SessionSource::Mcp);
}

#[test]
fn session_source_session_source_from_startup_arg_normalizes_custom_values() {
    assert_eq!(
        SessionSource::from_startup_arg("atlas").unwrap(),
        SessionSource::Custom("atlas".to_string())
    );
    assert_eq!(
        SessionSource::from_startup_arg(" Atlas ").unwrap(),
        SessionSource::Custom("atlas".to_string())
    );
}

#[test]
fn protocol_session_source_from_startup_arg_normalizes_custom_values() {
    assert_eq!(
        SessionSource::from_startup_arg("atlas").unwrap(),
        SessionSource::Custom("atlas".to_string())
    );
    assert_eq!(
        SessionSource::from_startup_arg(" Atlas ").unwrap(),
        SessionSource::Custom("atlas".to_string())
    );
}

fn non_subagent_sources_default_to_codex() {
    assert_eq!(SessionSource::Cli.restriction_product(), Some(Product::Codex));
    assert_eq!(SessionSource::VSCode.restriction_product(), Some(Product::Codex));
    assert_eq!(SessionSource::Exec.restriction_product(), Some(Product::Codex));
    assert_eq!(SessionSource::Mcp.restriction_product(), Some(Product::Codex));
    assert_eq!(SessionSource::Unknown.restriction_product(), Some(Product::Codex));
}

#[test]
fn session_source_session_source_restriction_product_defaults_non_subagent_sources_to_codex() {
    non_subagent_sources_default_to_codex();
}

#[test]
fn protocol_session_source_restriction_product_defaults_non_subagent_sources_to_codex() {
    non_subagent_sources_default_to_codex();
}

fn subagent_products_are_not_guessed() {
    assert_eq!(SessionSource::SubAgent(SubAgentSource::Review).restriction_product(), None);
    assert_eq!(
        SessionSource::Internal(InternalSessionSource::MemoryConsolidation).restriction_product(),
        None
    );
}

#[test]
fn session_source_session_source_restriction_product_does_not_guess_subagent_products() {
    subagent_products_are_not_guessed();
}

#[test]
fn protocol_session_source_restriction_product_does_not_guess_subagent_products() {
    subagent_products_are_not_guessed();
}

fn custom_sources_map_to_products() {
    assert_eq!(
        SessionSource::Custom("chatgpt".to_string()).restriction_product(),
        Some(Product::Chatgpt)
    );
    assert_eq!(
        SessionSource::Custom("ATLAS".to_string()).restriction_product(),
        Some(Product::Atlas)
    );
    assert_eq!(
        SessionSource::Custom("codex".to_string()).restriction_product(),
        Some(Product::Codex)
    );
    assert_eq!(
        SessionSource::Custom("atlas-dev".to_string()).restriction_product(),
        None
    );
}

#[test]
fn session_source_session_source_restriction_product_maps_custom_sources_to_products() {
    custom_sources_map_to_products();
}

#[test]
fn protocol_session_source_restriction_product_maps_custom_sources_to_products() {
    custom_sources_map_to_products();
}

#[test]
fn startup_arg_round_trips_through_its_name() {
    let source = SessionSource::from_startup_arg("cli").unwrap();
    assert_eq!(source, SessionSource::Cli);
    assert!(SessionSource::from_startup_arg("").is_err());
}
