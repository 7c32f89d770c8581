use codex_logic::protocol_events::CodexErrorInfo;
use codex_logic::protocol_events::ErrorEvent;
use codex_logic::protocol_events::NonSteerableTurnKind;
use codex_logic::session_source::Product;
use codex_logic::session_source::SessionSource;

#[test]
fn protocol_session_source_matches_product_restriction() {
    assert!(SessionSource::Custom("chatgpt".to_string()).matches_product_restriction(&[Product::Chatgpt]));
    assert!(!SessionSource::Custom("chatgpt".to_string()).matches_product_restriction(&[Product::Codex]));
    assert!(SessionSource::VSCode.matches_product_restriction(&[Product::Codex]));
    assert!(!SessionSource::Custom("atlas-dev".to_string()).matches_product_restriction(&[Product::Atlas]));
    assert!(SessionSource::Custom("atlas-dev".to_string()).matches_product_restriction(&[]));
}

#[test]
fn session_source_session_source_matches_product_restriction() {
    assert!(SessionSource::Custom("chatgpt".to_string()).matches_product_restriction(&[Product::Chatgpt]));
    assert!(!SessionSource::Custom("chatgpt".to_string()).matches_product_restriction(&[Product::Codex]));
    assert!(SessionSource::VSCode.matches_product_restriction(&[Product::Codex]));
    assert!(!SessionSource::Custom("atlas-dev".to_string()).matches_product_restriction(&[Product::Atlas]));
    assert!(SessionSource::Custom("atlas-dev".to_string()).matches_product_restriction(&[]));
}

#[test]
fn rollback_failed_error_does_not_affect_turn_status() {
    let event = ErrorEvent {
        message: "rollback failed".into(),
        codex_error_info: Some(CodexErrorInfo::ThreadRollbackFailed),
    };
    assert!(!event.affects_turn_status());
}

#[test]
fn active_turn_not_steerable_error_does_not_affect_turn_status() {
    let event = ErrorEvent {
        message: "cannot steer a review turn".into(),
        codex_error_info: Some(CodexErrorInfo::ActiveTurnNotSteerable {
            turn_kind: NonSteerableTurnKind::Review,
        }),
    };
    assert!(!event.affects_turn_status());
}

#[test]
fn generic_error_affects_turn_status() {
    let event = ErrorEvent {
        message: "generic".into(),
        codex_error_info: Some(CodexErrorInfo::Other),
    };
    assert!(event.affects_turn_status());
}

#[test]
fn error_without_info_affects_turn_status() {
    let event = ErrorEvent {
        message: "plain".into(),
        codex_error_info: None,
    };
    assert!(event.affects_turn_status());
}
