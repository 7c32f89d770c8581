use codex_logic::test_binary::TestBinaryDispatchClassifier;
use codex_logic::test_binary::TestBinaryDispatchMode;
use codex_logic::test_binary::TestBinaryDispatchSpec;
use codex_logic::test_binary::TestBinaryInvocation;

const ARG1: &[&str] = &["--codex-run-as-apply-patch"];
const EXE: &[&str] = &["apply_patch", "codex-linux-sandbox"];

#[test]
fn dispatch_follows_first_argument_or_executable_name() {
    let spec = TestBinaryDispatchSpec::new(ARG1, EXE);
    let by_arg = TestBinaryInvocation::new("tests-1234".to_string())
        .with_argv1("--codex-run-as-apply-patch".to_string());
    let by_name = TestBinaryInvocation::new("apply_patch".to_string());
    let plain = TestBinaryInvocation::new("tests-1234".to_string()).with_argv1("--nocapture".to_string());
    assert!(spec.dispatches_arg0(&by_arg));
    assert!(spec.dispatches_arg0(&by_name));
    assert!(!spec.dispatches_arg0(&plain));
    assert_eq!(spec.classify(&by_name), TestBinaryDispatchMode::DispatchArg0Only);
    assert_eq!(spec.classify(&plain), TestBinaryDispatchMode::InstallAliases);
}

#[test]
fn invocations_keep_the_file_name_of_argv0() {
    let inv = TestBinaryInvocation::from_args("/tmp/deps/codex-linux-sandbox", Some("x".to_string()));
    assert_eq!(inv.exe_name(), "codex-linux-sandbox");
    assert_eq!(inv.argv1(), Some("x"));
    let none = TestBinaryInvocation::from_args("", None);
    assert_eq!(none.exe_name(), "");
    assert_eq!(none.argv1(), None);
}
