use ott_lsp::session::{checker_args, missing_file_diagnostic, Action, Config, Event, Session,
    SessionState};
use ott_lsp::diagnostic::{Position, Range};
use ott_lsp::message::Severity;

#[test]
fn fresh_session_is_uninitialized() {
    let s = Session::new();
    assert_eq!(s.state, SessionState::Uninitialized);
    assert!(s.config.ott_flags.is_empty());
}

#[test]
fn handshake_starts_the_session() {
    let mut s = Session::new();
    let a = s.step(Event::Initialized);
    assert_eq!(a, Action::NoAction);
    assert_eq!(s.state, SessionState::Running);
}

#[test]
fn symbol_request_answered_with_empty_result() {
    let mut s = Session::new();
    s.step(Event::Initialized);
    assert_eq!(s.step(Event::SymbolRequest), Action::AnswerEmptySymbols);
}

#[test]
fn config_change_replaces_flags() {
    let mut s = Session::new();
    s.step(Event::Initialized);
    let a = s.step(Event::ConfigChange(Config { ott_flags: vec!["-fast".to_string()] }));
    assert_eq!(a, Action::NoAction);
    assert_eq!(s.config.ott_flags, vec!["-fast".to_string()]);
}

#[test]
fn file_event_on_existing_file_runs_checker() {
    let mut s = Session::new();
    s.step(Event::Initialized);
    assert_eq!(s.step(Event::FileChanged { exists: true }), Action::RunChecker);
}

#[test]
fn missing_file_short_circuits_the_checker() {
    let mut s = Session::new();
    s.step(Event::Initialized);
    let mut invocations = 0;
    let a = s.step(Event::FileChanged { exists: false });
    if a == Action::RunChecker {
        invocations += 1;
    }
    assert_eq!(a, Action::ReportMissingFile);
    assert_eq!(invocations, 0);
}

#[test]
fn shutdown_is_terminal() {
    let mut s = Session::new();
    s.step(Event::Initialized);
    assert_eq!(s.step(Event::ShutdownRequest), Action::Exit);
    assert_eq!(s.state, SessionState::ShuttingDown);
    // a late file event is not acted on
    assert_eq!(s.step(Event::FileChanged { exists: true }), Action::NoAction);
}

#[test]
fn missing_file_diagnostic_names_the_path() {
    let d = missing_file_diagnostic(&b"/tmp/spec.ott".to_vec());
    assert_eq!(d.message, b"file path /tmp/spec.ott is not a file".to_vec());
    assert_eq!(d.severity, Some(Severity::Information));
    assert_eq!(
        d.range,
        Range {
            start: Position { line: 0, character: 0 },
            end: Position { line: 0, character: 0 },
        }
    );
}

#[test]
fn checker_args_fixed_flags_then_config_then_path() {
    let config = Config { ott_flags: vec!["-show_sort".to_string(), "-v".to_string()] };
    let args = checker_args(config, "spec.ott".to_string());
    assert_eq!(
        args,
        vec![
            "-signal_parse_errors".to_string(),
            "true".to_string(),
            "-colour".to_string(),
            "false".to_string(),
            "-show_sort".to_string(),
            "-v".to_string(),
            "spec.ott".to_string(),
        ]
    );
}
