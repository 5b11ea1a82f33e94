use logging_init::error::{Error, ErrorKind};
use logging_init::setup::{
    init, init_native, init_sandboxed, install_handler, install_native, terminal_format, DeploymentTarget,
    Installed, ProcessState,
};
use logging_init::target::LogTarget;

#[test]
fn terminal_format_is_fixed() {
    let f = terminal_format();
    assert!(f.close_spans && f.ansi && f.line_numbers && f.thread_ids);
}

#[test]
fn io_error_is_transport_unavailable() {
    let e = Error::IO(std::io::Error::new(std::io::ErrorKind::NotFound, "no journal"));
    assert_eq!(e.kind(), ErrorKind::TransportUnavailable);
}

#[test]
fn development_terminal_scenario() {
    let mut state = ProcessState::new();
    match install_native(None, true, true, &mut state) {
        Ok(Installed::Native { filter, target }) => {
            assert_eq!(filter.as_str(), "debug");
            assert_eq!(target, LogTarget::InteractiveTerminal);
        }
        _ => panic!("a first set-up on a terminal must succeed"),
    }
}

#[test]
fn release_journal_scenario() {
    let mut state = ProcessState::new();
    match install_native(Some("warn".to_string()), false, false, &mut state) {
        Ok(Installed::Native { filter, target }) => {
            assert_eq!(filter.as_str(), "warn");
            assert_eq!(target, LogTarget::JournalTransport);
        }
        Ok(Installed::Sandboxed) => panic!("a native set-up installs a native handler"),
        Err(e) => assert!(matches!(e, Error::IO(_))),
    }
}

#[test]
fn release_unreachable_journal_scenario() {
    let mut state = ProcessState::new();
    match install_native(None, false, false, &mut state) {
        Ok(Installed::Native { filter, target }) => {
            assert_eq!(filter.as_str(), "info");
            assert_eq!(target, LogTarget::JournalTransport);
        }
        Ok(Installed::Sandboxed) => panic!("a native set-up installs a native handler"),
        Err(e) => {
            assert!(matches!(e, Error::IO(_)));
            assert_eq!(e.kind(), ErrorKind::TransportUnavailable);
            // The bridge stays set, so a retry fails on it.
            let again = install_native(None, false, true, &mut state);
            assert!(matches!(again, Err(Error::TracingLog(_))));
        }
    }
}

#[test]
fn second_native_init_is_refused() {
    let mut state = ProcessState::new();
    assert!(install_native(None, true, true, &mut state).is_ok());
    let second = install_native(Some("warn".to_string()), false, true, &mut state);
    match second {
        Err(e) => {
            assert!(matches!(e, Error::TracingLog(_)));
            assert_eq!(e.kind(), ErrorKind::AlreadyInitialized);
        }
        Ok(_) => panic!("a second native set-up must fail"),
    }
}

#[test]
fn handler_set_elsewhere_is_refused() {
    assert!(tracing::subscriber::set_global_default(tracing_subscriber::registry()).is_ok());
    let mut state = ProcessState::new();
    let r = install_native(None, true, true, &mut state);
    match r {
        Err(e) => {
            assert!(matches!(e, Error::TracingGlobal(_)));
            assert_eq!(e.kind(), ErrorKind::AlreadyInitialized);
        }
        Ok(_) => panic!("a handler was already set"),
    }
}

#[test]
fn repeated_native_init_fails() {
    let mut state = ProcessState::new();
    let first = init_native(Some("warn".to_string()), false, &mut state);
    if let Ok(Installed::Native { filter, .. }) = &first {
        assert_eq!(filter.as_str(), "warn");
    }
    let second = init_native(None, false, &mut state);
    assert!(matches!(second, Err(Error::TracingLog(_))));
}

#[test]
fn sandboxed_init_installs_once() {
    let mut state = ProcessState::new();
    assert!(!state.sandbox_installed());
    let mut installs = 0;
    for _ in 0..5 {
        if init_sandboxed(&mut state) {
            installs += 1;
        }
    }
    assert_eq!(installs, 1);
    assert!(state.sandbox_installed());
}

#[test]
fn sandboxed_init_never_fails() {
    let mut state = ProcessState::new();
    for _ in 0..3 {
        let r = init(DeploymentTarget::Sandboxed, true, None, &mut state);
        assert!(matches!(r, Ok(Installed::Sandboxed)));
    }
    assert!(state.sandbox_installed());
}

#[test]
fn native_init_leaves_sandbox_alone() {
    let mut state = ProcessState::new();
    let _ = init(DeploymentTarget::NativeSupervised, true, None, &mut state);
    assert!(!state.sandbox_installed());
    let again = init(DeploymentTarget::NativeSupervised, true, None, &mut state);
    assert!(matches!(again, Err(Error::TracingLog(_))));
    assert!(!state.sandbox_installed());
}

#[test]
fn handler_on_terminal_uses_override() {
    let mut state = ProcessState::new();
    match install_handler(Some("trace".to_string()), false, true, &mut state) {
        Ok(Installed::Native { filter, target }) => {
            assert_eq!(filter.as_str(), "trace");
            assert_eq!(target, LogTarget::InteractiveTerminal);
        }
        _ => panic!("a first handler on a terminal must install"),
    }
    let again = install_handler(None, true, true, &mut state);
    assert!(matches!(again, Err(Error::TracingGlobal(_))));
}
