use logging_init::target::{select_target, LogTarget};

#[test]
fn target_follows_terminal_state() {
    assert_eq!(select_target(true), LogTarget::InteractiveTerminal);
    assert_eq!(select_target(false), LogTarget::JournalTransport);
    assert_eq!(select_target(true), select_target(true));
    assert_eq!(select_target(false), select_target(false));
}
