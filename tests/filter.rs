use logging_init::filter::{
    choose_filter, default_directives, directives_parse_safe, resolve_filter, DEVELOPMENT_FILTER,
    RELEASE_FILTER,
};

#[test]
fn default_directives_follow_profile() {
    assert_eq!(default_directives(true), "debug");
    assert_eq!(default_directives(false), "info");
    assert_eq!(DEVELOPMENT_FILTER, "debug");
    assert_eq!(RELEASE_FILTER, "info");
}

#[test]
fn absent_override_uses_development_default() {
    assert_eq!(resolve_filter(None, true).as_str(), "debug");
}

#[test]
fn absent_override_uses_release_default() {
    assert_eq!(resolve_filter(None, false).as_str(), "info");
}

#[test]
fn valid_override_is_used_verbatim() {
    assert_eq!(resolve_filter(Some("warn".to_string()), false).as_str(), "warn");
    assert_eq!(resolve_filter(Some("warn".to_string()), true).as_str(), "warn");
    let dirs = "my_crate=trace,hyper=warn";
    assert_eq!(resolve_filter(Some(dirs.to_string()), false).as_str(), dirs);
}

#[test]
fn empty_override_is_accepted() {
    assert_eq!(resolve_filter(Some(String::new()), true).as_str(), "");
}

#[test]
fn malformed_override_falls_back() {
    assert_eq!(resolve_filter(Some("my_crate=verbose".to_string()), true).as_str(), "debug");
    assert_eq!(resolve_filter(Some("!!!".to_string()), false).as_str(), "info");
}

#[test]
fn choose_filter_follows_acceptance() {
    assert_eq!(choose_filter(Some("warn".to_string()), true, true).as_str(), "warn");
    assert_eq!(choose_filter(Some("warn".to_string()), false, true).as_str(), "debug");
    assert_eq!(choose_filter(Some("warn".to_string()), false, false).as_str(), "info");
    assert_eq!(choose_filter(None, true, false).as_str(), "info");
}

#[test]
fn override_that_would_break_the_parser_falls_back() {
    assert_eq!(resolve_filter(Some(" \u{e9}\u{e9}=info".to_string()), true).as_str(), "debug");
    assert_eq!(resolve_filter(Some("a, \u{e9}\u{e9}=info".to_string()), false).as_str(), "info");
    assert!(!directives_parse_safe(" \u{e9}\u{e9}=info"));
    assert!(directives_parse_safe(" warn"));
}

#[test]
fn override_with_surrounding_space_is_used() {
    assert_eq!(resolve_filter(Some(" warn ".to_string()), true).as_str(), " warn ");
}

#[test]
fn non_ascii_override_not_trimmed_is_used() {
    assert!(directives_parse_safe("caf\u{e9}=info"));
    assert_eq!(resolve_filter(Some("caf\u{e9}=info".to_string()), true).as_str(), "caf\u{e9}=info");
    assert!(directives_parse_safe("warn, x=debug"));
    assert!(!directives_parse_safe("warn,\u{a0}x=debug"));
}
