use mdex_native::adapter::{parse_custom_attributes, FenceState};

#[test]
fn parses_shell_quoted_metadata() {
    let attributes =
        parse_custom_attributes("theme=github_light highlight_lines=\"1, 3-5\" include_highlights").unwrap();
    assert_eq!(attributes.get("theme").map(String::as_str), Some("github_light"));
    assert_eq!(attributes.get("highlight_lines").map(String::as_str), Some("1, 3-5"));
    assert_eq!(attributes.get("include_highlights").map(String::as_str), Some("true"));
    assert!(!attributes.contains_key("pre_class"));
}

#[test]
fn splits_at_the_first_equals_sign_and_trims_the_key() {
    let attributes = parse_custom_attributes("' key '=a=b key=late").unwrap();
    assert_eq!(attributes.get("key").map(String::as_str), Some("late"));
    let attributes = parse_custom_attributes("'k '=a=b").unwrap();
    assert_eq!(attributes.get("k").map(String::as_str), Some("a=b"));
}

#[test]
fn malformed_quoting_yields_nothing() {
    assert!(parse_custom_attributes("theme=\"unclosed").is_none());
}

#[test]
fn a_pre_tag_starts_a_new_fence() {
    let mut state = FenceState::new();
    state.pre_tag(Some("pre_class=one"), Some("rust"), None);
    assert_eq!(state.language(None).as_deref(), Some("rust"));
    assert_eq!(state.attributes().get("pre_class").map(String::as_str), Some("one"));

    state.pre_tag(None, None, Some("language-elixir"));
    assert_eq!(state.language(Some("given")).as_deref(), Some("elixir"));
    assert!(!state.attributes().contains_key("pre_class"));

    state.pre_tag(None, None, Some("plain"));
    assert_eq!(state.language(Some("given")).as_deref(), Some("given"));
    assert_eq!(state.language(None), None);
}

#[test]
fn a_code_tag_adds_to_the_pre_tag() {
    let mut state = FenceState::new();
    state.pre_tag(Some("theme=dracula"), None, None);
    state.code_tag(None, None, Some("language-python"));
    assert_eq!(state.language(None).as_deref(), Some("python"));
    assert_eq!(state.attributes().get("theme").map(String::as_str), Some("dracula"));

    // Metadata that does not parse leaves the attributes as they were.
    state.code_tag(Some("'broken"), Some("go"), None);
    assert_eq!(state.attributes().get("theme").map(String::as_str), Some("dracula"));
    assert_eq!(state.language(None).as_deref(), Some("go"));
}
