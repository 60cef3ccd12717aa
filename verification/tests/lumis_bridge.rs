use mdex_native::bridge::{
    available, bridge_target, call_outcome, push_event, read_error, scope_index, BridgeError,
    BridgeScope, HighlightEvent, EVENT_SOURCE, EVENT_START, STATUS_LANGUAGE_NOT_LOADED, STATUS_OK,
    UNKNOWN_SCOPE_INDEX,
};

fn start_event(scope: Option<&[u8]>) -> HighlightEvent {
    let mut events = Vec::new();
    push_event(&mut events, EVENT_START, scope, Some(b"elixir"), 0, 0);
    events.pop().unwrap()
}

fn scope_of(scope: Option<&[u8]>) -> usize {
    match start_event(scope) {
        HighlightEvent::Start { scope_index, .. } => scope_index,
        other => panic!("expected a Start event, got {other:?}"),
    }
}

#[test]
fn a_null_name_is_unknown() {
    assert_eq!(scope_of(None), UNKNOWN_SCOPE_INDEX);
}

#[test]
fn an_empty_name_is_unknown() {
    assert_eq!(scope_of(Some(b"")), UNKNOWN_SCOPE_INDEX);
}

#[test]
fn a_name_that_is_not_utf8_is_unknown() {
    let bytes: &[u8] = b"\xff\xfe";
    assert_eq!(scope_of(Some(bytes)), UNKNOWN_SCOPE_INDEX);
}

#[test]
fn resolves_provider_scope_names_against_the_consumer_table() {
    let event = start_event(Some(b"function"));
    let function = lumis_core::highlights::HIGHLIGHT_NAMES
        .binary_search(&"function")
        .unwrap();

    assert_eq!(
        event,
        HighlightEvent::Start {
            scope_index: function,
            language: "elixir".to_string(),
        }
    );
}

#[test]
fn leaves_a_future_provider_scope_unstyled() {
    let event = start_event(Some(b"future.scope"));

    assert_eq!(
        event,
        HighlightEvent::Start {
            scope_index: UNKNOWN_SCOPE_INDEX,
            language: "elixir".to_string(),
        }
    );
    assert_eq!(scope_index(Some(b"future.scope")), UNKNOWN_SCOPE_INDEX);
}

#[test]
fn consumer_scope_names_remain_sorted_for_binary_search() {
    assert!(lumis_core::highlights::HIGHLIGHT_NAMES
        .windows(2)
        .all(|names| names[0] < names[1]));
}

#[test]
fn raw_events_become_highlight_events() {
    let mut events = Vec::new();
    push_event(&mut events, EVENT_SOURCE, None, None, 3, 7);
    push_event(&mut events, 2, None, None, 0, 0);
    push_event(&mut events, EVENT_START, Some(b"keyword"), None, 0, 0);
    push_event(&mut events, EVENT_START, None, Some(b"ru\xffst"), 0, 0);
    assert_eq!(events[0], HighlightEvent::Source { start: 3, end: 7 });
    assert_eq!(events[1], HighlightEvent::End);
    assert!(matches!(&events[2], HighlightEvent::Start { language, .. } if language.is_empty()));
    assert!(
        matches!(&events[3], HighlightEvent::Start { language, .. } if language == "ru\u{fffd}st")
    );
}

#[test]
fn a_bridge_is_available_only_while_published() {
    let mut scope = BridgeScope::idle();
    assert!(!available(&scope));
    assert_eq!(
        bridge_target(&scope),
        Err(BridgeError::Other(
            "no :lumis bridge is active for this render".to_string()
        ))
    );

    scope.new(1, 2, true);
    assert!(!available(&scope));

    scope.new(1, 2, false);
    assert!(available(&scope));
    assert_eq!(scope.active(), Some((1, 2)));
    assert_eq!(bridge_target(&scope), Ok((1, 2)));

    scope.close();
    assert!(!available(&scope));
}

#[test]
fn call_statuses_become_results() {
    let events = vec![HighlightEvent::End];
    assert_eq!(call_outcome(0, false, STATUS_OK, events.clone(), None), Ok(events.clone()));
    assert_eq!(
        call_outcome(1, false, STATUS_OK, events.clone(), None),
        Err(BridgeError::Other(
            "the :lumis NIF did not accept the MDEx bridge call".to_string()
        ))
    );
    assert_eq!(
        call_outcome(0, true, STATUS_OK, events.clone(), None),
        Err(BridgeError::Other(
            "mdex_native panicked while collecting Lumis events".to_string()
        ))
    );
    assert_eq!(
        call_outcome(0, false, STATUS_LANGUAGE_NOT_LOADED, events.clone(), Some(b"zig")),
        Err(BridgeError::LanguageNotLoaded("zig".to_string()))
    );
    assert_eq!(
        call_outcome(0, false, 7, events, None),
        Err(BridgeError::Other("Lumis gave no reason".to_string()))
    );
    assert_eq!(read_error(Some(b"bad \xff")), "bad \u{fffd}");
}
