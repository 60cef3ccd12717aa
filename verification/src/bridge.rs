//! The decisions of the bridge to the `:lumis` NIF's highlighter.
//!
//! The `:lumis` NIF exposes its executor through a resource that the caller
//! invokes with plain C types; events arrive one at a time through a
//! callback. The calls themselves cross the FFI boundary and live with the
//! NIF glue; what is decided here is whether a bridge is published for the
//! current call, how each raw event becomes a [`HighlightEvent`], and how
//! the status of a call becomes its result.

use vstd::prelude::*;

use vstd::utf8::{decode_utf8, valid_utf8};

verus! {

/// The scope index of a scope name the consumer does not know.
pub const UNKNOWN_SCOPE_INDEX: usize = usize::MAX;

/// The event kind of a scope start.
pub const EVENT_START: u8 = 0;

/// The event kind of a source span.
pub const EVENT_SOURCE: u8 = 1;

/// The status of a call that produced events.
pub const STATUS_OK: i32 = 0;

/// The status of a call whose language has no parser.
pub const STATUS_LANGUAGE_NOT_LOADED: i32 = 1;

/// Why a fence could not be highlighted, at the granularity the caller acts
/// on.
#[derive(Debug, PartialEq, Eq)]
pub enum BridgeError {
    /// Lumis has no parser for this language and could not obtain one.
    LanguageNotLoaded(String),
    Other(String),
}

/// A syntax event: a scope starts, a span of the source, or a scope ends.
#[derive(Clone, Debug, PartialEq, Eq)]
pub enum HighlightEvent {
    /// A scope begins; `scope_index` indexes the consumer's scope names.
    Start { scope_index: usize, language: String },
    /// Bytes `start..end` of the source.
    Source { start: usize, end: usize },
    /// The innermost open scope ends.
    End,
}

/// The bridge published on the current thread for the length of one NIF
/// call: the caller's env and resource handles, or nothing.
pub struct BridgeScope {
    active: Option<(usize, usize)>,
}

impl View for BridgeScope {
    type V = Option<(usize, usize)>;

    closed spec fn view(&self) -> Option<(usize, usize)> {
        self.active
    }
}

impl BridgeScope {
    /// A thread with no bridge published.
    pub fn idle() -> (s: Self)
        ensures
            s@ is None,
    {
        BridgeScope { active: None }
    }

    /// Publishes the bridge for one call. `resource_is_atom` is the caller's
    /// `nil` for "no Lumis to offer", which must not be published as if it
    /// were a resource: the call would be refused and reported as a bridge
    /// failure where the real answer is that there is no bridge.
    pub fn new(&mut self, env: usize, resource: usize, resource_is_atom: bool)
        ensures
            resource_is_atom ==> final(self)@ == old(self)@,
            !resource_is_atom ==> final(self)@ == Some((env, resource)),
    {
        if !resource_is_atom {
            self.active = Some((env, resource));
        }
    }

    /// Withdraws the bridge when the call ends.
    pub fn close(&mut self)
        ensures
            final(self)@ is None,
    {
        self.active = None;
    }

    /// The published env and resource handles.
    pub fn active(&self) -> (a: Option<(usize, usize)>)
        ensures
            a == self@,
    {
        self.active
    }
}

/// Whether a render on this thread can reach the `:lumis` highlighter.
pub fn available(scope: &BridgeScope) -> (b: bool)
    ensures
        b == scope@ is Some,
{
    scope.active.is_some()
}

/// The handles to call the highlighter through, or the error a render gets
/// when no bridge is published.
pub fn bridge_target(scope: &BridgeScope) -> (r: Result<(usize, usize), BridgeError>)
    ensures
        scope@ matches Some(h) ==> r == Ok::<(usize, usize), BridgeError>(h),
        scope@ is None ==> (r matches Err(BridgeError::Other(m)) && m@
            == "no :lumis bridge is active for this render"@),
{
    match scope.active {
        Some(handles) => Ok(handles),
        None => Err(BridgeError::Other(String::from_str("no :lumis bridge is active for this render"))),
    }
}

/// The text `String::from_utf8_lossy` gives for bytes that are not UTF-8.
pub uninterp spec fn lossy_decoded(bytes: Seq<u8>) -> Seq<char>;

/// Decodes bytes with `String::from_utf8_lossy`.
///
/// Valid UTF-8 decodes to its characters, as std documents; for other input
/// the replacement text is only named.
#[verifier::external_body]
fn from_utf8_lossy(bytes: &[u8]) -> (s: String)
    ensures
        valid_utf8(bytes@) ==> s@ == decode_utf8(bytes@),
        !valid_utf8(bytes@) ==> s@ == lossy_decoded(bytes@),
{
    String::from_utf8_lossy(bytes).into_owned()
}

/// What decoding bytes leniently gives.
pub open spec fn lossy_text(bytes: Seq<u8>) -> Seq<char> {
    if valid_utf8(bytes) {
        decode_utf8(bytes)
    } else {
        lossy_decoded(bytes)
    }
}

/// Decodes bytes as UTF-8 with `std::str::from_utf8`: `Some` exactly for
/// valid UTF-8, with its characters.
#[verifier::external_body]
pub(crate) fn str_from_utf8(bytes: &[u8]) -> (s: Option<&str>)
    ensures
        s is Some <==> valid_utf8(bytes@),
        s matches Some(t) ==> t@ == decode_utf8(bytes@),
{
    std::str::from_utf8(bytes).ok()
}

/// The position of a scope name in Lumis's sorted list of highlight names.
pub uninterp spec fn highlight_name_position(name: Seq<char>) -> Option<usize>;

/// Looks a scope name up in `lumis_core::highlights::HIGHLIGHT_NAMES` with a
/// binary search over that sorted list.
///
/// Nothing is claimed of the list's contents: the result is a function of
/// the name.
#[verifier::external_body]
fn highlight_name_index(name: &str) -> (i: Option<usize>)
    ensures
        i == highlight_name_position(name@),
{
    lumis_core::highlights::HIGHLIGHT_NAMES.binary_search(&name).ok()
}

/// The index a scope name gets: unknown without a name or for a name that
/// is not UTF-8 or not in the list.
pub open spec fn scope_index_of(scope: Option<Seq<u8>>) -> usize {
    match scope {
        None => UNKNOWN_SCOPE_INDEX,
        Some(bytes) => if valid_utf8(bytes) {
            match highlight_name_position(decode_utf8(bytes)) {
                Some(i) => i,
                None => UNKNOWN_SCOPE_INDEX,
            }
        } else {
            UNKNOWN_SCOPE_INDEX
        },
    }
}

/// Resolves the scope name of a start event against the consumer's list of
/// highlight names.
pub fn scope_index(scope: Option<&[u8]>) -> (i: usize)
    ensures
        i == scope_index_of(match scope {
            Some(b) => Some(b@),
            None => None,
        }),
{
    match scope {
        None => UNKNOWN_SCOPE_INDEX,
        Some(bytes) => match str_from_utf8(bytes) {
            Some(name) => match highlight_name_index(name) {
                Some(i) => i,
                None => UNKNOWN_SCOPE_INDEX,
            },
            None => UNKNOWN_SCOPE_INDEX,
        },
    }
}

/// The event a raw event becomes: kind 0 starts a scope (with an empty
/// language when none came), kind 1 is a source span, anything else ends a
/// scope.
pub open spec fn event_matches(
    e: HighlightEvent,
    kind: u8,
    scope: Option<Seq<u8>>,
    language: Option<Seq<u8>>,
    start: usize,
    end: usize,
) -> bool {
    if kind == EVENT_START {
        e matches HighlightEvent::Start { scope_index, language: l } && scope_index == scope_index_of(
            scope,
        ) && l@ == match language {
            None => Seq::<char>::empty(),
            Some(b) => lossy_text(b),
        }
    } else if kind == EVENT_SOURCE {
        e == HighlightEvent::Source { start, end }
    } else {
        e == HighlightEvent::End
    }
}

/// Turns one raw event into a [`HighlightEvent`] and appends it.
pub fn push_event(
    events: &mut Vec<HighlightEvent>,
    kind: u8,
    scope: Option<&[u8]>,
    language: Option<&[u8]>,
    start: usize,
    end: usize,
)
    ensures
        final(events)@.len() == old(events)@.len() + 1,
        final(events)@.drop_last() == old(events)@,
        event_matches(
            final(events)@.last(),
            kind,
            match scope {
                Some(b) => Some(b@),
                None => None,
            },
            match language {
                Some(b) => Some(b@),
                None => None,
            },
            start,
            end,
        ),
{
    let event = if kind == EVENT_START {
        let language = match language {
            None => String::new(),
            Some(bytes) => from_utf8_lossy(bytes),
        };
        HighlightEvent::Start { scope_index: scope_index(scope), language }
    } else if kind == EVENT_SOURCE {
        HighlightEvent::Source { start, end }
    } else {
        HighlightEvent::End
    };
    events.push(event);
    proof {
        assert(final(events)@.drop_last() =~= old(events)@);
    }
}

/// The message a failed call reports: the provider's, or a fixed one when it
/// gave none.
pub open spec fn error_text(error: Option<Seq<u8>>) -> Seq<char> {
    match error {
        None => "Lumis gave no reason"@,
        Some(b) => lossy_text(b),
    }
}

/// Reads the provider's error message, which is only borrowed and so is
/// copied.
pub fn read_error(error: Option<&[u8]>) -> (m: String)
    ensures
        m@ == error_text(match error {
            Some(b) => Some(b@),
            None => None,
        }),
{
    match error {
        None => String::from_str("Lumis gave no reason"),
        Some(bytes) => from_utf8_lossy(bytes),
    }
}

/// The result of one highlight call: refused by the provider, spoiled by a
/// panic while collecting events, the events on success, or the provider's
/// error.
pub fn call_outcome(
    called: i32,
    panicked: bool,
    status: i32,
    events: Vec<HighlightEvent>,
    error: Option<&[u8]>,
) -> (r: Result<Vec<HighlightEvent>, BridgeError>)
    ensures
        called != 0 ==> (r matches Err(BridgeError::Other(m)) && m@
            == "the :lumis NIF did not accept the MDEx bridge call"@),
        called == 0 && panicked ==> (r matches Err(BridgeError::Other(m)) && m@
            == "mdex_native panicked while collecting Lumis events"@),
        called == 0 && !panicked && status == STATUS_OK ==> (r matches Ok(v) && v@ == events@),
        called == 0 && !panicked && status == STATUS_LANGUAGE_NOT_LOADED ==> (r matches Err(
            BridgeError::LanguageNotLoaded(m),
        ) && m@ == error_text(
            match error {
                Some(b) => Some(b@),
                None => None,
            },
        )),
        called == 0 && !panicked && status != STATUS_OK && status != STATUS_LANGUAGE_NOT_LOADED
            ==> (r matches Err(BridgeError::Other(m)) && m@ == error_text(
            match error {
                Some(b) => Some(b@),
                None => None,
            },
        )),
{
    if called != 0 {
        return Err(
            BridgeError::Other(String::from_str("the :lumis NIF did not accept the MDEx bridge call")),
        );
    }
    if panicked {
        return Err(
            BridgeError::Other(String::from_str("mdex_native panicked while collecting Lumis events")),
        );
    }
    if status == STATUS_OK {
        Ok(events)
    } else if status == STATUS_LANGUAGE_NOT_LOADED {
        Err(BridgeError::LanguageNotLoaded(read_error(error)))
    } else {
        Err(BridgeError::Other(read_error(error)))
    }
}

} // verus!
