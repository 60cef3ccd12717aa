//! Post-processing of rendered HTML: sanitizing, escaping curly braces in
//! code so templates do not read them as interpolations, and escaping the
//! whole content.

use vstd::prelude::*;

use crate::sanitize::{
    custom_config, default_config, names, sanitized, sanitizer_ok, set_changed, ExSanitizeCustom,
    SanitizerConfig,
};
use crate::text::{lacks, lemma_replaced_lacks, replace_all, replaced};

verus! {

/// How HTML is sanitized: Ammonia's default cleaner, or a custom policy.
#[derive(Debug, Default, PartialEq, Eq)]
pub enum ExSanitizeOption {
    #[default]
    Clean,
    Custom(Box<ExSanitizeCustom>),
}

/// Sanitizes HTML with `ammonia::clean`, which cleans with a
/// `Builder::default()`: Ammonia's default policy.
#[verifier::external_body]
fn ammonia_clean(html: &str) -> (out: String)
    ensures
        out@ == sanitized(default_config(), html@),
{
    ammonia::clean(html)
}

impl ExSanitizeOption {
    /// The policy the option cleans with.
    pub open spec fn policy(&self) -> SanitizerConfig {
        match self {
            ExSanitizeOption::Clean => default_config(),
            ExSanitizeOption::Custom(custom) => custom_config(**custom),
        }
    }

    /// What sanitizing `html` with this option gives.
    pub open spec fn cleaned(&self, html: Seq<char>) -> Seq<char> {
        sanitized(self.policy(), html)
    }

    /// Whether Ammonia can clean with this option: always for the default
    /// policy; for a custom one, see [`sanitizer_ok`].
    pub open spec fn cleanable(&self) -> bool {
        match self {
            ExSanitizeOption::Clean => true,
            ExSanitizeOption::Custom(custom) => sanitizer_ok(custom_config(**custom)),
        }
    }

    /// Whether Ammonia can clean with this option without panicking.
    pub fn can_clean(&self) -> (r: bool)
        ensures
            r == self.cleanable(),
    {
        match self {
            ExSanitizeOption::Clean => true,
            ExSanitizeOption::Custom(custom) => custom.can_clean(),
        }
    }

    /// Sanitizes `html` according to the option.
    pub fn clean(&self, html: &str) -> (out: String)
        requires
            self.cleanable(),
        ensures
            out@ == self.cleaned(html@),
    {
        match self {
            ExSanitizeOption::Clean => ammonia_clean(html),
            ExSanitizeOption::Custom(custom) => custom.clean(html),
        }
    }
}

/// Whether an optional sanitizer can clean.
pub open spec fn sanitize_ok(sanitize: Option<ExSanitizeOption>) -> bool {
    match sanitize {
        Some(option) => option.cleanable(),
        None => true,
    }
}

/// `s` with `{` written as `&lbrace;` and `}` as `&rbrace;`.
pub open spec fn braces_escaped(s: Seq<char>) -> Seq<char> {
    replaced(replaced(s, "{"@, "&lbrace;"@), "}"@, "&rbrace;"@)
}

/// Writes `{` as `&lbrace;` and `}` as `&rbrace;`.
pub fn escape_curly_braces(text: &str) -> (out: String)
    ensures
        out@ == braces_escaped(text@),
{
    proof {
        reveal_strlit("{");
        reveal_strlit("}");
    }
    let once = replace_all(text, "{", "&lbrace;");
    replace_all(once.as_str(), "}", "&rbrace;")
}

/// The result of running, with `lol_html::rewrite_str`, a rewriter that
/// replaces the text inside each `code` element by
/// [`escape_curly_braces`] of it; `None` when the rewriter fails.
pub uninterp spec fn code_braces_escaped(html: Seq<char>) -> Option<Seq<char>>;

/// Escapes the curly braces of the text inside `code` elements, through
/// `lol_html::rewrite_str`.
///
/// The handler hands each text chunk to [`escape_curly_braces`] and writes
/// the result back as HTML. Nothing is claimed of how `lol_html` splits the
/// document into chunks; the result is a function of the input.
#[verifier::external_body]
fn rewrite_code_braces(html: &str) -> (out: Option<String>)
    ensures
        out matches Some(s) ==> code_braces_escaped(html@) == Some(s@),
        out is None ==> code_braces_escaped(html@) is None,
{
    let handlers = lol_html::ElementContentHandlers::default().text(
        |chunk: &mut lol_html::html_content::TextChunk| {
            let escaped = escape_curly_braces(chunk.as_str());
            chunk.replace(&escaped, lol_html::html_content::ContentType::Html);
            Ok(())
        },
    );
    let selector: lol_html::Selector = "code".parse().ok()?;
    let settings = lol_html::RewriteStrSettings::new().append_element_content_handler(
        (std::borrow::Cow::Owned(selector), handlers),
    );
    lol_html::rewrite_str(html, settings).ok()
}

/// How `v_htmlescape` writes one character.
pub open spec fn content_escaped_char(c: char) -> Seq<char> {
    if c == '"' {
        "&quot;"@
    } else if c == '&' {
        "&amp;"@
    } else if c == '\'' {
        "&#x27;"@
    } else if c == '/' {
        "&#x2f;"@
    } else if c == '<' {
        "&lt;"@
    } else if c == '>' {
        "&gt;"@
    } else {
        seq![c]
    }
}

/// Text as `v_htmlescape` escapes it.
pub open spec fn content_escaped(s: Seq<char>) -> Seq<char>
    decreases s.len(),
{
    if s.len() == 0 {
        Seq::empty()
    } else {
        content_escaped(s.drop_last()) + content_escaped_char(s.last())
    }
}

/// Escapes text with `v_htmlescape::escape_string`.
///
/// The contract restates the escape table of that crate's documentation:
/// `"`, `&`, `'`, `/`, `<` and `>` become entities, every other character is
/// written unchanged.
#[verifier::external_body]
fn escape_content(text: &str) -> (out: String)
    ensures
        out@ == content_escaped(text@),
{
    let mut out = String::with_capacity(text.len());
    v_htmlescape::escape_string(text, &mut out);
    out
}

/// What [`do_safe_html`] returns: sanitized if asked, curly braces in code
/// escaped if asked, everything escaped if asked, and the brace entities
/// that escaping doubled put back.
pub open spec fn safe_html_spec(
    unsafe_html: Seq<char>,
    sanitize: Option<ExSanitizeOption>,
    escape_content: bool,
    escape_curly_braces_in_code: bool,
) -> Seq<char> {
    let html = match sanitize {
        None => unsafe_html,
        Some(option) => option.cleaned(unsafe_html),
    };
    let html = if escape_curly_braces_in_code {
        match code_braces_escaped(html) {
            Some(rewritten) => rewritten,
            None => html,
        }
    } else {
        html
    };
    let html = if escape_content {
        content_escaped(html)
    } else {
        html
    };
    replaced(replaced(html, "&amp;lbrace;"@, "&lbrace;"@), "&amp;rbrace;"@, "&rbrace;"@)
}

/// Makes rendered HTML safe to hand out: sanitizes it when a sanitizer is
/// given, escapes `{` and `}` inside `code` elements when asked (a failed
/// rewrite leaves the HTML as it was), escapes the whole content when
/// asked, and finally turns `&amp;lbrace;` and `&amp;rbrace;` back into
/// `&lbrace;` and `&rbrace;`.
pub fn do_safe_html(
    unsafe_html: String,
    sanitize: &Option<ExSanitizeOption>,
    escape_content: bool,
    escape_curly_braces_in_code: bool,
) -> (out: String)
    requires
        sanitize_ok(*sanitize),
    ensures
        out@ == safe_html_spec(unsafe_html@, *sanitize, escape_content, escape_curly_braces_in_code),
{
    let html = match sanitize {
        None => unsafe_html,
        Some(option) => option.clean(unsafe_html.as_str()),
    };
    let html = if escape_curly_braces_in_code {
        match rewrite_code_braces(html.as_str()) {
            Some(rewritten) => rewritten,
            None => html,
        }
    } else {
        html
    };
    let html = if escape_content {
        self::escape_content(html.as_str())
    } else {
        html
    };
    proof {
        reveal_strlit("&amp;lbrace;");
        reveal_strlit("&amp;rbrace;");
    }
    let html = replace_all(html.as_str(), "&amp;lbrace;", "&lbrace;");
    replace_all(html.as_str(), "&amp;rbrace;", "&rbrace;")
}

/// Sanitizes and escapes rendered HTML as asked; see [`do_safe_html`].
pub fn safe_html(
    unsafe_html: String,
    sanitize: Option<ExSanitizeOption>,
    escape_content: bool,
    escape_curly_braces_in_code: bool,
) -> (out: String)
    requires
        sanitize_ok(sanitize),
    ensures
        out@ == safe_html_spec(unsafe_html@, sanitize, escape_content, escape_curly_braces_in_code),
{
    do_safe_html(unsafe_html, &sanitize, escape_content, escape_curly_braces_in_code)
}


/// Escaping for the content leaves no `<`, `>`, `"` or `'` behind.
proof fn lemma_content_escaped_lacks(s: Seq<char>, c: char)
    requires
        c == '<' || c == '>' || c == '"' || c == '\'',
    ensures
        lacks(content_escaped(s), c),
    decreases s.len(),
{
    reveal_strlit("&quot;");
    reveal_strlit("&amp;");
    reveal_strlit("&#x27;");
    reveal_strlit("&#x2f;");
    reveal_strlit("&lt;");
    reveal_strlit("&gt;");
    if s.len() > 0 {
        lemma_content_escaped_lacks(s.drop_last(), c);
        let head = content_escaped(s.drop_last());
        let tail = content_escaped_char(s.last());
        assert(lacks(tail, c));
        assert(content_escaped(s) == head + tail);
        assert forall|i: int| 0 <= i < head.len() + tail.len() implies (head + tail)[i] != c by {
            if i < head.len() {
                assert((head + tail)[i] == head[i]);
            } else {
                assert((head + tail)[i] == tail[i - head.len()]);
            }
        }
    }
}

/// Escaping curly braces leaves none: after [`escape_curly_braces`] the text
/// holds no `{` and no `}`.
pub proof fn law_braces_escaped_has_no_braces(s: Seq<char>)
    ensures
        lacks(braces_escaped(s), '{'),
        lacks(braces_escaped(s), '}'),
{
    reveal_strlit("{");
    reveal_strlit("}");
    reveal_strlit("&lbrace;");
    reveal_strlit("&rbrace;");
    let once = replaced(s, "{"@, "&lbrace;"@);
    assert("{"@ == seq!['{']);
    assert("}"@ == seq!['}']);
    lemma_replaced_lacks(s, "{"@, "&lbrace;"@, '{');
    lemma_replaced_lacks(once, "}"@, "&rbrace;"@, '{');
    lemma_replaced_lacks(once, "}"@, "&rbrace;"@, '}');
}

/// With content escaping on, the safe HTML holds no `<`, `>`, `"` or `'`,
/// whatever came in and whatever else was asked: no tag and no attribute can
/// survive.
pub proof fn law_escaped_content_has_no_markup(
    unsafe_html: Seq<char>,
    sanitize: Option<ExSanitizeOption>,
    escape_curly_braces_in_code: bool,
    c: char,
)
    requires
        c == '<' || c == '>' || c == '"' || c == '\'',
    ensures
        lacks(safe_html_spec(unsafe_html, sanitize, true, escape_curly_braces_in_code), c),
{
    reveal_strlit("&amp;lbrace;");
    reveal_strlit("&amp;rbrace;");
    reveal_strlit("&lbrace;");
    reveal_strlit("&rbrace;");
    let html = match sanitize {
        None => unsafe_html,
        Some(option) => option.cleaned(unsafe_html),
    };
    let html = if escape_curly_braces_in_code {
        match code_braces_escaped(html) {
            Some(rewritten) => rewritten,
            None => html,
        }
    } else {
        html
    };
    let escaped = content_escaped(html);
    lemma_content_escaped_lacks(html, c);
    assert(lacks("&lbrace;"@, c));
    assert(lacks("&rbrace;"@, c));
    lemma_replaced_lacks(escaped, "&amp;lbrace;"@, "&lbrace;"@, c);
    lemma_replaced_lacks(
        replaced(escaped, "&amp;lbrace;"@, "&lbrace;"@),
        "&amp;rbrace;"@,
        "&rbrace;"@,
        c,
    );
}

/// A custom policy that sets nothing is Ammonia's default policy, so it
/// cleans any document exactly as the default cleaner does.
pub proof fn law_empty_custom_is_default(c: ExSanitizeCustom, html: Seq<char>)
    requires
        c.tags is None,
        c.add_tags@.len() == 0,
        c.rm_tags@.len() == 0,
        c.clean_content_tags is None,
        c.add_clean_content_tags@.len() == 0,
        c.rm_clean_content_tags@.len() == 0,
        c.tag_attributes is None,
        c.add_tag_attributes@.len() == 0,
        c.rm_tag_attributes@.len() == 0,
        c.generic_attributes is None,
        c.add_generic_attributes@.len() == 0,
        c.rm_generic_attributes@.len() == 0,
        c.url_schemes is None,
        c.add_url_schemes@.len() == 0,
        c.rm_url_schemes@.len() == 0,
        c.link_rel is None,
        c.strip_comments is None,
    ensures
        custom_config(c) == default_config(),
        ExSanitizeOption::Custom(Box::new(c)).cleaned(html) == ExSanitizeOption::Clean.cleaned(
            html,
        ),
{
    let d = default_config();
    assert(names(Seq::<String>::empty()) =~= Set::<Seq<char>>::empty());
    assert(c.add_tags@ =~= Seq::<String>::empty());
    assert(c.rm_tags@ =~= Seq::<String>::empty());
    assert(c.add_clean_content_tags@ =~= Seq::<String>::empty());
    assert(c.rm_clean_content_tags@ =~= Seq::<String>::empty());
    assert(c.add_generic_attributes@ =~= Seq::<String>::empty());
    assert(c.rm_generic_attributes@ =~= Seq::<String>::empty());
    assert(c.add_url_schemes@ =~= Seq::<String>::empty());
    assert(c.rm_url_schemes@ =~= Seq::<String>::empty());
    assert(set_changed(d.tags, c.tags, c.add_tags, c.rm_tags) =~= d.tags);
    assert(set_changed(
        d.clean_content_tags,
        c.clean_content_tags,
        c.add_clean_content_tags,
        c.rm_clean_content_tags,
    ) =~= d.clean_content_tags);
    assert(set_changed(
        d.generic_attributes,
        c.generic_attributes,
        c.add_generic_attributes,
        c.rm_generic_attributes,
    ) =~= d.generic_attributes);
    assert(set_changed(d.url_schemes, c.url_schemes, c.add_url_schemes, c.rm_url_schemes)
        =~= d.url_schemes);
    assert(custom_config(c) == d);
}

/// Under a custom policy a tag is kept exactly when the base set (the
/// given `tags`, else Ammonia's default) or `add_tags` names it and
/// `rm_tags` does not: removing wins over adding.
pub proof fn law_custom_tags(c: ExSanitizeCustom, tag: Seq<char>)
    ensures
        custom_config(c).tags.contains(tag) <==> ((match c.tags {
            Some(v) => names(v@).contains(tag),
            None => default_config().tags.contains(tag),
        }) || names(c.add_tags@).contains(tag)) && !names(c.rm_tags@).contains(tag),
{
}

/// Sanitizing comes first: post-processing HTML with a sanitizer gives
/// what post-processing the already sanitized HTML without one gives. So
/// the braces in code are escaped in what the sanitizer let through, and
/// the sanitizer never sees (and never decodes) the entities that escaping
/// writes.
pub proof fn law_sanitize_before_escaping(
    unsafe_html: Seq<char>,
    option: ExSanitizeOption,
    escape_content: bool,
    escape_curly_braces_in_code: bool,
)
    ensures
        safe_html_spec(unsafe_html, Some(option), escape_content, escape_curly_braces_in_code)
            == safe_html_spec(
            option.cleaned(unsafe_html),
            None,
            escape_content,
            escape_curly_braces_in_code,
        ),
{
}

/// Braces in code are escaped before the content is: post-processing with
/// braces-escaping gives what post-processing the rewritten HTML without it
/// gives (the HTML itself when the rewrite fails), whether or not the
/// content is escaped afterwards.
pub proof fn law_braces_escaping_stage(html: Seq<char>, escape_content: bool)
    ensures
        safe_html_spec(html, None, escape_content, true) == match code_braces_escaped(html) {
            Some(r) => safe_html_spec(r, None, escape_content, false),
            None => safe_html_spec(html, None, escape_content, false),
        },
{
}

} // verus!
