//! HTML for links and images that carry attributes.
//!
//! Comrak parses `{#id .class key=value}` into a node's attributes but leaves
//! rendering them to custom formatters. Links and images with attributes are
//! written here the way Comrak writes them, plus the attributes; every other
//! node, and every link or image without attributes, is left to Comrak.
//!
//! Attributes are document content that can execute, in the same class as
//! raw HTML and `javascript:` links, so nothing is written unless
//! `render.unsafe` is set. Values are escaped, and keys that are not valid
//! HTML attribute names are skipped even then.

use vstd::prelude::*;

use crate::document::{ExAttributes, ExSourcepos};
use crate::text::{chars_of, decimal, push_decimal, push_str, replace_all, replaced};

verus! {

/// How Comrak's HTML escaping writes one character.
pub open spec fn escaped_char(c: char) -> Seq<char> {
    if c == '"' {
        "&quot;"@
    } else if c == '&' {
        "&amp;"@
    } else if c == '<' {
        "&lt;"@
    } else if c == '>' {
        "&gt;"@
    } else if c == '\0' {
        seq!['\u{fffd}']
    } else {
        seq![c]
    }
}

/// Text as Comrak's HTML escaping writes it: `"`, `&`, `<` and `>` as
/// entities, NUL as U+FFFD, everything else unchanged.
pub open spec fn html_escaped(s: Seq<char>) -> Seq<char>
    decreases s.len(),
{
    if s.len() == 0 {
        Seq::empty()
    } else {
        html_escaped(s.drop_last()) + escaped_char(s.last())
    }
}

/// Appends `text` escaped for HTML, through `comrak::html::escape`.
///
/// The contract restates the escaping table of that function's
/// documentation and source: `"`, `&`, `<`, `>` become entities, NUL becomes
/// U+FFFD, every other character is written unchanged.
#[verifier::external_body]
fn escape_into(output: &mut String, text: &str)
    ensures
        final(output)@ == old(output)@ + html_escaped(text@),
{
    let _ = comrak::html::escape(output, text);
}

/// The result of `comrak::html::escape_href` on a URL, with `relaxed_ipv6`
/// as given.
pub uninterp spec fn href_escaped(url: Seq<char>, relaxed_ipv6: bool) -> Seq<char>;

/// Appends `url` escaped for an HTML attribute, through
/// `comrak::html::escape_href`.
///
/// Nothing is claimed of how the URL is escaped beyond that the output is a
/// function of the URL and of `relaxed_ipv6`.
#[verifier::external_body]
fn escape_href_into(output: &mut String, url: &str, relaxed_ipv6: bool)
    ensures
        final(output)@ == old(output)@ + href_escaped(url@, relaxed_ipv6),
{
    let _ = comrak::html::escape_href(output, url, relaxed_ipv6);
}

/// Whether `c` may appear in an attribute name written into a tag.
pub open spec fn attribute_name_char(c: char) -> bool {
    ('a' <= c <= 'z') || ('A' <= c <= 'Z') || ('0' <= c <= '9') || c == '-' || c == '_' || c == ':'
        || c == '.'
}

/// Whether `c` may start an attribute name.
pub open spec fn attribute_name_start(c: char) -> bool {
    ('a' <= c <= 'z') || ('A' <= c <= 'Z') || c == '_' || c == ':'
}

/// A name that is safe to write as an HTML attribute name: non-empty, made
/// of ASCII letters, digits, `-`, `_`, `:` and `.`, and starting with a
/// letter, `_` or `:`.
pub open spec fn valid_attribute_name(s: Seq<char>) -> bool {
    &&& s.len() > 0
    &&& forall|i: int| 0 <= i < s.len() ==> #[trigger] attribute_name_char(s[i])
    &&& attribute_name_start(s[0])
}

/// Whether `name` is safe to write as an HTML attribute name.
///
/// The parser only produces names made of these characters, but the pairs
/// are a plain list on the Elixir side, so a key like `x" onclick="alert(1)`
/// would otherwise escape the tag.
pub fn is_attribute_name(name: &str) -> (b: bool)
    ensures
        b == valid_attribute_name(name@),
{
    let cs = chars_of(name);
    if cs.len() == 0 {
        return false;
    }
    let mut i: usize = 0;
    while i < cs.len()
        invariant
            cs@ == name@,
            i <= cs@.len(),
            forall|j: int| 0 <= j < i ==> #[trigger] attribute_name_char(cs@[j]),
        decreases cs@.len() - i,
    {
        let c = cs[i];
        let ok = ('a' <= c && c <= 'z') || ('A' <= c && c <= 'Z') || ('0' <= c && c <= '9') || c
            == '-' || c == '_' || c == ':' || c == '.';
        if !ok {
            proof {
                assert(!attribute_name_char(name@[i as int]));
            }
            return false;
        }
        i = i + 1;
    }
    let c = cs[0];
    ('a' <= c && c <= 'z') || ('A' <= c && c <= 'Z') || c == '_' || c == ':'
}

/// Whether a node's attributes are going to be written: only with
/// `render.unsafe`, and only when there are any.
pub fn writes_attrs(render_unsafe: bool, attrs: &Option<ExAttributes>) -> (b: bool)
    ensures
        b == (render_unsafe && attrs is Some),
{
    render_unsafe && attrs.is_some()
}

/// ` name="escaped value"`.
pub open spec fn attribute_markup(name: Seq<char>, value: Seq<char>) -> Seq<char> {
    " "@ + name + "=\""@ + html_escaped(value) + "\""@
}

/// The classes, escaped, separated by single spaces.
pub open spec fn classes_markup(classes: Seq<String>) -> Seq<char>
    decreases classes.len(),
{
    if classes.len() == 0 {
        Seq::empty()
    } else if classes.len() == 1 {
        html_escaped(classes[0]@)
    } else {
        classes_markup(classes.drop_last()) + " "@ + html_escaped(classes.last()@)
    }
}

/// The key/value pairs whose key is a valid attribute name, in order.
pub open spec fn pairs_markup(pairs: Seq<(String, String)>) -> Seq<char>
    decreases pairs.len(),
{
    if pairs.len() == 0 {
        Seq::empty()
    } else {
        let (k, v) = pairs.last();
        pairs_markup(pairs.drop_last()) + if valid_attribute_name(k@) {
            attribute_markup(k@, v@)
        } else {
            Seq::empty()
        }
    }
}

/// What [`write_attrs`] writes: the id, the classes as one `class`
/// attribute, then the pairs with valid names.
pub open spec fn attrs_markup(attrs: ExAttributes) -> Seq<char> {
    (match attrs.id {
        Some(id) => attribute_markup("id"@, id@),
        None => Seq::empty(),
    }) + (if attrs.classes@.len() > 0 {
        " class=\""@ + classes_markup(attrs.classes@) + "\""@
    } else {
        Seq::empty()
    }) + pairs_markup(attrs.pairs@)
}

/// Appends `id`, `class` and key/value attributes, each as
/// ` name="escaped value"`; pairs whose key is not a valid attribute name
/// are skipped.
pub fn write_attrs(output: &mut String, attrs: &ExAttributes)
    ensures
        final(output)@ == old(output)@ + attrs_markup(*attrs),
{
    let ghost start = output@;
    if let Some(id) = &attrs.id {
        push_str(output, " ");
        push_str(output, "id");
        push_str(output, "=\"");
        escape_into(output, id.as_str());
        push_str(output, "\"");
    }
    let ghost after_id = output@;
    proof {
        assert(after_id == start + match attrs.id {
            Some(id) => attribute_markup("id"@, id@),
            None => Seq::empty(),
        }) by {
            if attrs.id is None {
                assert(after_id =~= start + Seq::<char>::empty());
            } else {
                assert(after_id =~= start + attribute_markup("id"@, attrs.id->0@));
            }
        }
    }
    if attrs.classes.len() > 0 {
        push_str(output, " class=\"");
        let ghost base = output@;
        let mut index: usize = 0;
        while index < attrs.classes.len()
            invariant
                index <= attrs.classes@.len(),
                output@ == base + classes_markup(attrs.classes@.take(index as int)),
            decreases attrs.classes@.len() - index,
        {
            if index > 0 {
                push_str(output, " ");
            }
            escape_into(output, attrs.classes[index].as_str());
            index = index + 1;
            proof {
                let t = attrs.classes@.take(index as int);
                assert(t.drop_last() =~= attrs.classes@.take(index - 1));
                if index == 1 {
                    assert(attrs.classes@.take(0) =~= Seq::<String>::empty());
                }
                assert(output@ =~= base + classes_markup(t));
            }
        }
        proof {
            assert(attrs.classes@.take(attrs.classes@.len() as int) =~= attrs.classes@);
        }
        push_str(output, "\"");
    }
    let ghost after_classes = output@;
    proof {
        if attrs.classes@.len() == 0 {
            assert(after_classes =~= after_id + Seq::<char>::empty());
        }
    }
    let mut index: usize = 0;
    while index < attrs.pairs.len()
        invariant
            index <= attrs.pairs@.len(),
            output@ == after_classes + pairs_markup(attrs.pairs@.take(index as int)),
        decreases attrs.pairs@.len() - index,
    {
        let key = &attrs.pairs[index].0;
        let value = &attrs.pairs[index].1;
        let ghost before = output@;
        if is_attribute_name(key.as_str()) {
            push_str(output, " ");
            push_str(output, key.as_str());
            push_str(output, "=\"");
            escape_into(output, value.as_str());
            push_str(output, "\"");
        }
        index = index + 1;
        proof {
            let t = attrs.pairs@.take(index as int);
            assert(t.drop_last() =~= attrs.pairs@.take(index - 1));
            assert(t.last() == attrs.pairs@[index - 1]);
            assert(output@ =~= after_classes + pairs_markup(t));
        }
    }
    proof {
        assert(attrs.pairs@.take(attrs.pairs@.len() as int) =~= attrs.pairs@);
        assert(output@ =~= start + attrs_markup(*attrs));
    }
}


/// ASCII lower case of a character; other characters are unchanged.
pub open spec fn ascii_lower(c: char) -> char {
    if 'A' <= c <= 'Z' {
        ((c as u32) + 32) as char
    } else {
        c
    }
}

/// Whether `s` starts with `p`, ignoring ASCII case (`p` is written in lower
/// case).
pub open spec fn starts_with_ascii_ci(s: Seq<char>, p: Seq<char>) -> bool {
    p.len() <= s.len() && forall|i: int| 0 <= i < p.len() ==> #[trigger] ascii_lower(s[i]) == p[i]
}

/// Comrak's rule for a dangerous URL: one that starts, ignoring ASCII case,
/// with `javascript:`, `vbscript:`, `file:` or `data:`, except an inline PNG,
/// GIF, JPEG or WebP image.
pub open spec fn is_dangerous_url(s: Seq<char>) -> bool {
    &&& !starts_with_ascii_ci(s, "data:image/png"@)
    &&& !starts_with_ascii_ci(s, "data:image/gif"@)
    &&& !starts_with_ascii_ci(s, "data:image/jpeg"@)
    &&& !starts_with_ascii_ci(s, "data:image/webp"@)
    &&& {
        ||| starts_with_ascii_ci(s, "javascript:"@)
        ||| starts_with_ascii_ci(s, "vbscript:"@)
        ||| starts_with_ascii_ci(s, "file:"@)
        ||| starts_with_ascii_ci(s, "data:"@)
    }
}

/// ASCII lower case of a character.
fn to_ascii_lower(c: char) -> (l: char)
    ensures
        l == ascii_lower(c),
{
    if 'A' <= c && c <= 'Z' {
        let b = c as u8;
        ((b + 32) as u8) as char
    } else {
        c
    }
}

/// Whether `cs` starts with `prefix`, ignoring ASCII case.
fn has_prefix_ascii_ci(cs: &Vec<char>, prefix: &str) -> (b: bool)
    ensures
        b == starts_with_ascii_ci(cs@, prefix@),
{
    let ps = chars_of(prefix);
    if ps.len() > cs.len() {
        return false;
    }
    let mut i: usize = 0;
    while i < ps.len()
        invariant
            ps@ == prefix@,
            ps@.len() <= cs@.len(),
            i <= ps@.len(),
            forall|j: int| 0 <= j < i ==> #[trigger] ascii_lower(cs@[j]) == ps@[j],
        decreases ps@.len() - i,
    {
        if to_ascii_lower(cs[i]) != ps[i] {
            return false;
        }
        i = i + 1;
    }
    true
}

/// Whether Comrak considers `url` dangerous: it starts, ignoring ASCII case,
/// with `javascript:`, `vbscript:`, `file:` or `data:`, and is not an
/// inline PNG, GIF, JPEG or WebP image.
pub fn dangerous_url(url: &str) -> (b: bool)
    ensures
        b == is_dangerous_url(url@),
{
    let cs = chars_of(url);
    if has_prefix_ascii_ci(&cs, "data:image/png") || has_prefix_ascii_ci(&cs, "data:image/gif")
        || has_prefix_ascii_ci(&cs, "data:image/jpeg") || has_prefix_ascii_ci(&cs, "data:image/webp") {
        return false;
    }
    has_prefix_ascii_ci(&cs, "javascript:") || has_prefix_ascii_ci(&cs, "vbscript:")
        || has_prefix_ascii_ci(&cs, "file:") || has_prefix_ascii_ci(&cs, "data:")
}

/// Options of the HTML renderer that links and images depend on.
#[derive(Clone, Debug, Default)]
pub struct HtmlRenderOptions {
    /// `render.unsafe`: raw HTML, dangerous URLs and attributes are written.
    pub render_unsafe: bool,
    /// `render.sourcepos`: tags carry a `data-sourcepos` attribute.
    pub sourcepos: bool,
    /// `render.figure_with_caption`: images are wrapped in a figure.
    pub figure_with_caption: bool,
    /// `parse.relaxed_autolinks`.
    pub relaxed_autolinks: bool,
    /// `extension.link_url_rewriter`, as its template.
    pub link_url_rewriter: Option<String>,
    /// `extension.image_url_rewriter`, as its template.
    pub image_url_rewriter: Option<String>,
}

/// What a renderer of links and images knows about the node at hand.
#[derive(Clone, Debug)]
pub struct LinkNode {
    pub url: String,
    pub title: String,
    pub attrs: Option<ExAttributes>,
    pub sourcepos: ExSourcepos,
    /// Whether the parent of the node is itself a link.
    pub parent_is_link: bool,
}

/// What happens to a link or an image after a hook ran.
#[derive(Clone, Copy, Debug, PartialEq, Eq)]
pub enum Rendering {
    /// Nothing was written: Comrak renders the node itself.
    Comrak,
    /// The children render as HTML.
    Html,
    /// The children render as plain text (an image's `alt`).
    Plain,
}

/// The text a URL rewriter template gives for `url`: every `{@url}` in the
/// template replaced by the URL.
pub open spec fn rewritten(template: Seq<char>, url: Seq<char>) -> Seq<char> {
    replaced(template, "{@url}"@, url)
}

/// Rewrites `url` with a URL rewriter template: every `{@url}` in the
/// template is replaced by the URL.
pub fn rewrite_url(template: &str, url: &str) -> (out: String)
    ensures
        out@ == rewritten(template@, url@),
{
    proof {
        reveal_strlit("{@url}");
    }
    replace_all(template, "{@url}", url)
}

/// ` data-sourcepos="l:c-l:c"` when source positions are on and the node has
/// a position.
pub open spec fn sourcepos_markup(on: bool, pos: ExSourcepos) -> Seq<char> {
    if on && pos.start.0 > 0 {
        " data-sourcepos=\""@ + decimal(pos.start.0 as nat) + ":"@ + decimal(pos.start.1 as nat)
            + "-"@ + decimal(pos.end.0 as nat) + ":"@ + decimal(pos.end.1 as nat) + "\""@
    } else {
        Seq::empty()
    }
}

/// Appends the `data-sourcepos` attribute of a node when it is written.
pub fn render_sourcepos(output: &mut String, on: bool, pos: ExSourcepos)
    ensures
        final(output)@ == old(output)@ + sourcepos_markup(on, pos),
{
    let ghost start = output@;
    if on && pos.start.0 > 0 {
        push_str(output, " data-sourcepos=\"");
        push_decimal(output, pos.start.0);
        push_str(output, ":");
        push_decimal(output, pos.start.1);
        push_str(output, "-");
        push_decimal(output, pos.end.0);
        push_str(output, ":");
        push_decimal(output, pos.end.1);
        push_str(output, "\"");
    } else {
        proof {
            assert(output@ =~= start + Seq::<char>::empty());
        }
    }
}

/// The URL written into `href` or `src`: nothing for a dangerous URL unless
/// rendering is unsafe, else the URL (rewritten when a rewriter is set),
/// escaped for an attribute.
pub open spec fn url_markup(
    render_unsafe: bool,
    relaxed_autolinks: bool,
    rewriter: Option<String>,
    url: Seq<char>,
) -> Seq<char> {
    if render_unsafe || !is_dangerous_url(url) {
        match rewriter {
            Some(t) => href_escaped(rewritten(t@, url), relaxed_autolinks),
            None => href_escaped(url, relaxed_autolinks),
        }
    } else {
        Seq::empty()
    }
}

fn write_url(
    output: &mut String,
    render_unsafe: bool,
    relaxed_autolinks: bool,
    rewriter: &Option<String>,
    url: &str,
)
    ensures
        final(output)@ == old(output)@ + url_markup(render_unsafe, relaxed_autolinks, *rewriter, url@),
{
    let ghost start = output@;
    if render_unsafe || !dangerous_url(url) {
        match rewriter {
            Some(template) => {
                let target = rewrite_url(template.as_str(), url);
                escape_href_into(output, target.as_str(), relaxed_autolinks);
            },
            None => escape_href_into(output, url, relaxed_autolinks),
        }
    } else {
        proof {
            assert(output@ =~= start + Seq::<char>::empty());
        }
    }
}

/// ` title="escaped title"` for a non-empty title.
pub open spec fn title_markup(title: Seq<char>) -> Seq<char> {
    if title.len() > 0 {
        " title=\""@ + html_escaped(title) + "\""@
    } else {
        Seq::empty()
    }
}

fn write_title(output: &mut String, title: &str)
    ensures
        final(output)@ == old(output)@ + title_markup(title@),
{
    let ghost start = output@;
    if !title.is_empty() {
        push_str(output, " title=\"");
        escape_into(output, title);
        push_str(output, "\"");
    } else {
        proof {
            assert(output@ =~= start + Seq::<char>::empty());
        }
    }
}

/// The attributes of a node, or nothing.
pub open spec fn opt_attrs_markup(attrs: Option<ExAttributes>) -> Seq<char> {
    match attrs {
        Some(a) => attrs_markup(a),
        None => Seq::empty(),
    }
}

fn write_opt_attrs(output: &mut String, attrs: &Option<ExAttributes>)
    ensures
        final(output)@ == old(output)@ + opt_attrs_markup(*attrs),
{
    let ghost start = output@;
    match attrs {
        Some(a) => write_attrs(output, a),
        None => {
            proof {
                assert(output@ =~= start + Seq::<char>::empty());
            }
        },
    }
}

/// What [`render_link`] writes and answers.
pub open spec fn link_markup(options: HtmlRenderOptions, link: LinkNode, entering: bool) -> (
    Seq<char>,
    Rendering,
) {
    if !(options.render_unsafe && link.attrs is Some) {
        (Seq::empty(), Rendering::Comrak)
    } else if options.relaxed_autolinks && link.parent_is_link {
        (Seq::empty(), Rendering::Html)
    } else if entering {
        (
            "<a"@ + sourcepos_markup(options.sourcepos, link.sourcepos) + " href=\""@ + url_markup(
                options.render_unsafe,
                options.relaxed_autolinks,
                options.link_url_rewriter,
                link.url@,
            ) + "\""@ + title_markup(link.title@) + opt_attrs_markup(link.attrs) + ">"@,
            Rendering::Html,
        )
    } else {
        ("</a>"@, Rendering::Html)
    }
}

/// Renders a link the way Comrak does, adding its attributes to the opening
/// tag.
///
/// A link without attributes to write is left to Comrak
/// ([`Rendering::Comrak`], nothing written), so Comrak keeps ownership of
/// link rendering unless there is something to add.
pub fn render_link(
    output: &mut String,
    options: &HtmlRenderOptions,
    link: &LinkNode,
    entering: bool,
) -> (r: Rendering)
    ensures
        final(output)@ == old(output)@ + link_markup(*options, *link, entering).0,
        r == link_markup(*options, *link, entering).1,
{
    let ghost start = output@;
    if !writes_attrs(options.render_unsafe, &link.attrs) {
        proof {
            assert(output@ =~= start + Seq::<char>::empty());
        }
        return Rendering::Comrak;
    }
    if options.relaxed_autolinks && link.parent_is_link {
        proof {
            assert(output@ =~= start + Seq::<char>::empty());
        }
        return Rendering::Html;
    }
    if entering {
        push_str(output, "<a");
        render_sourcepos(output, options.sourcepos, link.sourcepos);
        push_str(output, " href=\"");
        write_url(
            output,
            options.render_unsafe,
            options.relaxed_autolinks,
            &options.link_url_rewriter,
            link.url.as_str(),
        );
        push_str(output, "\"");
        write_title(output, link.title.as_str());
        write_opt_attrs(output, &link.attrs);
        push_str(output, ">");
    } else {
        push_str(output, "</a>");
    }
    proof {
        assert(output@ =~= start + link_markup(*options, *link, entering).0);
    }
    Rendering::Html
}

/// `<figcaption>escaped title</figcaption>` for a non-empty title.
pub open spec fn caption_markup(title: Seq<char>) -> Seq<char> {
    if title.len() > 0 {
        "<figcaption>"@ + html_escaped(title) + "</figcaption>"@
    } else {
        Seq::empty()
    }
}

/// What [`render_image`] writes and answers.
pub open spec fn image_markup(options: HtmlRenderOptions, image: LinkNode, entering: bool) -> (
    Seq<char>,
    Rendering,
) {
    if !(options.render_unsafe && image.attrs is Some) {
        (Seq::empty(), Rendering::Comrak)
    } else if entering {
        (
            (if options.figure_with_caption {
                "<figure>"@
            } else {
                Seq::empty()
            }) + "<img"@ + sourcepos_markup(options.sourcepos, image.sourcepos) + " src=\""@
                + url_markup(
                options.render_unsafe,
                options.relaxed_autolinks,
                options.image_url_rewriter,
                image.url@,
            ) + "\" alt=\""@,
            Rendering::Plain,
        )
    } else {
        (
            "\""@ + title_markup(image.title@) + opt_attrs_markup(image.attrs) + " />"@ + (
            if options.figure_with_caption {
                caption_markup(image.title@) + "</figure>"@
            } else {
                Seq::empty()
            }),
            Rendering::Html,
        )
    }
}

/// Renders an image the way Comrak does, adding its attributes to the
/// `<img>` tag.
///
/// The children of an image render as its `alt` text, which is why entering
/// answers [`Rendering::Plain`] and the tag is closed on exit. An image
/// without attributes to write is left to Comrak.
pub fn render_image(
    output: &mut String,
    options: &HtmlRenderOptions,
    image: &LinkNode,
    entering: bool,
) -> (r: Rendering)
    ensures
        final(output)@ == old(output)@ + image_markup(*options, *image, entering).0,
        r == image_markup(*options, *image, entering).1,
{
    let ghost start = output@;
    if !writes_attrs(options.render_unsafe, &image.attrs) {
        proof {
            assert(output@ =~= start + Seq::<char>::empty());
        }
        return Rendering::Comrak;
    }
    if entering {
        if options.figure_with_caption {
            push_str(output, "<figure>");
        }
        let ghost after_figure = output@;
        proof {
            if !options.figure_with_caption {
                assert(after_figure =~= start + Seq::<char>::empty());
            }
        }
        push_str(output, "<img");
        render_sourcepos(output, options.sourcepos, image.sourcepos);
        push_str(output, " src=\"");
        write_url(
            output,
            options.render_unsafe,
            options.relaxed_autolinks,
            &options.image_url_rewriter,
            image.url.as_str(),
        );
        push_str(output, "\" alt=\"");
        proof {
            assert(output@ =~= start + image_markup(*options, *image, entering).0);
        }
        return Rendering::Plain;
    }
    push_str(output, "\"");
    write_title(output, image.title.as_str());
    write_opt_attrs(output, &image.attrs);
    push_str(output, " />");
    let ghost after_tag = output@;
    if options.figure_with_caption {
        if !image.title.as_str().is_empty() {
            push_str(output, "<figcaption>");
            escape_into(output, image.title.as_str());
            push_str(output, "</figcaption>");
        }
        let ghost after_caption = output@;
        proof {
            if image.title@.len() == 0 {
                assert(after_caption =~= after_tag + Seq::<char>::empty());
            }
            assert(after_caption =~= after_tag + caption_markup(image.title@));
        }
        push_str(output, "</figure>");
    } else {
        proof {
            assert(output@ =~= after_tag + Seq::<char>::empty());
        }
    }
    proof {
        assert(output@ =~= start + image_markup(*options, *image, entering).0);
    }
    Rendering::Html
}


/// The anchor a fresh `comrak::Anchorizer` makes of a heading's text.
pub uninterp spec fn anchor_of(text: Seq<char>) -> Seq<char>;

/// Whether a character can stand in an anchor: the anchorizer keeps only
/// letters, marks, numbers, connector punctuation and `-`, and turns spaces
/// into `-`, so no space and none of the HTML-special characters survive.
pub open spec fn anchor_char(c: char) -> bool {
    c != ' ' && c != '<' && c != '>' && c != '"' && c != '&' && c != '\''
}

/// The GFM anchor of a heading's text, through a fresh
/// `comrak::Anchorizer::anchorize`: lower case, with spaces made dashes and
/// every character dropped that is not a letter, mark, number, connector
/// punctuation or dash. The Unicode tables are only named; that no space
/// and no HTML-special character survives is stated.
#[verifier::external_body]
pub fn text_to_anchor(text: &str) -> (r: String)
    ensures
        r@ == anchor_of(text@),
        forall|i: int| 0 <= i < r@.len() ==> anchor_char(#[trigger] r@[i]),
{
    comrak::Anchorizer::new().anchorize(text)
}


/// Attributes are document content that can execute, so nothing is written
/// for a link or an image unless rendering is unsafe and the node carries
/// attributes: otherwise Comrak renders it as it always would.
pub proof fn law_attributes_need_unsafe_render(
    options: HtmlRenderOptions,
    node: LinkNode,
    entering: bool,
)
    requires
        !options.render_unsafe || node.attrs is None,
    ensures
        link_markup(options, node, entering) == (Seq::<char>::empty(), Rendering::Comrak),
        image_markup(options, node, entering) == (Seq::<char>::empty(), Rendering::Comrak),
{
}

/// The template `{@url}` rewrites every URL to itself.
pub proof fn law_plain_template_keeps_url(url: Seq<char>)
    ensures
        rewritten("{@url}"@, url) == url,
{
    let p = "{@url}"@;
    reveal_strlit("{@url}");
    assert(p.subrange(0, p.len() as int) =~= p);
    assert(crate::text::occurs_at(p, p, 0));
    assert(p.skip(p.len() as int) =~= Seq::<char>::empty());
    assert(replaced(p.skip(p.len() as int), p, url) == Seq::<char>::empty());
    assert(url + Seq::<char>::empty() =~= url);
}


/// Text escaped the way Comrak escapes it holds no `"`, `<` or `>`, so an
/// escaped attribute value or title cannot leave its quotes or open a tag.
pub proof fn law_escaped_text_cannot_break_out(s: Seq<char>, c: char)
    requires
        c == '"' || c == '<' || c == '>',
    ensures
        crate::text::lacks(html_escaped(s), c),
    decreases s.len(),
{
    reveal_strlit("&quot;");
    reveal_strlit("&amp;");
    reveal_strlit("&lt;");
    reveal_strlit("&gt;");
    if s.len() > 0 {
        law_escaped_text_cannot_break_out(s.drop_last(), c);
        let head = html_escaped(s.drop_last());
        let tail = escaped_char(s.last());
        assert(crate::text::lacks(tail, c));
        assert(html_escaped(s) == head + tail);
        assert forall|i: int| 0 <= i < head.len() + tail.len() implies (head + tail)[i] != c by {
            if i < head.len() {
                assert((head + tail)[i] == head[i]);
            } else {
                assert((head + tail)[i] == tail[i - head.len()]);
            }
        }
    }
}

/// Empty attributes add nothing: a link or an image that carries an
/// attribute set with no id, no class and no pair is written exactly as
/// it is without one, `<a` or `<img`, source position, URL, title and the
/// closing markup, with nothing between the title and the end of the tag.
pub proof fn law_empty_attributes_add_nothing(
    options: HtmlRenderOptions,
    node: LinkNode,
    entering: bool,
)
    requires
        options.render_unsafe,
        node.attrs matches Some(a) && a.id is None && a.classes@.len() == 0 && a.pairs@.len()
            == 0,
    ensures
        opt_attrs_markup(node.attrs) == Seq::<char>::empty(),
        entering && !(options.relaxed_autolinks && node.parent_is_link) ==> link_markup(
            options,
            node,
            entering,
        ) == ("<a"@ + sourcepos_markup(options.sourcepos, node.sourcepos) + " href=\""@
            + url_markup(
            options.render_unsafe,
            options.relaxed_autolinks,
            options.link_url_rewriter,
            node.url@,
        ) + "\""@ + title_markup(node.title@) + ">"@, Rendering::Html),
        !entering ==> image_markup(options, node, entering) == ("\""@ + title_markup(node.title@)
            + " />"@ + (if options.figure_with_caption {
            caption_markup(node.title@) + "</figure>"@
        } else {
            Seq::empty()
        }), Rendering::Html),
{
    let a = node.attrs->0;
    assert(pairs_markup(a.pairs@) =~= Seq::<char>::empty());
    assert(attrs_markup(a) =~= Seq::<char>::empty());
    let t = title_markup(node.title@);
    assert(t + Seq::<char>::empty() =~= t);
    let head = "<a"@ + sourcepos_markup(options.sourcepos, node.sourcepos) + " href=\""@
        + url_markup(
        options.render_unsafe,
        options.relaxed_autolinks,
        options.link_url_rewriter,
        node.url@,
    ) + "\""@ + t;
    assert(head + Seq::<char>::empty() =~= head);
    let close = "\""@ + t;
    assert(close + Seq::<char>::empty() =~= close);
}

/// An image's `src` goes through the image URL rewriter: rendering an
/// image under a rewriter template is rendering the rewritten URL with no
/// rewriter. The same holds of a link's `href` and the link URL rewriter.
pub proof fn law_rewriters_rewrite_their_own_urls(
    options: HtmlRenderOptions,
    node: LinkNode,
    rewritten_node: LinkNode,
    template: String,
    entering: bool,
)
    requires
        options.render_unsafe,
        rewritten_node.url@ == rewritten(template@, node.url@),
        rewritten_node.title == node.title,
        rewritten_node.attrs == node.attrs,
        rewritten_node.sourcepos == node.sourcepos,
        rewritten_node.parent_is_link == node.parent_is_link,
    ensures
        options.image_url_rewriter == Some(template) ==> image_markup(options, node, entering)
            == image_markup(
            (HtmlRenderOptions { image_url_rewriter: None, ..options }),
            rewritten_node,
            entering,
        ),
        options.link_url_rewriter == Some(template) ==> link_markup(options, node, entering)
            == link_markup(
            (HtmlRenderOptions { link_url_rewriter: None, ..options }),
            rewritten_node,
            entering,
        ),
{
}

/// Each rewriter is for its own kind of node: images do not depend on the
/// link URL rewriter, and links do not depend on the image URL rewriter.
pub proof fn law_rewriters_do_not_cross(
    options: HtmlRenderOptions,
    other: Option<String>,
    node: LinkNode,
    entering: bool,
)
    ensures
        image_markup(options, node, entering) == image_markup(
            (HtmlRenderOptions { link_url_rewriter: other, ..options }),
            node,
            entering,
        ),
        link_markup(options, node, entering) == link_markup(
            (HtmlRenderOptions { image_url_rewriter: other, ..options }),
            node,
            entering,
        ),
{
}

} // verus!
