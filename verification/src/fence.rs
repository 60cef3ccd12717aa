//! Decorator policy for highlighted code fences.
//!
//! A fence's info string may carry attributes (`pre_class`, `theme`,
//! `highlight_lines` and the like). They override the formatter the caller
//! asked for; an unset one falls back to what MDEx has always rendered. In a
//! safe render every attribute value is HTML-escaped before it reaches the
//! formatter.

use vstd::prelude::*;
use vstd::string::*;
use vstd::utf8::{decode_utf8, valid_utf8};

use crate::bridge::{str_from_utf8, HighlightEvent};

use crate::elixir_types::{
    contiguous_spans, stepped_specs, ExAppearance, ExAttrValue, ExFormatterOption, ExHtmlInlineHighlightLines, ExHtmlInlineHighlightLinesStyle,
    ExHtmlLinkedHighlightLines, ExLineSpec, ThemeOrString,
};
use crate::text::{
    lacks, chars_of, contains_seq, contains_text, find_char, index_of_or_len, lemma_index_of_or_len,
    parse_usize, parsed_usize, same_text, trim_bounds, trimmed,
};

verus! {

/// The map a sequence of name/value pairs stands for: a later pair for a
/// name replaces an earlier one.
pub open spec fn pairs_map(s: Seq<(Seq<char>, Seq<char>)>) -> Map<Seq<char>, Seq<char>>
    decreases s.len(),
{
    if s.len() == 0 {
        Map::empty()
    } else {
        pairs_map(s.drop_last()).insert(s.last().0, s.last().1)
    }
}

/// The value an attribute map gives a name, if any.
pub open spec fn attr(a: Map<Seq<char>, Seq<char>>, name: Seq<char>) -> Option<Seq<char>> {
    if a.contains_key(name) {
        Some(a[name])
    } else {
        None
    }
}

/// The attributes of a code fence, by name.
pub struct FenceAttributes {
    entries: Vec<(String, String)>,
}

impl FenceAttributes {
    /// The entries as plain character sequences, in the order they came.
    pub closed spec fn pairs(&self) -> Seq<(Seq<char>, Seq<char>)> {
        self.entries@.map_values(|p: (String, String)| (p.0@, p.1@))
    }
}

impl View for FenceAttributes {
    type V = Map<Seq<char>, Seq<char>>;

    closed spec fn view(&self) -> Map<Seq<char>, Seq<char>> {
        pairs_map(self.pairs())
    }
}

/// Pairs after position `i` that do not name `k` leave the map's answer for
/// `k` as the first `i` pairs give it.
proof fn lemma_pairs_map_suffix(s: Seq<(Seq<char>, Seq<char>)>, i: int, k: Seq<char>)
    requires
        0 <= i <= s.len(),
        forall|j: int| i <= j < s.len() ==> s[j].0 != k,
    ensures
        attr(pairs_map(s), k) == attr(pairs_map(s.take(i)), k),
    decreases s.len(),
{
    if i == s.len() {
        assert(s.take(i) =~= s);
    } else {
        let t = s.drop_last();
        assert forall|j: int| i <= j < t.len() implies t[j].0 != k by {
            assert(t[j] == s[j]);
        }
        lemma_pairs_map_suffix(t, i, k);
        assert(t.take(i) =~= s.take(i));
    }
}

impl FenceAttributes {
    /// No attributes.
    pub fn new() -> (r: Self)
        ensures
            r@ == Map::<Seq<char>, Seq<char>>::empty(),
    {
        let r = FenceAttributes { entries: Vec::new() };
        proof {
            assert(r.pairs() =~= Seq::<(Seq<char>, Seq<char>)>::empty());
        }
        r
    }

    /// Sets `name` to `value`, replacing what it had.
    pub fn insert(&mut self, name: String, value: String)
        ensures
            final(self)@ == old(self)@.insert(name@, value@),
    {
        let ghost before = self.pairs();
        self.entries.push((name, value));
        proof {
            assert(self.pairs().drop_last() =~= before);
            assert(self.pairs().last() == (name@, value@));
        }
    }

    /// The value of `name`, if the fence has it.
    pub fn get(&self, name: &str) -> (r: Option<&String>)
        ensures
            match r {
                Some(v) => attr(self@, name@) == Some(v@),
                None => attr(self@, name@) is None,
            },
    {
        let ghost s = self.pairs();
        let mut i = self.entries.len();
        while i > 0
            invariant
                i <= self.entries@.len(),
                s == self.pairs(),
                s.len() == self.entries@.len(),
                forall|j: int| i <= j < s.len() ==> s[j].0 != name@,
            decreases i,
        {
            let entry = &self.entries[i - 1];
            proof {
                assert(s[i - 1] == (entry.0@, entry.1@));
            }
            if same_text(entry.0.as_str(), name) {
                proof {
                    lemma_pairs_map_suffix(s, i as int, name@);
                    assert(s.take(i as int).drop_last() =~= s.take(i - 1));
                    assert(s.take(i as int).last() == s[i - 1]);
                }
                return Some(&entry.1);
            }
            i = i - 1;
        }
        proof {
            lemma_pairs_map_suffix(s, 0, name@);
            assert(s.take(0) =~= Seq::<(Seq<char>, Seq<char>)>::empty());
        }
        None
    }

    /// Whether the fence has `name`.
    pub fn contains_key(&self, name: &str) -> (r: bool)
        ensures
            r == self@.contains_key(name@),
    {
        self.get(name).is_some()
    }
}

/// The entity `lumis_core::formatter::html::escape` writes for a character,
/// or the character itself.
pub open spec fn lumis_entity(c: char) -> Seq<char> {
    if c == '&' {
        "&amp;"@
    } else if c == '<' {
        "&lt;"@
    } else if c == '>' {
        "&gt;"@
    } else if c == '"' {
        "&quot;"@
    } else if c == '\'' {
        "&#39;"@
    } else {
        seq![c]
    }
}

/// Text escaped for HTML the way Lumis escapes it: `&`, `<`, `>`, `"` and
/// `'` become entities and nothing else changes.
pub open spec fn lumis_escaped(s: Seq<char>) -> Seq<char>
    decreases s.len(),
{
    if s.len() == 0 {
        Seq::empty()
    } else {
        lumis_escaped(s.drop_last()) + lumis_entity(s.last())
    }
}

/// Escapes text with `lumis_core::formatter::html::escape`, which replaces
/// each of the five bytes `&`, `<`, `>`, `"`, `'` by its entity and copies
/// every other byte.
#[verifier::external_body]
fn lumis_escape(text: &str) -> (r: String)
    ensures
        r@ == lumis_escaped(text@),
{
    lumis_core::formatter::html::escape(text)
}

/// What a decorator value becomes: itself in an unsafe render, escaped
/// otherwise.
pub open spec fn decorator_value(value: Seq<char>, render_unsafe: bool) -> Seq<char> {
    if render_unsafe {
        value
    } else {
        lumis_escaped(value)
    }
}

/// The value of a decorator as it reaches the formatter, if the fence has it.
pub open spec fn decorator(
    a: Map<Seq<char>, Seq<char>>,
    name: Seq<char>,
    render_unsafe: bool,
) -> Option<Seq<char>> {
    match attr(a, name) {
        Some(v) => Some(decorator_value(v, render_unsafe)),
        None => None,
    }
}

/// The characters of an optional string.
pub open spec fn opt_text(s: Option<String>) -> Option<Seq<char>> {
    match s {
        Some(t) => Some(t@),
        None => None,
    }
}

/// Escapes a decorator value unless the render is unsafe.
pub fn escape_mdex_attribute(value: &str, render_unsafe: bool) -> (r: String)
    ensures
        r@ == decorator_value(value@, render_unsafe),
{
    if render_unsafe {
        value.to_string()
    } else {
        lumis_escape(value)
    }
}

/// The decorator `name`, escaped unless the render is unsafe.
pub fn mdex_attribute(attributes: &FenceAttributes, name: &str, render_unsafe: bool) -> (r: Option<
    String,
>)
    ensures
        opt_text(r) == decorator(attributes@, name@, render_unsafe),
{
    match attributes.get(name) {
        Some(value) => Some(escape_mdex_attribute(value.as_str(), render_unsafe)),
        None => None,
    }
}


/// The pieces of `s` between commas, as `str::split(',')` cuts them.
pub open spec fn comma_parts(s: Seq<char>) -> Seq<Seq<char>>
    decreases s.len(),
{
    let k = index_of_or_len(s, ',');
    if k >= s.len() {
        seq![s]
    } else {
        seq![s.take(k as int)] + comma_parts(s.skip(k as int + 1))
    }
}

/// What one comma-separated part of a `highlight_lines` decorator means,
/// once trimmed: `a-b` is the lines `a` to `b` when both parse and
/// `0 < a <= b`, a number `n > 0` is line `n`, and anything else (an empty
/// part among them) means nothing.
pub open spec fn line_spec_of(part: Seq<char>) -> Option<ExLineSpec> {
    let t = trimmed(part);
    let k = index_of_or_len(t, '-');
    if t.len() == 0 {
        None
    } else if k < t.len() {
        match (parsed_usize(trimmed(t.take(k as int))), parsed_usize(trimmed(t.skip(k as int + 1)))) {
            (Some(a), Some(b)) => if a == 0 || a > b {
                None
            } else {
                Some(ExLineSpec::Range { start: a as usize, end: b as usize, step: 1 })
            },
            _ => None,
        }
    } else {
        match parsed_usize(t) {
            Some(n) => if n > 0 {
                Some(ExLineSpec::Single(n as usize))
            } else {
                None
            },
            None => None,
        }
    }
}

/// The line specs of the parts that mean one, in order.
pub open spec fn line_specs(parts: Seq<Seq<char>>) -> Seq<ExLineSpec>
    decreases parts.len(),
{
    if parts.len() == 0 {
        Seq::empty()
    } else {
        (match line_spec_of(parts[0]) {
            Some(l) => seq![l],
            None => Seq::empty(),
        }) + line_specs(parts.drop_first())
    }
}

/// Reads one part, `cs[lo..hi]`, of a `highlight_lines` decorator.
fn parse_line_spec(cs: &Vec<char>, lo: usize, hi: usize) -> (r: Option<ExLineSpec>)
    requires
        lo <= hi <= cs@.len(),
    ensures
        r == line_spec_of(cs@.subrange(lo as int, hi as int)),
{
    let ghost part = cs@.subrange(lo as int, hi as int);
    let (a, b) = trim_bounds(cs, lo, hi);
    let ghost t = cs@.subrange(a as int, b as int);
    if a == b {
        return None;
    }
    let m = find_char(cs, a, b, '-');
    proof {
        lemma_index_of_or_len(t, '-');
    }
    if m < b {
        proof {
            assert(t.take(m - a) =~= cs@.subrange(a as int, m as int));
            assert(t.skip(m - a + 1) =~= cs@.subrange(m + 1, b as int));
        }
        let (a1, b1) = trim_bounds(cs, a, m);
        let (a2, b2) = trim_bounds(cs, m + 1, b);
        let start = parse_usize(cs, a1, b1);
        let end = parse_usize(cs, a2, b2);
        match (start, end) {
            (Some(s), Some(e)) => {
                if s == 0 || s > e {
                    None
                } else {
                    Some(ExLineSpec::Range { start: s, end: e, step: 1 })
                }
            },
            _ => None,
        }
    } else {
        match parse_usize(cs, a, b) {
            Some(n) => {
                if n > 0 {
                    Some(ExLineSpec::Single(n))
                } else {
                    None
                }
            },
            None => None,
        }
    }
}

/// Parses a `highlight_lines` decorator such as `1, 3-5`.
///
/// A part that does not parse is dropped on its own, so one typo does not
/// turn off highlighting for the whole fence; the answer is always `Some`.
pub fn parse_highlight_lines(spec: &str) -> (r: Option<Vec<ExLineSpec>>)
    ensures
        r matches Some(v) && v@ == line_specs(comma_parts(spec@)),
{
    let cs = chars_of(spec);
    let mut out: Vec<ExLineSpec> = Vec::new();
    let mut lo: usize = 0;
    proof {
        assert(cs@.skip(0) =~= cs@);
        assert(out@ + line_specs(comma_parts(cs@)) =~= line_specs(comma_parts(cs@)));
    }
    loop
        invariant
            cs@ == spec@,
            lo <= cs@.len(),
            out@ + line_specs(comma_parts(cs@.skip(lo as int))) == line_specs(comma_parts(spec@)),
        decreases cs@.len() - lo,
    {
        let ghost rest = cs@.skip(lo as int);
        let ghost before = out@;
        let k = find_char(&cs, lo, cs.len(), ',');
        proof {
            assert(cs@.subrange(lo as int, cs@.len() as int) =~= rest);
            lemma_index_of_or_len(rest, ',');
            assert(rest.take(k - lo) =~= cs@.subrange(lo as int, k as int));
        }
        let parsed = parse_line_spec(&cs, lo, k);
        let ghost head = match parsed {
            Some(l) => seq![l],
            None => Seq::<ExLineSpec>::empty(),
        };
        if let Some(l) = parsed {
            out.push(l);
        }
        proof {
            assert(out@ =~= before + head);
            let parts = comma_parts(rest);
            if k == cs.len() {
                assert(parts == seq![rest]);
                assert(rest.take(k - lo) =~= rest);
                assert(parts.drop_first() =~= Seq::<Seq<char>>::empty());
            } else {
                assert(rest.skip(k - lo + 1) =~= cs@.skip(k + 1));
                assert(parts == seq![rest.take(k - lo)] + comma_parts(cs@.skip(k + 1)));
                assert(parts.drop_first() =~= comma_parts(cs@.skip(k + 1)));
            }
            assert(parts[0] == rest.take(k - lo));
            assert(line_specs(parts) == head + line_specs(parts.drop_first()));
            assert(out@ + line_specs(parts.drop_first()) =~= before + line_specs(parts));
        }
        if k == cs.len() {
            proof {
                assert(out@ + Seq::<ExLineSpec>::empty() =~= out@);
            }
            return Some(out);
        }
        lo = k + 1;
    }
}


/// How highlighted lines are painted, as the contracts speak of it.
pub ghost enum LineStyle {
    /// With the theme's own colour.
    Theme,
    /// With the given CSS.
    Style(Seq<char>),
}

/// The painting a highlighted-lines style asks for.
pub open spec fn line_style(s: Option<ExHtmlInlineHighlightLinesStyle>) -> Option<LineStyle> {
    match s {
        Some(ExHtmlInlineHighlightLinesStyle::Theme) => Some(LineStyle::Theme),
        Some(ExHtmlInlineHighlightLinesStyle::Style { style }) => Some(LineStyle::Style(style@)),
        None => None,
    }
}

/// The painting the decorators ask for: `highlight_lines_style` (the word
/// `theme`, or CSS escaped unless unsafe), else the default style given.
pub open spec fn decorated_line_style(
    a: Map<Seq<char>, Seq<char>>,
    default_style: Option<Seq<char>>,
    render_unsafe: bool,
) -> Option<LineStyle> {
    match attr(a, "highlight_lines_style"@) {
        Some(v) => Some(
            if v == "theme"@ {
                LineStyle::Theme
            } else {
                LineStyle::Style(decorator_value(v, render_unsafe))
            },
        ),
        None => match default_style {
            Some(style) => Some(LineStyle::Style(style)),
            None => None,
        },
    }
}

/// The lines of the `highlight_lines` decorator.
pub open spec fn decorated_lines(a: Map<Seq<char>, Seq<char>>) -> Seq<ExLineSpec> {
    line_specs(comma_parts(a["highlight_lines"@]))
}

/// `h` is the inline highlighted-lines option the decorators describe.
pub open spec fn inline_lines_from(
    h: ExHtmlInlineHighlightLines,
    a: Map<Seq<char>, Seq<char>>,
    default_style: Option<Seq<char>>,
    render_unsafe: bool,
) -> bool {
    &&& h.lines@ == decorated_lines(a)
    &&& line_style(h.style) == decorated_line_style(a, default_style, render_unsafe)
    &&& opt_text(h.class) == decorator(a, "highlight_lines_class"@, render_unsafe)
}

/// The inline highlighted-lines option of the decorators, when the fence
/// has `highlight_lines`.
pub fn inline_highlight_lines(
    attributes: &FenceAttributes,
    default_style: Option<String>,
    render_unsafe: bool,
) -> (r: Option<ExHtmlInlineHighlightLines>)
    ensures
        r is Some <==> attributes@.contains_key("highlight_lines"@),
        r matches Some(h) ==> inline_lines_from(
            h,
            attributes@,
            opt_text(default_style),
            render_unsafe,
        ),
{
    let spec_text = match attributes.get("highlight_lines") {
        Some(value) => value,
        None => {
            return None;
        },
    };
    let lines = match parse_highlight_lines(spec_text.as_str()) {
        Some(lines) => lines,
        None => {
            return None;
        },
    };
    let style = match attributes.get("highlight_lines_style") {
        Some(style) => {
            if same_text(style.as_str(), "theme") {
                Some(ExHtmlInlineHighlightLinesStyle::Theme)
            } else {
                Some(
                    ExHtmlInlineHighlightLinesStyle::Style {
                        style: escape_mdex_attribute(style.as_str(), render_unsafe),
                    },
                )
            }
        },
        None => match default_style {
            Some(style) => Some(ExHtmlInlineHighlightLinesStyle::Style { style }),
            None => None,
        },
    };
    Some(
        ExHtmlInlineHighlightLines {
            lines,
            style,
            class: mdex_attribute(attributes, "highlight_lines_class", render_unsafe),
        },
    )
}

/// The linked highlighted-lines option of the decorators, when the fence
/// has `highlight_lines`; the class defaults to `highlighted`.
pub fn linked_highlight_lines(attributes: &FenceAttributes, render_unsafe: bool) -> (r: Option<
    ExHtmlLinkedHighlightLines,
>)
    ensures
        r is Some <==> attributes@.contains_key("highlight_lines"@),
        r matches Some(h) ==> h.lines@ == decorated_lines(attributes@) && h.class@ == match decorator(
            attributes@,
            "highlight_lines_class"@,
            render_unsafe,
        ) {
            Some(class) => class,
            None => "highlighted"@,
        },
{
    let spec_text = match attributes.get("highlight_lines") {
        Some(value) => value,
        None => {
            return None;
        },
    };
    let lines = match parse_highlight_lines(spec_text.as_str()) {
        Some(lines) => lines,
        None => {
            return None;
        },
    };
    let class = match mdex_attribute(attributes, "highlight_lines_class", render_unsafe) {
        Some(class) => class,
        None => String::from_str("highlighted"),
    };
    Some(ExHtmlLinkedHighlightLines { lines, class })
}

/// Whether a built-in Lumis theme of this name is light, for the names
/// Lumis knows.
pub uninterp spec fn builtin_theme_is_light(name: Seq<char>) -> Option<bool>;

/// Looks a theme up by name with `lumis_core::themes::get` and reports
/// whether its appearance is light; `None` for a name Lumis does not know.
/// The table of built-in themes is only named.
#[verifier::external_body]
fn builtin_theme_light(name: &str) -> (r: Option<bool>)
    ensures
        r == builtin_theme_is_light(name@),
{
    match lumis_core::themes::get(name) {
        Ok(theme) => match theme.appearance {
            lumis_core::themes::Appearance::Light => Some(true),
            lumis_core::themes::Appearance::Dark => Some(false),
        },
        Err(_) => None,
    }
}

/// What `str::to_lowercase` gives for a string.
pub uninterp spec fn lowercased(s: Seq<char>) -> Seq<char>;

/// Lowercases a string with `str::to_lowercase`; the Unicode mapping is
/// only named.
#[verifier::external_body]
fn to_lowercase(s: &str) -> (r: String)
    ensures
        r@ == lowercased(s@),
{
    s.to_lowercase()
}

/// Whether a theme named `name` counts as light: by its appearance when
/// Lumis knows it, else by `light` in its lowercased name.
pub open spec fn name_is_light(name: Seq<char>) -> bool {
    match builtin_theme_is_light(name) {
        Some(light) => light,
        None => contains_seq(lowercased(name), "light"@),
    }
}

/// Whether a theme counts as light; no theme counts as dark.
pub open spec fn theme_is_light(theme: Option<ThemeOrString>) -> bool {
    match theme {
        Some(ThemeOrString::Theme(t)) => t.appearance == ExAppearance::Light,
        Some(ThemeOrString::String(name)) => name_is_light(name@),
        None => false,
    }
}

/// The CSS a highlighted line gets by default on a light or a dark theme.
pub open spec fn line_background_css(light: bool) -> Seq<char> {
    if light {
        "background-color: #e7eaf0;"@
    } else {
        "background-color: #3b4252;"@
    }
}

/// Whether the theme named `name` counts as light.
fn named_theme_light(name: &str) -> (r: bool)
    ensures
        r == name_is_light(name@),
{
    match builtin_theme_light(name) {
        Some(light) => light,
        None => {
            let lower = to_lowercase(name);
            contains_text(lower.as_str(), "light")
        },
    }
}

/// The default CSS of a highlighted line under `theme`.
pub fn line_background(theme: &Option<ThemeOrString>) -> (r: String)
    ensures
        r@ == line_background_css(theme_is_light(*theme)),
{
    let is_light = match theme {
        Some(ThemeOrString::Theme(t)) => match t.appearance {
            ExAppearance::Light => true,
            ExAppearance::Dark => false,
        },
        Some(ThemeOrString::String(name)) => named_theme_light(name.as_str()),
        None => false,
    };
    if is_light {
        String::from_str("background-color: #e7eaf0;")
    } else {
        String::from_str("background-color: #3b4252;")
    }
}

/// The default CSS of a highlighted line under the theme of this name, or
/// under no theme.
pub fn line_background_from_name(theme: Option<&String>) -> (r: String)
    ensures
        r@ == line_background_css(
            match theme {
                Some(name) => name_is_light(name@),
                None => false,
            },
        ),
{
    let theme = match theme {
        Some(name) => Some(ThemeOrString::String(name.clone())),
        None => None,
    };
    line_background(&theme)
}


/// `r` is the highlighted-lines option of a multi-theme block: the
/// decorators' own when the fence has `highlight_lines`, painted by default
/// with the background of the `theme` decorator; else the caller's, with a
/// `theme` style resolved to that background.
pub open spec fn multi_lines_decorated(
    r: Option<ExHtmlInlineHighlightLines>,
    highlight_lines: Option<ExHtmlInlineHighlightLines>,
    a: Map<Seq<char>, Seq<char>>,
    render_unsafe: bool,
) -> bool {
    let background = line_background_css(
        match attr(a, "theme"@) {
            Some(name) => name_is_light(name),
            None => false,
        },
    );
    if a.contains_key("highlight_lines"@) {
        r matches Some(h) && inline_lines_from(h, a, Some(background), render_unsafe)
    } else {
        match highlight_lines {
            None => r is None,
            Some(given) => r matches Some(h) && h.lines == given.lines && h.class == given.class
                && line_style(h.style) == match line_style(given.style) {
                Some(LineStyle::Theme) => Some(LineStyle::Style(background)),
                other => other,
            },
        }
    }
}

/// The highlighted lines of a multi-theme block: the decorators' own when
/// the fence has `highlight_lines`, else the caller's, with a `theme` style
/// resolved against the decorator's theme, which the formatter cannot see.
pub fn multi_theme_highlight_lines(
    highlight_lines: Option<ExHtmlInlineHighlightLines>,
    attributes: &FenceAttributes,
    render_unsafe: bool,
) -> (r: Option<ExHtmlInlineHighlightLines>)
    ensures
        multi_lines_decorated(r, highlight_lines, attributes@, render_unsafe),
{
    let background = line_background_from_name(attributes.get("theme"));
    if let Some(lines) = inline_highlight_lines(attributes, Some(background), render_unsafe) {
        return Some(lines);
    }
    let mut highlight_lines = match highlight_lines {
        Some(lines) => lines,
        None => {
            return None;
        },
    };
    if let Some(ExHtmlInlineHighlightLinesStyle::Theme) = highlight_lines.style {
        highlight_lines.style = Some(
            ExHtmlInlineHighlightLinesStyle::Style {
                style: line_background_from_name(attributes.get("theme")),
            },
        );
    }
    Some(highlight_lines)
}


/// The theme an inline block renders with: the `theme` decorator by name,
/// else the caller's, else `onedark`.
pub open spec fn decorated_theme(
    t: Option<ThemeOrString>,
    given: Option<ThemeOrString>,
    a: Map<Seq<char>, Seq<char>>,
) -> bool {
    match attr(a, "theme"@) {
        Some(name) => t matches Some(ThemeOrString::String(n)) && n@ == name,
        None => match given {
            Some(g) => t == Some(g),
            None => t matches Some(ThemeOrString::String(n)) && n@ == "onedark"@,
        },
    }
}

/// `pre_class` as the decorators leave it: theirs, escaped unless unsafe,
/// over the caller's.
pub open spec fn decorated_pre_class(
    a: Map<Seq<char>, Seq<char>>,
    given: Option<String>,
    render_unsafe: bool,
) -> Option<Seq<char>> {
    match decorator(a, "pre_class"@, render_unsafe) {
        Some(class) => Some(class),
        None => opt_text(given),
    }
}

/// `f` is the inline HTML formatter the decorators make of the caller's
/// inline options; the header is always dropped.
pub open spec fn inline_decorated(
    f: ExFormatterOption,
    theme: Option<ThemeOrString>,
    pre_class: Option<String>,
    pre_attrs: Seq<(String, ExAttrValue)>,
    code_attrs: Seq<(String, ExAttrValue)>,
    italic: bool,
    include_highlights: bool,
    highlight_lines: Option<ExHtmlInlineHighlightLines>,
    line_numbers: bool,
    a: Map<Seq<char>, Seq<char>>,
    render_unsafe: bool,
) -> bool {
    f matches ExFormatterOption::HtmlInline {
        theme: t,
        pre_class: pc,
        pre_attrs: pa,
        code_attrs: ca,
        italic: it,
        include_highlights: ih,
        highlight_lines: hl,
        line_numbers: ln,
        header: hd,
    } && decorated_theme(t, theme, a) && opt_text(pc) == decorated_pre_class(
        a,
        pre_class,
        render_unsafe,
    ) && pa@ == pre_attrs && ca@ == code_attrs && it == italic && ih == (include_highlights
        || a.contains_key("include_highlights"@)) && ln == line_numbers && hd is None && (if a.contains_key(
        "highlight_lines"@,
    ) {
        hl matches Some(h) && inline_lines_from(
            h,
            a,
            Some(line_background_css(theme_is_light(t))),
            render_unsafe,
        )
    } else {
        hl == highlight_lines
    })
}

/// The inline HTML formatter with the decorators applied over the caller's
/// options. The header is dropped: Comrak writes the closing tags, so an
/// outer header could never be closed.
pub fn html_inline_with_attributes(
    theme: Option<ThemeOrString>,
    pre_class: Option<String>,
    pre_attrs: Vec<(String, ExAttrValue)>,
    code_attrs: Vec<(String, ExAttrValue)>,
    italic: bool,
    include_highlights: bool,
    highlight_lines: Option<ExHtmlInlineHighlightLines>,
    line_numbers: bool,
    attributes: &FenceAttributes,
    render_unsafe: bool,
) -> (r: ExFormatterOption)
    ensures
        inline_decorated(
            r,
            theme,
            pre_class,
            pre_attrs@,
            code_attrs@,
            italic,
            include_highlights,
            highlight_lines,
            line_numbers,
            attributes@,
            render_unsafe,
        ),
{
    let theme = match attributes.get("theme") {
        Some(name) => Some(ThemeOrString::String(name.clone())),
        None => match theme {
            Some(given) => Some(given),
            None => Some(ThemeOrString::String(String::from_str("onedark"))),
        },
    };
    let pre_class = match mdex_attribute(attributes, "pre_class", render_unsafe) {
        Some(class) => Some(class),
        None => pre_class,
    };
    let include_highlights = include_highlights || attributes.contains_key("include_highlights");
    let background = line_background(&theme);
    let highlight_lines = match inline_highlight_lines(attributes, Some(background), render_unsafe) {
        Some(lines) => Some(lines),
        None => highlight_lines,
    };
    ExFormatterOption::HtmlInline {
        theme,
        pre_class,
        pre_attrs,
        code_attrs,
        italic,
        include_highlights,
        highlight_lines,
        line_numbers,
        header: None,
    }
}


/// `r` is what the decorators make of the formatter `f`: each HTML
/// formatter keeps its kind with the decorators applied, a terminal
/// formatter becomes the inline HTML one with its theme, and a BBCode one
/// becomes the inline HTML one with no theme. No header survives.
pub open spec fn mdex_decorated(
    r: ExFormatterOption,
    f: ExFormatterOption,
    a: Map<Seq<char>, Seq<char>>,
    render_unsafe: bool,
) -> bool {
    match f {
        ExFormatterOption::HtmlInline {
            theme,
            pre_class,
            pre_attrs,
            code_attrs,
            italic,
            include_highlights,
            highlight_lines,
            line_numbers,
            header: _,
        } => inline_decorated(
            r,
            theme,
            pre_class,
            pre_attrs@,
            code_attrs@,
            italic,
            include_highlights,
            highlight_lines,
            line_numbers,
            a,
            render_unsafe,
        ),
        ExFormatterOption::HtmlLinked {
            pre_class,
            pre_attrs,
            code_attrs,
            highlight_lines,
            line_numbers,
            header: _,
        } => r matches ExFormatterOption::HtmlLinked {
            pre_class: pc,
            pre_attrs: pa,
            code_attrs: ca,
            highlight_lines: hl,
            line_numbers: ln,
            header: hd,
        } && opt_text(pc) == decorated_pre_class(a, pre_class, render_unsafe) && pa == pre_attrs
            && ca == code_attrs && ln == line_numbers && hd is None && (if a.contains_key(
            "highlight_lines"@,
        ) {
            hl matches Some(h) && h.lines@ == decorated_lines(a) && h.class@ == match decorator(
                a,
                "highlight_lines_class"@,
                render_unsafe,
            ) {
                Some(class) => class,
                None => "highlighted"@,
            }
        } else {
            hl == highlight_lines
        }),
        ExFormatterOption::HtmlMultiThemes {
            themes,
            default_theme,
            css_variable_prefix,
            pre_class,
            pre_attrs,
            code_attrs,
            italic,
            include_highlights,
            highlight_lines,
            line_numbers,
            header: _,
        } => r matches ExFormatterOption::HtmlMultiThemes {
            themes: th,
            default_theme: dt,
            css_variable_prefix: cp,
            pre_class: pc,
            pre_attrs: pa,
            code_attrs: ca,
            italic: it,
            include_highlights: ih,
            highlight_lines: hl,
            line_numbers: ln,
            header: hd,
        } && th == themes && dt == default_theme && cp == css_variable_prefix && opt_text(pc)
            == decorated_pre_class(a, pre_class, render_unsafe) && pa == pre_attrs && ca
            == code_attrs && it == italic && ih == (include_highlights || a.contains_key(
            "include_highlights"@,
        )) && ln == line_numbers && hd is None && multi_lines_decorated(
            hl,
            highlight_lines,
            a,
            render_unsafe,
        ),
        ExFormatterOption::Terminal { theme, .. } => inline_decorated(
            r,
            theme,
            None,
            Seq::empty(),
            Seq::empty(),
            false,
            false,
            None,
            false,
            a,
            render_unsafe,
        ),
        ExFormatterOption::BbcodeScoped { .. } => r matches ExFormatterOption::HtmlInline {
            theme: t,
            pre_class: pc,
            pre_attrs: pa,
            code_attrs: ca,
            italic: it,
            include_highlights: ih,
            highlight_lines: hl,
            line_numbers: ln,
            header: hd,
        } && t is None && opt_text(pc) == decorator(a, "pre_class"@, render_unsafe) && pa@.len()
            == 0 && ca@.len() == 0 && !it && ih == a.contains_key("include_highlights"@) && !ln
            && hd is None && (if a.contains_key("highlight_lines"@) {
            hl matches Some(h) && inline_lines_from(h, a, None, render_unsafe)
        } else {
            hl is None
        }),
    }
}

/// Applies the fence's decorators over the formatter the caller asked for.
///
/// A decorator wins over the option, an unset option falls back to what
/// MDEx has always rendered, and the header is dropped because Comrak writes
/// the closing tags and an outer header could never be closed.
pub fn with_mdex_attributes(
    formatter: ExFormatterOption,
    attributes: &FenceAttributes,
    render_unsafe: bool,
) -> (r: ExFormatterOption)
    ensures
        mdex_decorated(r, formatter, attributes@, render_unsafe),
{
    match formatter {
        ExFormatterOption::HtmlInline {
            theme,
            pre_class,
            pre_attrs,
            code_attrs,
            italic,
            include_highlights,
            highlight_lines,
            line_numbers,
            header: _,
        } => html_inline_with_attributes(
            theme,
            pre_class,
            pre_attrs,
            code_attrs,
            italic,
            include_highlights,
            highlight_lines,
            line_numbers,
            attributes,
            render_unsafe,
        ),
        ExFormatterOption::HtmlLinked {
            pre_class,
            pre_attrs,
            code_attrs,
            highlight_lines,
            line_numbers,
            header: _,
        } => {
            let pre_class = match mdex_attribute(attributes, "pre_class", render_unsafe) {
                Some(class) => Some(class),
                None => pre_class,
            };
            let highlight_lines = match linked_highlight_lines(attributes, render_unsafe) {
                Some(lines) => Some(lines),
                None => highlight_lines,
            };
            ExFormatterOption::HtmlLinked {
                pre_class,
                pre_attrs,
                code_attrs,
                highlight_lines,
                line_numbers,
                header: None,
            }
        },
        ExFormatterOption::HtmlMultiThemes {
            themes,
            default_theme,
            css_variable_prefix,
            pre_class,
            pre_attrs,
            code_attrs,
            italic,
            include_highlights,
            highlight_lines,
            line_numbers,
            header: _,
        } => {
            let pre_class = match mdex_attribute(attributes, "pre_class", render_unsafe) {
                Some(class) => Some(class),
                None => pre_class,
            };
            let include_highlights = include_highlights || attributes.contains_key(
                "include_highlights",
            );
            let highlight_lines = multi_theme_highlight_lines(
                highlight_lines,
                attributes,
                render_unsafe,
            );
            ExFormatterOption::HtmlMultiThemes {
                themes,
                default_theme,
                css_variable_prefix,
                pre_class,
                pre_attrs,
                code_attrs,
                italic,
                include_highlights,
                highlight_lines,
                line_numbers,
                header: None,
            }
        },
        ExFormatterOption::Terminal { theme, .. } => {
            let r = html_inline_with_attributes(
                theme,
                None,
                Vec::new(),
                Vec::new(),
                false,
                false,
                None,
                false,
                attributes,
                render_unsafe,
            );
            r
        },
        ExFormatterOption::BbcodeScoped { .. } => ExFormatterOption::HtmlInline {
            theme: None,
            pre_class: mdex_attribute(attributes, "pre_class", render_unsafe),
            pre_attrs: Vec::new(),
            code_attrs: Vec::new(),
            italic: false,
            include_highlights: attributes.contains_key("include_highlights"),
            highlight_lines: inline_highlight_lines(attributes, None, render_unsafe),
            line_numbers: false,
            header: None,
        },
    }
}


/// The text of bytes `start..end` of a source, as `str::get` gives it, or
/// nothing when those bytes are not a whole UTF-8 slice of it.
pub open spec fn span_text(b: Seq<u8>, start: usize, end: usize) -> Seq<char> {
    if start <= end <= b.len() && valid_utf8(b.subrange(start as int, end as int)) {
        decode_utf8(b.subrange(start as int, end as int))
    } else {
        Seq::empty()
    }
}

/// Whether bytes `start..end` of the source hold only white space.
pub open spec fn blank_span(b: Seq<u8>, start: usize, end: usize) -> bool {
    trimmed(span_text(b, start, end)).len() == 0
}

/// Whether bytes `start..end` of `source` hold only white space.
fn span_is_blank(source: &str, start: usize, end: usize) -> (r: bool)
    ensures
        r == blank_span(source.spec_bytes(), start, end),
{
    let bytes = source.as_bytes();
    if start <= end && end <= bytes.len() {
        let span = vstd::slice::slice_subrange(bytes, start, end);
        match str_from_utf8(span) {
            Some(text) => {
                let cs = chars_of(text);
                let (a, b) = trim_bounds(&cs, 0, cs.len());
                proof {
                    assert(cs@.subrange(0, cs@.len() as int) =~= cs@);
                }
                a == b
            },
            None => true,
        }
    } else {
        true
    }
}

/// The flat event stream of `es` read with the open scopes `scopes`: each
/// span that is not blank and lies inside a scope is wrapped in a start and
/// an end of the innermost one; other spans stand unscoped, and the nesting
/// itself disappears.
pub open spec fn flattened(
    b: Seq<u8>,
    es: Seq<HighlightEvent>,
    scopes: Seq<(usize, String)>,
) -> Seq<HighlightEvent>
    decreases es.len(),
{
    if es.len() == 0 {
        Seq::empty()
    } else {
        let rest = es.drop_first();
        match es[0] {
            HighlightEvent::Start { scope_index, language } => flattened(
                b,
                rest,
                scopes.push((scope_index, language)),
            ),
            HighlightEvent::End => flattened(
                b,
                rest,
                if scopes.len() > 0 {
                    scopes.drop_last()
                } else {
                    scopes
                },
            ),
            HighlightEvent::Source { start, end } => (if blank_span(b, start, end) || scopes.len()
                == 0 {
                seq![HighlightEvent::Source { start, end }]
            } else {
                seq![
                    HighlightEvent::Start {
                        scope_index: scopes.last().0,
                        language: scopes.last().1,
                    },
                    HighlightEvent::Source { start, end },
                    HighlightEvent::End,
                ]
            }) + flattened(b, rest, scopes),
        }
    }
}

/// Collapses nested scopes so each span carries exactly one, and leaves
/// white-space-only spans unscoped.
///
/// Lumis's formatters nest: an inner scope renders inside its outer one.
/// MDEx has always published the flat form, so CSS written against it keeps
/// working; per-character colour is the same either way.
pub fn flatten_events(source: &str, events: Vec<HighlightEvent>) -> (r: Vec<HighlightEvent>)
    ensures
        r@ == flattened(source.spec_bytes(), events@, Seq::empty()),
{
    let ghost b = source.spec_bytes();
    let mut out: Vec<HighlightEvent> = Vec::new();
    let mut scopes: Vec<(usize, String)> = Vec::new();
    let mut i: usize = 0;
    proof {
        assert(events@.skip(0) =~= events@);
        assert(out@ + flattened(b, events@, scopes@) =~= flattened(b, events@, Seq::empty()));
    }
    while i < events.len()
        invariant
            b == source.spec_bytes(),
            i <= events@.len(),
            out@ + flattened(b, events@.skip(i as int), scopes@) == flattened(
                b,
                events@,
                Seq::empty(),
            ),
        decreases events@.len() - i,
    {
        let ghost rest = events@.skip(i as int);
        let ghost before = out@;
        let ghost open = scopes@;
        proof {
            assert(rest.drop_first() =~= events@.skip(i + 1));
            assert(rest[0] == events@[i as int]);
        }
        match &events[i] {
            HighlightEvent::Start { scope_index, language } => {
                scopes.push((*scope_index, language.clone()));
            },
            HighlightEvent::End => {
                let _ = scopes.pop();
                proof {
                    if open.len() > 0 {
                        assert(scopes@ == open.drop_last());
                    } else {
                        assert(scopes@ == open);
                    }
                }
            },
            HighlightEvent::Source { start, end } => {
                if span_is_blank(source, *start, *end) || scopes.len() == 0 {
                    out.push(HighlightEvent::Source { start: *start, end: *end });
                } else {
                    let top = &scopes[scopes.len() - 1];
                    out.push(
                        HighlightEvent::Start { scope_index: top.0, language: top.1.clone() },
                    );
                    out.push(HighlightEvent::Source { start: *start, end: *end });
                    out.push(HighlightEvent::End);
                }
                proof {
                    assert(out@ + flattened(b, events@.skip(i + 1), scopes@) =~= before
                        + flattened(b, rest, open));
                }
            },
        }
        i = i + 1;
    }
    proof {
        assert(events@.skip(i as int) =~= Seq::<HighlightEvent>::empty());
        assert(out@ + Seq::<HighlightEvent>::empty() =~= out@);
    }
    out
}


/// `s` without one trailing newline, if it ends with one.
pub open spec fn without_final_newline(s: Seq<char>) -> Seq<char> {
    if s.len() > 0 && s.last() == '\n' {
        s.drop_last()
    } else {
        s
    }
}

/// The source a fence renders. Comrak includes the terminator's newline in
/// a fence's literal, and it has never been rendered as another line.
pub fn fence_source(source: &str) -> (r: String)
    ensures
        r@ == without_final_newline(source@),
{
    let mut cs = chars_of(source);
    let n = cs.len();
    if n > 0 && cs[n - 1] == '\n' {
        let _ = cs.pop();
    }
    crate::text::string_of(&cs)
}

/// The language a fence is highlighted as: the one it names, else plain
/// text. A fence without an info string stays plain; guessing from its
/// content would let a shebang pick a language MDEx never named.
pub fn fence_language(language: Option<&str>) -> (r: &str)
    ensures
        r@ == match language {
            Some(l) => l@,
            None => "plaintext"@,
        },
{
    match language {
        Some(l) => l,
        None => "plaintext",
    }
}

/// Whether `s` ends with `p`.
pub open spec fn ends_with(s: Seq<char>, p: Seq<char>) -> bool {
    p.len() <= s.len() && s.subrange(s.len() - p.len(), s.len() as int) == p
}

/// The closing tags Comrak writes after a highlighted fence itself.
pub open spec fn closing_tags() -> Seq<char> {
    "</code></pre>"@
}

/// What a formatter's output becomes in a fence: without the closing tags,
/// which Comrak writes itself. Output without them is refused.
pub fn strip_closing_tags(output: &str) -> (r: Result<String, String>)
    ensures
        ends_with(output@, closing_tags()) ==> (r matches Ok(s) && s@ == output@.subrange(
            0,
            output@.len() - closing_tags().len(),
        )),
        !ends_with(output@, closing_tags()) ==> (r matches Err(m) && m@
            == "Lumis formatter did not produce HTML code-fence output"@),
{
    let cs = chars_of(output);
    let tags = chars_of("</code></pre>");
    if tags.len() <= cs.len() && crate::text::occurs_at_exec(&cs, &tags, cs.len() - tags.len()) {
        let mut kept: Vec<char> = Vec::new();
        let keep = cs.len() - tags.len();
        let mut i: usize = 0;
        while i < keep
            invariant
                keep <= cs@.len(),
                i <= keep,
                kept@ == cs@.subrange(0, i as int),
            decreases keep - i,
        {
            kept.push(cs[i]);
            proof {
                assert(kept@ =~= cs@.subrange(0, i + 1));
            }
            i = i + 1;
        }
        Ok(crate::text::string_of(&kept))
    } else {
        Err(String::from_str("Lumis formatter did not produce HTML code-fence output"))
    }
}


/// In a safe render no decorator value reaches the formatter with a quote
/// or an angle bracket in it, so none can close the attribute it is
/// written into or open a tag.
pub proof fn law_safe_decorators_hold_no_quotes(value: Seq<char>, c: char)
    requires
        c == '"' || c == '\'' || c == '<' || c == '>',
    ensures
        lacks(decorator_value(value, false), c),
    decreases value.len(),
{
    reveal_strlit("&amp;");
    reveal_strlit("&lt;");
    reveal_strlit("&gt;");
    reveal_strlit("&quot;");
    reveal_strlit("&#39;");
    if value.len() > 0 {
        law_safe_decorators_hold_no_quotes(value.drop_last(), c);
        let head = lumis_escaped(value.drop_last());
        let tail = lumis_entity(value.last());
        assert(lacks(tail, c));
        assert(lumis_escaped(value) == head + tail);
        assert forall|i: int| 0 <= i < head.len() + tail.len() implies (head + tail)[i] != c by {
            if i < head.len() {
                assert((head + tail)[i] == head[i]);
            } else {
                assert((head + tail)[i] == tail[i - head.len()]);
            }
        }
    }
}

/// A line spec that names real lines: a line from 1 up, or a range of
/// lines from 1 up, in ascending order, with step 1.
pub open spec fn names_lines(l: ExLineSpec) -> bool {
    match l {
        ExLineSpec::Single(n) => n > 0,
        ExLineSpec::Range { start, end, step } => 0 < start <= end && step == 1,
    }
}

/// Every spec read from a `highlight_lines` decorator names real lines,
/// whatever the decorator says: line 0 and reversed ranges never get
/// through.
pub proof fn law_highlight_lines_name_real_lines(parts: Seq<Seq<char>>)
    ensures
        forall|i: int| 0 <= i < line_specs(parts).len() ==> names_lines(
            #[trigger] line_specs(parts)[i],
        ),
    decreases parts.len(),
{
    if parts.len() > 0 {
        law_highlight_lines_name_real_lines(parts.drop_first());
        let head = match line_spec_of(parts[0]) {
            Some(l) => seq![l],
            None => Seq::<ExLineSpec>::empty(),
        };
        let rest = line_specs(parts.drop_first());
        assert(line_specs(parts) == head + rest);
        assert forall|i: int| 0 <= i < head.len() implies names_lines(head[i]) by {}
        assert forall|i: int| 0 <= i < line_specs(parts).len() implies names_lines(
            #[trigger] line_specs(parts)[i],
        ) by {
            if i < head.len() {
                assert(line_specs(parts)[i] == head[i]);
            } else {
                assert(line_specs(parts)[i] == rest[i - head.len()]);
            }
        }
    }
}

/// The source spans of an event stream, in order.
pub open spec fn source_spans(es: Seq<HighlightEvent>) -> Seq<(usize, usize)>
    decreases es.len(),
{
    if es.len() == 0 {
        Seq::empty()
    } else {
        (match es[0] {
            HighlightEvent::Source { start, end } => seq![(start, end)],
            _ => Seq::empty(),
        }) + source_spans(es.drop_first())
    }
}

/// A flat event stream: each event is an unscoped span, or a start, a span
/// and an end in a row.
pub open spec fn is_flat(es: Seq<HighlightEvent>) -> bool
    decreases es.len(),
{
    if es.len() == 0 {
        true
    } else if es[0] is Source {
        is_flat(es.drop_first())
    } else {
        &&& es.len() >= 3
        &&& es[0] is Start
        &&& es[1] is Source
        &&& es[2] is End
        &&& is_flat(es.skip(3))
    }
}

/// The source spans of two streams one after the other.
proof fn lemma_source_spans_append(a: Seq<HighlightEvent>, b: Seq<HighlightEvent>)
    ensures
        source_spans(a + b) == source_spans(a) + source_spans(b),
    decreases a.len(),
{
    if a.len() == 0 {
        assert(a + b =~= b);
    } else {
        lemma_source_spans_append(a.drop_first(), b);
        assert((a + b).drop_first() =~= a.drop_first() + b);
        assert((a + b)[0] == a[0]);
    }
}

/// Flattening keeps every source span, in order, and nests nothing: the
/// result is flat, whatever the scopes of the stream.
pub proof fn law_flattened_is_flat(
    b: Seq<u8>,
    es: Seq<HighlightEvent>,
    scopes: Seq<(usize, String)>,
)
    ensures
        is_flat(flattened(b, es, scopes)),
        source_spans(flattened(b, es, scopes)) == source_spans(es),
    decreases es.len(),
{
    if es.len() > 0 {
        let rest = es.drop_first();
        match es[0] {
            HighlightEvent::Start { scope_index, language } => {
                law_flattened_is_flat(b, rest, scopes.push((scope_index, language)));
                assert(source_spans(es) == source_spans(rest));
            },
            HighlightEvent::End => {
                law_flattened_is_flat(
                    b,
                    rest,
                    if scopes.len() > 0 {
                        scopes.drop_last()
                    } else {
                        scopes
                    },
                );
                assert(source_spans(es) == source_spans(rest));
            },
            HighlightEvent::Source { start, end } => {
                law_flattened_is_flat(b, rest, scopes);
                let tail = flattened(b, rest, scopes);
                let piece = if blank_span(b, start, end) || scopes.len() == 0 {
                    seq![HighlightEvent::Source { start, end }]
                } else {
                    seq![
                        HighlightEvent::Start {
                            scope_index: scopes.last().0,
                            language: scopes.last().1,
                        },
                        HighlightEvent::Source { start, end },
                        HighlightEvent::End,
                    ]
                };
                let out = piece + tail;
                assert(flattened(b, es, scopes) == out);
                lemma_source_spans_append(piece, tail);
                if piece.len() == 1 {
                    assert(out.drop_first() =~= tail);
                    let e = Seq::<HighlightEvent>::empty();
                    assert(piece.drop_first() =~= e);
                    assert(source_spans(e) == Seq::<(usize, usize)>::empty());
                    assert(piece[0] == HighlightEvent::Source { start, end });
                    assert(source_spans(piece) == seq![(start, end)] + source_spans(
                        piece.drop_first(),
                    ));
                    assert(source_spans(piece) =~= seq![(start, end)]);
                } else {
                    assert(out.skip(3) =~= tail);
                    assert(out[0] == piece[0]);
                    assert(out[1] == piece[1]);
                    assert(out[2] == piece[2]);
                    let p1 = piece.drop_first();
                    let p2 = p1.drop_first();
                    let p3 = p2.drop_first();
                    let e = Seq::<HighlightEvent>::empty();
                    assert(p3 =~= e);
                    assert(source_spans(e) == Seq::<(usize, usize)>::empty());
                    assert(p2[0] == piece[2]);
                    assert(p1[0] == piece[1]);
                    assert(piece[2] is End);
                    assert(source_spans(p2) == Seq::<(usize, usize)>::empty() + source_spans(p3));
                    assert(source_spans(p2) =~= Seq::<(usize, usize)>::empty());
                    assert(source_spans(p1) =~= seq![(start, end)]);
                    assert(source_spans(piece) =~= seq![(start, end)]);
                }
                assert(source_spans(es) == seq![(start, end)] + source_spans(rest));
            },
        }
    }
}


/// Lines that name real lines all reach a formatter as plain spans, one
/// each and in order, and none as a stepped range: what a
/// `highlight_lines` decorator asks for is never dropped on the way.
pub proof fn law_decorated_lines_are_plain_spans(lines: Seq<ExLineSpec>)
    requires
        forall|i: int| 0 <= i < lines.len() ==> names_lines(#[trigger] lines[i]),
    ensures
        contiguous_spans(lines).len() == lines.len(),
        stepped_specs(lines).len() == 0,
        forall|i: int| 0 <= i < lines.len() ==> #[trigger] contiguous_spans(lines)[i] == match lines[i] {
            ExLineSpec::Single(n) => (n, n),
            ExLineSpec::Range { start, end, .. } => (start, end),
        },
    decreases lines.len(),
{
    if lines.len() > 0 {
        let init = lines.drop_last();
        assert forall|i: int| 0 <= i < init.len() implies names_lines(#[trigger] init[i]) by {
            assert(init[i] == lines[i]);
        }
        law_decorated_lines_are_plain_spans(init);
        assert(names_lines(lines[lines.len() - 1]));
        let last = lines.last();
        let span = match last {
            ExLineSpec::Single(n) => (n, n),
            ExLineSpec::Range { start, end, .. } => (start, end),
        };
        assert(contiguous_spans(lines) == contiguous_spans(init) + seq![span]);
        assert forall|i: int| 0 <= i < lines.len() implies #[trigger] contiguous_spans(lines)[i]
            == match lines[i] {
            ExLineSpec::Single(n) => (n, n),
            ExLineSpec::Range { start, end, .. } => (start, end),
        } by {
            if i < init.len() {
                assert(contiguous_spans(lines)[i] == contiguous_spans(init)[i]);
                assert(init[i] == lines[i]);
            }
        }
    }
}


/// A fence attribute reads back what was last set for its name, and
/// setting one name leaves every other name as it was.
pub proof fn law_attribute_reads_last_write(
    a: Map<Seq<char>, Seq<char>>,
    name: Seq<char>,
    value: Seq<char>,
    other: Seq<char>,
)
    ensures
        attr(a.insert(name, value), name) == Some(value),
        other != name ==> attr(a.insert(name, value), other) == attr(a, other),
{
}

/// A span read inside nested scopes takes the innermost open scope, and
/// once that scope ends the next span takes the one around it; a blank
/// span takes none. Whatever follows is flattened on its own.
pub proof fn law_span_takes_innermost_scope(
    b: Seq<u8>,
    outer: usize,
    outer_language: String,
    inner: usize,
    inner_language: String,
    start: usize,
    end: usize,
    rest: Seq<HighlightEvent>,
)
    ensures
        !blank_span(b, start, end) ==> flattened(
            b,
            seq![
                HighlightEvent::Start { scope_index: outer, language: outer_language },
                HighlightEvent::Start { scope_index: inner, language: inner_language },
                HighlightEvent::Source { start, end },
                HighlightEvent::End,
                HighlightEvent::End,
            ] + rest,
            Seq::empty(),
        ) == seq![
            HighlightEvent::Start { scope_index: inner, language: inner_language },
            HighlightEvent::Source { start, end },
            HighlightEvent::End,
        ] + flattened(b, rest, Seq::empty()),
        !blank_span(b, start, end) ==> flattened(
            b,
            seq![
                HighlightEvent::Start { scope_index: outer, language: outer_language },
                HighlightEvent::Start { scope_index: inner, language: inner_language },
                HighlightEvent::End,
                HighlightEvent::Source { start, end },
                HighlightEvent::End,
            ] + rest,
            Seq::empty(),
        ) == seq![
            HighlightEvent::Start { scope_index: outer, language: outer_language },
            HighlightEvent::Source { start, end },
            HighlightEvent::End,
        ] + flattened(b, rest, Seq::empty()),
        blank_span(b, start, end) ==> flattened(
            b,
            seq![
                HighlightEvent::Start { scope_index: outer, language: outer_language },
                HighlightEvent::Source { start, end },
                HighlightEvent::End,
            ] + rest,
            Seq::empty(),
        ) == seq![HighlightEvent::Source { start, end }] + flattened(b, rest, Seq::empty()),
        flattened(b, seq![HighlightEvent::Source { start, end }] + rest, Seq::empty()) == seq![
            HighlightEvent::Source { start, end },
        ] + flattened(b, rest, Seq::empty()),
{
    let so = HighlightEvent::Start { scope_index: outer, language: outer_language };
    let si = HighlightEvent::Start { scope_index: inner, language: inner_language };
    let src = HighlightEvent::Source { start, end };
    let e = HighlightEvent::End;
    let none = Seq::<(usize, String)>::empty();
    let one = none.push((outer, outer_language));
    let two = one.push((inner, inner_language));
    assert(one.drop_last() =~= none);
    assert(two.drop_last() =~= one);
    // the first stream
    let a = seq![so, si, src, e, e] + rest;
    assert(a.drop_first() =~= seq![si, src, e, e] + rest);
    assert((seq![si, src, e, e] + rest).drop_first() =~= seq![src, e, e] + rest);
    assert((seq![src, e, e] + rest).drop_first() =~= seq![e, e] + rest);
    assert((seq![e, e] + rest).drop_first() =~= seq![e] + rest);
    assert((seq![e] + rest).drop_first() =~= rest);
    assert(flattened(b, seq![e] + rest, one) == flattened(b, rest, none));
    assert(flattened(b, seq![e, e] + rest, two) == flattened(b, seq![e] + rest, one));
    // the second stream
    let c = seq![so, si, e, src, e] + rest;
    assert(c.drop_first() =~= seq![si, e, src, e] + rest);
    assert((seq![si, e, src, e] + rest).drop_first() =~= seq![e, src, e] + rest);
    assert((seq![e, src, e] + rest).drop_first() =~= seq![src, e] + rest);
    assert((seq![src, e] + rest).drop_first() =~= seq![e] + rest);
    assert(flattened(b, seq![e, src, e] + rest, two) == flattened(b, seq![src, e] + rest, one));
    // the third stream
    let d = seq![so, src, e] + rest;
    assert(d.drop_first() =~= seq![src, e] + rest);
    // the fourth stream
    assert((seq![src] + rest).drop_first() =~= rest);
    assert(flattened(b, seq![src] + rest, none) == seq![src] + flattened(b, rest, none));
    assert(two.last() == (inner, inner_language));
    assert(one.last() == (outer, outer_language));
    assert(flattened(b, a, none) == flattened(b, seq![si, src, e, e] + rest, one));
    assert(flattened(b, seq![si, src, e, e] + rest, one) == flattened(b, seq![src, e, e] + rest, two));
    assert(flattened(b, c, none) == flattened(b, seq![si, e, src, e] + rest, one));
    assert(flattened(b, seq![si, e, src, e] + rest, one) == flattened(b, seq![e, src, e] + rest, two));
    if !blank_span(b, start, end) {
        assert(flattened(b, seq![src, e, e] + rest, two) == seq![si, src, e] + flattened(
            b,
            seq![e, e] + rest,
            two,
        ));
        assert(flattened(b, seq![src, e] + rest, one) == seq![so, src, e] + flattened(
            b,
            seq![e] + rest,
            one,
        ));
    } else {
        assert(flattened(b, seq![src, e] + rest, one) == seq![src] + flattened(
            b,
            seq![e] + rest,
            one,
        ));
    }
}

} // verus!
