//! The state Comrak's syntax-highlighter adapter keeps between its calls.
//!
//! Comrak announces a fence through the attributes of its `<pre>` and
//! `<code>` tags before it hands over the source. The adapter remembers what
//! those tags said: the custom attributes of the info string's metadata and
//! the language, and hands both to the renderer with the source.

use vstd::prelude::*;

use crate::fence::{opt_text, pairs_map, FenceAttributes};
use crate::text::{
    chars_of, find_char, index_of_or_len, lemma_index_of_or_len, string_of_range, trim_bounds,
    trimmed,
};

verus! {

/// The words `shlex::split` makes of a string, or `None` where it finds the
/// string malformed (an unclosed quote, a trailing backslash).
pub uninterp spec fn shell_words(s: Seq<char>) -> Option<Seq<Seq<char>>>;

/// Splits a string into words with `shlex::split`, POSIX shell style. The
/// quoting rules are only named.
#[verifier::external_body]
fn shlex_split(s: &str) -> (r: Option<Vec<String>>)
    ensures
        match r {
            Some(words) => shell_words(s@) == Some(words@.map_values(|w: String| w@)),
            None => shell_words(s@) is None,
        },
{
    shlex::split(s)
}

/// The attribute a word of the metadata stands for: `key=value` splits at
/// the first `=` with the key trimmed; a bare word is a flag set to `true`.
pub open spec fn attribute_pair(word: Seq<char>) -> (Seq<char>, Seq<char>) {
    let k = index_of_or_len(word, '=');
    if k < word.len() {
        (trimmed(word.take(k as int)), word.skip(k as int + 1))
    } else {
        (trimmed(word), "true"@)
    }
}

/// The attributes a fence's metadata carries, or `None` where the shell
/// quoting of it is malformed.
pub open spec fn custom_attributes(meta: Seq<char>) -> Option<Map<Seq<char>, Seq<char>>> {
    match shell_words(meta) {
        Some(words) => Some(pairs_map(words.map_values(|w: Seq<char>| attribute_pair(w)))),
        None => None,
    }
}

/// Reads one word of the metadata as a name and a value.
fn attribute_of_word(word: &str) -> (r: (String, String))
    ensures
        (r.0@, r.1@) == attribute_pair(word@),
{
    let cs = chars_of(word);
    let k = find_char(&cs, 0, cs.len(), '=');
    proof {
        assert(cs@.subrange(0, cs@.len() as int) =~= cs@);
        lemma_index_of_or_len(cs@, '=');
    }
    if k < cs.len() {
        let (a, b) = trim_bounds(&cs, 0, k);
        proof {
            assert(cs@.subrange(0, k as int) =~= cs@.take(k as int));
            assert(cs@.subrange(k + 1, cs@.len() as int) =~= cs@.skip(k + 1));
        }
        (string_of_range(&cs, a, b), string_of_range(&cs, k + 1, cs.len()))
    } else {
        let (a, b) = trim_bounds(&cs, 0, cs.len());
        (string_of_range(&cs, a, b), String::from_str("true"))
    }
}

/// Parses the custom attributes of a fence's metadata, such as
/// `theme=github_light highlight_lines="1-3"`. A later attribute of the same
/// name wins.
pub fn parse_custom_attributes(info_string: &str) -> (r: Option<FenceAttributes>)
    ensures
        match custom_attributes(info_string@) {
            Some(a) => r matches Some(attributes) && attributes@ == a,
            None => r is None,
        },
{
    let words = match shlex_split(info_string) {
        Some(words) => words,
        None => {
            return None;
        },
    };
    let ghost ws = words@.map_values(|w: String| w@);
    let ghost pairs = ws.map_values(|w: Seq<char>| attribute_pair(w));
    let mut attributes = FenceAttributes::new();
    let mut i: usize = 0;
    while i < words.len()
        invariant
            i <= words@.len(),
            ws == words@.map_values(|w: String| w@),
            pairs == ws.map_values(|w: Seq<char>| attribute_pair(w)),
            attributes@ == pairs_map(pairs.take(i as int)),
        decreases words@.len() - i,
    {
        let (name, value) = attribute_of_word(words[i].as_str());
        attributes.insert(name, value);
        proof {
            assert(pairs.take(i + 1).drop_last() =~= pairs.take(i as int));
            assert(pairs.take(i + 1).last() == pairs[i as int]);
            assert(ws[i as int] == words@[i as int]@);
        }
        i = i + 1;
    }
    proof {
        assert(pairs.take(words@.len() as int) =~= pairs);
    }
    Some(attributes)
}

/// Whether `s` starts with `p`.
pub open spec fn starts_with(s: Seq<char>, p: Seq<char>) -> bool {
    p.len() <= s.len() && s.take(p.len() as int) == p
}

/// The language a tag's `class` names: what follows `language-`.
pub open spec fn class_language(class: Seq<char>) -> Option<Seq<char>> {
    if starts_with(class, "language-"@) {
        Some(class.skip("language-"@.len() as int))
    } else {
        None
    }
}

/// The language a tag announces: its `lang`, else the language of its
/// `class`.
pub open spec fn tag_language(lang: Option<Seq<char>>, class: Option<Seq<char>>) -> Option<
    Seq<char>,
> {
    match lang {
        Some(l) => Some(l),
        None => match class {
            Some(c) => class_language(c),
            None => None,
        },
    }
}

/// The characters of an optional string slice.
pub open spec fn opt_str(s: Option<&str>) -> Option<Seq<char>> {
    match s {
        Some(t) => Some(t@),
        None => None,
    }
}

/// The language a `class` attribute names, if it has the `language-`
/// prefix.
fn language_of_class(class: &str) -> (r: Option<String>)
    ensures
        match r {
            Some(l) => class_language(class@) == Some(l@),
            None => class_language(class@) is None,
        },
{
    let cs = chars_of(class);
    let prefix = chars_of("language-");
    proof {
        reveal_strlit("language-");
    }
    if prefix.len() <= cs.len() && crate::text::occurs_at_exec(&cs, &prefix, 0) {
        proof {
            assert(cs@.subrange(0, prefix@.len() as int) =~= cs@.take(prefix@.len() as int));
            assert(cs@.subrange(prefix@.len() as int, cs@.len() as int) =~= cs@.skip(
                prefix@.len() as int,
            ));
        }
        Some(string_of_range(&cs, prefix.len(), cs.len()))
    } else {
        proof {
            if starts_with(cs@, prefix@) {
                assert(cs@.subrange(0, prefix@.len() as int) =~= cs@.take(prefix@.len() as int));
            }
        }
        None
    }
}

/// What the adapter remembers of the fence being rendered.
pub struct FenceState {
    attributes: FenceAttributes,
    language: Option<String>,
}

/// The remembered attributes and language, as plain values.
pub ghost struct FenceStateView {
    pub attributes: Map<Seq<char>, Seq<char>>,
    pub language: Option<Seq<char>>,
}

impl View for FenceState {
    type V = FenceStateView;

    closed spec fn view(&self) -> FenceStateView {
        FenceStateView {
            attributes: self.attributes@,
            language: match self.language {
                Some(l) => Some(l@),
                None => None,
            },
        }
    }
}

/// The state after a tag with these attributes: its metadata's custom
/// attributes replace the remembered ones when they parse, and the language
/// it announces replaces the remembered one when it announces one.
pub open spec fn after_tag(
    s: FenceStateView,
    data_meta: Option<Seq<char>>,
    lang: Option<Seq<char>>,
    class: Option<Seq<char>>,
) -> FenceStateView {
    FenceStateView {
        attributes: match data_meta {
            Some(meta) => match custom_attributes(meta) {
                Some(a) => a,
                None => s.attributes,
            },
            None => s.attributes,
        },
        language: match tag_language(lang, class) {
            Some(l) => Some(l),
            None => s.language,
        },
    }
}

/// The state of no fence: no attributes and no language.
pub open spec fn no_fence() -> FenceStateView {
    FenceStateView { attributes: Map::empty(), language: None }
}

impl FenceState {
    /// Nothing remembered.
    pub fn new() -> (r: Self)
        ensures
            r@ == no_fence(),
    {
        FenceState { attributes: FenceAttributes::new(), language: None }
    }

    fn update(&mut self, data_meta: Option<&str>, lang: Option<&str>, class: Option<&str>)
        ensures
            final(self)@ == after_tag(old(self)@, opt_str(data_meta), opt_str(lang), opt_str(class)),
    {
        if let Some(meta) = data_meta {
            if let Some(attributes) = parse_custom_attributes(meta) {
                self.attributes = attributes;
            }
        }
        let language = match lang {
            Some(l) => Some(l.to_string()),
            None => match class {
                Some(c) => language_of_class(c),
                None => None,
            },
        };
        if language.is_some() {
            self.language = language;
        }
    }

    /// A `<pre>` tag opens a new fence: what the previous one left is
    /// forgotten before the tag's own attributes are read.
    pub fn pre_tag(&mut self, data_meta: Option<&str>, lang: Option<&str>, class: Option<&str>)
        ensures
            final(self)@ == after_tag(no_fence(), opt_str(data_meta), opt_str(lang), opt_str(class)),
    {
        self.language = None;
        self.attributes = FenceAttributes::new();
        self.update(data_meta, lang, class);
    }

    /// A `<code>` tag adds to what the `<pre>` tag said.
    pub fn code_tag(&mut self, data_meta: Option<&str>, lang: Option<&str>, class: Option<&str>)
        ensures
            final(self)@ == after_tag(old(self)@, opt_str(data_meta), opt_str(lang), opt_str(class)),
    {
        self.update(data_meta, lang, class);
    }

    /// The language to highlight as: the remembered one, else Comrak's.
    pub fn language(&self, given: Option<&str>) -> (r: Option<String>)
        ensures
            opt_text(r) == match self@.language {
                Some(l) => Some(l),
                None => opt_str(given),
            },
    {
        match &self.language {
            Some(l) => Some(l.clone()),
            None => match given {
                Some(g) => Some(g.to_string()),
                None => None,
            },
        }
    }

    /// The remembered custom attributes.
    pub fn attributes(&self) -> (r: &FenceAttributes)
        ensures
            r@ == self@.attributes,
    {
        &self.attributes
    }
}


/// What one fence said never reaches the next: after a `<pre>` tag without
/// metadata no custom attribute is remembered, and without a language of its
/// own the fence has none, whatever came before.
pub proof fn law_fences_do_not_leak(
    lang: Option<Seq<char>>,
    class: Option<Seq<char>>,
)
    ensures
        after_tag(no_fence(), None, lang, class).attributes == Map::<Seq<char>, Seq<char>>::empty(),
        tag_language(lang, class) is None ==> after_tag(no_fence(), None, lang, class).language
            is None,
{
}

} // verus!
