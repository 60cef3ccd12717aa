//! Custom sanitizer policies: the Ammonia builder operations Elixir can ask
//! for, and what the resulting builder allows.
//!
//! A base key replaces one of the builder's sets, an `add_*` key adds to it
//! and an `rm_*` key removes from it, in that order, starting from Ammonia's
//! default policy.

use vstd::prelude::*;

use ammonia::Builder;

use crate::text::same_text;

verus! {

#[verifier::external_type_specification]
#[verifier::external_body]
pub struct AmmoniaSanitizer<'a>(Builder<'a>);

/// What an Ammonia builder allows, as plain values: the parts of its policy
/// that custom options can change.
pub ghost struct SanitizerConfig {
    pub tags: Set<Seq<char>>,
    pub clean_content_tags: Set<Seq<char>>,
    pub tag_attributes: Map<Seq<char>, Set<Seq<char>>>,
    pub generic_attributes: Set<Seq<char>>,
    pub url_schemes: Set<Seq<char>>,
    pub link_rel: Option<Seq<char>>,
    pub strip_comments: bool,
}

/// The policy an Ammonia builder holds. Every builder of this crate starts
/// from `Builder::default` and is changed only through the operations
/// below, so the rest of its policy is Ammonia's default.
pub uninterp spec fn builder_config(b: Builder) -> SanitizerConfig;

/// What cleaning a document with a builder holding this policy (and
/// Ammonia's default for the rest) gives.
pub uninterp spec fn sanitized(config: SanitizerConfig, html: Seq<char>) -> Seq<char>;

/// Ammonia's default policy, as `Builder::default` sets it up and
/// `ammonia::clean` uses it.
pub open spec fn default_config() -> SanitizerConfig {
    SanitizerConfig {
        tags: set![
            "a"@, "abbr"@, "acronym"@, "area"@, "article"@, "aside"@, "b"@, "bdi"@, "bdo"@,
            "blockquote"@, "br"@, "caption"@, "center"@, "cite"@, "code"@, "col"@,
            "colgroup"@, "data"@, "dd"@, "del"@, "details"@, "dfn"@, "div"@, "dl"@, "dt"@,
            "em"@, "figcaption"@, "figure"@, "footer"@, "h1"@, "h2"@, "h3"@, "h4"@, "h5"@,
            "h6"@, "header"@, "hgroup"@, "hr"@, "i"@, "img"@, "ins"@, "kbd"@, "li"@,
            "map"@, "mark"@, "nav"@, "ol"@, "p"@, "pre"@, "q"@, "rp"@, "rt"@, "rtc"@,
            "ruby"@, "s"@, "samp"@, "small"@, "span"@, "strike"@, "strong"@, "sub"@,
            "summary"@, "sup"@, "table"@, "tbody"@, "td"@, "th"@, "thead"@, "time"@, "tr"@,
            "tt"@, "u"@, "ul"@, "var"@, "wbr"@,
        ],
        clean_content_tags: set![
            "script"@, "style"@,
        ],
        tag_attributes: map![
            "a"@ => set![
                "href"@, "hreflang"@,
            ],
            "bdo"@ => set![
                "dir"@,
            ],
            "blockquote"@ => set![
                "cite"@,
            ],
            "col"@ => set![
                "align"@, "char"@, "charoff"@, "span"@,
            ],
            "colgroup"@ => set![
                "align"@, "char"@, "charoff"@, "span"@,
            ],
            "del"@ => set![
                "cite"@, "datetime"@,
            ],
            "hr"@ => set![
                "align"@, "size"@, "width"@,
            ],
            "img"@ => set![
                "align"@, "alt"@, "height"@, "src"@, "width"@,
            ],
            "ins"@ => set![
                "cite"@, "datetime"@,
            ],
            "ol"@ => set![
                "start"@,
            ],
            "q"@ => set![
                "cite"@,
            ],
            "table"@ => set![
                "align"@, "char"@, "charoff"@, "summary"@,
            ],
            "tbody"@ => set![
                "align"@, "char"@, "charoff"@,
            ],
            "td"@ => set![
                "align"@, "char"@, "charoff"@, "colspan"@, "headers"@, "rowspan"@,
            ],
            "tfoot"@ => set![
                "align"@, "char"@, "charoff"@,
            ],
            "th"@ => set![
                "align"@, "char"@, "charoff"@, "colspan"@, "headers"@, "rowspan"@, "scope"@,
            ],
            "thead"@ => set![
                "align"@, "char"@, "charoff"@,
            ],
            "tr"@ => set![
                "align"@, "char"@, "charoff"@,
            ],
        ],
        generic_attributes: set![
            "lang"@, "title"@,
        ],
        url_schemes: set![
            "bitcoin"@, "ftp"@, "ftps"@, "geo"@, "http"@, "https"@, "im"@, "irc"@, "ircs"@,
            "magnet"@, "mailto"@, "mms"@, "mx"@, "news"@, "nntp"@, "openpgp4fpr"@, "sip"@,
            "sms"@, "smsto"@, "ssh"@, "tel"@, "url"@, "webcal"@, "wtai"@, "xmpp"@,
        ],
        link_rel: Some("noopener noreferrer"@),
        strip_comments: true,
    }
}

/// The names a list of strings holds.
pub open spec fn names(v: Seq<String>) -> Set<Seq<char>> {
    Set::new(|n: Seq<char>| exists|i: int| 0 <= i < v.len() && v[i]@ == n)
}

/// The attribute sets a list of tag/attributes pairs makes, a later pair
/// for a tag replacing an earlier one (as collecting into a map does).
pub open spec fn attribute_sets(pairs: Seq<(String, Vec<String>)>) -> Map<Seq<char>, Set<Seq<char>>>
    decreases pairs.len(),
{
    if pairs.len() == 0 {
        Map::empty()
    } else {
        attribute_sets(pairs.drop_last()).insert(pairs.last().0@, names(pairs.last().1@))
    }
}

/// The attributes a tag allows under `m`, none when it has no entry.
pub open spec fn allowed_of(m: Map<Seq<char>, Set<Seq<char>>>, tag: Seq<char>) -> Set<Seq<char>> {
    if m.contains_key(tag) {
        m[tag]
    } else {
        Set::empty()
    }
}

/// `m` with each pair's attributes added to its tag, in order.
pub open spec fn attributes_added(
    m: Map<Seq<char>, Set<Seq<char>>>,
    pairs: Seq<(String, Vec<String>)>,
) -> Map<Seq<char>, Set<Seq<char>>>
    decreases pairs.len(),
{
    if pairs.len() == 0 {
        m
    } else {
        let before = attributes_added(m, pairs.drop_last());
        let (tag, attrs) = pairs.last();
        before.insert(tag@, allowed_of(before, tag@).union(names(attrs@)))
    }
}

/// `m` with each pair's attributes removed from its tag, in order; a tag
/// without an entry is left alone.
pub open spec fn attributes_removed(
    m: Map<Seq<char>, Set<Seq<char>>>,
    pairs: Seq<(String, Vec<String>)>,
) -> Map<Seq<char>, Set<Seq<char>>>
    decreases pairs.len(),
{
    if pairs.len() == 0 {
        m
    } else {
        let before = attributes_removed(m, pairs.drop_last());
        let (tag, attrs) = pairs.last();
        if before.contains_key(tag@) {
            before.insert(tag@, before[tag@].difference(names(attrs@)))
        } else {
            before
        }
    }
}

/// A set after its base key, `add_*` key and `rm_*` key.
pub open spec fn set_changed(
    base: Set<Seq<char>>,
    replace: Option<Vec<String>>,
    add: Vec<String>,
    remove: Vec<String>,
) -> Set<Seq<char>> {
    (match replace {
        Some(v) => names(v@),
        None => base,
    }).union(names(add@)).difference(names(remove@))
}

/// A policy Ammonia can clean with: it panics when a tag is both kept and
/// removed with its content, or when links get a fixed `rel` while `rel`
/// is also an allowed attribute.
pub open spec fn sanitizer_ok(c: SanitizerConfig) -> bool {
    &&& c.link_rel is Some ==> !c.generic_attributes.contains("rel"@) && !allowed_of(
        c.tag_attributes,
        "a"@,
    ).contains("rel"@)
    &&& forall|t: Seq<char>|
        #[trigger] c.clean_content_tags.contains(t) ==> !c.tags.contains(t)
            && !c.tag_attributes.contains_key(t)
}

/// Starts from Ammonia's default policy, with `Builder::default`.
#[verifier::external_body]
fn default_builder<'a>() -> (b: Builder<'a>)
    ensures
        builder_config(b) == default_config(),
{
    Builder::default()
}

/// Cleans a document with `Builder::clean`, which panics on a policy that
/// is not [`sanitizer_ok`].
#[verifier::external_body]
fn builder_clean(b: &Builder, html: &str) -> (r: String)
    requires
        sanitizer_ok(builder_config(*b)),
    ensures
        r@ == sanitized(builder_config(*b), html@),
{
    b.clean(html).to_string()
}

/// Replaces the allowed tags, with `Builder::tags`.
#[verifier::external_body]
fn set_tags<'a>(b: &mut Builder<'a>, values: &'a Vec<String>)
    ensures
        builder_config(*final(b)) == (SanitizerConfig { tags: names(values@), ..builder_config(*old(b)) }),
{
    b.tags(values.iter().map(String::as_str).collect());
}

/// Adds to the allowed tags, with `Builder::add_tags`.
#[verifier::external_body]
fn add_tags<'a>(b: &mut Builder<'a>, values: &'a Vec<String>)
    ensures
        builder_config(*final(b)) == (SanitizerConfig {
            tags: builder_config(*old(b)).tags.union(names(values@)),
            ..builder_config(*old(b))
        }),
{
    b.add_tags(values);
}

/// Removes from the allowed tags, with `Builder::rm_tags`.
#[verifier::external_body]
fn rm_tags(b: &mut Builder, values: &Vec<String>)
    ensures
        builder_config(*final(b)) == (SanitizerConfig {
            tags: builder_config(*old(b)).tags.difference(names(values@)),
            ..builder_config(*old(b))
        }),
{
    b.rm_tags(values);
}

/// The allowed tags, read back with `Builder::clone_tags`.
#[verifier::external_body]
fn tags_of(b: &Builder) -> (r: Vec<String>)
    ensures
        names(r@) == builder_config(*b).tags,
{
    b.clone_tags().into_iter().map(str::to_string).collect()
}

/// Replaces the tags removed with their content, with `Builder::clean_content_tags`.
#[verifier::external_body]
fn set_clean_content_tags<'a>(b: &mut Builder<'a>, values: &'a Vec<String>)
    ensures
        builder_config(*final(b)) == (SanitizerConfig { clean_content_tags: names(values@), ..builder_config(*old(b)) }),
{
    b.clean_content_tags(values.iter().map(String::as_str).collect());
}

/// Adds to the tags removed with their content, with `Builder::add_clean_content_tags`.
#[verifier::external_body]
fn add_clean_content_tags<'a>(b: &mut Builder<'a>, values: &'a Vec<String>)
    ensures
        builder_config(*final(b)) == (SanitizerConfig {
            clean_content_tags: builder_config(*old(b)).clean_content_tags.union(names(values@)),
            ..builder_config(*old(b))
        }),
{
    b.add_clean_content_tags(values);
}

/// Removes from the tags removed with their content, with `Builder::rm_clean_content_tags`.
#[verifier::external_body]
fn rm_clean_content_tags(b: &mut Builder, values: &Vec<String>)
    ensures
        builder_config(*final(b)) == (SanitizerConfig {
            clean_content_tags: builder_config(*old(b)).clean_content_tags.difference(names(values@)),
            ..builder_config(*old(b))
        }),
{
    b.rm_clean_content_tags(values);
}

/// The tags removed with their content, read back with `Builder::clone_clean_content_tags`.
#[verifier::external_body]
fn clean_content_tags_of(b: &Builder) -> (r: Vec<String>)
    ensures
        names(r@) == builder_config(*b).clean_content_tags,
{
    b.clone_clean_content_tags().into_iter().map(str::to_string).collect()
}

/// Replaces the attributes allowed on every tag, with `Builder::generic_attributes`.
#[verifier::external_body]
fn set_generic_attributes<'a>(b: &mut Builder<'a>, values: &'a Vec<String>)
    ensures
        builder_config(*final(b)) == (SanitizerConfig { generic_attributes: names(values@), ..builder_config(*old(b)) }),
{
    b.generic_attributes(values.iter().map(String::as_str).collect());
}

/// Adds to the attributes allowed on every tag, with `Builder::add_generic_attributes`.
#[verifier::external_body]
fn add_generic_attributes<'a>(b: &mut Builder<'a>, values: &'a Vec<String>)
    ensures
        builder_config(*final(b)) == (SanitizerConfig {
            generic_attributes: builder_config(*old(b)).generic_attributes.union(names(values@)),
            ..builder_config(*old(b))
        }),
{
    b.add_generic_attributes(values);
}

/// Removes from the attributes allowed on every tag, with `Builder::rm_generic_attributes`.
#[verifier::external_body]
fn rm_generic_attributes(b: &mut Builder, values: &Vec<String>)
    ensures
        builder_config(*final(b)) == (SanitizerConfig {
            generic_attributes: builder_config(*old(b)).generic_attributes.difference(names(values@)),
            ..builder_config(*old(b))
        }),
{
    b.rm_generic_attributes(values);
}

/// The attributes allowed on every tag, read back with `Builder::clone_generic_attributes`.
#[verifier::external_body]
fn generic_attributes_of(b: &Builder) -> (r: Vec<String>)
    ensures
        names(r@) == builder_config(*b).generic_attributes,
{
    b.clone_generic_attributes().into_iter().map(str::to_string).collect()
}

/// Replaces the allowed URL schemes, with `Builder::url_schemes`.
#[verifier::external_body]
fn set_url_schemes<'a>(b: &mut Builder<'a>, values: &'a Vec<String>)
    ensures
        builder_config(*final(b)) == (SanitizerConfig { url_schemes: names(values@), ..builder_config(*old(b)) }),
{
    b.url_schemes(values.iter().map(String::as_str).collect());
}

/// Adds to the allowed URL schemes, with `Builder::add_url_schemes`.
#[verifier::external_body]
fn add_url_schemes<'a>(b: &mut Builder<'a>, values: &'a Vec<String>)
    ensures
        builder_config(*final(b)) == (SanitizerConfig {
            url_schemes: builder_config(*old(b)).url_schemes.union(names(values@)),
            ..builder_config(*old(b))
        }),
{
    b.add_url_schemes(values);
}

/// Removes from the allowed URL schemes, with `Builder::rm_url_schemes`.
#[verifier::external_body]
fn rm_url_schemes(b: &mut Builder, values: &Vec<String>)
    ensures
        builder_config(*final(b)) == (SanitizerConfig {
            url_schemes: builder_config(*old(b)).url_schemes.difference(names(values@)),
            ..builder_config(*old(b))
        }),
{
    b.rm_url_schemes(values);
}

/// The allowed URL schemes, read back with `Builder::clone_url_schemes`.
#[verifier::external_body]
fn url_schemes_of(b: &Builder) -> (r: Vec<String>)
    ensures
        names(r@) == builder_config(*b).url_schemes,
{
    b.clone_url_schemes().into_iter().map(str::to_string).collect()
}

/// Replaces the attributes allowed per tag, with `Builder::tag_attributes`.
#[verifier::external_body]
fn set_tag_attributes<'a>(b: &mut Builder<'a>, pairs: &'a Vec<(String, Vec<String>)>)
    ensures
        builder_config(*final(b)) == (SanitizerConfig {
            tag_attributes: attribute_sets(pairs@),
            ..builder_config(*old(b))
        }),
{
    b.tag_attributes(
        pairs.iter().map(|(tag, attrs)| (tag.as_str(), attrs.iter().map(String::as_str).collect())).collect(),
    );
}

/// Adds attributes allowed on one tag, with `Builder::add_tag_attributes`.
#[verifier::external_body]
fn add_tag_attributes<'a>(b: &mut Builder<'a>, tag: &'a String, attrs: &'a Vec<String>)
    ensures
        builder_config(*final(b)) == (SanitizerConfig {
            tag_attributes: builder_config(*old(b)).tag_attributes.insert(
                tag@,
                allowed_of(builder_config(*old(b)).tag_attributes, tag@).union(names(attrs@)),
            ),
            ..builder_config(*old(b))
        }),
{
    b.add_tag_attributes(tag, attrs);
}

/// Removes attributes allowed on one tag, with `Builder::rm_tag_attributes`;
/// a tag without an entry is left alone.
#[verifier::external_body]
fn rm_tag_attributes(b: &mut Builder, tag: &String, attrs: &Vec<String>)
    ensures
        builder_config(*final(b)) == (if builder_config(*old(b)).tag_attributes.contains_key(tag@) {
            SanitizerConfig {
                tag_attributes: builder_config(*old(b)).tag_attributes.insert(
                    tag@,
                    builder_config(*old(b)).tag_attributes[tag@].difference(names(attrs@)),
                ),
                ..builder_config(*old(b))
            }
        } else {
            builder_config(*old(b))
        }),
{
    b.rm_tag_attributes(tag, attrs);
}

/// The attributes allowed per tag, read back with
/// `Builder::clone_tag_attributes`; each tag comes once.
#[verifier::external_body]
fn tag_attributes_of(b: &Builder) -> (r: Vec<(String, Vec<String>)>)
    ensures
        attribute_sets(r@) == builder_config(*b).tag_attributes,
{
    b.clone_tag_attributes()
        .into_iter()
        .map(|(tag, attrs)| (tag.to_string(), attrs.into_iter().map(str::to_string).collect()))
        .collect()
}

/// Sets the `rel` of links, with `Builder::link_rel`.
#[verifier::external_body]
fn set_link_rel<'a>(b: &mut Builder<'a>, rel: &'a String)
    ensures
        builder_config(*final(b)) == (SanitizerConfig { link_rel: Some(rel@), ..builder_config(*old(b)) }),
{
    b.link_rel(Some(rel.as_str()));
}

/// The `rel` of links, read back with `Builder::get_link_rel`.
#[verifier::external_body]
fn link_rel_of(b: &Builder) -> (r: Option<String>)
    ensures
        match r {
            Some(rel) => builder_config(*b).link_rel == Some(rel@),
            None => builder_config(*b).link_rel is None,
        },
{
    b.get_link_rel().map(str::to_string)
}

/// Turns comment stripping on or off, with `Builder::strip_comments`.
#[verifier::external_body]
fn set_strip_comments(b: &mut Builder, strip: bool)
    ensures
        builder_config(*final(b)) == (SanitizerConfig { strip_comments: strip, ..builder_config(*old(b)) }),
{
    b.strip_comments(strip);
}
/// A custom sanitizer policy: for each of Ammonia's sets, an optional
/// replacement, names to add and names to remove; the attributes allowed
/// per tag likewise; and the links' `rel` and comment stripping when given.
#[derive(Clone, Debug, Default, PartialEq, Eq)]
pub struct ExSanitizeCustom {
    pub tags: Option<Vec<String>>,
    pub add_tags: Vec<String>,
    pub rm_tags: Vec<String>,
    pub clean_content_tags: Option<Vec<String>>,
    pub add_clean_content_tags: Vec<String>,
    pub rm_clean_content_tags: Vec<String>,
    pub tag_attributes: Option<Vec<(String, Vec<String>)>>,
    pub add_tag_attributes: Vec<(String, Vec<String>)>,
    pub rm_tag_attributes: Vec<(String, Vec<String>)>,
    pub generic_attributes: Option<Vec<String>>,
    pub add_generic_attributes: Vec<String>,
    pub rm_generic_attributes: Vec<String>,
    pub url_schemes: Option<Vec<String>>,
    pub add_url_schemes: Vec<String>,
    pub rm_url_schemes: Vec<String>,
    pub link_rel: Option<String>,
    pub strip_comments: Option<bool>,
}

/// The policy a custom sanitizer describes: Ammonia's default with each
/// key applied, base keys first, then `add_*`, then `rm_*`.
pub open spec fn custom_config(c: ExSanitizeCustom) -> SanitizerConfig {
    let d = default_config();
    SanitizerConfig {
        tags: set_changed(d.tags, c.tags, c.add_tags, c.rm_tags),
        clean_content_tags: set_changed(
            d.clean_content_tags,
            c.clean_content_tags,
            c.add_clean_content_tags,
            c.rm_clean_content_tags,
        ),
        tag_attributes: attributes_removed(
            attributes_added(
                match c.tag_attributes {
                    Some(pairs) => attribute_sets(pairs@),
                    None => d.tag_attributes,
                },
                c.add_tag_attributes@,
            ),
            c.rm_tag_attributes@,
        ),
        generic_attributes: set_changed(
            d.generic_attributes,
            c.generic_attributes,
            c.add_generic_attributes,
            c.rm_generic_attributes,
        ),
        url_schemes: set_changed(d.url_schemes, c.url_schemes, c.add_url_schemes, c.rm_url_schemes),
        link_rel: match c.link_rel {
            Some(rel) => Some(rel@),
            None => d.link_rel,
        },
        strip_comments: match c.strip_comments {
            Some(strip) => strip,
            None => d.strip_comments,
        },
    }
}

/// Whether `name` is in the list.
fn contains_name(values: &Vec<String>, name: &str) -> (r: bool)
    ensures
        r == names(values@).contains(name@),
{
    let mut i: usize = 0;
    while i < values.len()
        invariant
            i <= values@.len(),
            forall|j: int| 0 <= j < i ==> values@[j]@ != name@,
        decreases values@.len() - i,
    {
        if same_text(values[i].as_str(), name) {
            return true;
        }
        i = i + 1;
    }
    false
}

/// The pairs after position `i` do not name `tag`, so the first `i` pairs
/// decide its entry.
proof fn lemma_attribute_sets_suffix(s: Seq<(String, Vec<String>)>, i: int, tag: Seq<char>)
    requires
        0 <= i <= s.len(),
        forall|j: int| i <= j < s.len() ==> s[j].0@ != tag,
    ensures
        attribute_sets(s).contains_key(tag) == attribute_sets(s.take(i)).contains_key(tag),
        attribute_sets(s).contains_key(tag) ==> attribute_sets(s)[tag] == attribute_sets(
            s.take(i),
        )[tag],
    decreases s.len(),
{
    if i == s.len() {
        assert(s.take(i) =~= s);
    } else {
        let t = s.drop_last();
        assert forall|j: int| i <= j < t.len() implies t[j].0@ != tag by {
            assert(t[j] == s[j]);
        }
        lemma_attribute_sets_suffix(t, i, tag);
        assert(t.take(i) =~= s.take(i));
    }
}

/// The attributes the pairs allow on `tag`, by the last pair naming it.
fn allowed_in<'a>(pairs: &'a Vec<(String, Vec<String>)>, tag: &str) -> (r: Option<&'a Vec<String>>)
    ensures
        match r {
            Some(attrs) => attribute_sets(pairs@).contains_key(tag@) && attribute_sets(
                pairs@,
            )[tag@] == names(attrs@),
            None => !attribute_sets(pairs@).contains_key(tag@),
        },
{
    let mut i = pairs.len();
    while i > 0
        invariant
            i <= pairs@.len(),
            forall|j: int| i <= j < pairs@.len() ==> pairs@[j].0@ != tag@,
        decreases i,
    {
        let pair = &pairs[i - 1];
        if same_text(pair.0.as_str(), tag) {
            proof {
                lemma_attribute_sets_suffix(pairs@, i as int, tag@);
                assert(pairs@.take(i as int).drop_last() =~= pairs@.take(i - 1));
                assert(pairs@.take(i as int).last() == pairs@[i - 1]);
            }
            return Some(&pair.1);
        }
        i = i - 1;
    }
    proof {
        lemma_attribute_sets_suffix(pairs@, 0, tag@);
        assert(pairs@.take(0) =~= Seq::<(String, Vec<String>)>::empty());
    }
    None
}

/// Whether Ammonia can clean with the builder's policy without panicking.
fn policy_ok(b: &Builder) -> (r: bool)
    ensures
        r == sanitizer_ok(builder_config(*b)),
{
    let ghost c = builder_config(*b);
    let tags = tags_of(b);
    let clean_content = clean_content_tags_of(b);
    let generic = generic_attributes_of(b);
    let per_tag = tag_attributes_of(b);
    if link_rel_of(b).is_some() {
        if contains_name(&generic, "rel") {
            return false;
        }
        if let Some(attrs) = allowed_in(&per_tag, "a") {
            if contains_name(attrs, "rel") {
                return false;
            }
        }
    }
    let mut i: usize = 0;
    while i < clean_content.len()
        invariant
            c == builder_config(*b),
            names(clean_content@) == c.clean_content_tags,
            names(tags@) == c.tags,
            attribute_sets(per_tag@) == c.tag_attributes,
            i <= clean_content@.len(),
            forall|j: int|
                0 <= j < i ==> !c.tags.contains(#[trigger] clean_content@[j]@)
                    && !c.tag_attributes.contains_key(clean_content@[j]@),
        decreases clean_content@.len() - i,
    {
        let name = clean_content[i].as_str();
        if contains_name(&tags, name) {
            proof {
                assert(c.clean_content_tags.contains(clean_content@[i as int]@));
            }
            return false;
        }
        if allowed_in(&per_tag, name).is_some() {
            proof {
                assert(c.clean_content_tags.contains(clean_content@[i as int]@));
            }
            return false;
        }
        i = i + 1;
    }
    proof {
        assert forall|t: Seq<char>| #[trigger] c.clean_content_tags.contains(t) implies !c.tags.contains(
            t,
        ) && !c.tag_attributes.contains_key(t) by {
            assert(names(clean_content@).contains(t));
            let j = choose|j: int| 0 <= j < clean_content@.len() && clean_content@[j]@ == t;
            assert(!c.tags.contains(clean_content@[j]@));
        }
    }
    true
}

/// Two policies that differ at most in the attributes allowed per tag.
pub open spec fn same_but_tag_attributes(a: SanitizerConfig, b: SanitizerConfig) -> bool {
    &&& a.tags == b.tags
    &&& a.clean_content_tags == b.clean_content_tags
    &&& a.generic_attributes == b.generic_attributes
    &&& a.url_schemes == b.url_schemes
    &&& a.link_rel == b.link_rel
    &&& a.strip_comments == b.strip_comments
}

impl ExSanitizeCustom {
    /// An Ammonia builder holding this policy.
    pub fn to_ammonia(&self) -> (b: Builder<'_>)
        ensures
            builder_config(b) == custom_config(*self),
    {
        let mut b = default_builder();
        if let Some(values) = &self.tags {
            set_tags(&mut b, values);
        }
        add_tags(&mut b, &self.add_tags);
        rm_tags(&mut b, &self.rm_tags);
        if let Some(values) = &self.clean_content_tags {
            set_clean_content_tags(&mut b, values);
        }
        add_clean_content_tags(&mut b, &self.add_clean_content_tags);
        rm_clean_content_tags(&mut b, &self.rm_clean_content_tags);
        if let Some(values) = &self.generic_attributes {
            set_generic_attributes(&mut b, values);
        }
        add_generic_attributes(&mut b, &self.add_generic_attributes);
        rm_generic_attributes(&mut b, &self.rm_generic_attributes);
        if let Some(values) = &self.url_schemes {
            set_url_schemes(&mut b, values);
        }
        add_url_schemes(&mut b, &self.add_url_schemes);
        rm_url_schemes(&mut b, &self.rm_url_schemes);
        if let Some(pairs) = &self.tag_attributes {
            set_tag_attributes(&mut b, pairs);
        }
        let ghost start = builder_config(b);
        let ghost base = builder_config(b).tag_attributes;
        let mut i: usize = 0;
        while i < self.add_tag_attributes.len()
            invariant
                i <= self.add_tag_attributes@.len(),
                same_but_tag_attributes(builder_config(b), start),
                builder_config(b).tag_attributes == attributes_added(
                    base,
                    self.add_tag_attributes@.take(i as int),
                ),
            decreases self.add_tag_attributes@.len() - i,
        {
            let pair = &self.add_tag_attributes[i];
            add_tag_attributes(&mut b, &pair.0, &pair.1);
            proof {
                let s = self.add_tag_attributes@.take(i + 1);
                assert(s.drop_last() =~= self.add_tag_attributes@.take(i as int));
            }
            i = i + 1;
        }
        let ghost added = builder_config(b).tag_attributes;
        let mut i: usize = 0;
        while i < self.rm_tag_attributes.len()
            invariant
                i <= self.rm_tag_attributes@.len(),
                same_but_tag_attributes(builder_config(b), start),
                builder_config(b).tag_attributes == attributes_removed(
                    added,
                    self.rm_tag_attributes@.take(i as int),
                ),
            decreases self.rm_tag_attributes@.len() - i,
        {
            let pair = &self.rm_tag_attributes[i];
            rm_tag_attributes(&mut b, &pair.0, &pair.1);
            proof {
                let s = self.rm_tag_attributes@.take(i + 1);
                assert(s.drop_last() =~= self.rm_tag_attributes@.take(i as int));
            }
            i = i + 1;
        }
        if let Some(rel) = &self.link_rel {
            set_link_rel(&mut b, rel);
        }
        if let Some(strip) = self.strip_comments {
            set_strip_comments(&mut b, strip);
        }
        proof {
            assert(self.add_tag_attributes@.take(self.add_tag_attributes@.len() as int)
                =~= self.add_tag_attributes@);
            assert(self.rm_tag_attributes@.take(self.rm_tag_attributes@.len() as int)
                =~= self.rm_tag_attributes@);
        }
        b
    }

    /// Whether Ammonia can clean with this policy; it panics on a policy
    /// that keeps a tag it also removes with its content, or that allows
    /// `rel` while fixing the `rel` of links.
    pub fn can_clean(&self) -> (r: bool)
        ensures
            r == sanitizer_ok(custom_config(*self)),
    {
        let b = self.to_ammonia();
        policy_ok(&b)
    }

    /// Sanitizes `html` with this policy.
    pub fn clean(&self, html: &str) -> (r: String)
        requires
            sanitizer_ok(custom_config(*self)),
        ensures
            r@ == sanitized(custom_config(*self), html@),
    {
        let b = self.to_ammonia();
        builder_clean(&b, html)
    }
}

/// Whether one of the pairs names `tag` and lists `attr` with it.
pub open spec fn pair_lists(pairs: Seq<(String, Vec<String>)>, tag: Seq<char>, attr: Seq<char>) -> bool {
    exists|i: int| 0 <= i < pairs.len() && (#[trigger] pairs[i]).0@ == tag && names(pairs[i].1@).contains(attr)
}

/// After adding pairs, a tag allows an attribute exactly when it did before
/// or one of the pairs adds it to that tag.
pub proof fn lemma_attributes_added(
    m: Map<Seq<char>, Set<Seq<char>>>,
    pairs: Seq<(String, Vec<String>)>,
    tag: Seq<char>,
    attr: Seq<char>,
)
    ensures
        allowed_of(attributes_added(m, pairs), tag).contains(attr) <==> (allowed_of(m, tag).contains(
            attr,
        ) || pair_lists(pairs, tag, attr)),
    decreases pairs.len(),
{
    if pairs.len() > 0 {
        let init = pairs.drop_last();
        lemma_attributes_added(m, init, tag, attr);
        let last = pairs.last();
        if pair_lists(init, tag, attr) {
            let i = choose|i: int| 0 <= i < init.len() && (#[trigger] init[i]).0@ == tag && names(init[i].1@).contains(attr);
            assert(pairs[i] == init[i]);
        }
        if pair_lists(pairs, tag, attr) {
            let i = choose|i: int| 0 <= i < pairs.len() && (#[trigger] pairs[i]).0@ == tag && names(pairs[i].1@).contains(attr);
            if i < init.len() {
                assert(init[i] == pairs[i]);
            }
        }
        assert(pairs[pairs.len() - 1] == last);
    }
}

/// After removing pairs, a tag allows an attribute exactly when it did
/// before and none of the pairs removes it from that tag.
pub proof fn lemma_attributes_removed(
    m: Map<Seq<char>, Set<Seq<char>>>,
    pairs: Seq<(String, Vec<String>)>,
    tag: Seq<char>,
    attr: Seq<char>,
)
    ensures
        allowed_of(attributes_removed(m, pairs), tag).contains(attr) <==> (allowed_of(m, tag).contains(
            attr,
        ) && !pair_lists(pairs, tag, attr)),
    decreases pairs.len(),
{
    if pairs.len() > 0 {
        let init = pairs.drop_last();
        lemma_attributes_removed(m, init, tag, attr);
        let last = pairs.last();
        if pair_lists(init, tag, attr) {
            let i = choose|i: int| 0 <= i < init.len() && (#[trigger] init[i]).0@ == tag && names(init[i].1@).contains(attr);
            assert(pairs[i] == init[i]);
        }
        if pair_lists(pairs, tag, attr) {
            let i = choose|i: int| 0 <= i < pairs.len() && (#[trigger] pairs[i]).0@ == tag && names(pairs[i].1@).contains(attr);
            if i < init.len() {
                assert(init[i] == pairs[i]);
            }
        }
        assert(pairs[pairs.len() - 1] == last);
    }
}

/// Under a custom policy each of Ammonia's sets holds a name exactly when
/// the base set (the given one, else Ammonia's default) or the `add_*` list
/// names it and the `rm_*` list does not: removing wins over adding. The
/// links' `rel` and comment stripping are the given ones, else Ammonia's.
pub proof fn law_custom_sets(c: ExSanitizeCustom, n: Seq<char>)
    ensures
        custom_config(c).tags.contains(n) <==> ((match c.tags {
            Some(v) => names(v@).contains(n),
            None => default_config().tags.contains(n),
        }) || names(c.add_tags@).contains(n)) && !names(c.rm_tags@).contains(n),
        custom_config(c).clean_content_tags.contains(n) <==> ((match c.clean_content_tags {
            Some(v) => names(v@).contains(n),
            None => default_config().clean_content_tags.contains(n),
        }) || names(c.add_clean_content_tags@).contains(n)) && !names(
            c.rm_clean_content_tags@,
        ).contains(n),
        custom_config(c).generic_attributes.contains(n) <==> ((match c.generic_attributes {
            Some(v) => names(v@).contains(n),
            None => default_config().generic_attributes.contains(n),
        }) || names(c.add_generic_attributes@).contains(n)) && !names(
            c.rm_generic_attributes@,
        ).contains(n),
        custom_config(c).url_schemes.contains(n) <==> ((match c.url_schemes {
            Some(v) => names(v@).contains(n),
            None => default_config().url_schemes.contains(n),
        }) || names(c.add_url_schemes@).contains(n)) && !names(c.rm_url_schemes@).contains(n),
        custom_config(c).link_rel == match c.link_rel {
            Some(rel) => Some(rel@),
            None => Some("noopener noreferrer"@),
        },
        custom_config(c).strip_comments == match c.strip_comments {
            Some(strip) => strip,
            None => true,
        },
{
}

/// Under a custom policy a tag allows an attribute exactly when the base
/// attributes (the given `tag_attributes`, else Ammonia's default) allow it
/// or an `add_tag_attributes` pair adds it to that tag, and no
/// `rm_tag_attributes` pair removes it from that tag.
pub proof fn law_custom_tag_attributes(c: ExSanitizeCustom, tag: Seq<char>, attr: Seq<char>)
    ensures
        allowed_of(custom_config(c).tag_attributes, tag).contains(attr) <==> ((allowed_of(
            match c.tag_attributes {
                Some(pairs) => attribute_sets(pairs@),
                None => default_config().tag_attributes,
            },
            tag,
        ).contains(attr) || pair_lists(c.add_tag_attributes@, tag, attr)) && !pair_lists(
            c.rm_tag_attributes@,
            tag,
            attr,
        )),
{
    let base = match c.tag_attributes {
        Some(pairs) => attribute_sets(pairs@),
        None => default_config().tag_attributes,
    };
    let added = attributes_added(base, c.add_tag_attributes@);
    lemma_attributes_added(base, c.add_tag_attributes@, tag, attr);
    lemma_attributes_removed(added, c.rm_tag_attributes@, tag, attr);
}

/// Replacing the attributes per tag: a tag allows what the last pair that
/// names it lists, and nothing when no pair names it.
pub proof fn law_tag_attributes_last_pair_wins(
    pairs: Seq<(String, Vec<String>)>,
    tag: Seq<char>,
    i: int,
)
    ensures
        0 <= i < pairs.len() && pairs[i].0@ == tag && (forall|j: int|
            i < j < pairs.len() ==> (#[trigger] pairs[j]).0@ != tag) ==> allowed_of(
            attribute_sets(pairs),
            tag,
        ) == names(pairs[i].1@),
        (forall|j: int| 0 <= j < pairs.len() ==> (#[trigger] pairs[j]).0@ != tag) ==> allowed_of(
            attribute_sets(pairs),
            tag,
        ) == Set::<Seq<char>>::empty(),
    decreases pairs.len(),
{
    if pairs.len() > 0 {
        let init = pairs.drop_last();
        law_tag_attributes_last_pair_wins(init, tag, i);
        if 0 <= i < pairs.len() && pairs[i].0@ == tag && (forall|j: int|
            i < j < pairs.len() ==> (#[trigger] pairs[j]).0@ != tag) {
            if i < init.len() {
                assert(init[i] == pairs[i]);
                assert(pairs[pairs.len() - 1].0@ != tag);
                assert forall|j: int| i < j < init.len() implies (#[trigger] init[j]).0@ != tag by {
                    assert(init[j] == pairs[j]);
                }
            }
        }
        if forall|j: int| 0 <= j < pairs.len() ==> (#[trigger] pairs[j]).0@ != tag {
            assert(pairs[pairs.len() - 1].0@ != tag);
            assert forall|j: int| 0 <= j < init.len() implies (#[trigger] init[j]).0@ != tag by {
                assert(init[j] == pairs[j]);
            }
        }
    }
}

} // verus!
