//! The Comrak options Elixir sends, and how they override Comrak's own.
//!
//! Every option arrives optional: a field Elixir did not send (or sent as
//! `nil`) leaves Comrak's default in place. The options are applied to
//! plain-valued copies of Comrak's option structs, which the NIF glue reads
//! from and writes back to Comrak.

use vstd::prelude::*;

use crate::elixir_types::ExFormatterOption;
use crate::safe::ExSanitizeOption;

verus! {

/// Overwrites `target` when Elixir sent a value for the field, and leaves
/// it at its Comrak default when it did not.
pub fn overwrite<T>(target: &mut T, value: Option<T>)
    ensures
        *final(target) == kept(value, *old(target)),
{
    if let Some(value) = value {
        *target = value;
    }
}

/// Same rule for a field that is itself optional: `nil` from Elixir means
/// "leave it alone", not "clear it".
pub fn overwrite_optional<T>(target: &mut Option<T>, value: Option<T>)
    ensures
        *final(target) == kept_some(value, *old(target)),
{
    if value.is_some() {
        *target = value;
    }
}

/// The sent value, else the current one.
pub open spec fn kept<T>(value: Option<T>, current: T) -> T {
    match value {
        Some(v) => v,
        None => current,
    }
}

/// The sent value of an optional field, else the current one.
pub open spec fn kept_some<T>(value: Option<T>, current: Option<T>) -> Option<T> {
    if value is Some {
        value
    } else {
        current
    }
}

/// A copy of an optional string.
fn copy_text(s: &Option<String>) -> (r: Option<String>)
    ensures
        r == *s,
{
    match s {
        Some(t) => Some(t.clone()),
        None => None,
    }
}

/// The marker Comrak puts before a bullet list item.
#[derive(Clone, Copy, Debug, PartialEq, Eq)]
pub enum ExListStyleType {
    Dash,
    Plus,
    Star,
}

impl Default for ExListStyleType {
    /// A dash.
    fn default() -> (r: Self)
        ensures
            r == ExListStyleType::Dash,
    {
        ExListStyleType::Dash
    }
}

/// How Comrak renders an alert's class names.
#[derive(Clone, Copy, Debug, PartialEq, Eq)]
pub enum ExAlertStyleType {
    Specific,
    Semantic,
}

impl Default for ExAlertStyleType {
    /// The alert's own kind.
    fn default() -> (r: Self)
        ensures
            r == ExAlertStyleType::Specific,
    {
        ExAlertStyleType::Specific
    }
}

/// The Comrak extensions Elixir asked for; an unset one keeps Comrak's default.
#[derive(Clone, Debug)]
pub struct ExExtensionOptions {
    pub strikethrough: Option<bool>,
    pub tagfilter: Option<bool>,
    pub table: Option<bool>,
    pub autolink: Option<bool>,
    pub tasklist: Option<bool>,
    pub superscript: Option<bool>,
    pub header_id_prefix: Option<String>,
    pub header_id_prefix_in_href: Option<bool>,
    pub footnotes: Option<bool>,
    pub inline_footnotes: Option<bool>,
    pub description_lists: Option<bool>,
    pub front_matter_delimiter: Option<String>,
    pub multiline_block_quotes: Option<bool>,
    pub alerts: Option<bool>,
    pub math_dollars: Option<bool>,
    pub math_latex: Option<bool>,
    pub math_code: Option<bool>,
    pub shortcodes: Option<bool>,
    pub wikilinks_title_after_pipe: Option<bool>,
    pub wikilinks_title_before_pipe: Option<bool>,
    pub underline: Option<bool>,
    pub subscript: Option<bool>,
    pub spoiler: Option<bool>,
    pub greentext: Option<bool>,
    pub subtext: Option<bool>,
    pub highlight: Option<bool>,
    pub insert: Option<bool>,
    pub image_url_rewriter: Option<String>,
    pub link_url_rewriter: Option<String>,
    pub cjk_friendly_emphasis: Option<bool>,
    pub phoenix_heex: Option<bool>,
    pub block_directive: Option<bool>,
    pub header_attributes: Option<bool>,
    pub fenced_code_attributes: Option<bool>,
    pub inline_code_attributes: Option<bool>,
    pub link_attributes: Option<bool>,
}

impl Default for ExExtensionOptions {
    /// Every option unset.
    fn default() -> (r: Self)
        ensures
            r.strikethrough is None,
            r.tagfilter is None,
            r.table is None,
            r.autolink is None,
            r.tasklist is None,
            r.superscript is None,
            r.header_id_prefix is None,
            r.header_id_prefix_in_href is None,
            r.footnotes is None,
            r.inline_footnotes is None,
            r.description_lists is None,
            r.front_matter_delimiter is None,
            r.multiline_block_quotes is None,
            r.alerts is None,
            r.math_dollars is None,
            r.math_latex is None,
            r.math_code is None,
            r.shortcodes is None,
            r.wikilinks_title_after_pipe is None,
            r.wikilinks_title_before_pipe is None,
            r.underline is None,
            r.subscript is None,
            r.spoiler is None,
            r.greentext is None,
            r.subtext is None,
            r.highlight is None,
            r.insert is None,
            r.image_url_rewriter is None,
            r.link_url_rewriter is None,
            r.cjk_friendly_emphasis is None,
            r.phoenix_heex is None,
            r.block_directive is None,
            r.header_attributes is None,
            r.fenced_code_attributes is None,
            r.inline_code_attributes is None,
            r.link_attributes is None,
    {
        ExExtensionOptions {
            strikethrough: None,
            tagfilter: None,
            table: None,
            autolink: None,
            tasklist: None,
            superscript: None,
            header_id_prefix: None,
            header_id_prefix_in_href: None,
            footnotes: None,
            inline_footnotes: None,
            description_lists: None,
            front_matter_delimiter: None,
            multiline_block_quotes: None,
            alerts: None,
            math_dollars: None,
            math_latex: None,
            math_code: None,
            shortcodes: None,
            wikilinks_title_after_pipe: None,
            wikilinks_title_before_pipe: None,
            underline: None,
            subscript: None,
            spoiler: None,
            greentext: None,
            subtext: None,
            highlight: None,
            insert: None,
            image_url_rewriter: None,
            link_url_rewriter: None,
            cjk_friendly_emphasis: None,
            phoenix_heex: None,
            block_directive: None,
            header_attributes: None,
            fenced_code_attributes: None,
            inline_code_attributes: None,
            link_attributes: None,
        }
    }
}

/// The Comrak parse options Elixir asked for; an unset one keeps Comrak's default.
#[derive(Clone, Debug)]
pub struct ExParseOptions {
    pub smart: Option<bool>,
    pub default_info_string: Option<String>,
    pub relaxed_tasklist_matching: Option<bool>,
    pub relaxed_autolinks: Option<bool>,
    pub ignore_setext: Option<bool>,
    pub tasklist_in_table: Option<bool>,
    pub leave_footnote_definitions: Option<bool>,
    pub escaped_char_spans: Option<bool>,
    pub sourcepos_chars: Option<bool>,
}

impl Default for ExParseOptions {
    /// Every option unset.
    fn default() -> (r: Self)
        ensures
            r.smart is None,
            r.default_info_string is None,
            r.relaxed_tasklist_matching is None,
            r.relaxed_autolinks is None,
            r.ignore_setext is None,
            r.tasklist_in_table is None,
            r.leave_footnote_definitions is None,
            r.escaped_char_spans is None,
            r.sourcepos_chars is None,
    {
        ExParseOptions {
            smart: None,
            default_info_string: None,
            relaxed_tasklist_matching: None,
            relaxed_autolinks: None,
            ignore_setext: None,
            tasklist_in_table: None,
            leave_footnote_definitions: None,
            escaped_char_spans: None,
            sourcepos_chars: None,
        }
    }
}

/// The Comrak render options Elixir asked for; an unset one keeps Comrak's default.
#[derive(Clone, Debug)]
pub struct ExRenderOptions {
    pub hardbreaks: Option<bool>,
    pub github_pre_lang: Option<bool>,
    pub full_info_string: Option<bool>,
    pub width: Option<usize>,
    pub unsafe_: Option<bool>,
    pub escape: Option<bool>,
    pub list_style: Option<ExListStyleType>,
    pub sourcepos: Option<bool>,
    pub escaped_char_spans: Option<bool>,
    pub ignore_empty_links: Option<bool>,
    pub gfm_quirks: Option<bool>,
    pub prefer_fenced: Option<bool>,
    pub figure_with_caption: Option<bool>,
    pub tasklist_classes: Option<bool>,
    pub ol_width: Option<usize>,
    pub experimental_minimize_commonmark: Option<bool>,
    pub compact_html: Option<bool>,
    pub alert_style: Option<ExAlertStyleType>,
}

impl Default for ExRenderOptions {
    /// Every option unset.
    fn default() -> (r: Self)
        ensures
            r.hardbreaks is None,
            r.github_pre_lang is None,
            r.full_info_string is None,
            r.width is None,
            r.unsafe_ is None,
            r.escape is None,
            r.list_style is None,
            r.sourcepos is None,
            r.escaped_char_spans is None,
            r.ignore_empty_links is None,
            r.gfm_quirks is None,
            r.prefer_fenced is None,
            r.figure_with_caption is None,
            r.tasklist_classes is None,
            r.ol_width is None,
            r.experimental_minimize_commonmark is None,
            r.compact_html is None,
            r.alert_style is None,
    {
        ExRenderOptions {
            hardbreaks: None,
            github_pre_lang: None,
            full_info_string: None,
            width: None,
            unsafe_: None,
            escape: None,
            list_style: None,
            sourcepos: None,
            escaped_char_spans: None,
            ignore_empty_links: None,
            gfm_quirks: None,
            prefer_fenced: None,
            figure_with_caption: None,
            tasklist_classes: None,
            ol_width: None,
            experimental_minimize_commonmark: None,
            compact_html: None,
            alert_style: None,
        }
    }
}

/// Comrak's extension options, as plain values; a URL rewriter is held as
/// its template, in which `{@url}` stands for the URL.
pub struct ComrakExtension {
    pub strikethrough: bool,
    pub table: bool,
    pub autolink: bool,
    pub tasklist: bool,
    pub superscript: bool,
    pub header_id_prefix: Option<String>,
    pub header_id_prefix_in_href: bool,
    pub footnotes: bool,
    pub inline_footnotes: bool,
    pub description_lists: bool,
    pub front_matter_delimiter: Option<String>,
    pub multiline_block_quotes: bool,
    pub alerts: bool,
    pub math_dollars: bool,
    pub math_latex: bool,
    pub math_code: bool,
    pub shortcodes: bool,
    pub wikilinks_title_after_pipe: bool,
    pub wikilinks_title_before_pipe: bool,
    pub underline: bool,
    pub subscript: bool,
    pub spoiler: bool,
    pub greentext: bool,
    pub subtext: bool,
    pub highlight: bool,
    pub insert: bool,
    pub image_url_rewriter: Option<String>,
    pub link_url_rewriter: Option<String>,
    pub cjk_friendly_emphasis: bool,
    pub phoenix_heex: bool,
    pub block_directive: bool,
    pub header_attributes: bool,
    pub fenced_code_attributes: bool,
    pub inline_code_attributes: bool,
    pub link_attributes: bool,
}

/// Comrak's parse options, as plain values.
pub struct ComrakParse {
    pub smart: bool,
    pub default_info_string: Option<String>,
    pub relaxed_tasklist_matching: bool,
    pub relaxed_autolinks: bool,
    pub ignore_setext: bool,
    pub tasklist_in_table: bool,
    pub leave_footnote_definitions: bool,
    pub escaped_char_spans: bool,
    pub sourcepos_chars: bool,
}

/// Comrak's render options, as plain values.
pub struct ComrakRender {
    pub hardbreaks: bool,
    pub github_pre_lang: bool,
    pub full_info_string: bool,
    pub width: usize,
    pub unsafe_: bool,
    pub escape: bool,
    pub list_style: ExListStyleType,
    pub sourcepos: bool,
    pub escaped_char_spans: bool,
    pub ignore_empty_links: bool,
    pub gfm_quirks: bool,
    pub prefer_fenced: bool,
    pub figure_with_caption: bool,
    pub tasklist_classes: bool,
    pub ol_width: usize,
    pub experimental_minimize_commonmark: bool,
    pub compact_html: bool,
    pub alert_style: ExAlertStyleType,
}

/// Comrak's extension options with Elixir's set ones applied: the common
/// extensions, then the further ones, then the URL rewriters and attribute
/// extensions. `tagfilter` has no Comrak option to land in and changes
/// nothing.
pub open spec fn extension_applied(o: ExExtensionOptions, m: ComrakExtension) -> ComrakExtension {
    o.rewriters_applied(o.additional_applied(o.common_applied(m)))
}

/// Comrak's parse options with Elixir's set ones applied.
pub open spec fn parse_applied(o: ExParseOptions, m: ComrakParse) -> ComrakParse {
    ComrakParse {
        smart: kept(o.smart, m.smart),
        default_info_string: kept_some(o.default_info_string, m.default_info_string),
        relaxed_tasklist_matching: kept(o.relaxed_tasklist_matching, m.relaxed_tasklist_matching),
        relaxed_autolinks: kept(o.relaxed_autolinks, m.relaxed_autolinks),
        ignore_setext: kept(o.ignore_setext, m.ignore_setext),
        tasklist_in_table: kept(o.tasklist_in_table, m.tasklist_in_table),
        leave_footnote_definitions: kept(o.leave_footnote_definitions, m.leave_footnote_definitions),
        escaped_char_spans: kept(o.escaped_char_spans, m.escaped_char_spans),
        sourcepos_chars: kept(o.sourcepos_chars, m.sourcepos_chars),
    }
}

/// Comrak's render options with Elixir's set ones applied.
pub open spec fn render_applied(o: ExRenderOptions, m: ComrakRender) -> ComrakRender {
    ComrakRender {
        hardbreaks: kept(o.hardbreaks, m.hardbreaks),
        github_pre_lang: kept(o.github_pre_lang, m.github_pre_lang),
        full_info_string: kept(o.full_info_string, m.full_info_string),
        width: kept(o.width, m.width),
        unsafe_: kept(o.unsafe_, m.unsafe_),
        escape: kept(o.escape, m.escape),
        list_style: kept(o.list_style, m.list_style),
        sourcepos: kept(o.sourcepos, m.sourcepos),
        escaped_char_spans: kept(o.escaped_char_spans, m.escaped_char_spans),
        ignore_empty_links: kept(o.ignore_empty_links, m.ignore_empty_links),
        gfm_quirks: kept(o.gfm_quirks, m.gfm_quirks),
        prefer_fenced: kept(o.prefer_fenced, m.prefer_fenced),
        figure_with_caption: kept(o.figure_with_caption, m.figure_with_caption),
        tasklist_classes: kept(o.tasklist_classes, m.tasklist_classes),
        ol_width: kept(o.ol_width, m.ol_width),
        experimental_minimize_commonmark: kept(o.experimental_minimize_commonmark, m.experimental_minimize_commonmark),
        compact_html: kept(o.compact_html, m.compact_html),
        alert_style: kept(o.alert_style, m.alert_style),
    }
}

impl ExExtensionOptions {
    /// The extension options with the common ones Elixir set applied.
    pub open spec fn common_applied(&self, m: ComrakExtension) -> ComrakExtension {
        ComrakExtension {
            strikethrough: kept(self.strikethrough, m.strikethrough),
            table: kept(self.table, m.table),
            autolink: kept(self.autolink, m.autolink),
            tasklist: kept(self.tasklist, m.tasklist),
            superscript: kept(self.superscript, m.superscript),
            header_id_prefix: kept_some(self.header_id_prefix, m.header_id_prefix),
            header_id_prefix_in_href: kept(self.header_id_prefix_in_href, m.header_id_prefix_in_href),
            footnotes: kept(self.footnotes, m.footnotes),
            inline_footnotes: kept(self.inline_footnotes, m.inline_footnotes),
            ..m
        }
    }

    /// The extension options with the further ones Elixir set applied.
    pub open spec fn additional_applied(&self, m: ComrakExtension) -> ComrakExtension {
        ComrakExtension {
            description_lists: kept(self.description_lists, m.description_lists),
            front_matter_delimiter: kept_some(self.front_matter_delimiter, m.front_matter_delimiter),
            multiline_block_quotes: kept(self.multiline_block_quotes, m.multiline_block_quotes),
            alerts: kept(self.alerts, m.alerts),
            math_dollars: kept(self.math_dollars, m.math_dollars),
            math_latex: kept(self.math_latex, m.math_latex),
            math_code: kept(self.math_code, m.math_code),
            shortcodes: kept(self.shortcodes, m.shortcodes),
            wikilinks_title_after_pipe: kept(self.wikilinks_title_after_pipe, m.wikilinks_title_after_pipe),
            wikilinks_title_before_pipe: kept(self.wikilinks_title_before_pipe, m.wikilinks_title_before_pipe),
            underline: kept(self.underline, m.underline),
            subscript: kept(self.subscript, m.subscript),
            spoiler: kept(self.spoiler, m.spoiler),
            greentext: kept(self.greentext, m.greentext),
            subtext: kept(self.subtext, m.subtext),
            highlight: kept(self.highlight, m.highlight),
            insert: kept(self.insert, m.insert),
            ..m
        }
    }

    /// The extension options with the URL rewriters and attribute
    /// extensions Elixir set applied.
    pub open spec fn rewriters_applied(&self, m: ComrakExtension) -> ComrakExtension {
        ComrakExtension {
            image_url_rewriter: kept_some(self.image_url_rewriter, m.image_url_rewriter),
            link_url_rewriter: kept_some(self.link_url_rewriter, m.link_url_rewriter),
            cjk_friendly_emphasis: kept(self.cjk_friendly_emphasis, m.cjk_friendly_emphasis),
            phoenix_heex: kept(self.phoenix_heex, m.phoenix_heex),
            block_directive: kept(self.block_directive, m.block_directive),
            header_attributes: kept(self.header_attributes, m.header_attributes),
            fenced_code_attributes: kept(self.fenced_code_attributes, m.fenced_code_attributes),
            inline_code_attributes: kept(self.inline_code_attributes, m.inline_code_attributes),
            link_attributes: kept(self.link_attributes, m.link_attributes),
            ..m
        }
    }

    /// Applies the set options over Comrak's extension options.
    pub fn apply(&self, extension: ComrakExtension) -> (r: ComrakExtension)
        ensures
            r == extension_applied(*self, extension),
    {
        let extension = self.apply_common_options(extension);
        let extension = self.apply_additional_options(extension);
        self.apply_rewriters_and_attributes(extension)
    }

    /// The common extensions.
    fn apply_common_options(&self, extension: ComrakExtension) -> (r: ComrakExtension)
        ensures
            r == self.common_applied(extension),
    {
        let ComrakExtension {
            mut strikethrough,
            mut table,
            mut autolink,
            mut tasklist,
            mut superscript,
            mut header_id_prefix,
            mut header_id_prefix_in_href,
            mut footnotes,
            mut inline_footnotes,
            description_lists,
            front_matter_delimiter,
            multiline_block_quotes,
            alerts,
            math_dollars,
            math_latex,
            math_code,
            shortcodes,
            wikilinks_title_after_pipe,
            wikilinks_title_before_pipe,
            underline,
            subscript,
            spoiler,
            greentext,
            subtext,
            highlight,
            insert,
            image_url_rewriter,
            link_url_rewriter,
            cjk_friendly_emphasis,
            phoenix_heex,
            block_directive,
            header_attributes,
            fenced_code_attributes,
            inline_code_attributes,
            link_attributes,
        } = extension;
        overwrite(&mut strikethrough, self.strikethrough);
        overwrite(&mut table, self.table);
        overwrite(&mut autolink, self.autolink);
        overwrite(&mut tasklist, self.tasklist);
        overwrite(&mut superscript, self.superscript);
        overwrite_optional(&mut header_id_prefix, copy_text(&self.header_id_prefix));
        overwrite(&mut header_id_prefix_in_href, self.header_id_prefix_in_href);
        overwrite(&mut footnotes, self.footnotes);
        overwrite(&mut inline_footnotes, self.inline_footnotes);
        ComrakExtension {
            strikethrough,
            table,
            autolink,
            tasklist,
            superscript,
            header_id_prefix,
            header_id_prefix_in_href,
            footnotes,
            inline_footnotes,
            description_lists,
            front_matter_delimiter,
            multiline_block_quotes,
            alerts,
            math_dollars,
            math_latex,
            math_code,
            shortcodes,
            wikilinks_title_after_pipe,
            wikilinks_title_before_pipe,
            underline,
            subscript,
            spoiler,
            greentext,
            subtext,
            highlight,
            insert,
            image_url_rewriter,
            link_url_rewriter,
            cjk_friendly_emphasis,
            phoenix_heex,
            block_directive,
            header_attributes,
            fenced_code_attributes,
            inline_code_attributes,
            link_attributes,
        }
    }

    /// The further extensions.
    fn apply_additional_options(&self, extension: ComrakExtension) -> (r: ComrakExtension)
        ensures
            r == self.additional_applied(extension),
    {
        let ComrakExtension {
            strikethrough,
            table,
            autolink,
            tasklist,
            superscript,
            header_id_prefix,
            header_id_prefix_in_href,
            footnotes,
            inline_footnotes,
            mut description_lists,
            mut front_matter_delimiter,
            mut multiline_block_quotes,
            mut alerts,
            mut math_dollars,
            mut math_latex,
            mut math_code,
            mut shortcodes,
            mut wikilinks_title_after_pipe,
            mut wikilinks_title_before_pipe,
            mut underline,
            mut subscript,
            mut spoiler,
            mut greentext,
            mut subtext,
            mut highlight,
            mut insert,
            image_url_rewriter,
            link_url_rewriter,
            cjk_friendly_emphasis,
            phoenix_heex,
            block_directive,
            header_attributes,
            fenced_code_attributes,
            inline_code_attributes,
            link_attributes,
        } = extension;
        overwrite(&mut description_lists, self.description_lists);
        overwrite_optional(&mut front_matter_delimiter, copy_text(&self.front_matter_delimiter));
        overwrite(&mut multiline_block_quotes, self.multiline_block_quotes);
        overwrite(&mut alerts, self.alerts);
        overwrite(&mut math_dollars, self.math_dollars);
        overwrite(&mut math_latex, self.math_latex);
        overwrite(&mut math_code, self.math_code);
        overwrite(&mut shortcodes, self.shortcodes);
        overwrite(&mut wikilinks_title_after_pipe, self.wikilinks_title_after_pipe);
        overwrite(&mut wikilinks_title_before_pipe, self.wikilinks_title_before_pipe);
        overwrite(&mut underline, self.underline);
        overwrite(&mut subscript, self.subscript);
        overwrite(&mut spoiler, self.spoiler);
        overwrite(&mut greentext, self.greentext);
        overwrite(&mut subtext, self.subtext);
        overwrite(&mut highlight, self.highlight);
        overwrite(&mut insert, self.insert);
        ComrakExtension {
            strikethrough,
            table,
            autolink,
            tasklist,
            superscript,
            header_id_prefix,
            header_id_prefix_in_href,
            footnotes,
            inline_footnotes,
            description_lists,
            front_matter_delimiter,
            multiline_block_quotes,
            alerts,
            math_dollars,
            math_latex,
            math_code,
            shortcodes,
            wikilinks_title_after_pipe,
            wikilinks_title_before_pipe,
            underline,
            subscript,
            spoiler,
            greentext,
            subtext,
            highlight,
            insert,
            image_url_rewriter,
            link_url_rewriter,
            cjk_friendly_emphasis,
            phoenix_heex,
            block_directive,
            header_attributes,
            fenced_code_attributes,
            inline_code_attributes,
            link_attributes,
        }
    }

    /// The URL rewriters and the attribute extensions.
    fn apply_rewriters_and_attributes(&self, extension: ComrakExtension) -> (r: ComrakExtension)
        ensures
            r == self.rewriters_applied(extension),
    {
        let ComrakExtension {
            strikethrough,
            table,
            autolink,
            tasklist,
            superscript,
            header_id_prefix,
            header_id_prefix_in_href,
            footnotes,
            inline_footnotes,
            description_lists,
            front_matter_delimiter,
            multiline_block_quotes,
            alerts,
            math_dollars,
            math_latex,
            math_code,
            shortcodes,
            wikilinks_title_after_pipe,
            wikilinks_title_before_pipe,
            underline,
            subscript,
            spoiler,
            greentext,
            subtext,
            highlight,
            insert,
            mut image_url_rewriter,
            mut link_url_rewriter,
            mut cjk_friendly_emphasis,
            mut phoenix_heex,
            mut block_directive,
            mut header_attributes,
            mut fenced_code_attributes,
            mut inline_code_attributes,
            mut link_attributes,
        } = extension;
        overwrite_optional(&mut image_url_rewriter, copy_text(&self.image_url_rewriter));
        overwrite_optional(&mut link_url_rewriter, copy_text(&self.link_url_rewriter));
        overwrite(&mut cjk_friendly_emphasis, self.cjk_friendly_emphasis);
        overwrite(&mut phoenix_heex, self.phoenix_heex);
        overwrite(&mut block_directive, self.block_directive);
        overwrite(&mut header_attributes, self.header_attributes);
        overwrite(&mut fenced_code_attributes, self.fenced_code_attributes);
        overwrite(&mut inline_code_attributes, self.inline_code_attributes);
        overwrite(&mut link_attributes, self.link_attributes);
        ComrakExtension {
            strikethrough,
            table,
            autolink,
            tasklist,
            superscript,
            header_id_prefix,
            header_id_prefix_in_href,
            footnotes,
            inline_footnotes,
            description_lists,
            front_matter_delimiter,
            multiline_block_quotes,
            alerts,
            math_dollars,
            math_latex,
            math_code,
            shortcodes,
            wikilinks_title_after_pipe,
            wikilinks_title_before_pipe,
            underline,
            subscript,
            spoiler,
            greentext,
            subtext,
            highlight,
            insert,
            image_url_rewriter,
            link_url_rewriter,
            cjk_friendly_emphasis,
            phoenix_heex,
            block_directive,
            header_attributes,
            fenced_code_attributes,
            inline_code_attributes,
            link_attributes,
        }
    }

}

impl ExParseOptions {
    /// Applies the set options over Comrak's parse options.
    pub fn apply(&self, parse: ComrakParse) -> (r: ComrakParse)
        ensures
            r == parse_applied(*self, parse),
    {
        let ComrakParse {
            mut smart,
            mut default_info_string,
            mut relaxed_tasklist_matching,
            mut relaxed_autolinks,
            mut ignore_setext,
            mut tasklist_in_table,
            mut leave_footnote_definitions,
            mut escaped_char_spans,
            mut sourcepos_chars,
        } = parse;
        overwrite(&mut smart, self.smart);
        overwrite_optional(&mut default_info_string, copy_text(&self.default_info_string));
        overwrite(&mut relaxed_tasklist_matching, self.relaxed_tasklist_matching);
        overwrite(&mut relaxed_autolinks, self.relaxed_autolinks);
        overwrite(&mut ignore_setext, self.ignore_setext);
        overwrite(&mut tasklist_in_table, self.tasklist_in_table);
        overwrite(&mut leave_footnote_definitions, self.leave_footnote_definitions);
        overwrite(&mut escaped_char_spans, self.escaped_char_spans);
        overwrite(&mut sourcepos_chars, self.sourcepos_chars);
        ComrakParse {
            smart,
            default_info_string,
            relaxed_tasklist_matching,
            relaxed_autolinks,
            ignore_setext,
            tasklist_in_table,
            leave_footnote_definitions,
            escaped_char_spans,
            sourcepos_chars,
        }
    }

}

impl ExRenderOptions {
    /// Applies the set options over Comrak's render options.
    pub fn apply(&self, render: ComrakRender) -> (r: ComrakRender)
        ensures
            r == render_applied(*self, render),
    {
        let ComrakRender {
            mut hardbreaks,
            mut github_pre_lang,
            mut full_info_string,
            mut width,
            mut unsafe_,
            mut escape,
            mut list_style,
            mut sourcepos,
            mut escaped_char_spans,
            mut ignore_empty_links,
            mut gfm_quirks,
            mut prefer_fenced,
            mut figure_with_caption,
            mut tasklist_classes,
            mut ol_width,
            mut experimental_minimize_commonmark,
            mut compact_html,
            mut alert_style,
        } = render;
        overwrite(&mut hardbreaks, self.hardbreaks);
        overwrite(&mut github_pre_lang, self.github_pre_lang);
        overwrite(&mut full_info_string, self.full_info_string);
        overwrite(&mut width, self.width);
        overwrite(&mut unsafe_, self.unsafe_);
        overwrite(&mut escape, self.escape);
        overwrite(&mut list_style, self.list_style);
        overwrite(&mut sourcepos, self.sourcepos);
        overwrite(&mut escaped_char_spans, self.escaped_char_spans);
        overwrite(&mut ignore_empty_links, self.ignore_empty_links);
        overwrite(&mut gfm_quirks, self.gfm_quirks);
        overwrite(&mut prefer_fenced, self.prefer_fenced);
        overwrite(&mut figure_with_caption, self.figure_with_caption);
        overwrite(&mut tasklist_classes, self.tasklist_classes);
        overwrite(&mut ol_width, self.ol_width);
        overwrite(&mut experimental_minimize_commonmark, self.experimental_minimize_commonmark);
        overwrite(&mut compact_html, self.compact_html);
        overwrite(&mut alert_style, self.alert_style);
        ComrakRender {
            hardbreaks,
            github_pre_lang,
            full_info_string,
            width,
            unsafe_,
            escape,
            list_style,
            sourcepos,
            escaped_char_spans,
            ignore_empty_links,
            gfm_quirks,
            prefer_fenced,
            figure_with_caption,
            tasklist_classes,
            ol_width,
            experimental_minimize_commonmark,
            compact_html,
            alert_style,
        }
    }

}
/// Comrak's options, as plain values.
pub struct ComrakOptions {
    pub extension: ComrakExtension,
    pub parse: ComrakParse,
    pub render: ComrakRender,
}

/// The syntax highlighter engine Elixir asked for.
#[derive(Clone, Copy, Debug, PartialEq, Eq)]
pub enum ExSyntaxHighlightEngine {
    Lumis,
    Syntect,
}

impl Default for ExSyntaxHighlightEngine {
    /// Lumis.
    fn default() -> (r: Self)
        ensures
            r == ExSyntaxHighlightEngine::Lumis,
    {
        ExSyntaxHighlightEngine::Lumis
    }
}

/// How Lumis highlights code fences.
#[derive(Debug)]
pub struct ExLumisOptions {
    pub formatter: ExFormatterOption,
    /// Lumis moved this off the formatter; it arrives alongside it.
    pub rainbow_brackets: bool,
}

impl Default for ExLumisOptions {
    /// The default formatter, without rainbow brackets.
    fn default() -> (r: Self)
        ensures
            r.formatter matches ExFormatterOption::HtmlInline {
                theme,
                pre_class,
                pre_attrs,
                code_attrs,
                italic,
                include_highlights,
                highlight_lines,
                line_numbers,
                header,
            } && theme is None && pre_class is None && pre_attrs@.len() == 0 && code_attrs@.len()
                == 0 && !italic && !include_highlights && highlight_lines is None && !line_numbers
                && header is None,
            !r.rainbow_brackets,
    {
        ExLumisOptions { formatter: ExFormatterOption::default(), rainbow_brackets: false }
    }
}

/// How Syntect highlights code fences.
#[derive(Debug)]
pub struct ExSyntectOptions {
    pub theme: Option<String>,
}

impl Default for ExSyntectOptions {
    /// No theme.
    fn default() -> (r: Self)
        ensures
            r.theme is None,
    {
        ExSyntectOptions { theme: None }
    }
}

/// The options of the engine that highlights code fences.
#[derive(Debug)]
pub enum ExSyntaxHighlightEngineOptions {
    Lumis(Box<ExLumisOptions>),
    Syntect(ExSyntectOptions),
}

/// How code fences are highlighted.
#[derive(Debug)]
pub struct ExSyntaxHighlightOptions {
    pub opts: ExSyntaxHighlightEngineOptions,
}

/// Everything Elixir sends to render a document.
#[derive(Debug)]
pub struct ExOptions {
    pub extension: Option<ExExtensionOptions>,
    pub parse: Option<ExParseOptions>,
    pub render: Option<ExRenderOptions>,
    pub syntax_highlight: Option<ExSyntaxHighlightOptions>,
    pub sanitize: Option<ExSanitizeOption>,
    pub escape_curly_braces_in_code: Option<bool>,
}

impl Default for ExOptions {
    /// Nothing sent.
    fn default() -> (r: Self)
        ensures
            r.extension is None,
            r.parse is None,
            r.render is None,
            r.syntax_highlight is None,
            r.sanitize is None,
            r.escape_curly_braces_in_code is None,
    {
        ExOptions {
            extension: None,
            parse: None,
            render: None,
            syntax_highlight: None,
            sanitize: None,
            escape_curly_braces_in_code: None,
        }
    }
}

/// Comrak's options with every group Elixir sent applied.
pub open spec fn options_applied(o: ExOptions, defaults: ComrakOptions) -> ComrakOptions {
    ComrakOptions {
        extension: match o.extension {
            Some(e) => extension_applied(e, defaults.extension),
            None => defaults.extension,
        },
        parse: match o.parse {
            Some(p) => parse_applied(p, defaults.parse),
            None => defaults.parse,
        },
        render: match o.render {
            Some(r) => render_applied(r, defaults.render),
            None => defaults.render,
        },
    }
}

impl ExOptions {
    /// Whether `{` and `}` inside `code` elements are escaped in the HTML:
    /// unless Elixir said otherwise, they are.
    pub fn escapes_curly_braces_in_code(&self) -> (b: bool)
        ensures
            b == kept(self.escape_curly_braces_in_code, true),
    {
        match self.escape_curly_braces_in_code {
            Some(escape) => escape,
            None => true,
        }
    }

    /// The Comrak options to render with: Comrak's defaults, which the
    /// caller reads from Comrak, with what Elixir sent applied over them.
    pub fn comrak_options(&self, defaults: ComrakOptions) -> (r: ComrakOptions)
        ensures
            r == options_applied(*self, defaults),
    {
        let ComrakOptions { extension, parse, render } = defaults;
        let extension = match &self.extension {
            Some(options) => options.apply(extension),
            None => extension,
        };
        let parse = match &self.parse {
            Some(options) => options.apply(parse),
            None => parse,
        };
        let render = match &self.render {
            Some(options) => options.apply(render),
            None => render,
        };
        ComrakOptions { extension, parse, render }
    }
}


/// Options Elixir did not send leave Comrak's defaults alone: with no
/// group sent, the options are Comrak's own.
pub proof fn law_unsent_options_keep_defaults(o: ExOptions, defaults: ComrakOptions)
    requires
        o.extension is None,
        o.parse is None,
        o.render is None,
    ensures
        options_applied(o, defaults) == defaults,
{
}

/// Applying the same parse options a second time changes nothing.
pub proof fn law_parse_options_apply_once(o: ExParseOptions, m: ComrakParse)
    ensures
        parse_applied(o, parse_applied(o, m)) == parse_applied(o, m),
{
}

/// Applying the same render options a second time changes nothing.
pub proof fn law_render_options_apply_once(o: ExRenderOptions, m: ComrakRender)
    ensures
        render_applied(o, render_applied(o, m)) == render_applied(o, m),
{
}


/// Every extension option Elixir sends lands in the Comrak option of the
/// same name, and every one it leaves unset keeps Comrak's value.
pub proof fn law_extension_options_land_in_place(o: ExExtensionOptions, m: ComrakExtension)
    ensures
        o.strikethrough matches Some(v) ==> extension_applied(o, m).strikethrough == v,
        o.strikethrough is None ==> extension_applied(o, m).strikethrough == m.strikethrough,
        o.table matches Some(v) ==> extension_applied(o, m).table == v,
        o.table is None ==> extension_applied(o, m).table == m.table,
        o.autolink matches Some(v) ==> extension_applied(o, m).autolink == v,
        o.autolink is None ==> extension_applied(o, m).autolink == m.autolink,
        o.tasklist matches Some(v) ==> extension_applied(o, m).tasklist == v,
        o.tasklist is None ==> extension_applied(o, m).tasklist == m.tasklist,
        o.superscript matches Some(v) ==> extension_applied(o, m).superscript == v,
        o.superscript is None ==> extension_applied(o, m).superscript == m.superscript,
        o.header_id_prefix is Some ==> extension_applied(o, m).header_id_prefix == o.header_id_prefix,
        o.header_id_prefix is None ==> extension_applied(o, m).header_id_prefix == m.header_id_prefix,
        o.header_id_prefix_in_href matches Some(v) ==> extension_applied(o, m).header_id_prefix_in_href == v,
        o.header_id_prefix_in_href is None ==> extension_applied(o, m).header_id_prefix_in_href == m.header_id_prefix_in_href,
        o.footnotes matches Some(v) ==> extension_applied(o, m).footnotes == v,
        o.footnotes is None ==> extension_applied(o, m).footnotes == m.footnotes,
        o.inline_footnotes matches Some(v) ==> extension_applied(o, m).inline_footnotes == v,
        o.inline_footnotes is None ==> extension_applied(o, m).inline_footnotes == m.inline_footnotes,
        o.description_lists matches Some(v) ==> extension_applied(o, m).description_lists == v,
        o.description_lists is None ==> extension_applied(o, m).description_lists == m.description_lists,
        o.front_matter_delimiter is Some ==> extension_applied(o, m).front_matter_delimiter == o.front_matter_delimiter,
        o.front_matter_delimiter is None ==> extension_applied(o, m).front_matter_delimiter == m.front_matter_delimiter,
        o.multiline_block_quotes matches Some(v) ==> extension_applied(o, m).multiline_block_quotes == v,
        o.multiline_block_quotes is None ==> extension_applied(o, m).multiline_block_quotes == m.multiline_block_quotes,
        o.alerts matches Some(v) ==> extension_applied(o, m).alerts == v,
        o.alerts is None ==> extension_applied(o, m).alerts == m.alerts,
        o.math_dollars matches Some(v) ==> extension_applied(o, m).math_dollars == v,
        o.math_dollars is None ==> extension_applied(o, m).math_dollars == m.math_dollars,
        o.math_latex matches Some(v) ==> extension_applied(o, m).math_latex == v,
        o.math_latex is None ==> extension_applied(o, m).math_latex == m.math_latex,
        o.math_code matches Some(v) ==> extension_applied(o, m).math_code == v,
        o.math_code is None ==> extension_applied(o, m).math_code == m.math_code,
        o.shortcodes matches Some(v) ==> extension_applied(o, m).shortcodes == v,
        o.shortcodes is None ==> extension_applied(o, m).shortcodes == m.shortcodes,
        o.wikilinks_title_after_pipe matches Some(v) ==> extension_applied(o, m).wikilinks_title_after_pipe == v,
        o.wikilinks_title_after_pipe is None ==> extension_applied(o, m).wikilinks_title_after_pipe == m.wikilinks_title_after_pipe,
        o.wikilinks_title_before_pipe matches Some(v) ==> extension_applied(o, m).wikilinks_title_before_pipe == v,
        o.wikilinks_title_before_pipe is None ==> extension_applied(o, m).wikilinks_title_before_pipe == m.wikilinks_title_before_pipe,
        o.underline matches Some(v) ==> extension_applied(o, m).underline == v,
        o.underline is None ==> extension_applied(o, m).underline == m.underline,
        o.subscript matches Some(v) ==> extension_applied(o, m).subscript == v,
        o.subscript is None ==> extension_applied(o, m).subscript == m.subscript,
        o.spoiler matches Some(v) ==> extension_applied(o, m).spoiler == v,
        o.spoiler is None ==> extension_applied(o, m).spoiler == m.spoiler,
        o.greentext matches Some(v) ==> extension_applied(o, m).greentext == v,
        o.greentext is None ==> extension_applied(o, m).greentext == m.greentext,
        o.subtext matches Some(v) ==> extension_applied(o, m).subtext == v,
        o.subtext is None ==> extension_applied(o, m).subtext == m.subtext,
        o.highlight matches Some(v) ==> extension_applied(o, m).highlight == v,
        o.highlight is None ==> extension_applied(o, m).highlight == m.highlight,
        o.insert matches Some(v) ==> extension_applied(o, m).insert == v,
        o.insert is None ==> extension_applied(o, m).insert == m.insert,
        o.image_url_rewriter is Some ==> extension_applied(o, m).image_url_rewriter == o.image_url_rewriter,
        o.image_url_rewriter is None ==> extension_applied(o, m).image_url_rewriter == m.image_url_rewriter,
        o.link_url_rewriter is Some ==> extension_applied(o, m).link_url_rewriter == o.link_url_rewriter,
        o.link_url_rewriter is None ==> extension_applied(o, m).link_url_rewriter == m.link_url_rewriter,
        o.cjk_friendly_emphasis matches Some(v) ==> extension_applied(o, m).cjk_friendly_emphasis == v,
        o.cjk_friendly_emphasis is None ==> extension_applied(o, m).cjk_friendly_emphasis == m.cjk_friendly_emphasis,
        o.phoenix_heex matches Some(v) ==> extension_applied(o, m).phoenix_heex == v,
        o.phoenix_heex is None ==> extension_applied(o, m).phoenix_heex == m.phoenix_heex,
        o.block_directive matches Some(v) ==> extension_applied(o, m).block_directive == v,
        o.block_directive is None ==> extension_applied(o, m).block_directive == m.block_directive,
        o.header_attributes matches Some(v) ==> extension_applied(o, m).header_attributes == v,
        o.header_attributes is None ==> extension_applied(o, m).header_attributes == m.header_attributes,
        o.fenced_code_attributes matches Some(v) ==> extension_applied(o, m).fenced_code_attributes == v,
        o.fenced_code_attributes is None ==> extension_applied(o, m).fenced_code_attributes == m.fenced_code_attributes,
        o.inline_code_attributes matches Some(v) ==> extension_applied(o, m).inline_code_attributes == v,
        o.inline_code_attributes is None ==> extension_applied(o, m).inline_code_attributes == m.inline_code_attributes,
        o.link_attributes matches Some(v) ==> extension_applied(o, m).link_attributes == v,
        o.link_attributes is None ==> extension_applied(o, m).link_attributes == m.link_attributes,
{
}

/// Every parse option Elixir sends lands in the Comrak option of the same
/// name, and every one it leaves unset keeps Comrak's value.
pub proof fn law_parse_options_land_in_place(o: ExParseOptions, m: ComrakParse)
    ensures
        o.smart matches Some(v) ==> parse_applied(o, m).smart == v,
        o.smart is None ==> parse_applied(o, m).smart == m.smart,
        o.default_info_string is Some ==> parse_applied(o, m).default_info_string == o.default_info_string,
        o.default_info_string is None ==> parse_applied(o, m).default_info_string == m.default_info_string,
        o.relaxed_tasklist_matching matches Some(v) ==> parse_applied(o, m).relaxed_tasklist_matching == v,
        o.relaxed_tasklist_matching is None ==> parse_applied(o, m).relaxed_tasklist_matching == m.relaxed_tasklist_matching,
        o.relaxed_autolinks matches Some(v) ==> parse_applied(o, m).relaxed_autolinks == v,
        o.relaxed_autolinks is None ==> parse_applied(o, m).relaxed_autolinks == m.relaxed_autolinks,
        o.ignore_setext matches Some(v) ==> parse_applied(o, m).ignore_setext == v,
        o.ignore_setext is None ==> parse_applied(o, m).ignore_setext == m.ignore_setext,
        o.tasklist_in_table matches Some(v) ==> parse_applied(o, m).tasklist_in_table == v,
        o.tasklist_in_table is None ==> parse_applied(o, m).tasklist_in_table == m.tasklist_in_table,
        o.leave_footnote_definitions matches Some(v) ==> parse_applied(o, m).leave_footnote_definitions == v,
        o.leave_footnote_definitions is None ==> parse_applied(o, m).leave_footnote_definitions == m.leave_footnote_definitions,
        o.escaped_char_spans matches Some(v) ==> parse_applied(o, m).escaped_char_spans == v,
        o.escaped_char_spans is None ==> parse_applied(o, m).escaped_char_spans == m.escaped_char_spans,
        o.sourcepos_chars matches Some(v) ==> parse_applied(o, m).sourcepos_chars == v,
        o.sourcepos_chars is None ==> parse_applied(o, m).sourcepos_chars == m.sourcepos_chars,
{
}

/// Every render option Elixir sends lands in the Comrak option of the same
/// name, and every one it leaves unset keeps Comrak's value.
#[verifier::rlimit(40)]
pub proof fn law_render_options_land_in_place(o: ExRenderOptions, m: ComrakRender)
    ensures
        o.hardbreaks matches Some(v) ==> render_applied(o, m).hardbreaks == v,
        o.hardbreaks is None ==> render_applied(o, m).hardbreaks == m.hardbreaks,
        o.github_pre_lang matches Some(v) ==> render_applied(o, m).github_pre_lang == v,
        o.github_pre_lang is None ==> render_applied(o, m).github_pre_lang == m.github_pre_lang,
        o.full_info_string matches Some(v) ==> render_applied(o, m).full_info_string == v,
        o.full_info_string is None ==> render_applied(o, m).full_info_string == m.full_info_string,
        o.width matches Some(v) ==> render_applied(o, m).width == v,
        o.width is None ==> render_applied(o, m).width == m.width,
        o.unsafe_ matches Some(v) ==> render_applied(o, m).unsafe_ == v,
        o.unsafe_ is None ==> render_applied(o, m).unsafe_ == m.unsafe_,
        o.escape matches Some(v) ==> render_applied(o, m).escape == v,
        o.escape is None ==> render_applied(o, m).escape == m.escape,
        o.list_style matches Some(v) ==> render_applied(o, m).list_style == v,
        o.list_style is None ==> render_applied(o, m).list_style == m.list_style,
        o.sourcepos matches Some(v) ==> render_applied(o, m).sourcepos == v,
        o.sourcepos is None ==> render_applied(o, m).sourcepos == m.sourcepos,
        o.escaped_char_spans matches Some(v) ==> render_applied(o, m).escaped_char_spans == v,
        o.escaped_char_spans is None ==> render_applied(o, m).escaped_char_spans == m.escaped_char_spans,
        o.ignore_empty_links matches Some(v) ==> render_applied(o, m).ignore_empty_links == v,
        o.ignore_empty_links is None ==> render_applied(o, m).ignore_empty_links == m.ignore_empty_links,
        o.gfm_quirks matches Some(v) ==> render_applied(o, m).gfm_quirks == v,
        o.gfm_quirks is None ==> render_applied(o, m).gfm_quirks == m.gfm_quirks,
        o.prefer_fenced matches Some(v) ==> render_applied(o, m).prefer_fenced == v,
        o.prefer_fenced is None ==> render_applied(o, m).prefer_fenced == m.prefer_fenced,
        o.figure_with_caption matches Some(v) ==> render_applied(o, m).figure_with_caption == v,
        o.figure_with_caption is None ==> render_applied(o, m).figure_with_caption == m.figure_with_caption,
        o.tasklist_classes matches Some(v) ==> render_applied(o, m).tasklist_classes == v,
        o.tasklist_classes is None ==> render_applied(o, m).tasklist_classes == m.tasklist_classes,
        o.ol_width matches Some(v) ==> render_applied(o, m).ol_width == v,
        o.ol_width is None ==> render_applied(o, m).ol_width == m.ol_width,
        o.experimental_minimize_commonmark matches Some(v) ==> render_applied(o, m).experimental_minimize_commonmark == v,
        o.experimental_minimize_commonmark is None ==> render_applied(o, m).experimental_minimize_commonmark == m.experimental_minimize_commonmark,
        o.compact_html matches Some(v) ==> render_applied(o, m).compact_html == v,
        o.compact_html is None ==> render_applied(o, m).compact_html == m.compact_html,
        o.alert_style matches Some(v) ==> render_applied(o, m).alert_style == v,
        o.alert_style is None ==> render_applied(o, m).alert_style == m.alert_style,
{
}

/// Each group of options applies to its own part of Comrak's options: the
/// extension options to the extensions, the parse options to parsing and
/// the render options to rendering; a group not sent leaves its part alone.
pub proof fn law_option_groups_apply_to_their_part(o: ExOptions, defaults: ComrakOptions)
    ensures
        options_applied(o, defaults).extension == match o.extension {
            Some(e) => extension_applied(e, defaults.extension),
            None => defaults.extension,
        },
        options_applied(o, defaults).parse == match o.parse {
            Some(p) => parse_applied(p, defaults.parse),
            None => defaults.parse,
        },
        options_applied(o, defaults).render == match o.render {
            Some(r) => render_applied(r, defaults.render),
            None => defaults.render,
        },
{
}

} // verus!
