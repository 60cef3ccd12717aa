use mdex_native::options::{
    overwrite, overwrite_optional, ComrakExtension, ComrakOptions, ComrakParse, ComrakRender,
    ExAlertStyleType, ExExtensionOptions, ExListStyleType, ExOptions, ExParseOptions,
    ExRenderOptions, ExSyntaxHighlightEngine,
};

fn defaults() -> ComrakOptions {
    ComrakOptions {
        extension: ComrakExtension {
            strikethrough: false,
            table: false,
            autolink: false,
            tasklist: false,
            superscript: false,
            header_id_prefix: None,
            header_id_prefix_in_href: false,
            footnotes: false,
            inline_footnotes: false,
            description_lists: false,
            front_matter_delimiter: None,
            multiline_block_quotes: false,
            alerts: false,
            math_dollars: false,
            math_latex: false,
            math_code: false,
            shortcodes: false,
            wikilinks_title_after_pipe: false,
            wikilinks_title_before_pipe: false,
            underline: false,
            subscript: false,
            spoiler: false,
            greentext: false,
            subtext: false,
            highlight: false,
            insert: false,
            image_url_rewriter: None,
            link_url_rewriter: None,
            cjk_friendly_emphasis: false,
            phoenix_heex: false,
            block_directive: false,
            header_attributes: false,
            fenced_code_attributes: false,
            inline_code_attributes: false,
            link_attributes: false,
        },
        parse: ComrakParse {
            smart: false,
            default_info_string: Some("text".to_string()),
            relaxed_tasklist_matching: false,
            relaxed_autolinks: false,
            ignore_setext: false,
            tasklist_in_table: false,
            leave_footnote_definitions: false,
            escaped_char_spans: false,
            sourcepos_chars: false,
        },
        render: ComrakRender {
            hardbreaks: false,
            github_pre_lang: false,
            full_info_string: false,
            width: 0,
            unsafe_: false,
            escape: false,
            list_style: ExListStyleType::Dash,
            sourcepos: false,
            escaped_char_spans: false,
            ignore_empty_links: false,
            gfm_quirks: false,
            prefer_fenced: false,
            figure_with_caption: false,
            tasklist_classes: false,
            ol_width: 3,
            experimental_minimize_commonmark: false,
            compact_html: false,
            alert_style: ExAlertStyleType::Specific,
        },
    }
}

#[test]
fn overwrites_only_what_was_sent() {
    let mut flag = false;
    overwrite(&mut flag, None);
    assert!(!flag);
    overwrite(&mut flag, Some(true));
    assert!(flag);

    let mut prefix = Some("user-content-".to_string());
    overwrite_optional(&mut prefix, None);
    assert_eq!(prefix.as_deref(), Some("user-content-"));
    overwrite_optional(&mut prefix, Some("x-".to_string()));
    assert_eq!(prefix.as_deref(), Some("x-"));
}

#[test]
fn applies_sent_options_over_the_defaults() {
    let options = ExOptions {
        extension: Some(ExExtensionOptions {
            strikethrough: Some(true),
            header_id_prefix: Some("h-".to_string()),
            link_url_rewriter: Some("https://go/{@url}".to_string()),
            link_attributes: Some(true),
            tagfilter: Some(true),
            ..Default::default()
        }),
        parse: Some(ExParseOptions {
            smart: Some(true),
            ..Default::default()
        }),
        render: Some(ExRenderOptions {
            unsafe_: Some(true),
            width: Some(80),
            list_style: Some(ExListStyleType::Star),
            alert_style: Some(ExAlertStyleType::Semantic),
            ..Default::default()
        }),
        ..Default::default()
    };
    let applied = options.comrak_options(defaults());
    assert!(applied.extension.strikethrough);
    assert!(!applied.extension.table);
    assert_eq!(applied.extension.header_id_prefix.as_deref(), Some("h-"));
    assert_eq!(applied.extension.link_url_rewriter.as_deref(), Some("https://go/{@url}"));
    assert!(applied.extension.link_attributes);
    assert!(applied.parse.smart);
    assert_eq!(applied.parse.default_info_string.as_deref(), Some("text"));
    assert!(applied.render.unsafe_);
    assert_eq!(applied.render.width, 80);
    assert_eq!(applied.render.ol_width, 3);
    assert_eq!(applied.render.list_style, ExListStyleType::Star);
    assert_eq!(applied.render.alert_style, ExAlertStyleType::Semantic);
}

#[test]
fn unsent_options_keep_the_defaults() {
    let applied = ExOptions::default().comrak_options(defaults());
    assert_eq!(applied.parse.default_info_string.as_deref(), Some("text"));
    assert!(!applied.render.unsafe_);
    assert_eq!(applied.render.ol_width, 3);

    let nils = ExOptions {
        parse: Some(ExParseOptions::default()),
        ..Default::default()
    };
    let applied = nils.comrak_options(defaults());
    assert_eq!(applied.parse.default_info_string.as_deref(), Some("text"));
}

#[test]
fn defaults_of_the_enums() {
    assert_eq!(ExListStyleType::default(), ExListStyleType::Dash);
    assert_eq!(ExAlertStyleType::default(), ExAlertStyleType::Specific);
    assert_eq!(ExSyntaxHighlightEngine::default(), ExSyntaxHighlightEngine::Lumis);
}

#[test]
fn curly_braces_in_code_are_escaped_unless_turned_off() {
    assert!(ExOptions::default().escapes_curly_braces_in_code());
    let off = ExOptions {
        escape_curly_braces_in_code: Some(false),
        ..Default::default()
    };
    assert!(!off.escapes_curly_braces_in_code());
}

#[test]
fn applying_options_twice_changes_nothing_more() {
    let parse = ExParseOptions {
        smart: Some(true),
        default_info_string: Some("elixir".to_string()),
        ..Default::default()
    };
    let once = parse.apply(defaults().parse);
    let twice = parse.apply(parse.apply(defaults().parse));
    assert_eq!(once.smart, twice.smart);
    assert_eq!(once.default_info_string, twice.default_info_string);
    assert_eq!(twice.default_info_string.as_deref(), Some("elixir"));

    let render = ExRenderOptions {
        hardbreaks: Some(true),
        ..Default::default()
    };
    let twice = render.apply(render.apply(defaults().render));
    assert!(twice.hardbreaks);
    assert_eq!(twice.ol_width, 3);
}
