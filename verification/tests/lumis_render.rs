use mdex_native::bridge::HighlightEvent;
use mdex_native::elixir_types::{
    ExAppearance, ExFormatterOption, ExHtmlElement, ExHtmlInlineHighlightLines,
    ExHtmlInlineHighlightLinesStyle, ExLineSpec, ExTheme, ThemeOrString,
};
use mdex_native::fence::{
    fence_language, fence_source, flatten_events, inline_highlight_lines, line_background,
    line_background_from_name, linked_highlight_lines, mdex_attribute, multi_theme_highlight_lines,
    parse_highlight_lines, strip_closing_tags, with_mdex_attributes, FenceAttributes,
};

fn attributes(pairs: &[(&str, &str)]) -> FenceAttributes {
    let mut attributes = FenceAttributes::new();
    for (key, value) in pairs {
        attributes.insert(key.to_string(), value.to_string());
    }
    attributes
}

fn decorated(pairs: &[(&str, &str)], render_unsafe: bool) -> ExFormatterOption {
    with_mdex_attributes(ExFormatterOption::default(), &attributes(pairs), render_unsafe)
}

fn inline_parts(
    formatter: ExFormatterOption,
) -> (
    Option<ThemeOrString>,
    Option<String>,
    Option<ExHtmlInlineHighlightLines>,
    bool,
    Option<ExHtmlElement>,
) {
    match formatter {
        ExFormatterOption::HtmlInline {
            theme,
            pre_class,
            highlight_lines,
            include_highlights,
            header,
            ..
        } => (theme, pre_class, highlight_lines, include_highlights, header),
        other => panic!("expected the inline HTML formatter, got {other:?}"),
    }
}

fn style_of(lines: &ExHtmlInlineHighlightLines) -> Option<String> {
    match &lines.style {
        Some(ExHtmlInlineHighlightLinesStyle::Style { style }) => Some(style.clone()),
        _ => None,
    }
}

#[test]
fn parses_single_lines_and_ranges() {
    let lines = parse_highlight_lines("1, 3-5, 0, 7-6").unwrap();
    assert_eq!(lines.len(), 2);
    assert!(matches!(lines[0], ExLineSpec::Single(1)));
    assert!(matches!(lines[1], ExLineSpec::Range { start: 3, end: 5, .. }));
}

#[test]
fn flattens_nested_scopes_to_the_innermost_non_whitespace_scope() {
    let events = vec![
        HighlightEvent::Start {
            scope_index: 1,
            language: "elixir".to_string(),
        },
        HighlightEvent::Source { start: 0, end: 1 },
        HighlightEvent::Start {
            scope_index: 2,
            language: "elixir".to_string(),
        },
        HighlightEvent::Source { start: 1, end: 2 },
        HighlightEvent::End,
        HighlightEvent::Source { start: 2, end: 3 },
        HighlightEvent::End,
    ];

    assert_eq!(
        flatten_events("a b", events),
        vec![
            HighlightEvent::Start {
                scope_index: 1,
                language: "elixir".to_string(),
            },
            HighlightEvent::Source { start: 0, end: 1 },
            HighlightEvent::End,
            HighlightEvent::Source { start: 1, end: 2 },
            HighlightEvent::Start {
                scope_index: 1,
                language: "elixir".to_string(),
            },
            HighlightEvent::Source { start: 2, end: 3 },
            HighlightEvent::End,
        ]
    );
}

#[test]
fn keeps_parsable_parts_when_one_part_is_malformed() {
    let lines = parse_highlight_lines("1, oops, 3-5, 7-x").unwrap();
    assert_eq!(lines.len(), 2);
    assert!(matches!(lines[0], ExLineSpec::Single(1)));
    assert!(matches!(lines[1], ExLineSpec::Range { start: 3, end: 5, .. }));
}

#[test]
fn omits_the_closing_tags_comrak_writes_itself() {
    let output = "<pre class=\"lumis\"><code class=\"language-plaintext\" translate=\"no\" tabindex=\"0\"><div class=\"line\" data-line=\"1\">hello</div></code></pre>";
    let html = strip_closing_tags(output).unwrap();
    assert!(html.starts_with("<pre"), "{html}");
    assert!(!html.contains("</code></pre>"), "{html}");
    assert_eq!(
        strip_closing_tags("<pre>"),
        Err("Lumis formatter did not produce HTML code-fence output".to_string())
    );
}

#[test]
fn does_not_render_the_code_fence_terminator_as_a_line() {
    assert_eq!(fence_source("hello\n"), "hello");
    assert_eq!(fence_source("hello\n\n"), "hello\n");
    assert_eq!(fence_source("hello"), "hello");
    assert_eq!(fence_source(""), "");
}

#[test]
fn a_fence_without_an_info_string_stays_plain() {
    assert_eq!(fence_language(None), "plaintext");
    assert_eq!(fence_language(Some("python")), "python");
}

#[test]
fn decorator_attributes_override_the_formatter() {
    let (_, pre_class, highlight_lines, _, _) = inline_parts(decorated(
        &[("pre_class", "custom-class"), ("highlight_lines", "1")],
        false,
    ));
    assert_eq!(pre_class.as_deref(), Some("custom-class"));
    let lines = highlight_lines.unwrap();
    assert_eq!(style_of(&lines).as_deref(), Some("background-color: #3b4252;"));
}

#[test]
fn a_light_theme_decorator_picks_the_light_line_background() {
    let (theme, _, highlight_lines, _, _) = inline_parts(decorated(
        &[("theme", "github_light"), ("highlight_lines", "1")],
        false,
    ));
    assert!(matches!(theme, Some(ThemeOrString::String(ref name)) if name == "github_light"));
    let lines = highlight_lines.unwrap();
    assert_eq!(style_of(&lines).as_deref(), Some("background-color: #e7eaf0;"));
}

#[test]
fn escapes_decorator_attributes_in_the_rendered_html() {
    let injection = "x\" onmouseover=\"alert(1)";
    let (_, pre_class, highlight_lines, _, _) = inline_parts(decorated(
        &[
            ("pre_class", injection),
            ("highlight_lines", "1"),
            ("highlight_lines_class", injection),
            ("highlight_lines_style", injection),
        ],
        false,
    ));
    let pre_class = pre_class.unwrap();
    let lines = highlight_lines.unwrap();
    for value in [pre_class, lines.class.clone().unwrap(), style_of(&lines).unwrap()] {
        assert!(!value.contains("onmouseover=\"alert(1)"), "{value}");
        assert!(value.contains("&quot;"), "{value}");
    }
}

#[test]
fn preserves_decorator_attributes_when_rendering_unsafe() {
    let (_, _, highlight_lines, _, _) = inline_parts(decorated(
        &[("highlight_lines", "1"), ("highlight_lines_style", "color: red;")],
        true,
    ));
    assert_eq!(style_of(&highlight_lines.unwrap()).as_deref(), Some("color: red;"));
}

#[test]
fn a_linked_formatter_defaults_the_highlighted_line_class() {
    let formatter = ExFormatterOption::HtmlLinked {
        pre_class: None,
        pre_attrs: Vec::new(),
        code_attrs: Vec::new(),
        highlight_lines: None,
        line_numbers: false,
        header: None,
    };
    let decorated = with_mdex_attributes(formatter, &attributes(&[("highlight_lines", "1")]), false);
    match decorated {
        ExFormatterOption::HtmlLinked {
            highlight_lines: Some(lines),
            ..
        } => assert_eq!(lines.class, "highlighted"),
        other => panic!("expected the linked formatter, got {other:?}"),
    }
}

#[test]
fn a_header_never_survives_the_bridge() {
    let formatter = ExFormatterOption::HtmlInline {
        theme: None,
        pre_class: None,
        pre_attrs: Vec::new(),
        code_attrs: Vec::new(),
        italic: false,
        include_highlights: false,
        highlight_lines: None,
        line_numbers: false,
        header: Some(ExHtmlElement {
            open_tag: "<div>".to_string(),
            close_tag: "</div>".to_string(),
        }),
    };
    let (_, pre_class, _, _, header) = inline_parts(with_mdex_attributes(
        formatter,
        &attributes(&[("pre_class", "plain")]),
        false,
    ));
    assert_eq!(pre_class.as_deref(), Some("plain"));
    assert_eq!(header, None);
}

#[test]
fn escapes_decorator_attributes_in_safe_rendering() {
    let style = "color: red;\" onmouseover=\"alert(1)";
    let class = "line\" onmouseover=\"alert(1)";
    let attributes = attributes(&[
        ("highlight_lines", "1"),
        ("highlight_lines_style", style),
        ("highlight_lines_class", class),
    ]);

    let inline = inline_highlight_lines(&attributes, None, false).unwrap();
    assert_eq!(
        style_of(&inline),
        Some(lumis_core::formatter::html::escape(style))
    );
    assert_eq!(inline.class, Some(lumis_core::formatter::html::escape(class)));

    let linked = linked_highlight_lines(&attributes, false).unwrap();
    assert_eq!(linked.class, lumis_core::formatter::html::escape(class));
}

#[test]
fn preserves_decorator_attributes_in_unsafe_rendering() {
    let style = "color: red;\" onmouseover=\"alert(1)";
    let class = "line\" onmouseover=\"alert(1)";
    let attributes = attributes(&[
        ("highlight_lines", "1"),
        ("highlight_lines_style", style),
        ("highlight_lines_class", class),
    ]);

    let inline = inline_highlight_lines(&attributes, None, true).unwrap();
    assert_eq!(style_of(&inline).as_deref(), Some(style));
    assert_eq!(inline.class.as_deref(), Some(class));

    let linked = linked_highlight_lines(&attributes, true).unwrap();
    assert_eq!(linked.class, class);
}

#[test]
fn parses_every_part_form_of_highlight_lines() {
    let lines = parse_highlight_lines(" 2 ,, +4 - 6 ,9-9, 3-2, 1-2-3, -, 18446744073709551616, x").unwrap();
    assert_eq!(
        lines,
        vec![
            ExLineSpec::Single(2),
            ExLineSpec::Range { start: 4, end: 6, step: 1 },
            ExLineSpec::Range { start: 9, end: 9, step: 1 },
        ]
    );
    assert_eq!(parse_highlight_lines("").unwrap(), Vec::new());
}

#[test]
fn a_theme_style_resolves_against_the_named_theme_in_multi_theme_blocks() {
    let given = ExHtmlInlineHighlightLines {
        lines: vec![ExLineSpec::Single(1)],
        style: Some(ExHtmlInlineHighlightLinesStyle::Theme),
        class: Some("given".to_string()),
    };
    let lines = multi_theme_highlight_lines(
        Some(given),
        &attributes(&[("theme", "github_light")]),
        false,
    )
    .unwrap();
    assert_eq!(style_of(&lines).as_deref(), Some("background-color: #e7eaf0;"));
    assert_eq!(lines.class.as_deref(), Some("given"));
    assert_eq!(lines.lines, vec![ExLineSpec::Single(1)]);

    assert!(multi_theme_highlight_lines(None, &attributes(&[]), false).is_none());

    let decorators = multi_theme_highlight_lines(
        None,
        &attributes(&[("highlight_lines", "2-3"), ("highlight_lines_style", "theme")]),
        false,
    )
    .unwrap();
    assert_eq!(decorators.style, Some(ExHtmlInlineHighlightLinesStyle::Theme));
}

#[test]
fn line_backgrounds_follow_the_theme_appearance() {
    assert_eq!(line_background(&None), "background-color: #3b4252;");
    assert_eq!(
        line_background(&Some(ThemeOrString::String("onedark".to_string()))),
        "background-color: #3b4252;"
    );
    assert_eq!(
        line_background(&Some(ThemeOrString::String("My-LIGHT-theme".to_string()))),
        "background-color: #e7eaf0;"
    );
    let light = ExTheme {
        appearance: ExAppearance::Light,
        ..Default::default()
    };
    assert_eq!(
        line_background(&Some(ThemeOrString::Theme(light))),
        "background-color: #e7eaf0;"
    );
    assert_eq!(line_background_from_name(None), "background-color: #3b4252;");
    assert_eq!(
        line_background_from_name(Some(&"github_light".to_string())),
        "background-color: #e7eaf0;"
    );
}

#[test]
fn terminal_and_bbcode_formatters_become_inline_html() {
    let terminal = ExFormatterOption::Terminal {
        theme: Some(ThemeOrString::String("dracula".to_string())),
        background: None,
        width: Some(80),
        highlight_lines: None,
        line_numbers: true,
    };
    let (theme, pre_class, lines, include_highlights, _) = inline_parts(with_mdex_attributes(
        terminal,
        &attributes(&[("include_highlights", "true")]),
        false,
    ));
    assert!(matches!(theme, Some(ThemeOrString::String(ref name)) if name == "dracula"));
    assert_eq!(pre_class, None);
    assert!(lines.is_none());
    assert!(include_highlights);

    let bbcode = ExFormatterOption::BbcodeScoped { highlight_lines: None };
    let (theme, _, lines, include_highlights, _) =
        inline_parts(with_mdex_attributes(bbcode, &attributes(&[("highlight_lines", "1")]), false));
    assert!(theme.is_none());
    assert!(!include_highlights);
    assert_eq!(style_of(&lines.unwrap()), None);
}

#[test]
fn an_unset_theme_defaults_to_onedark() {
    let (theme, _, _, _, _) = inline_parts(decorated(&[], false));
    assert!(matches!(theme, Some(ThemeOrString::String(ref name)) if name == "onedark"));
}

#[test]
fn later_fence_attributes_win() {
    let attributes = attributes(&[("pre_class", "a"), ("pre_class", "b<")]);
    assert_eq!(mdex_attribute(&attributes, "pre_class", false).as_deref(), Some("b&lt;"));
    assert_eq!(mdex_attribute(&attributes, "pre_class", true).as_deref(), Some("b<"));
    assert_eq!(mdex_attribute(&attributes, "missing", false), None);
    assert!(attributes.contains_key("pre_class"));
    assert!(!attributes.contains_key("theme"));
}

#[test]
fn flattening_leaves_blank_and_unscoped_spans_bare() {
    let events = vec![
        HighlightEvent::Source { start: 0, end: 1 },
        HighlightEvent::Start {
            scope_index: 4,
            language: "rust".to_string(),
        },
        HighlightEvent::Source { start: 1, end: 3 },
        HighlightEvent::Source { start: 3, end: 4 },
        HighlightEvent::Source { start: 3, end: 9 },
        HighlightEvent::End,
        HighlightEvent::End,
        HighlightEvent::Source { start: 4, end: 5 },
    ];
    // Bytes 1..3 are a space and a tab; 3..4 is a letter; 3..9 runs past
    // the end and so has no text.
    assert_eq!(
        flatten_events("x \tab", events),
        vec![
            HighlightEvent::Source { start: 0, end: 1 },
            HighlightEvent::Source { start: 1, end: 3 },
            HighlightEvent::Start {
                scope_index: 4,
                language: "rust".to_string(),
            },
            HighlightEvent::Source { start: 3, end: 4 },
            HighlightEvent::End,
            HighlightEvent::Source { start: 3, end: 9 },
            HighlightEvent::Source { start: 4, end: 5 },
        ]
    );
}

#[test]
fn decorated_lines_reach_the_formatter_as_plain_spans() {
    let lines = parse_highlight_lines("1, 3-5, 9").unwrap();
    let (contiguous, stepped) = mdex_native::elixir_types::convert_line_specs(lines);
    assert_eq!(contiguous, [1..=1, 3..=5, 9..=9]);
    assert!(stepped.is_empty());
}
