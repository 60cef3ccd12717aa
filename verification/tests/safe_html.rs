use mdex_native::safe::{do_safe_html, escape_curly_braces, safe_html, ExSanitizeOption};
use mdex_native::sanitize::ExSanitizeCustom;

#[test]
fn escapes_curly_braces() {
    assert_eq!(escape_curly_braces("{a}{{}}"), "&lbrace;a&rbrace;&lbrace;&lbrace;&rbrace;&rbrace;");
    assert_eq!(escape_curly_braces("none"), "none");
}

#[test]
fn sanitizes_with_ammonia() {
    assert_eq!(
        safe_html("<p onclick=\"x\">Hi</p><script>bad()</script>".to_string(), Some(ExSanitizeOption::Clean), false, false),
        ammonia::clean("<p onclick=\"x\">Hi</p><script>bad()</script>")
    );
    assert_eq!(ExSanitizeOption::Clean.clean("<b>ok</b>"), "<b>ok</b>");
}

#[test]
fn leaves_html_alone_when_nothing_is_asked() {
    let html = "<p>{x}</p><code>{y}</code>".to_string();
    assert_eq!(safe_html(html.clone(), None, false, false), html);
}

#[test]
fn escapes_braces_only_inside_code() {
    assert_eq!(
        safe_html("<p>{x}</p><code>{y}</code>".to_string(), None, false, true),
        "<p>{x}</p><code>&lbrace;y&rbrace;</code>"
    );
}

#[test]
fn escaped_content_keeps_brace_entities() {
    assert_eq!(
        safe_html("<code>{y}</code>".to_string(), None, true, true),
        "&lt;code&gt;&lbrace;y&rbrace;&lt;&#x2f;code&gt;"
    );
    let escaped = do_safe_html("<a href='x'>\"</a>".to_string(), &None, true, false);
    assert_eq!(escaped, "&lt;a href=&#x27;x&#x27;&gt;&quot;&lt;&#x2f;a&gt;");
    for c in ['<', '>', '"', '\''] {
        assert!(!escaped.contains(c));
    }
}

fn custom(c: ExSanitizeCustom) -> Option<ExSanitizeOption> {
    Some(ExSanitizeOption::Custom(Box::new(c)))
}

fn names(v: &[&str]) -> Vec<String> {
    v.iter().map(|s| s.to_string()).collect()
}

#[test]
fn custom_tags_replace_the_allowed_set() {
    let c = ExSanitizeCustom { tags: Some(names(&["p"])), ..Default::default() };
    assert!(ExSanitizeOption::Custom(Box::new(c.clone())).can_clean());
    assert_eq!(
        safe_html("<h1>Title</h1><p>Content</p>".to_string(), custom(c), false, false),
        "Title<p>Content</p>"
    );
}

#[test]
fn custom_add_tags_keeps_a_new_tag() {
    let c = ExSanitizeCustom { add_tags: names(&["custom"]), ..Default::default() };
    assert_eq!(
        safe_html("<custom>Intro</custom>".to_string(), custom(c), false, false),
        "<custom>Intro</custom>"
    );
}

#[test]
fn custom_rm_tags_strips_a_default_tag() {
    let c = ExSanitizeCustom { rm_tags: names(&["h1"]), ..Default::default() };
    assert_eq!(
        safe_html("<h1>Title</h1><p>Content</p>".to_string(), custom(c), false, false),
        "Title<p>Content</p>"
    );
}

#[test]
fn custom_operations_combine() {
    let c = ExSanitizeCustom {
        add_tags: names(&["section"]),
        add_tag_attributes: vec![("section".to_string(), names(&["data-kind"]))],
        rm_tags: names(&["h1"]),
        ..Default::default()
    };
    assert_eq!(
        safe_html(
            r#"<h1>Title</h1><section data-kind="note" onclick="x">Content</section>"#.to_string(),
            custom(c),
            false,
            false
        ),
        r#"Title<section data-kind="note">Content</section>"#
    );
}

#[test]
fn empty_custom_policy_cleans_like_the_default() {
    let html = "<p onclick=\"x\">Hi</p><script>bad()</script><a href=\"https://e.x\">l</a>";
    assert_eq!(
        safe_html(html.to_string(), custom(ExSanitizeCustom::default()), false, false),
        safe_html(html.to_string(), Some(ExSanitizeOption::Clean), false, false)
    );
}

#[test]
fn custom_removal_wins_over_adding() {
    let c = ExSanitizeCustom {
        add_tags: names(&["custom"]),
        rm_tags: names(&["custom"]),
        ..Default::default()
    };
    assert_eq!(safe_html("<custom>x</custom>".to_string(), custom(c), false, false), "x");
}

#[test]
fn custom_attributes_and_schemes() {
    let c = ExSanitizeCustom {
        generic_attributes: Some(names(&["id"])),
        rm_url_schemes: names(&["https"]),
        link_rel: Some("nofollow".to_string()),
        ..Default::default()
    };
    assert_eq!(
        safe_html(
            r#"<p id="a" title="t">x</p><a href="https://e.x">l</a><a href="http://e.x">m</a>"#.to_string(),
            custom(c),
            false,
            false
        ),
        r#"<p id="a">x</p><a rel="nofollow">l</a><a href="http://e.x" rel="nofollow">m</a>"#
    );
}

#[test]
fn comments_are_kept_when_asked() {
    let c = ExSanitizeCustom { strip_comments: Some(false), ..Default::default() };
    assert_eq!(safe_html("<!-- n --><b>x</b>".to_string(), custom(c), false, false), "<!-- n --><b>x</b>");
}

#[test]
fn a_policy_ammonia_would_panic_on_is_refused() {
    let kept_and_cleaned = ExSanitizeCustom { add_tags: names(&["script"]), ..Default::default() };
    assert!(!ExSanitizeOption::Custom(Box::new(kept_and_cleaned)).can_clean());
    let rel_twice = ExSanitizeCustom { add_generic_attributes: names(&["rel"]), ..Default::default() };
    assert!(!rel_twice.can_clean());
    assert!(ExSanitizeCustom { rm_clean_content_tags: names(&["script"]), add_tags: names(&["script"]), ..Default::default() }.can_clean());
    assert!(ExSanitizeOption::Clean.can_clean());
}
