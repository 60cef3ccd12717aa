use mdex_native::document::{ExAttributes, ExSourcepos};
use mdex_native::html::{
    dangerous_url, is_attribute_name, render_image, render_link, rewrite_url, text_to_anchor,
    write_attrs, HtmlRenderOptions, LinkNode, Rendering,
};

fn attributes(id: Option<&str>, classes: &[&str], pairs: &[(&str, &str)]) -> ExAttributes {
    ExAttributes {
        id: id.map(str::to_string),
        classes: classes.iter().map(|c| c.to_string()).collect(),
        pairs: pairs
            .iter()
            .map(|(k, v)| (k.to_string(), v.to_string()))
            .collect(),
    }
}

fn unsafe_options() -> HtmlRenderOptions {
    HtmlRenderOptions {
        render_unsafe: true,
        ..Default::default()
    }
}

fn node(url: &str, title: &str, attrs: Option<ExAttributes>) -> LinkNode {
    LinkNode {
        url: url.to_string(),
        title: title.to_string(),
        attrs,
        sourcepos: ExSourcepos::default(),
        parent_is_link: false,
    }
}

/// A paragraph holding one link with the given text, rendered through the
/// hook the way Comrak drives it.
fn link_paragraph(options: &HtmlRenderOptions, link: &LinkNode, text: &str) -> Option<String> {
    let mut out = String::new();
    if render_link(&mut out, options, link, true) == Rendering::Comrak {
        assert!(out.is_empty());
        return None;
    }
    out.push_str(text);
    assert_eq!(render_link(&mut out, options, link, false), Rendering::Html);
    Some(format!("<p>{out}</p>\n"))
}

/// A paragraph holding one image with the given alt text.
fn image_paragraph(options: &HtmlRenderOptions, image: &LinkNode, alt: &str) -> Option<String> {
    let mut out = String::new();
    match render_image(&mut out, options, image, true) {
        Rendering::Comrak => {
            assert!(out.is_empty());
            return None;
        }
        rendering => assert_eq!(rendering, Rendering::Plain),
    }
    out.push_str(alt);
    assert_eq!(render_image(&mut out, options, image, false), Rendering::Html);
    Some(format!("<p>{out}</p>\n"))
}

/// Comrak's own rendering with its default options.
fn comrak_html(markdown: &str) -> String {
    comrak::markdown_to_html(markdown, &comrak::Options::default())
}

#[test]
fn renders_parsed_link_attributes() {
    // `[link](https://example.com){#docs .external rel=nofollow}` parses to
    // these attributes.
    let link = node(
        "https://example.com",
        "",
        Some(attributes(Some("docs"), &["external"], &[("rel", "nofollow")])),
    );
    assert_eq!(
        link_paragraph(&unsafe_options(), &link, "link").unwrap(),
        "<p><a href=\"https://example.com\" id=\"docs\" class=\"external\" rel=\"nofollow\">link</a></p>\n"
    );
}

#[test]
fn renders_parsed_image_attributes() {
    // `![cat](cat.png){width=100%}` parses to these attributes.
    let image = node("cat.png", "", Some(attributes(None, &[], &[("width", "100%")])));
    assert_eq!(
        image_paragraph(&unsafe_options(), &image, "cat").unwrap(),
        "<p><img src=\"cat.png\" alt=\"cat\" width=\"100%\" /></p>\n"
    );
}

#[test]
fn omits_attributes_unless_unsafe() {
    let safe = HtmlRenderOptions::default();
    let link = node(
        "https://example.com",
        "",
        Some(attributes(Some("docs"), &["external"], &[("rel", "nofollow")])),
    );
    // Nothing to add: the node is Comrak's to render.
    assert_eq!(link_paragraph(&safe, &link, "link"), None);
    assert_eq!(
        comrak_html("[link](https://example.com)\n"),
        "<p><a href=\"https://example.com\">link</a></p>\n"
    );

    let programmatic = node(
        "https://example.com",
        "",
        Some(attributes(Some("i"), &["c"], &[("onclick", "alert(1)")])),
    );
    assert_eq!(link_paragraph(&safe, &programmatic, "link"), None);
}

#[test]
fn renders_programmatic_link_attributes() {
    let link = node(
        "https://example.com",
        "",
        Some(attributes(None, &[], &[("target", "_blank"), ("rel", "noopener")])),
    );
    assert_eq!(
        link_paragraph(&unsafe_options(), &link, "link").unwrap(),
        "<p><a href=\"https://example.com\" target=\"_blank\" rel=\"noopener\">link</a></p>\n"
    );
}

#[test]
fn escapes_attribute_values() {
    let link = node(
        "https://example.com",
        "",
        Some(attributes(
            Some("a\"b"),
            &["c<d"],
            &[("data-x", "\" onclick=\"alert(1)")],
        )),
    );
    assert_eq!(
        link_paragraph(&unsafe_options(), &link, "link").unwrap(),
        "<p><a href=\"https://example.com\" id=\"a&quot;b\" class=\"c&lt;d\" \
         data-x=\"&quot; onclick=&quot;alert(1)\">link</a></p>\n"
    );
}

#[test]
fn skips_attribute_names_that_are_not_valid() {
    let link = node(
        "https://example.com",
        "",
        Some(attributes(
            None,
            &[],
            &[
                ("x\" onclick=\"alert(1)", "y"),
                ("", "empty"),
                ("2bad", "leading digit"),
                ("data-ok", "kept"),
            ],
        )),
    );
    assert_eq!(
        link_paragraph(&unsafe_options(), &link, "link").unwrap(),
        "<p><a href=\"https://example.com\" data-ok=\"kept\">link</a></p>\n"
    );
}

#[test]
fn renders_titles_and_attributes_together() {
    let link = node(
        "https://example.com",
        "A title",
        Some(attributes(None, &[], &[("target", "_blank")])),
    );
    assert_eq!(
        link_paragraph(&unsafe_options(), &link, "link").unwrap(),
        "<p><a href=\"https://example.com\" title=\"A title\" target=\"_blank\">link</a></p>\n"
    );
}

#[test]
fn mirrors_comrak_for_empty_attrs() {
    let empty = Some(ExAttributes::default());
    let cases = [
        ("[plain](https://example.com)\n", "https://example.com", "", "plain"),
        ("[titled](https://example.com \"a title\")\n", "https://example.com", "a title", "titled"),
        ("[empty]()\n", "", "", "empty"),
        ("[dangerous](javascript:alert(1))\n", "javascript:alert(1)", "", "dangerous"),
    ];
    for (markdown, url, title, text) in cases {
        for unsafe_render in [false, true] {
            let options = HtmlRenderOptions {
                render_unsafe: unsafe_render,
                ..Default::default()
            };
            let link = node(url, title, empty.clone());
            match link_paragraph(&options, &link, text) {
                // A dangerous URL is only written in an unsafe render, which
                // Comrak's defaults are not; the rest renders alike.
                Some(html) if !dangerous_url(url) => assert_eq!(
                    html,
                    comrak_html(markdown),
                    "mirrored render_link diverged from comrak"
                ),
                Some(html) => assert_eq!(html, format!("<p><a href=\"{url}\">{text}</a></p>\n")),
                None => assert!(!unsafe_render),
            }
        }
    }

    let images = [
        ("![img](image.png)\n", "image.png", "", "img"),
        ("![titled img](image.png \"image title\")\n", "image.png", "image title", "titled img"),
    ];
    for (markdown, url, title, alt) in images {
        let image = node(url, title, empty.clone());
        assert_eq!(
            image_paragraph(&unsafe_options(), &image, alt).unwrap(),
            comrak_html(markdown),
            "mirrored render_image diverged from comrak"
        );
    }
}

#[test]
fn a_link_inside_a_link_renders_its_children_only_with_relaxed_autolinks() {
    let options = HtmlRenderOptions {
        render_unsafe: true,
        relaxed_autolinks: true,
        ..Default::default()
    };
    let mut link = node("https://example.com", "", Some(ExAttributes::default()));
    link.parent_is_link = true;
    let mut out = String::new();
    assert_eq!(render_link(&mut out, &options, &link, true), Rendering::Html);
    assert_eq!(out, "");
}

#[test]
fn writes_sourcepos_and_figures_for_images() {
    let options = HtmlRenderOptions {
        render_unsafe: true,
        sourcepos: true,
        figure_with_caption: true,
        ..Default::default()
    };
    let mut image = node("cat.png", "A cat", Some(ExAttributes::default()));
    image.sourcepos = ExSourcepos { start: (1, 1), end: (1, 17) };
    let html = image_paragraph(&options, &image, "cat").unwrap();
    assert_eq!(
        html,
        "<p><figure><img data-sourcepos=\"1:1-1:17\" src=\"cat.png\" alt=\"cat\" title=\"A cat\" />\
         <figcaption>A cat</figcaption></figure></p>\n"
    );
}

#[test]
fn a_url_rewriter_template_replaces_every_placeholder() {
    assert_eq!(
        rewrite_url("https://proxy/{@url}?again={@url}", "a.png"),
        "https://proxy/a.png?again=a.png"
    );
    assert_eq!(rewrite_url("{@url}", "x"), "x");
    assert_eq!(rewrite_url("fixed", "x"), "fixed");

    let options = HtmlRenderOptions {
        render_unsafe: true,
        link_url_rewriter: Some("https://go/{@url}".to_string()),
        ..Default::default()
    };
    let link = node("a", "", Some(ExAttributes::default()));
    assert_eq!(
        link_paragraph(&options, &link, "x").unwrap(),
        "<p><a href=\"https://go/a\">x</a></p>\n"
    );
}

#[test]
fn attribute_names_follow_the_html_rule() {
    assert!(is_attribute_name("data-ok"));
    assert!(is_attribute_name("aria:label"));
    assert!(is_attribute_name("_x.y"));
    assert!(!is_attribute_name(""));
    assert!(!is_attribute_name("2bad"));
    assert!(!is_attribute_name("a b"));
    assert!(!is_attribute_name("x\""));
}

#[test]
fn writes_id_classes_and_pairs_in_order() {
    let mut out = String::from("<a");
    write_attrs(
        &mut out,
        &attributes(Some("i"), &["a", "b"], &[("k", "v&"), ("bad key", "x")]),
    );
    assert_eq!(out, "<a id=\"i\" class=\"a b\" k=\"v&amp;\"");
}

#[test]
fn dangerous_urls_match_comrak() {
    for url in [
        "javascript:alert(1)",
        "JAVASCRIPT:alert(1)",
        "vbscript:x",
        "file:///etc/passwd",
        "data:text/html,x",
        "data:image/png;base64,xx",
        "DATA:IMAGE/GIF;x",
        "data:image/svg+xml,x",
        "https://example.com",
        "",
        "java script:x",
    ] {
        assert_eq!(dangerous_url(url), comrak::html::dangerous_url(url), "{url}");
    }
    assert!(dangerous_url("javascript:alert(1)"));
    assert!(!dangerous_url("data:image/webp;base64,xx"));
    assert!(!dangerous_url("https://example.com"));
}

#[test]
fn anchors_follow_comrak() {
    assert_eq!(text_to_anchor("Ticks aren't in"), "ticks-arent-in");
    assert_eq!(text_to_anchor("Hello <World> & \"Friends\""), "hello-world--friends");
    let anchor = text_to_anchor("Stuff");
    assert_eq!(anchor, "stuff");
    // A fresh anchorizer each time: no suffix is added.
    assert_eq!(text_to_anchor("Stuff"), "stuff");
}

#[test]
fn link_targets_are_escaped_for_the_attribute() {
    let link = node("https://example.com/a b\"c", "", Some(ExAttributes::default()));
    let html = link_paragraph(&unsafe_options(), &link, "x").unwrap();
    let mut expected_href = String::new();
    comrak::html::escape_href(&mut expected_href, "https://example.com/a b\"c", false).unwrap();
    assert_ne!(expected_href, "https://example.com/a b\"c");
    assert_eq!(html, format!("<p><a href=\"{expected_href}\">x</a></p>\n"));
}

#[test]
fn empty_attributes_write_what_plain_markup_writes() {
    let options = unsafe_options();
    let link = node("https://e.x/a?b=1&c", "T \"q\"", Some(ExAttributes::default()));
    let mut out = String::new();
    assert_eq!(render_link(&mut out, &options, &link, true), Rendering::Html);
    assert_eq!(out, "<a href=\"https://e.x/a?b=1&amp;c\" title=\"T &quot;q&quot;\">");
    let mut out = String::new();
    assert_eq!(render_image(&mut out, &options, &link, false), Rendering::Html);
    assert_eq!(out, "\" title=\"T &quot;q&quot;\" />");
    let mut out = String::from("x");
    write_attrs(&mut out, &ExAttributes::default());
    assert_eq!(out, "x");
}
