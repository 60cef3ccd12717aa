use mdex_native::document::{
    char_to_string, comrak_escaped_tag_literal, string_to_char, ExAttributes, ExBlockQuote,
    ExDocument, ExEscapedTag, ExHeading, ExParagraph, ExSourcepos, ExText, NewNode,
};
use mdex_native::tree::{flatten_document, rebuild_document, FlatNode};

fn sourcepos() -> ExSourcepos {
    ExSourcepos::default()
}

fn text(literal: &str) -> NewNode {
    NewNode::Text(ExText {
        literal: literal.to_string(),
        sourcepos: sourcepos(),
    })
}

fn escaped_tag_document(literal: &str) -> NewNode {
    NewNode::Document(ExDocument {
        nodes: vec![NewNode::Paragraph(ExParagraph {
            nodes: vec![NewNode::EscapedTag(ExEscapedTag {
                nodes: vec![text("child")],
                literal: literal.to_string(),
                sourcepos: sourcepos(),
            })],
            sourcepos: sourcepos(),
        })],
        sourcepos: sourcepos(),
    })
}

#[test]
fn escaped_tag_conversion_preserves_comrak_delimiter_tokens() {
    let flat = flatten_document(escaped_tag_document("|"));
    assert_eq!(flat.len(), 4, "document, paragraph, escaped tag and its child");
    let tag = &flat[2];
    assert!(matches!(&tag.node, NewNode::EscapedTag(t) if t.literal == "|"));
    assert_eq!(tag.child_count, 1, "escaped tag should keep children");
    assert_eq!(comrak_escaped_tag_literal("|"), Some("|"));
    assert_eq!(flat[3].node, text("child"));
}

#[test]
fn escaped_tag_conversion_renders_arbitrary_literals_as_leaf_text() {
    let literal = "<script>alert(1)</script>";
    let flat = flatten_document(escaped_tag_document(literal));
    assert_eq!(flat.len(), 3, "fallback text nodes cannot retain escaped tag children");
    assert_eq!(flat[2].child_count, 0);
    assert_eq!(comrak_escaped_tag_literal(literal), None);
    for token in ["~", "~~", "==", "++"] {
        assert_eq!(comrak_escaped_tag_literal(token), Some(token));
    }
    assert_eq!(comrak_escaped_tag_literal("="), None);
}

#[test]
fn iterative_ast_roundtrip_handles_deep_nesting() {
    let mut node = NewNode::Paragraph(ExParagraph {
        nodes: vec![text("boom")],
        sourcepos: sourcepos(),
    });
    for _ in 0..5_000 {
        node = NewNode::BlockQuote(ExBlockQuote {
            nodes: vec![node],
            sourcepos: sourcepos(),
        });
    }
    let document = NewNode::Document(ExDocument {
        nodes: vec![node],
        sourcepos: sourcepos(),
    });
    let flat = flatten_document(document);
    assert_eq!(flat.len(), 5_003);
    let rebuilt = rebuild_document(flat).expect("one tree");

    // Walk down without recursion to check the depth survived.
    let mut depth = 0;
    let mut current = &rebuilt;
    loop {
        match current {
            NewNode::Document(d) => current = &d.nodes[0],
            NewNode::BlockQuote(q) => {
                depth += 1;
                current = &q.nodes[0];
            }
            NewNode::Paragraph(p) => {
                assert_eq!(p.nodes, vec![text("boom")]);
                break;
            }
            other => panic!("unexpected node {other:?}"),
        }
    }
    assert_eq!(depth, 5_000);
    // Nested values this deep drop recursively; hand them back through the
    // flat form so the test does not exhaust its stack on drop.
    let flat = flatten_document(rebuilt);
    drop(flat);
}

#[test]
fn roundtrip_keeps_attributes_and_mixed_children() {
    let heading = NewNode::Heading(ExHeading {
        nodes: vec![text("Release Notes")],
        level: 1,
        setext: false,
        closed: false,
        attrs: Some(ExAttributes {
            id: Some("notes".to_string()),
            classes: vec![],
            pairs: vec![],
        }),
        sourcepos: sourcepos(),
    });
    let document = NewNode::Document(ExDocument {
        nodes: vec![
            heading,
            NewNode::Paragraph(ExParagraph {
                nodes: vec![text("first"), text("second")],
                sourcepos: sourcepos(),
            }),
        ],
        sourcepos: sourcepos(),
    });
    let flat = flatten_document(document);
    let counts: Vec<usize> = flat.iter().map(|f| f.child_count).collect();
    assert_eq!(counts, vec![2, 1, 0, 2, 0, 0]);
    let rebuilt = rebuild_document(flat).unwrap();
    match rebuilt {
        NewNode::Document(d) => {
            assert_eq!(d.nodes.len(), 2);
            assert!(matches!(&d.nodes[0], NewNode::Heading(h) if h.attrs.as_ref().unwrap().id.as_deref() == Some("notes")));
        }
        other => panic!("unexpected root {other:?}"),
    }
}

#[test]
fn listings_that_are_not_one_tree_are_refused() {
    let leaf = |literal: &str, child_count| FlatNode {
        node: text(literal),
        child_count,
    };
    assert!(rebuild_document(vec![]).is_none());
    assert!(rebuild_document(vec![leaf("a", 0), leaf("b", 0)]).is_none());
    assert!(rebuild_document(vec![leaf("a", 1), leaf("b", 0)]).is_none(), "text holds no children");
    let document = FlatNode {
        node: NewNode::Document(ExDocument {
            nodes: vec![],
            sourcepos: sourcepos(),
        }),
        child_count: 2,
    };
    assert!(rebuild_document(vec![document, leaf("b", 0)]).is_none(), "too few entries");
}

#[test]
fn node_accessors_take_what_they_hand_over() {
    let mut paragraph = NewNode::Paragraph(ExParagraph {
        nodes: vec![text("x")],
        sourcepos: ExSourcepos { start: (1, 2), end: (3, 4) },
    });
    assert_eq!(paragraph.sourcepos(), ExSourcepos { start: (1, 2), end: (3, 4) });
    assert!(paragraph.holds_children());
    assert_eq!(paragraph.take_children(), Some(vec![text("x")]));
    assert_eq!(paragraph.take_children(), Some(vec![]));
    assert_eq!(paragraph.take_attrs(), None);

    let mut leaf = text("y");
    assert!(!leaf.holds_children());
    assert_eq!(leaf.take_children(), None);
    assert_eq!(leaf, text("y"));
}

#[test]
fn bytes_and_one_character_strings() {
    assert_eq!(string_to_char("-".to_string()), b'-');
    assert_eq!(string_to_char(String::new()), 0);
    assert_eq!(string_to_char("é".to_string()), 0xc3);
    assert_eq!(char_to_string(b'*'), Ok("*".to_string()));
    assert_eq!(char_to_string(0), Ok(String::new()));
    assert_eq!(char_to_string(0xc3), Err("failed to convert to string"));
}
