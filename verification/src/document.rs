//! The document tree as the Elixir side spells it, and the per-node rules
//! used when a tree is converted to and from Comrak's AST.

use vstd::prelude::*;

use vstd::utf8::encode_utf8;

use crate::text::{chars_of, push_char};

verus! {

/// A source position: start and end as `(line, column)` pairs.
#[derive(Clone, Copy, Debug, Default, PartialEq, Eq)]
pub struct ExSourcepos {
    pub start: (usize, usize),
    pub end: (usize, usize),
}

/// Attributes attached to a node: an id, classes and key/value pairs.
#[derive(Clone, Debug, Default, PartialEq)]
pub struct ExAttributes {
    pub id: Option<String>,
    pub classes: Vec<String>,
    pub pairs: Vec<(String, String)>,
}

/// Whether a list is a bullet list or an ordered list.
#[derive(Clone, Debug, PartialEq)]
pub enum ExListType {
    Bullet,
    Ordered,
}

/// The delimiter after the number of an ordered list item.
#[derive(Clone, Debug, PartialEq)]
pub enum ExListDelimType {
    Period,
    Paren,
}

/// The alignment of a table column.
#[derive(Clone, Debug, PartialEq)]
pub enum ExTableAlignment {
    Unaligned,
    Left,
    Center,
    Right,
}

/// The kind of a GitHub-style alert.
#[derive(Clone, Debug, Default, PartialEq)]
pub enum ExAlertType {
    #[default]
    Note,
    Tip,
    Important,
    Warning,
    Caution,
}

/// The delimiter tokens an escaped tag may carry and keep its children with.
pub open spec fn is_delimiter_literal(s: Seq<char>) -> bool {
    ||| s == seq!['|']
    ||| s == seq!['~']
    ||| s == seq!['~', '~']
    ||| s == seq!['=', '=']
    ||| s == seq!['+', '+']
}

/// Whether `literal` is one of the delimiter tokens of an escaped tag.
pub fn is_delimiter(literal: &str) -> (b: bool)
    ensures
        b == is_delimiter_literal(literal@),
{
    let cs = chars_of(literal);
    let b = if cs.len() == 1 {
        cs[0] == '|' || cs[0] == '~'
    } else if cs.len() == 2 {
        (cs[0] == '~' && cs[1] == '~') || (cs[0] == '=' && cs[1] == '=') || (cs[0] == '+'
            && cs[1] == '+')
    } else {
        false
    };
    proof {
        if cs@.len() == 1 {
            assert(cs@ == seq![cs@[0]]);
        }
        if cs@.len() == 2 {
            assert(cs@ == seq![cs@[0], cs@[1]]);
        }
    }
    b
}

/// The delimiter token Comrak keeps for an escaped tag, or `None` when the
/// literal is anything else and the tag has to be rendered as text.
pub fn comrak_escaped_tag_literal(literal: &str) -> (token: Option<&'static str>)
    ensures
        token is Some <==> is_delimiter_literal(literal@),
        token matches Some(t) ==> t@ == literal@,
{
    let cs = chars_of(literal);
    proof {
        reveal_strlit("|");
        reveal_strlit("~");
        reveal_strlit("~~");
        reveal_strlit("==");
        reveal_strlit("++");
        if cs@.len() == 1 {
            assert(cs@ == seq![cs@[0]]);
        }
        if cs@.len() == 2 {
            assert(cs@ == seq![cs@[0], cs@[1]]);
        }
    }
    if cs.len() == 1 && cs[0] == '|' {
        Some("|")
    } else if cs.len() == 1 && cs[0] == '~' {
        Some("~")
    } else if cs.len() == 2 && cs[0] == '~' && cs[1] == '~' {
        Some("~~")
    } else if cs.len() == 2 && cs[0] == '=' && cs[1] == '=' {
        Some("==")
    } else if cs.len() == 2 && cs[0] == '+' && cs[1] == '+' {
        Some("++")
    } else {
        None
    }
}

/// The first byte of a string's UTF-8 encoding, or `0` for the empty string.
pub fn string_to_char(s: String) -> (b: u8)
    ensures
        b == (if encode_utf8(s@).len() > 0 { encode_utf8(s@)[0] } else { 0u8 }),
{
    let bytes = s.as_str().as_bytes();
    if bytes.len() > 0 {
        bytes[0]
    } else {
        0
    }
}

/// The one-character string a byte stands for: empty for `0`, the ASCII
/// character for a byte below `0x80`, and an error for any other byte, which
/// is not UTF-8 on its own.
pub fn char_to_string(c: u8) -> (r: Result<String, &'static str>)
    ensures
        c == 0 ==> (r matches Ok(s) && s@ == Seq::<char>::empty()),
        0 < c < 128 ==> (r matches Ok(s) && s@ == seq![c as char]),
        c >= 128 ==> (r matches Err(e) && e@ == "failed to convert to string"@),
{
    if c == 0 {
        return Ok(String::new());
    }
    if c < 128 {
        let mut s = String::new();
        push_char(&mut s, c as char);
        Ok(s)
    } else {
        Err("failed to convert to string")
    }
}

/// The root of a document.
#[derive(Debug, PartialEq)]
pub struct ExDocument {
    pub nodes: Vec<NewNode>,
    pub sourcepos: ExSourcepos,
}

/// Front matter found before the first block, delimiters included.
#[derive(Clone, Debug, PartialEq)]
pub struct ExFrontMatter {
    pub literal: String,
    pub sourcepos: ExSourcepos,
}

/// A block quote.
#[derive(Debug, PartialEq)]
pub struct ExBlockQuote {
    pub nodes: Vec<NewNode>,
    pub sourcepos: ExSourcepos,
}

/// A bullet or ordered list.
#[derive(Debug, PartialEq)]
pub struct ExList {
    pub nodes: Vec<NewNode>,
    pub list_type: ExListType,
    pub marker_offset: usize,
    pub padding: usize,
    pub start: usize,
    pub delimiter: ExListDelimType,
    pub bullet_char: String,
    pub tight: bool,
    pub is_task_list: bool,
    pub sourcepos: ExSourcepos,
}

/// An item of a list.
#[derive(Debug, PartialEq)]
pub struct ExListItem {
    pub nodes: Vec<NewNode>,
    pub list_type: ExListType,
    pub marker_offset: usize,
    pub padding: usize,
    pub start: usize,
    pub delimiter: ExListDelimType,
    pub bullet_char: String,
    pub tight: bool,
    pub is_task_list: bool,
    pub sourcepos: ExSourcepos,
}

/// A description list.
#[derive(Debug, PartialEq)]
pub struct ExDescriptionList {
    pub nodes: Vec<NewNode>,
    pub sourcepos: ExSourcepos,
}

/// An item of a description list.
#[derive(Debug, PartialEq)]
pub struct ExDescriptionItem {
    pub nodes: Vec<NewNode>,
    pub marker_offset: usize,
    pub padding: usize,
    pub tight: bool,
    pub sourcepos: ExSourcepos,
}

/// The term of a description item.
#[derive(Debug, PartialEq)]
pub struct ExDescriptionTerm {
    pub nodes: Vec<NewNode>,
    pub sourcepos: ExSourcepos,
}

/// The details of a description item.
#[derive(Debug, PartialEq)]
pub struct ExDescriptionDetails {
    pub nodes: Vec<NewNode>,
    pub sourcepos: ExSourcepos,
}

/// An indented or fenced code block.
#[derive(Debug, PartialEq)]
pub struct ExCodeBlock {
    pub nodes: Vec<NewNode>,
    pub fenced: bool,
    pub fence_char: String,
    pub fence_length: usize,
    pub fence_offset: usize,
    pub info: String,
    pub literal: String,
    pub closed: bool,
    pub attrs: Option<ExAttributes>,
    pub sourcepos: ExSourcepos,
}

/// A block of raw HTML.
#[derive(Debug, PartialEq)]
pub struct ExHtmlBlock {
    pub nodes: Vec<NewNode>,
    pub block_type: u8,
    pub literal: String,
    pub sourcepos: ExSourcepos,
}

/// A paragraph.
#[derive(Debug, PartialEq)]
pub struct ExParagraph {
    pub nodes: Vec<NewNode>,
    pub sourcepos: ExSourcepos,
}

/// An ATX or setext heading.
#[derive(Debug, PartialEq)]
pub struct ExHeading {
    pub nodes: Vec<NewNode>,
    pub level: u8,
    pub setext: bool,
    pub closed: bool,
    pub attrs: Option<ExAttributes>,
    pub sourcepos: ExSourcepos,
}

/// A thematic break.
#[derive(Clone, Debug, PartialEq)]
pub struct ExThematicBreak {
    pub sourcepos: ExSourcepos,
}

/// The definition of a footnote.
#[derive(Debug, PartialEq)]
pub struct ExFootnoteDefinition {
    pub nodes: Vec<NewNode>,
    pub name: String,
    pub total_references: u32,
    pub sourcepos: ExSourcepos,
}

/// A reference to a footnote.
#[derive(Clone, Debug, PartialEq)]
pub struct ExFootnoteReference {
    pub name: String,
    pub ref_num: u32,
    pub ix: u32,
    pub texts: Vec<(String, usize)>,
    pub sourcepos: ExSourcepos,
}

/// A table.
#[derive(Debug, PartialEq)]
pub struct ExTable {
    pub nodes: Vec<NewNode>,
    pub alignments: Vec<ExTableAlignment>,
    pub num_columns: usize,
    pub num_rows: usize,
    pub num_nonempty_cells: usize,
    pub sourcepos: ExSourcepos,
}

/// A row of a table.
#[derive(Debug, PartialEq)]
pub struct ExTableRow {
    pub nodes: Vec<NewNode>,
    pub header: bool,
    pub sourcepos: ExSourcepos,
}

/// A cell of a table row.
#[derive(Debug, PartialEq)]
pub struct ExTableCell {
    pub nodes: Vec<NewNode>,
    pub sourcepos: ExSourcepos,
}

/// Literal text.
#[derive(Clone, Debug, PartialEq)]
pub struct ExText {
    pub literal: String,
    pub sourcepos: ExSourcepos,
}

/// A task list item.
#[derive(Debug, PartialEq)]
pub struct ExTaskItem {
    pub nodes: Vec<NewNode>,
    pub checked: bool,
    pub marker: String,
    pub sourcepos: ExSourcepos,
}

/// A soft line break.
#[derive(Clone, Debug, PartialEq)]
pub struct ExSoftBreak {
    pub sourcepos: ExSourcepos,
}

/// A hard line break.
#[derive(Clone, Debug, PartialEq)]
pub struct ExLineBreak {
    pub sourcepos: ExSourcepos,
}

/// An inline code span.
#[derive(Clone, Debug, PartialEq)]
pub struct ExCode {
    pub num_backticks: usize,
    pub literal: String,
    pub attrs: Option<ExAttributes>,
    pub sourcepos: ExSourcepos,
}

/// Inline raw HTML.
#[derive(Clone, Debug, PartialEq)]
pub struct ExHtmlInline {
    pub literal: String,
    pub sourcepos: ExSourcepos,
}

/// Content written to the output verbatim.
#[derive(Clone, Debug, PartialEq)]
pub struct ExRaw {
    pub literal: String,
    pub sourcepos: ExSourcepos,
}

/// Emphasis.
#[derive(Debug, PartialEq)]
pub struct ExEmph {
    pub nodes: Vec<NewNode>,
    pub sourcepos: ExSourcepos,
}

/// Strong emphasis.
#[derive(Debug, PartialEq)]
pub struct ExStrong {
    pub nodes: Vec<NewNode>,
    pub sourcepos: ExSourcepos,
}

/// Struck-through text.
#[derive(Debug, PartialEq)]
pub struct ExStrikethrough {
    pub nodes: Vec<NewNode>,
    pub sourcepos: ExSourcepos,
}

/// Highlighted (marked) text.
#[derive(Debug, PartialEq)]
pub struct ExHighlight {
    pub nodes: Vec<NewNode>,
    pub sourcepos: ExSourcepos,
}

/// Inserted text.
#[derive(Debug, PartialEq)]
pub struct ExInsert {
    pub nodes: Vec<NewNode>,
    pub sourcepos: ExSourcepos,
}

/// Superscript text.
#[derive(Debug, PartialEq)]
pub struct ExSuperscript {
    pub nodes: Vec<NewNode>,
    pub sourcepos: ExSourcepos,
}

/// A link.
#[derive(Debug, PartialEq)]
pub struct ExLink {
    pub nodes: Vec<NewNode>,
    pub url: String,
    pub title: String,
    pub attrs: Option<ExAttributes>,
    pub sourcepos: ExSourcepos,
}

/// An image.
#[derive(Debug, PartialEq)]
pub struct ExImage {
    pub nodes: Vec<NewNode>,
    pub url: String,
    pub title: String,
    pub attrs: Option<ExAttributes>,
    pub sourcepos: ExSourcepos,
}

/// An emoji shortcode.
#[derive(Clone, Debug, PartialEq)]
pub struct ExShortCode {
    pub code: String,
    pub emoji: String,
    pub sourcepos: ExSourcepos,
}

/// A math span or block.
#[derive(Clone, Debug, PartialEq)]
pub struct ExMath {
    pub dollar_math: bool,
    pub display_math: bool,
    pub literal: String,
    pub sourcepos: ExSourcepos,
}

/// A fenced, multi-line block quote.
#[derive(Debug, PartialEq)]
pub struct ExMultilineBlockQuote {
    pub nodes: Vec<NewNode>,
    pub fence_length: usize,
    pub fence_offset: usize,
    pub sourcepos: ExSourcepos,
}

/// A span produced by a backslash escape.
#[derive(Clone, Debug, PartialEq)]
pub struct ExEscaped {
    pub sourcepos: ExSourcepos,
}

/// A wiki link.
#[derive(Debug, PartialEq)]
pub struct ExWikiLink {
    pub nodes: Vec<NewNode>,
    pub url: String,
    pub sourcepos: ExSourcepos,
}

/// Underlined text.
#[derive(Debug, PartialEq)]
pub struct ExUnderline {
    pub nodes: Vec<NewNode>,
    pub sourcepos: ExSourcepos,
}

/// Subscript text.
#[derive(Debug, PartialEq)]
pub struct ExSubscript {
    pub nodes: Vec<NewNode>,
    pub sourcepos: ExSourcepos,
}

/// Spoilered text.
#[derive(Debug, PartialEq)]
pub struct ExSpoileredText {
    pub nodes: Vec<NewNode>,
    pub sourcepos: ExSourcepos,
}

/// Subtext.
#[derive(Debug, PartialEq)]
pub struct ExSubtext {
    pub nodes: Vec<NewNode>,
    pub sourcepos: ExSourcepos,
}

/// An escaped delimiter tag.
#[derive(Debug, PartialEq)]
pub struct ExEscapedTag {
    pub nodes: Vec<NewNode>,
    pub literal: String,
    pub sourcepos: ExSourcepos,
}

/// A GitHub-style alert.
#[derive(Debug, PartialEq)]
pub struct ExAlert {
    pub nodes: Vec<NewNode>,
    pub alert_type: ExAlertType,
    pub title: Option<String>,
    pub multiline: bool,
    pub fence_length: usize,
    pub fence_offset: usize,
    pub sourcepos: ExSourcepos,
}

/// A Phoenix HEEx block.
#[derive(Debug, PartialEq)]
pub struct ExHeexBlock {
    pub nodes: Vec<NewNode>,
    pub literal: String,
    pub node: String,
    pub sourcepos: ExSourcepos,
}

/// Inline Phoenix HEEx.
#[derive(Clone, Debug, PartialEq)]
pub struct ExHeexInline {
    pub literal: String,
    pub sourcepos: ExSourcepos,
}

/// A block directive.
#[derive(Debug, PartialEq)]
pub struct ExBlockDirective {
    pub nodes: Vec<NewNode>,
    pub info: String,
    pub fence_length: usize,
    pub fence_offset: usize,
    pub sourcepos: ExSourcepos,
}
/// A node of the document tree as the Elixir side spells it.
#[derive(Debug, PartialEq)]
pub enum NewNode {
    Document(ExDocument),
    FrontMatter(ExFrontMatter),
    BlockQuote(ExBlockQuote),
    List(ExList),
    ListItem(ExListItem),
    DescriptionList(ExDescriptionList),
    DescriptionItem(ExDescriptionItem),
    DescriptionTerm(ExDescriptionTerm),
    DescriptionDetails(ExDescriptionDetails),
    CodeBlock(ExCodeBlock),
    HtmlBlock(ExHtmlBlock),
    Paragraph(ExParagraph),
    Heading(ExHeading),
    ThematicBreak(ExThematicBreak),
    FootnoteDefinition(ExFootnoteDefinition),
    FootnoteReference(ExFootnoteReference),
    Table(ExTable),
    TableRow(ExTableRow),
    TableCell(ExTableCell),
    Text(ExText),
    TaskItem(ExTaskItem),
    SoftBreak(ExSoftBreak),
    LineBreak(ExLineBreak),
    Code(ExCode),
    HtmlInline(ExHtmlInline),
    Raw(ExRaw),
    Emph(ExEmph),
    Strong(ExStrong),
    Strikethrough(ExStrikethrough),
    Highlight(ExHighlight),
    Insert(ExInsert),
    Superscript(ExSuperscript),
    Link(ExLink),
    Image(ExImage),
    ShortCode(ExShortCode),
    Math(ExMath),
    MultilineBlockQuote(ExMultilineBlockQuote),
    Escaped(ExEscaped),
    WikiLink(ExWikiLink),
    Underline(ExUnderline),
    Subscript(ExSubscript),
    SpoileredText(ExSpoileredText),
    Subtext(ExSubtext),
    EscapedTag(ExEscapedTag),
    Alert(ExAlert),
    HeexBlock(ExHeexBlock),
    HeexInline(ExHeexInline),
    BlockDirective(ExBlockDirective),
}
impl NewNode {
    /// The source position carried by any node.
    pub open spec fn spec_sourcepos(self) -> ExSourcepos {
        match self {
            NewNode::Document(x) => x.sourcepos,
            NewNode::FrontMatter(x) => x.sourcepos,
            NewNode::BlockQuote(x) => x.sourcepos,
            NewNode::List(x) => x.sourcepos,
            NewNode::ListItem(x) => x.sourcepos,
            NewNode::DescriptionList(x) => x.sourcepos,
            NewNode::DescriptionItem(x) => x.sourcepos,
            NewNode::DescriptionTerm(x) => x.sourcepos,
            NewNode::DescriptionDetails(x) => x.sourcepos,
            NewNode::CodeBlock(x) => x.sourcepos,
            NewNode::HtmlBlock(x) => x.sourcepos,
            NewNode::Paragraph(x) => x.sourcepos,
            NewNode::Heading(x) => x.sourcepos,
            NewNode::ThematicBreak(x) => x.sourcepos,
            NewNode::FootnoteDefinition(x) => x.sourcepos,
            NewNode::FootnoteReference(x) => x.sourcepos,
            NewNode::Table(x) => x.sourcepos,
            NewNode::TableRow(x) => x.sourcepos,
            NewNode::TableCell(x) => x.sourcepos,
            NewNode::Text(x) => x.sourcepos,
            NewNode::TaskItem(x) => x.sourcepos,
            NewNode::SoftBreak(x) => x.sourcepos,
            NewNode::LineBreak(x) => x.sourcepos,
            NewNode::Code(x) => x.sourcepos,
            NewNode::HtmlInline(x) => x.sourcepos,
            NewNode::Raw(x) => x.sourcepos,
            NewNode::Emph(x) => x.sourcepos,
            NewNode::Strong(x) => x.sourcepos,
            NewNode::Strikethrough(x) => x.sourcepos,
            NewNode::Highlight(x) => x.sourcepos,
            NewNode::Insert(x) => x.sourcepos,
            NewNode::Superscript(x) => x.sourcepos,
            NewNode::Link(x) => x.sourcepos,
            NewNode::Image(x) => x.sourcepos,
            NewNode::ShortCode(x) => x.sourcepos,
            NewNode::Math(x) => x.sourcepos,
            NewNode::MultilineBlockQuote(x) => x.sourcepos,
            NewNode::Escaped(x) => x.sourcepos,
            NewNode::WikiLink(x) => x.sourcepos,
            NewNode::Underline(x) => x.sourcepos,
            NewNode::Subscript(x) => x.sourcepos,
            NewNode::SpoileredText(x) => x.sourcepos,
            NewNode::Subtext(x) => x.sourcepos,
            NewNode::EscapedTag(x) => x.sourcepos,
            NewNode::Alert(x) => x.sourcepos,
            NewNode::HeexBlock(x) => x.sourcepos,
            NewNode::HeexInline(x) => x.sourcepos,
            NewNode::BlockDirective(x) => x.sourcepos,
        }
    }

    /// The children a node hands over when it is converted: `Some` for every kind
    /// that carries a child list, except an escaped tag whose literal is not one
    /// of the delimiter tokens.
    pub open spec fn child_slot(self) -> Option<Seq<NewNode>> {
        match self {
            NewNode::Document(x) => Some(x.nodes@),
            NewNode::BlockQuote(x) => Some(x.nodes@),
            NewNode::List(x) => Some(x.nodes@),
            NewNode::ListItem(x) => Some(x.nodes@),
            NewNode::DescriptionList(x) => Some(x.nodes@),
            NewNode::DescriptionItem(x) => Some(x.nodes@),
            NewNode::DescriptionTerm(x) => Some(x.nodes@),
            NewNode::DescriptionDetails(x) => Some(x.nodes@),
            NewNode::CodeBlock(x) => Some(x.nodes@),
            NewNode::HtmlBlock(x) => Some(x.nodes@),
            NewNode::Paragraph(x) => Some(x.nodes@),
            NewNode::Heading(x) => Some(x.nodes@),
            NewNode::FootnoteDefinition(x) => Some(x.nodes@),
            NewNode::Table(x) => Some(x.nodes@),
            NewNode::TableRow(x) => Some(x.nodes@),
            NewNode::TableCell(x) => Some(x.nodes@),
            NewNode::TaskItem(x) => Some(x.nodes@),
            NewNode::Emph(x) => Some(x.nodes@),
            NewNode::Strong(x) => Some(x.nodes@),
            NewNode::Strikethrough(x) => Some(x.nodes@),
            NewNode::Highlight(x) => Some(x.nodes@),
            NewNode::Insert(x) => Some(x.nodes@),
            NewNode::Superscript(x) => Some(x.nodes@),
            NewNode::Link(x) => Some(x.nodes@),
            NewNode::Image(x) => Some(x.nodes@),
            NewNode::MultilineBlockQuote(x) => Some(x.nodes@),
            NewNode::WikiLink(x) => Some(x.nodes@),
            NewNode::Underline(x) => Some(x.nodes@),
            NewNode::Subscript(x) => Some(x.nodes@),
            NewNode::SpoileredText(x) => Some(x.nodes@),
            NewNode::Subtext(x) => Some(x.nodes@),
            NewNode::EscapedTag(x) => if is_delimiter_literal(x.literal@) { Some(x.nodes@) } else { None },
            NewNode::Alert(x) => Some(x.nodes@),
            NewNode::HeexBlock(x) => Some(x.nodes@),
            NewNode::BlockDirective(x) => Some(x.nodes@),
            _ => None,
        }
    }

    /// The node with its child list replaced, for the kinds that hand one over.
    pub open spec fn with_nodes(self, nodes: Vec<NewNode>) -> NewNode {
        match self {
            NewNode::Document(x) => NewNode::Document(ExDocument { nodes, ..x }),
            NewNode::BlockQuote(x) => NewNode::BlockQuote(ExBlockQuote { nodes, ..x }),
            NewNode::List(x) => NewNode::List(ExList { nodes, ..x }),
            NewNode::ListItem(x) => NewNode::ListItem(ExListItem { nodes, ..x }),
            NewNode::DescriptionList(x) => NewNode::DescriptionList(ExDescriptionList { nodes, ..x }),
            NewNode::DescriptionItem(x) => NewNode::DescriptionItem(ExDescriptionItem { nodes, ..x }),
            NewNode::DescriptionTerm(x) => NewNode::DescriptionTerm(ExDescriptionTerm { nodes, ..x }),
            NewNode::DescriptionDetails(x) => NewNode::DescriptionDetails(ExDescriptionDetails { nodes, ..x }),
            NewNode::CodeBlock(x) => NewNode::CodeBlock(ExCodeBlock { nodes, ..x }),
            NewNode::HtmlBlock(x) => NewNode::HtmlBlock(ExHtmlBlock { nodes, ..x }),
            NewNode::Paragraph(x) => NewNode::Paragraph(ExParagraph { nodes, ..x }),
            NewNode::Heading(x) => NewNode::Heading(ExHeading { nodes, ..x }),
            NewNode::FootnoteDefinition(x) => NewNode::FootnoteDefinition(ExFootnoteDefinition { nodes, ..x }),
            NewNode::Table(x) => NewNode::Table(ExTable { nodes, ..x }),
            NewNode::TableRow(x) => NewNode::TableRow(ExTableRow { nodes, ..x }),
            NewNode::TableCell(x) => NewNode::TableCell(ExTableCell { nodes, ..x }),
            NewNode::TaskItem(x) => NewNode::TaskItem(ExTaskItem { nodes, ..x }),
            NewNode::Emph(x) => NewNode::Emph(ExEmph { nodes, ..x }),
            NewNode::Strong(x) => NewNode::Strong(ExStrong { nodes, ..x }),
            NewNode::Strikethrough(x) => NewNode::Strikethrough(ExStrikethrough { nodes, ..x }),
            NewNode::Highlight(x) => NewNode::Highlight(ExHighlight { nodes, ..x }),
            NewNode::Insert(x) => NewNode::Insert(ExInsert { nodes, ..x }),
            NewNode::Superscript(x) => NewNode::Superscript(ExSuperscript { nodes, ..x }),
            NewNode::Link(x) => NewNode::Link(ExLink { nodes, ..x }),
            NewNode::Image(x) => NewNode::Image(ExImage { nodes, ..x }),
            NewNode::MultilineBlockQuote(x) => NewNode::MultilineBlockQuote(ExMultilineBlockQuote { nodes, ..x }),
            NewNode::WikiLink(x) => NewNode::WikiLink(ExWikiLink { nodes, ..x }),
            NewNode::Underline(x) => NewNode::Underline(ExUnderline { nodes, ..x }),
            NewNode::Subscript(x) => NewNode::Subscript(ExSubscript { nodes, ..x }),
            NewNode::SpoileredText(x) => NewNode::SpoileredText(ExSpoileredText { nodes, ..x }),
            NewNode::Subtext(x) => NewNode::Subtext(ExSubtext { nodes, ..x }),
            NewNode::EscapedTag(x) => if is_delimiter_literal(x.literal@) { NewNode::EscapedTag(ExEscapedTag { nodes, ..x }) } else { self },
            NewNode::Alert(x) => NewNode::Alert(ExAlert { nodes, ..x }),
            NewNode::HeexBlock(x) => NewNode::HeexBlock(ExHeexBlock { nodes, ..x }),
            NewNode::BlockDirective(x) => NewNode::BlockDirective(ExBlockDirective { nodes, ..x }),
            _ => self,
        }
    }

    /// The attributes a node carries, for the kinds that can carry them.
    pub open spec fn spec_attrs(self) -> Option<ExAttributes> {
        match self {
            NewNode::CodeBlock(x) => x.attrs,
            NewNode::Heading(x) => x.attrs,
            NewNode::Code(x) => x.attrs,
            NewNode::Link(x) => x.attrs,
            NewNode::Image(x) => x.attrs,
            _ => None,
        }
    }

    /// The node with its attributes replaced, for the kinds that carry them.
    pub open spec fn with_attrs(self, attrs: Option<ExAttributes>) -> NewNode {
        match self {
            NewNode::CodeBlock(x) => NewNode::CodeBlock(ExCodeBlock { attrs, ..x }),
            NewNode::Heading(x) => NewNode::Heading(ExHeading { attrs, ..x }),
            NewNode::Code(x) => NewNode::Code(ExCode { attrs, ..x }),
            NewNode::Link(x) => NewNode::Link(ExLink { attrs, ..x }),
            NewNode::Image(x) => NewNode::Image(ExImage { attrs, ..x }),
            _ => self,
        }
    }

    /// The source position of the node.
    pub fn sourcepos(&self) -> (pos: ExSourcepos)
        ensures
            pos == self.spec_sourcepos(),
    {
        match self {
            NewNode::Document(ExDocument { sourcepos, .. })
            | NewNode::FrontMatter(ExFrontMatter { sourcepos, .. })
            | NewNode::BlockQuote(ExBlockQuote { sourcepos, .. })
            | NewNode::List(ExList { sourcepos, .. })
            | NewNode::ListItem(ExListItem { sourcepos, .. })
            | NewNode::DescriptionList(ExDescriptionList { sourcepos, .. })
            | NewNode::DescriptionItem(ExDescriptionItem { sourcepos, .. })
            | NewNode::DescriptionTerm(ExDescriptionTerm { sourcepos, .. })
            | NewNode::DescriptionDetails(ExDescriptionDetails { sourcepos, .. })
            | NewNode::CodeBlock(ExCodeBlock { sourcepos, .. })
            | NewNode::HtmlBlock(ExHtmlBlock { sourcepos, .. })
            | NewNode::Paragraph(ExParagraph { sourcepos, .. })
            | NewNode::Heading(ExHeading { sourcepos, .. })
            | NewNode::ThematicBreak(ExThematicBreak { sourcepos, .. })
            | NewNode::FootnoteDefinition(ExFootnoteDefinition { sourcepos, .. })
            | NewNode::FootnoteReference(ExFootnoteReference { sourcepos, .. })
            | NewNode::Table(ExTable { sourcepos, .. })
            | NewNode::TableRow(ExTableRow { sourcepos, .. })
            | NewNode::TableCell(ExTableCell { sourcepos, .. })
            | NewNode::Text(ExText { sourcepos, .. })
            | NewNode::TaskItem(ExTaskItem { sourcepos, .. })
            | NewNode::SoftBreak(ExSoftBreak { sourcepos, .. })
            | NewNode::LineBreak(ExLineBreak { sourcepos, .. })
            | NewNode::Code(ExCode { sourcepos, .. })
            | NewNode::HtmlInline(ExHtmlInline { sourcepos, .. })
            | NewNode::Raw(ExRaw { sourcepos, .. })
            | NewNode::Emph(ExEmph { sourcepos, .. })
            | NewNode::Strong(ExStrong { sourcepos, .. })
            | NewNode::Strikethrough(ExStrikethrough { sourcepos, .. })
            | NewNode::Highlight(ExHighlight { sourcepos, .. })
            | NewNode::Insert(ExInsert { sourcepos, .. })
            | NewNode::Superscript(ExSuperscript { sourcepos, .. })
            | NewNode::Link(ExLink { sourcepos, .. })
            | NewNode::Image(ExImage { sourcepos, .. })
            | NewNode::ShortCode(ExShortCode { sourcepos, .. })
            | NewNode::Math(ExMath { sourcepos, .. })
            | NewNode::MultilineBlockQuote(ExMultilineBlockQuote { sourcepos, .. })
            | NewNode::Escaped(ExEscaped { sourcepos, .. })
            | NewNode::WikiLink(ExWikiLink { sourcepos, .. })
            | NewNode::Underline(ExUnderline { sourcepos, .. })
            | NewNode::Subscript(ExSubscript { sourcepos, .. })
            | NewNode::SpoileredText(ExSpoileredText { sourcepos, .. })
            | NewNode::Subtext(ExSubtext { sourcepos, .. })
            | NewNode::EscapedTag(ExEscapedTag { sourcepos, .. })
            | NewNode::Alert(ExAlert { sourcepos, .. })
            | NewNode::HeexBlock(ExHeexBlock { sourcepos, .. })
            | NewNode::HeexInline(ExHeexInline { sourcepos, .. })
            | NewNode::BlockDirective(ExBlockDirective { sourcepos, .. }) => *sourcepos,
        }
    }

    /// Takes the child list out of the node, leaving an empty one behind.
    ///
    /// `None`, and the node untouched, for a kind without children and for an
    /// escaped tag whose literal is not a delimiter token.
    pub fn take_children(&mut self) -> (taken: Option<Vec<NewNode>>)
        ensures
            taken is Some <==> old(self).child_slot() is Some,
            taken matches Some(v) ==> {
                &&& v@ == old(self).child_slot()->0
                &&& final(self).child_slot() == Some(Seq::<NewNode>::empty())
                &&& final(self).with_nodes(v) == *old(self)
            },
            taken is None ==> *final(self) == *old(self),
    {
        match self {
            NewNode::Document(x) => {
                let mut nodes: Vec<NewNode> = Vec::new();
                std::mem::swap(&mut nodes, &mut x.nodes);
                Some(nodes)
            },
            NewNode::BlockQuote(x) => {
                let mut nodes: Vec<NewNode> = Vec::new();
                std::mem::swap(&mut nodes, &mut x.nodes);
                Some(nodes)
            },
            NewNode::List(x) => {
                let mut nodes: Vec<NewNode> = Vec::new();
                std::mem::swap(&mut nodes, &mut x.nodes);
                Some(nodes)
            },
            NewNode::ListItem(x) => {
                let mut nodes: Vec<NewNode> = Vec::new();
                std::mem::swap(&mut nodes, &mut x.nodes);
                Some(nodes)
            },
            NewNode::DescriptionList(x) => {
                let mut nodes: Vec<NewNode> = Vec::new();
                std::mem::swap(&mut nodes, &mut x.nodes);
                Some(nodes)
            },
            NewNode::DescriptionItem(x) => {
                let mut nodes: Vec<NewNode> = Vec::new();
                std::mem::swap(&mut nodes, &mut x.nodes);
                Some(nodes)
            },
            NewNode::DescriptionTerm(x) => {
                let mut nodes: Vec<NewNode> = Vec::new();
                std::mem::swap(&mut nodes, &mut x.nodes);
                Some(nodes)
            },
            NewNode::DescriptionDetails(x) => {
                let mut nodes: Vec<NewNode> = Vec::new();
                std::mem::swap(&mut nodes, &mut x.nodes);
                Some(nodes)
            },
            NewNode::CodeBlock(x) => {
                let mut nodes: Vec<NewNode> = Vec::new();
                std::mem::swap(&mut nodes, &mut x.nodes);
                Some(nodes)
            },
            NewNode::HtmlBlock(x) => {
                let mut nodes: Vec<NewNode> = Vec::new();
                std::mem::swap(&mut nodes, &mut x.nodes);
                Some(nodes)
            },
            NewNode::Paragraph(x) => {
                let mut nodes: Vec<NewNode> = Vec::new();
                std::mem::swap(&mut nodes, &mut x.nodes);
                Some(nodes)
            },
            NewNode::Heading(x) => {
                let mut nodes: Vec<NewNode> = Vec::new();
                std::mem::swap(&mut nodes, &mut x.nodes);
                Some(nodes)
            },
            NewNode::FootnoteDefinition(x) => {
                let mut nodes: Vec<NewNode> = Vec::new();
                std::mem::swap(&mut nodes, &mut x.nodes);
                Some(nodes)
            },
            NewNode::Table(x) => {
                let mut nodes: Vec<NewNode> = Vec::new();
                std::mem::swap(&mut nodes, &mut x.nodes);
                Some(nodes)
            },
            NewNode::TableRow(x) => {
                let mut nodes: Vec<NewNode> = Vec::new();
                std::mem::swap(&mut nodes, &mut x.nodes);
                Some(nodes)
            },
            NewNode::TableCell(x) => {
                let mut nodes: Vec<NewNode> = Vec::new();
                std::mem::swap(&mut nodes, &mut x.nodes);
                Some(nodes)
            },
            NewNode::TaskItem(x) => {
                let mut nodes: Vec<NewNode> = Vec::new();
                std::mem::swap(&mut nodes, &mut x.nodes);
                Some(nodes)
            },
            NewNode::Emph(x) => {
                let mut nodes: Vec<NewNode> = Vec::new();
                std::mem::swap(&mut nodes, &mut x.nodes);
                Some(nodes)
            },
            NewNode::Strong(x) => {
                let mut nodes: Vec<NewNode> = Vec::new();
                std::mem::swap(&mut nodes, &mut x.nodes);
                Some(nodes)
            },
            NewNode::Strikethrough(x) => {
                let mut nodes: Vec<NewNode> = Vec::new();
                std::mem::swap(&mut nodes, &mut x.nodes);
                Some(nodes)
            },
            NewNode::Highlight(x) => {
                let mut nodes: Vec<NewNode> = Vec::new();
                std::mem::swap(&mut nodes, &mut x.nodes);
                Some(nodes)
            },
            NewNode::Insert(x) => {
                let mut nodes: Vec<NewNode> = Vec::new();
                std::mem::swap(&mut nodes, &mut x.nodes);
                Some(nodes)
            },
            NewNode::Superscript(x) => {
                let mut nodes: Vec<NewNode> = Vec::new();
                std::mem::swap(&mut nodes, &mut x.nodes);
                Some(nodes)
            },
            NewNode::Link(x) => {
                let mut nodes: Vec<NewNode> = Vec::new();
                std::mem::swap(&mut nodes, &mut x.nodes);
                Some(nodes)
            },
            NewNode::Image(x) => {
                let mut nodes: Vec<NewNode> = Vec::new();
                std::mem::swap(&mut nodes, &mut x.nodes);
                Some(nodes)
            },
            NewNode::MultilineBlockQuote(x) => {
                let mut nodes: Vec<NewNode> = Vec::new();
                std::mem::swap(&mut nodes, &mut x.nodes);
                Some(nodes)
            },
            NewNode::WikiLink(x) => {
                let mut nodes: Vec<NewNode> = Vec::new();
                std::mem::swap(&mut nodes, &mut x.nodes);
                Some(nodes)
            },
            NewNode::Underline(x) => {
                let mut nodes: Vec<NewNode> = Vec::new();
                std::mem::swap(&mut nodes, &mut x.nodes);
                Some(nodes)
            },
            NewNode::Subscript(x) => {
                let mut nodes: Vec<NewNode> = Vec::new();
                std::mem::swap(&mut nodes, &mut x.nodes);
                Some(nodes)
            },
            NewNode::SpoileredText(x) => {
                let mut nodes: Vec<NewNode> = Vec::new();
                std::mem::swap(&mut nodes, &mut x.nodes);
                Some(nodes)
            },
            NewNode::Subtext(x) => {
                let mut nodes: Vec<NewNode> = Vec::new();
                std::mem::swap(&mut nodes, &mut x.nodes);
                Some(nodes)
            },
            NewNode::EscapedTag(x) => {
                if is_delimiter(x.literal.as_str()) {
                    let mut nodes: Vec<NewNode> = Vec::new();
                    std::mem::swap(&mut nodes, &mut x.nodes);
                    Some(nodes)
                } else {
                    None
                }
            },
            NewNode::Alert(x) => {
                let mut nodes: Vec<NewNode> = Vec::new();
                std::mem::swap(&mut nodes, &mut x.nodes);
                Some(nodes)
            },
            NewNode::HeexBlock(x) => {
                let mut nodes: Vec<NewNode> = Vec::new();
                std::mem::swap(&mut nodes, &mut x.nodes);
                Some(nodes)
            },
            NewNode::BlockDirective(x) => {
                let mut nodes: Vec<NewNode> = Vec::new();
                std::mem::swap(&mut nodes, &mut x.nodes);
                Some(nodes)
            },
            _ => None,
        }
    }

    /// Puts a child list into a node that hands one over.
    pub fn put_children(&mut self, nodes: Vec<NewNode>)
        requires
            old(self).child_slot() is Some,
        ensures
            *final(self) == old(self).with_nodes(nodes),
    {
        match self {
            NewNode::Document(x) => {
                x.nodes = nodes;
            },
            NewNode::BlockQuote(x) => {
                x.nodes = nodes;
            },
            NewNode::List(x) => {
                x.nodes = nodes;
            },
            NewNode::ListItem(x) => {
                x.nodes = nodes;
            },
            NewNode::DescriptionList(x) => {
                x.nodes = nodes;
            },
            NewNode::DescriptionItem(x) => {
                x.nodes = nodes;
            },
            NewNode::DescriptionTerm(x) => {
                x.nodes = nodes;
            },
            NewNode::DescriptionDetails(x) => {
                x.nodes = nodes;
            },
            NewNode::CodeBlock(x) => {
                x.nodes = nodes;
            },
            NewNode::HtmlBlock(x) => {
                x.nodes = nodes;
            },
            NewNode::Paragraph(x) => {
                x.nodes = nodes;
            },
            NewNode::Heading(x) => {
                x.nodes = nodes;
            },
            NewNode::FootnoteDefinition(x) => {
                x.nodes = nodes;
            },
            NewNode::Table(x) => {
                x.nodes = nodes;
            },
            NewNode::TableRow(x) => {
                x.nodes = nodes;
            },
            NewNode::TableCell(x) => {
                x.nodes = nodes;
            },
            NewNode::TaskItem(x) => {
                x.nodes = nodes;
            },
            NewNode::Emph(x) => {
                x.nodes = nodes;
            },
            NewNode::Strong(x) => {
                x.nodes = nodes;
            },
            NewNode::Strikethrough(x) => {
                x.nodes = nodes;
            },
            NewNode::Highlight(x) => {
                x.nodes = nodes;
            },
            NewNode::Insert(x) => {
                x.nodes = nodes;
            },
            NewNode::Superscript(x) => {
                x.nodes = nodes;
            },
            NewNode::Link(x) => {
                x.nodes = nodes;
            },
            NewNode::Image(x) => {
                x.nodes = nodes;
            },
            NewNode::MultilineBlockQuote(x) => {
                x.nodes = nodes;
            },
            NewNode::WikiLink(x) => {
                x.nodes = nodes;
            },
            NewNode::Underline(x) => {
                x.nodes = nodes;
            },
            NewNode::Subscript(x) => {
                x.nodes = nodes;
            },
            NewNode::SpoileredText(x) => {
                x.nodes = nodes;
            },
            NewNode::Subtext(x) => {
                x.nodes = nodes;
            },
            NewNode::EscapedTag(x) => {
                if is_delimiter(x.literal.as_str()) {
                    x.nodes = nodes;
                }
            },
            NewNode::Alert(x) => {
                x.nodes = nodes;
            },
            NewNode::HeexBlock(x) => {
                x.nodes = nodes;
            },
            NewNode::BlockDirective(x) => {
                x.nodes = nodes;
            },
            _ => {},
        }
    }

    /// Takes the attributes out of the node, leaving `None` behind.
    pub fn take_attrs(&mut self) -> (attrs: Option<ExAttributes>)
        ensures
            attrs == old(self).spec_attrs(),
            *final(self) == old(self).with_attrs(None),
    {
        match self {
            NewNode::CodeBlock(x) => {
                let mut attrs: Option<ExAttributes> = None;
                std::mem::swap(&mut attrs, &mut x.attrs);
                attrs
            },
            NewNode::Heading(x) => {
                let mut attrs: Option<ExAttributes> = None;
                std::mem::swap(&mut attrs, &mut x.attrs);
                attrs
            },
            NewNode::Code(x) => {
                let mut attrs: Option<ExAttributes> = None;
                std::mem::swap(&mut attrs, &mut x.attrs);
                attrs
            },
            NewNode::Link(x) => {
                let mut attrs: Option<ExAttributes> = None;
                std::mem::swap(&mut attrs, &mut x.attrs);
                attrs
            },
            NewNode::Image(x) => {
                let mut attrs: Option<ExAttributes> = None;
                std::mem::swap(&mut attrs, &mut x.attrs);
                attrs
            },
            _ => None,
        }
    }
    /// Whether the node is of a kind that holds children (an escaped tag only
    /// with a delimiter-token literal).
    pub fn holds_children(&self) -> (b: bool)
        ensures
            b == self.child_slot() is Some,
    {
        match self {
            NewNode::Document(_) => true,
            NewNode::BlockQuote(_) => true,
            NewNode::List(_) => true,
            NewNode::ListItem(_) => true,
            NewNode::DescriptionList(_) => true,
            NewNode::DescriptionItem(_) => true,
            NewNode::DescriptionTerm(_) => true,
            NewNode::DescriptionDetails(_) => true,
            NewNode::CodeBlock(_) => true,
            NewNode::HtmlBlock(_) => true,
            NewNode::Paragraph(_) => true,
            NewNode::Heading(_) => true,
            NewNode::FootnoteDefinition(_) => true,
            NewNode::Table(_) => true,
            NewNode::TableRow(_) => true,
            NewNode::TableCell(_) => true,
            NewNode::TaskItem(_) => true,
            NewNode::Emph(_) => true,
            NewNode::Strong(_) => true,
            NewNode::Strikethrough(_) => true,
            NewNode::Highlight(_) => true,
            NewNode::Insert(_) => true,
            NewNode::Superscript(_) => true,
            NewNode::Link(_) => true,
            NewNode::Image(_) => true,
            NewNode::MultilineBlockQuote(_) => true,
            NewNode::WikiLink(_) => true,
            NewNode::Underline(_) => true,
            NewNode::Subscript(_) => true,
            NewNode::SpoileredText(_) => true,
            NewNode::Subtext(_) => true,
            NewNode::EscapedTag(x) => is_delimiter(x.literal.as_str()),
            NewNode::Alert(_) => true,
            NewNode::HeexBlock(_) => true,
            NewNode::BlockDirective(_) => true,
            _ => false,
        }
    }
}

} // verus!
