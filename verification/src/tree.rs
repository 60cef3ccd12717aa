//! Pre-order flattening of a document tree and its rebuilding, the two
//! stack-driven walks used to move a tree across to Comrak and back.
//!
//! Converting a document to Comrak's arena creates a node, then appends each
//! child to it; converting back collects a node only once its children are
//! done. Both walks run on an explicit stack so that deeply nested documents
//! cannot overflow the call stack. Here they work on the library's own tree:
//! [`flatten_document`] lists the nodes in pre-order with the number of
//! children of each, and [`rebuild_document`] puts such a list back together.

use vstd::prelude::*;

use crate::document::NewNode;

verus! {

/// The shape of a document: each node with its children erased, and the
/// subtrees below it.
pub ghost struct DocTree {
    pub label: NewNode,
    pub kids: Seq<DocTree>,
}

/// A node with its child list erased; two nodes have the same label exactly
/// when they differ at most in their children.
pub open spec fn label(n: NewNode) -> NewNode {
    n.with_nodes(vstd::pervasive::arbitrary())
}

/// The children a node hands over, empty for a kind that hands none over.
pub open spec fn kids(n: NewNode) -> Seq<NewNode> {
    match n.child_slot() {
        Some(s) => s,
        None => Seq::empty(),
    }
}

/// The deep shape of a node.
pub open spec fn tree(n: NewNode) -> DocTree
    decreases n,
    via tree_decreases
{
    DocTree {
        label: label(n),
        kids: if kids(n).len() == 0 {
            Seq::empty()
        } else {
            trees(kids(n))
        },
    }
}

/// The deep shapes of a sequence of nodes.
pub open spec fn trees(s: Seq<NewNode>) -> Seq<DocTree>
    decreases s,
{
    if s.len() == 0 {
        Seq::empty()
    } else {
        trees(s.drop_last()).push(tree(s.last()))
    }
}

/// The pre-order listing of a tree: each label with its number of children.
pub open spec fn pre(t: DocTree) -> Seq<(NewNode, nat)>
    decreases t,
{
    seq![(t.label, t.kids.len())] + pre_all(t.kids)
}

/// The pre-order listings of a sequence of trees, one after the other.
pub open spec fn pre_all(s: Seq<DocTree>) -> Seq<(NewNode, nat)>
    decreases s,
{
    if s.len() == 0 {
        Seq::empty()
    } else {
        pre(s[0]) + pre_all(s.drop_first())
    }
}

/// Every node with children is of a kind that can hold them.
pub open spec fn well_formed(t: DocTree) -> bool
    decreases t,
{
    &&& (t.kids.len() != 0 ==> t.label.child_slot() is Some)
    &&& forall|i: int| 0 <= i < t.kids.len() ==> well_formed(#[trigger] t.kids[i])
}

/// Rebuilds trees from a pre-order listing, working from its last entry to
/// its first on a stack whose top is the last element. `None` when an entry
/// claims more children than the stack holds, or children for a kind that
/// cannot hold them.
pub open spec fn build(s: Seq<(NewNode, nat)>) -> Option<Seq<DocTree>>
    decreases s.len(),
{
    if s.len() == 0 {
        Some(Seq::empty())
    } else {
        match build(s.drop_first()) {
            None => None,
            Some(st) => {
                let l = s[0].0;
                let c = s[0].1;
                if c > st.len() || (c > 0 && l.child_slot() is None) {
                    None
                } else {
                    Some(step_stack(st, l, c))
                }
            },
        }
    }
}

/// The stack after an entry labelled `l` collects its `c` children from
/// the top: the top `c` trees, topmost first, become its subtrees.
pub open spec fn step_stack(st: Seq<DocTree>, l: NewNode, c: nat) -> Seq<DocTree> {
    st.subrange(0, st.len() - c).push(
        DocTree { label: l, kids: st.subrange(st.len() - c, st.len() as int).reverse() },
    )
}

/// One entry of a pre-order listing: a node whose children were taken out,
/// and how many there were.
#[derive(Debug)]
pub struct FlatNode {
    pub node: NewNode,
    pub child_count: usize,
}

/// The labels and child counts of a listing.
pub open spec fn flat_view(s: Seq<FlatNode>) -> Seq<(NewNode, nat)> {
    Seq::new(s.len(), |i: int| (label(s[i].node), s[i].child_count as nat))
}

#[via_fn]
proof fn tree_decreases(n: NewNode) {
    broadcast use vstd::std_specs::vec::axiom_vec_decreases_to_view;

    match n {
        NewNode::Document(x) => {
            assert forall|i: int| 0 <= i < kids(n).len() implies decreases_to!(n => kids(n)[i]) by {
                assert(decreases_to!(n => x));
                assert(decreases_to!(x => x.nodes));
                assert(decreases_to!(x.nodes => x.nodes@));
                assert(decreases_to!(x.nodes@ => x.nodes@[i]));
            }
        },
        NewNode::BlockQuote(x) => {
            assert forall|i: int| 0 <= i < kids(n).len() implies decreases_to!(n => kids(n)[i]) by {
                assert(decreases_to!(n => x));
                assert(decreases_to!(x => x.nodes));
                assert(decreases_to!(x.nodes => x.nodes@));
                assert(decreases_to!(x.nodes@ => x.nodes@[i]));
            }
        },
        NewNode::List(x) => {
            assert forall|i: int| 0 <= i < kids(n).len() implies decreases_to!(n => kids(n)[i]) by {
                assert(decreases_to!(n => x));
                assert(decreases_to!(x => x.nodes));
                assert(decreases_to!(x.nodes => x.nodes@));
                assert(decreases_to!(x.nodes@ => x.nodes@[i]));
            }
        },
        NewNode::ListItem(x) => {
            assert forall|i: int| 0 <= i < kids(n).len() implies decreases_to!(n => kids(n)[i]) by {
                assert(decreases_to!(n => x));
                assert(decreases_to!(x => x.nodes));
                assert(decreases_to!(x.nodes => x.nodes@));
                assert(decreases_to!(x.nodes@ => x.nodes@[i]));
            }
        },
        NewNode::DescriptionList(x) => {
            assert forall|i: int| 0 <= i < kids(n).len() implies decreases_to!(n => kids(n)[i]) by {
                assert(decreases_to!(n => x));
                assert(decreases_to!(x => x.nodes));
                assert(decreases_to!(x.nodes => x.nodes@));
                assert(decreases_to!(x.nodes@ => x.nodes@[i]));
            }
        },
        NewNode::DescriptionItem(x) => {
            assert forall|i: int| 0 <= i < kids(n).len() implies decreases_to!(n => kids(n)[i]) by {
                assert(decreases_to!(n => x));
                assert(decreases_to!(x => x.nodes));
                assert(decreases_to!(x.nodes => x.nodes@));
                assert(decreases_to!(x.nodes@ => x.nodes@[i]));
            }
        },
        NewNode::DescriptionTerm(x) => {
            assert forall|i: int| 0 <= i < kids(n).len() implies decreases_to!(n => kids(n)[i]) by {
                assert(decreases_to!(n => x));
                assert(decreases_to!(x => x.nodes));
                assert(decreases_to!(x.nodes => x.nodes@));
                assert(decreases_to!(x.nodes@ => x.nodes@[i]));
            }
        },
        NewNode::DescriptionDetails(x) => {
            assert forall|i: int| 0 <= i < kids(n).len() implies decreases_to!(n => kids(n)[i]) by {
                assert(decreases_to!(n => x));
                assert(decreases_to!(x => x.nodes));
                assert(decreases_to!(x.nodes => x.nodes@));
                assert(decreases_to!(x.nodes@ => x.nodes@[i]));
            }
        },
        NewNode::CodeBlock(x) => {
            assert forall|i: int| 0 <= i < kids(n).len() implies decreases_to!(n => kids(n)[i]) by {
                assert(decreases_to!(n => x));
                assert(decreases_to!(x => x.nodes));
                assert(decreases_to!(x.nodes => x.nodes@));
                assert(decreases_to!(x.nodes@ => x.nodes@[i]));
            }
        },
        NewNode::HtmlBlock(x) => {
            assert forall|i: int| 0 <= i < kids(n).len() implies decreases_to!(n => kids(n)[i]) by {
                assert(decreases_to!(n => x));
                assert(decreases_to!(x => x.nodes));
                assert(decreases_to!(x.nodes => x.nodes@));
                assert(decreases_to!(x.nodes@ => x.nodes@[i]));
            }
        },
        NewNode::Paragraph(x) => {
            assert forall|i: int| 0 <= i < kids(n).len() implies decreases_to!(n => kids(n)[i]) by {
                assert(decreases_to!(n => x));
                assert(decreases_to!(x => x.nodes));
                assert(decreases_to!(x.nodes => x.nodes@));
                assert(decreases_to!(x.nodes@ => x.nodes@[i]));
            }
        },
        NewNode::Heading(x) => {
            assert forall|i: int| 0 <= i < kids(n).len() implies decreases_to!(n => kids(n)[i]) by {
                assert(decreases_to!(n => x));
                assert(decreases_to!(x => x.nodes));
                assert(decreases_to!(x.nodes => x.nodes@));
                assert(decreases_to!(x.nodes@ => x.nodes@[i]));
            }
        },
        NewNode::FootnoteDefinition(x) => {
            assert forall|i: int| 0 <= i < kids(n).len() implies decreases_to!(n => kids(n)[i]) by {
                assert(decreases_to!(n => x));
                assert(decreases_to!(x => x.nodes));
                assert(decreases_to!(x.nodes => x.nodes@));
                assert(decreases_to!(x.nodes@ => x.nodes@[i]));
            }
        },
        NewNode::Table(x) => {
            assert forall|i: int| 0 <= i < kids(n).len() implies decreases_to!(n => kids(n)[i]) by {
                assert(decreases_to!(n => x));
                assert(decreases_to!(x => x.nodes));
                assert(decreases_to!(x.nodes => x.nodes@));
                assert(decreases_to!(x.nodes@ => x.nodes@[i]));
            }
        },
        NewNode::TableRow(x) => {
            assert forall|i: int| 0 <= i < kids(n).len() implies decreases_to!(n => kids(n)[i]) by {
                assert(decreases_to!(n => x));
                assert(decreases_to!(x => x.nodes));
                assert(decreases_to!(x.nodes => x.nodes@));
                assert(decreases_to!(x.nodes@ => x.nodes@[i]));
            }
        },
        NewNode::TableCell(x) => {
            assert forall|i: int| 0 <= i < kids(n).len() implies decreases_to!(n => kids(n)[i]) by {
                assert(decreases_to!(n => x));
                assert(decreases_to!(x => x.nodes));
                assert(decreases_to!(x.nodes => x.nodes@));
                assert(decreases_to!(x.nodes@ => x.nodes@[i]));
            }
        },
        NewNode::TaskItem(x) => {
            assert forall|i: int| 0 <= i < kids(n).len() implies decreases_to!(n => kids(n)[i]) by {
                assert(decreases_to!(n => x));
                assert(decreases_to!(x => x.nodes));
                assert(decreases_to!(x.nodes => x.nodes@));
                assert(decreases_to!(x.nodes@ => x.nodes@[i]));
            }
        },
        NewNode::Emph(x) => {
            assert forall|i: int| 0 <= i < kids(n).len() implies decreases_to!(n => kids(n)[i]) by {
                assert(decreases_to!(n => x));
                assert(decreases_to!(x => x.nodes));
                assert(decreases_to!(x.nodes => x.nodes@));
                assert(decreases_to!(x.nodes@ => x.nodes@[i]));
            }
        },
        NewNode::Strong(x) => {
            assert forall|i: int| 0 <= i < kids(n).len() implies decreases_to!(n => kids(n)[i]) by {
                assert(decreases_to!(n => x));
                assert(decreases_to!(x => x.nodes));
                assert(decreases_to!(x.nodes => x.nodes@));
                assert(decreases_to!(x.nodes@ => x.nodes@[i]));
            }
        },
        NewNode::Strikethrough(x) => {
            assert forall|i: int| 0 <= i < kids(n).len() implies decreases_to!(n => kids(n)[i]) by {
                assert(decreases_to!(n => x));
                assert(decreases_to!(x => x.nodes));
                assert(decreases_to!(x.nodes => x.nodes@));
                assert(decreases_to!(x.nodes@ => x.nodes@[i]));
            }
        },
        NewNode::Highlight(x) => {
            assert forall|i: int| 0 <= i < kids(n).len() implies decreases_to!(n => kids(n)[i]) by {
                assert(decreases_to!(n => x));
                assert(decreases_to!(x => x.nodes));
                assert(decreases_to!(x.nodes => x.nodes@));
                assert(decreases_to!(x.nodes@ => x.nodes@[i]));
            }
        },
        NewNode::Insert(x) => {
            assert forall|i: int| 0 <= i < kids(n).len() implies decreases_to!(n => kids(n)[i]) by {
                assert(decreases_to!(n => x));
                assert(decreases_to!(x => x.nodes));
                assert(decreases_to!(x.nodes => x.nodes@));
                assert(decreases_to!(x.nodes@ => x.nodes@[i]));
            }
        },
        NewNode::Superscript(x) => {
            assert forall|i: int| 0 <= i < kids(n).len() implies decreases_to!(n => kids(n)[i]) by {
                assert(decreases_to!(n => x));
                assert(decreases_to!(x => x.nodes));
                assert(decreases_to!(x.nodes => x.nodes@));
                assert(decreases_to!(x.nodes@ => x.nodes@[i]));
            }
        },
        NewNode::Link(x) => {
            assert forall|i: int| 0 <= i < kids(n).len() implies decreases_to!(n => kids(n)[i]) by {
                assert(decreases_to!(n => x));
                assert(decreases_to!(x => x.nodes));
                assert(decreases_to!(x.nodes => x.nodes@));
                assert(decreases_to!(x.nodes@ => x.nodes@[i]));
            }
        },
        NewNode::Image(x) => {
            assert forall|i: int| 0 <= i < kids(n).len() implies decreases_to!(n => kids(n)[i]) by {
                assert(decreases_to!(n => x));
                assert(decreases_to!(x => x.nodes));
                assert(decreases_to!(x.nodes => x.nodes@));
                assert(decreases_to!(x.nodes@ => x.nodes@[i]));
            }
        },
        NewNode::MultilineBlockQuote(x) => {
            assert forall|i: int| 0 <= i < kids(n).len() implies decreases_to!(n => kids(n)[i]) by {
                assert(decreases_to!(n => x));
                assert(decreases_to!(x => x.nodes));
                assert(decreases_to!(x.nodes => x.nodes@));
                assert(decreases_to!(x.nodes@ => x.nodes@[i]));
            }
        },
        NewNode::WikiLink(x) => {
            assert forall|i: int| 0 <= i < kids(n).len() implies decreases_to!(n => kids(n)[i]) by {
                assert(decreases_to!(n => x));
                assert(decreases_to!(x => x.nodes));
                assert(decreases_to!(x.nodes => x.nodes@));
                assert(decreases_to!(x.nodes@ => x.nodes@[i]));
            }
        },
        NewNode::Underline(x) => {
            assert forall|i: int| 0 <= i < kids(n).len() implies decreases_to!(n => kids(n)[i]) by {
                assert(decreases_to!(n => x));
                assert(decreases_to!(x => x.nodes));
                assert(decreases_to!(x.nodes => x.nodes@));
                assert(decreases_to!(x.nodes@ => x.nodes@[i]));
            }
        },
        NewNode::Subscript(x) => {
            assert forall|i: int| 0 <= i < kids(n).len() implies decreases_to!(n => kids(n)[i]) by {
                assert(decreases_to!(n => x));
                assert(decreases_to!(x => x.nodes));
                assert(decreases_to!(x.nodes => x.nodes@));
                assert(decreases_to!(x.nodes@ => x.nodes@[i]));
            }
        },
        NewNode::SpoileredText(x) => {
            assert forall|i: int| 0 <= i < kids(n).len() implies decreases_to!(n => kids(n)[i]) by {
                assert(decreases_to!(n => x));
                assert(decreases_to!(x => x.nodes));
                assert(decreases_to!(x.nodes => x.nodes@));
                assert(decreases_to!(x.nodes@ => x.nodes@[i]));
            }
        },
        NewNode::Subtext(x) => {
            assert forall|i: int| 0 <= i < kids(n).len() implies decreases_to!(n => kids(n)[i]) by {
                assert(decreases_to!(n => x));
                assert(decreases_to!(x => x.nodes));
                assert(decreases_to!(x.nodes => x.nodes@));
                assert(decreases_to!(x.nodes@ => x.nodes@[i]));
            }
        },
        NewNode::EscapedTag(x) => {
            assert forall|i: int| 0 <= i < kids(n).len() implies decreases_to!(n => kids(n)[i]) by {
                assert(decreases_to!(n => x));
                assert(decreases_to!(x => x.nodes));
                assert(decreases_to!(x.nodes => x.nodes@));
                assert(decreases_to!(x.nodes@ => x.nodes@[i]));
            }
        },
        NewNode::Alert(x) => {
            assert forall|i: int| 0 <= i < kids(n).len() implies decreases_to!(n => kids(n)[i]) by {
                assert(decreases_to!(n => x));
                assert(decreases_to!(x => x.nodes));
                assert(decreases_to!(x.nodes => x.nodes@));
                assert(decreases_to!(x.nodes@ => x.nodes@[i]));
            }
        },
        NewNode::HeexBlock(x) => {
            assert forall|i: int| 0 <= i < kids(n).len() implies decreases_to!(n => kids(n)[i]) by {
                assert(decreases_to!(n => x));
                assert(decreases_to!(x => x.nodes));
                assert(decreases_to!(x.nodes => x.nodes@));
                assert(decreases_to!(x.nodes@ => x.nodes@[i]));
            }
        },
        NewNode::BlockDirective(x) => {
            assert forall|i: int| 0 <= i < kids(n).len() implies decreases_to!(n => kids(n)[i]) by {
                assert(decreases_to!(n => x));
                assert(decreases_to!(x => x.nodes));
                assert(decreases_to!(x.nodes => x.nodes@));
                assert(decreases_to!(x.nodes@ => x.nodes@[i]));
            }
        },
        _ => {},
    }
}

/// A node's children, when it has any, are structurally smaller than the node.
pub proof fn lemma_kids_decrease(n: NewNode)
    ensures
        kids(n).len() != 0 ==> decreases_to!(n => kids(n)),
{
    broadcast use vstd::std_specs::vec::axiom_vec_decreases_to_view;

    match n {
        NewNode::Document(x) => {
            if kids(n).len() != 0 {
                assert(decreases_to!(n => x));
                assert(decreases_to!(x => x.nodes));
                assert(decreases_to!(x.nodes => x.nodes@));
            }
        },
        NewNode::BlockQuote(x) => {
            if kids(n).len() != 0 {
                assert(decreases_to!(n => x));
                assert(decreases_to!(x => x.nodes));
                assert(decreases_to!(x.nodes => x.nodes@));
            }
        },
        NewNode::List(x) => {
            if kids(n).len() != 0 {
                assert(decreases_to!(n => x));
                assert(decreases_to!(x => x.nodes));
                assert(decreases_to!(x.nodes => x.nodes@));
            }
        },
        NewNode::ListItem(x) => {
            if kids(n).len() != 0 {
                assert(decreases_to!(n => x));
                assert(decreases_to!(x => x.nodes));
                assert(decreases_to!(x.nodes => x.nodes@));
            }
        },
        NewNode::DescriptionList(x) => {
            if kids(n).len() != 0 {
                assert(decreases_to!(n => x));
                assert(decreases_to!(x => x.nodes));
                assert(decreases_to!(x.nodes => x.nodes@));
            }
        },
        NewNode::DescriptionItem(x) => {
            if kids(n).len() != 0 {
                assert(decreases_to!(n => x));
                assert(decreases_to!(x => x.nodes));
                assert(decreases_to!(x.nodes => x.nodes@));
            }
        },
        NewNode::DescriptionTerm(x) => {
            if kids(n).len() != 0 {
                assert(decreases_to!(n => x));
                assert(decreases_to!(x => x.nodes));
                assert(decreases_to!(x.nodes => x.nodes@));
            }
        },
        NewNode::DescriptionDetails(x) => {
            if kids(n).len() != 0 {
                assert(decreases_to!(n => x));
                assert(decreases_to!(x => x.nodes));
                assert(decreases_to!(x.nodes => x.nodes@));
            }
        },
        NewNode::CodeBlock(x) => {
            if kids(n).len() != 0 {
                assert(decreases_to!(n => x));
                assert(decreases_to!(x => x.nodes));
                assert(decreases_to!(x.nodes => x.nodes@));
            }
        },
        NewNode::HtmlBlock(x) => {
            if kids(n).len() != 0 {
                assert(decreases_to!(n => x));
                assert(decreases_to!(x => x.nodes));
                assert(decreases_to!(x.nodes => x.nodes@));
            }
        },
        NewNode::Paragraph(x) => {
            if kids(n).len() != 0 {
                assert(decreases_to!(n => x));
                assert(decreases_to!(x => x.nodes));
                assert(decreases_to!(x.nodes => x.nodes@));
            }
        },
        NewNode::Heading(x) => {
            if kids(n).len() != 0 {
                assert(decreases_to!(n => x));
                assert(decreases_to!(x => x.nodes));
                assert(decreases_to!(x.nodes => x.nodes@));
            }
        },
        NewNode::FootnoteDefinition(x) => {
            if kids(n).len() != 0 {
                assert(decreases_to!(n => x));
                assert(decreases_to!(x => x.nodes));
                assert(decreases_to!(x.nodes => x.nodes@));
            }
        },
        NewNode::Table(x) => {
            if kids(n).len() != 0 {
                assert(decreases_to!(n => x));
                assert(decreases_to!(x => x.nodes));
                assert(decreases_to!(x.nodes => x.nodes@));
            }
        },
        NewNode::TableRow(x) => {
            if kids(n).len() != 0 {
                assert(decreases_to!(n => x));
                assert(decreases_to!(x => x.nodes));
                assert(decreases_to!(x.nodes => x.nodes@));
            }
        },
        NewNode::TableCell(x) => {
            if kids(n).len() != 0 {
                assert(decreases_to!(n => x));
                assert(decreases_to!(x => x.nodes));
                assert(decreases_to!(x.nodes => x.nodes@));
            }
        },
        NewNode::TaskItem(x) => {
            if kids(n).len() != 0 {
                assert(decreases_to!(n => x));
                assert(decreases_to!(x => x.nodes));
                assert(decreases_to!(x.nodes => x.nodes@));
            }
        },
        NewNode::Emph(x) => {
            if kids(n).len() != 0 {
                assert(decreases_to!(n => x));
                assert(decreases_to!(x => x.nodes));
                assert(decreases_to!(x.nodes => x.nodes@));
            }
        },
        NewNode::Strong(x) => {
            if kids(n).len() != 0 {
                assert(decreases_to!(n => x));
                assert(decreases_to!(x => x.nodes));
                assert(decreases_to!(x.nodes => x.nodes@));
            }
        },
        NewNode::Strikethrough(x) => {
            if kids(n).len() != 0 {
                assert(decreases_to!(n => x));
                assert(decreases_to!(x => x.nodes));
                assert(decreases_to!(x.nodes => x.nodes@));
            }
        },
        NewNode::Highlight(x) => {
            if kids(n).len() != 0 {
                assert(decreases_to!(n => x));
                assert(decreases_to!(x => x.nodes));
                assert(decreases_to!(x.nodes => x.nodes@));
            }
        },
        NewNode::Insert(x) => {
            if kids(n).len() != 0 {
                assert(decreases_to!(n => x));
                assert(decreases_to!(x => x.nodes));
                assert(decreases_to!(x.nodes => x.nodes@));
            }
        },
        NewNode::Superscript(x) => {
            if kids(n).len() != 0 {
                assert(decreases_to!(n => x));
                assert(decreases_to!(x => x.nodes));
                assert(decreases_to!(x.nodes => x.nodes@));
            }
        },
        NewNode::Link(x) => {
            if kids(n).len() != 0 {
                assert(decreases_to!(n => x));
                assert(decreases_to!(x => x.nodes));
                assert(decreases_to!(x.nodes => x.nodes@));
            }
        },
        NewNode::Image(x) => {
            if kids(n).len() != 0 {
                assert(decreases_to!(n => x));
                assert(decreases_to!(x => x.nodes));
                assert(decreases_to!(x.nodes => x.nodes@));
            }
        },
        NewNode::MultilineBlockQuote(x) => {
            if kids(n).len() != 0 {
                assert(decreases_to!(n => x));
                assert(decreases_to!(x => x.nodes));
                assert(decreases_to!(x.nodes => x.nodes@));
            }
        },
        NewNode::WikiLink(x) => {
            if kids(n).len() != 0 {
                assert(decreases_to!(n => x));
                assert(decreases_to!(x => x.nodes));
                assert(decreases_to!(x.nodes => x.nodes@));
            }
        },
        NewNode::Underline(x) => {
            if kids(n).len() != 0 {
                assert(decreases_to!(n => x));
                assert(decreases_to!(x => x.nodes));
                assert(decreases_to!(x.nodes => x.nodes@));
            }
        },
        NewNode::Subscript(x) => {
            if kids(n).len() != 0 {
                assert(decreases_to!(n => x));
                assert(decreases_to!(x => x.nodes));
                assert(decreases_to!(x.nodes => x.nodes@));
            }
        },
        NewNode::SpoileredText(x) => {
            if kids(n).len() != 0 {
                assert(decreases_to!(n => x));
                assert(decreases_to!(x => x.nodes));
                assert(decreases_to!(x.nodes => x.nodes@));
            }
        },
        NewNode::Subtext(x) => {
            if kids(n).len() != 0 {
                assert(decreases_to!(n => x));
                assert(decreases_to!(x => x.nodes));
                assert(decreases_to!(x.nodes => x.nodes@));
            }
        },
        NewNode::EscapedTag(x) => {
            if kids(n).len() != 0 {
                assert(decreases_to!(n => x));
                assert(decreases_to!(x => x.nodes));
                assert(decreases_to!(x.nodes => x.nodes@));
            }
        },
        NewNode::Alert(x) => {
            if kids(n).len() != 0 {
                assert(decreases_to!(n => x));
                assert(decreases_to!(x => x.nodes));
                assert(decreases_to!(x.nodes => x.nodes@));
            }
        },
        NewNode::HeexBlock(x) => {
            if kids(n).len() != 0 {
                assert(decreases_to!(n => x));
                assert(decreases_to!(x => x.nodes));
                assert(decreases_to!(x.nodes => x.nodes@));
            }
        },
        NewNode::BlockDirective(x) => {
            if kids(n).len() != 0 {
                assert(decreases_to!(n => x));
                assert(decreases_to!(x => x.nodes));
                assert(decreases_to!(x.nodes => x.nodes@));
            }
        },
        _ => {},
    }
}


/// Lists a document in pre-order: each node with its children taken out,
/// and the number of children it had.
///
/// The walk keeps its own stack, so the depth of the document does not
/// matter.
pub fn flatten_document(root: NewNode) -> (flat: Vec<FlatNode>)
    ensures
        flat_view(flat@) == pre(tree(root)),
{
    let ghost total = pre(tree(root));
    let mut out: Vec<FlatNode> = Vec::new();
    let mut stack: Vec<NewNode> = Vec::new();
    stack.push(root);
    proof {
        lemma_trees(stack@);
        assert(trees(stack@).reverse() =~= seq![tree(root)]);
        lemma_pre_all_single(tree(root));
        assert(flat_view(out@) =~= Seq::<(NewNode, nat)>::empty());
        assert(flat_view(out@) + pre_all(trees(stack@).reverse()) =~= total);
    }
    while stack.len() > 0
        invariant
            flat_view(out@) + pre_all(trees(stack@).reverse()) == total,
        decreases total.len() - out@.len(),
    {
        let ghost before = stack@;
        let ghost out_before = out@;
        let mut node = stack.pop().unwrap();
        let ghost old_node = node;
        let ghost rest = stack@;
        proof {
            lemma_trees(before);
            lemma_trees(rest);
            assert(trees(before).reverse() =~= seq![tree(old_node)] + trees(rest).reverse());
            lemma_pre_all_append(seq![tree(old_node)], trees(rest).reverse());
            lemma_pre_all_single(tree(old_node));
            lemma_tree_kids(old_node);
            lemma_trees(kids(old_node));
            // total == out_before ++ [(label, n)] ++ pre_all(kid trees) ++ pre_all(rest trees)
            assert(pre(tree(old_node)) == seq![(label(old_node), kids(old_node).len())] + pre_all(trees(kids(old_node))));
        }
        let taken = node.take_children();
        let ghost shallow = node;
        let count: usize = match &taken {
            Some(v) => v.len(),
            None => 0,
        };
        proof {
            if taken is Some {
                lemma_label_with_nodes(shallow, taken->0);
            }
            assert(label(shallow) == label(old_node));
            assert(count as nat == kids(old_node).len());
        }
        out.push(FlatNode { node, child_count: count });
        proof {
            assert(flat_view(out@) =~= flat_view(out_before).push((label(old_node), kids(old_node).len())));
        }
        if let Some(mut children) = taken {
            let ghost all = children@;
            while children.len() > 0
                invariant
                    all == kids(old_node),
                    children@.len() <= all.len(),
                    children@ == all.subrange(0, children@.len() as int),
                    stack@ == rest + all.subrange(children@.len() as int, all.len() as int).reverse(),
                decreases children@.len(),
            {
                let ghost n_before = children@.len() as int;
                let ghost stack_before = stack@;
                let k = children.pop().unwrap();
                stack.push(k);
                proof {
                    let m = children@.len() as int;
                    assert(k == all[m]);
                    assert(children@ =~= all.subrange(0, m));
                    assert(all.subrange(m, all.len() as int).reverse() =~= all.subrange(n_before, all.len() as int).reverse().push(all[m]));
                    assert(stack@ =~= rest + all.subrange(m, all.len() as int).reverse());
                }
            }
            proof {
                assert(stack@ =~= rest + all.reverse());
            }
        } else {
            proof {
                assert(kids(old_node) =~= Seq::<NewNode>::empty());
                assert(stack@ =~= rest + kids(old_node).reverse());
            }
        }
        proof {
            let ks = kids(old_node);
            assert(stack@ == rest + ks.reverse());
            lemma_trees(stack@);
            lemma_trees(ks);
            assert(trees(stack@).reverse() =~= trees(ks) + trees(rest).reverse());
            lemma_pre_all_append(trees(ks), trees(rest).reverse());
            assert(flat_view(out@) + pre_all(trees(stack@).reverse()) =~= total);
        }
    }
    proof {
        lemma_trees(stack@);
        assert(trees(stack@).reverse() =~= Seq::<DocTree>::empty());
        assert(flat_view(out@) + pre_all(Seq::<DocTree>::empty()) =~= flat_view(out@));
    }
    out
}

/// Puts a pre-order listing back together: the inverse of
/// [`flatten_document`].
///
/// Entries are taken from the last to the first; each one collects its
/// children from the top of a stack of finished subtrees, and goes on the
/// stack itself. `None` when an entry asks for more children than are
/// finished, when it asks for children but cannot hold them, or when the
/// listing does not come to exactly one tree.
/// Finishes one entry of a listing: pops its `child_count` children from the
/// top of `stack`, topmost first, puts them into `node` and pushes the
/// result. `false`, with nothing done, when the stack is too short or the
/// node cannot hold the children.
fn attach_entry(node: NewNode, child_count: usize, stack: &mut Vec<NewNode>) -> (ok: bool)
    ensures
        ok == (child_count <= old(stack)@.len() && (child_count == 0 || node.child_slot() is Some)),
        ok ==> trees(final(stack)@) == step_stack(trees(old(stack)@), label(node), child_count as nat),
{
    if child_count > stack.len() {
        return false;
    }
    let holds = node.holds_children();
    if child_count > 0 && !holds {
        return false;
    }
    let mut node = node;
    let ghost orig = node;
    let ghost below = stack@;
    let mut children: Vec<NewNode> = Vec::new();
    let mut j: usize = 0;
    while j < child_count
        invariant
            j <= child_count <= below.len(),
            stack@ == below.subrange(0, below.len() - j),
            children@ == below.subrange(below.len() - j, below.len() as int).reverse(),
        decreases child_count - j,
    {
        let k = stack.pop().unwrap();
        children.push(k);
        j = j + 1;
        proof {
            assert(stack@ =~= below.subrange(0, below.len() - j));
            assert(children@ =~= below.subrange(below.len() - j, below.len() as int).reverse());
        }
    }
    let ghost kid_nodes = children@;
    let ghost kid_vec = children;
    if holds {
        node.put_children(children);
    }
    let ghost built = node;
    stack.push(node);
    proof {
        let c = child_count as int;
        let l = below.len() as int;
        let st = trees(below);
        lemma_trees(below);
        lemma_trees(stack@);
        lemma_trees(kid_nodes);
        lemma_tree_kids(built);
        if holds {
            lemma_with_nodes_twice(orig, kid_vec, vstd::pervasive::arbitrary());
            lemma_label_with_nodes(orig, kid_vec);
            assert(kids(built) == kid_nodes);
        } else {
            assert(built == orig);
            assert(kids(built) =~= Seq::<NewNode>::empty());
        }
        assert(stack@ =~= below.subrange(0, l - c).push(built));
        assert(trees(stack@) =~= st.subrange(0, l - c).push(tree(built)));
        assert(tree(built).kids =~= st.subrange(l - c, l).reverse());
        assert(tree(built).label == label(orig));
    }
    true
}

/// Puts a pre-order listing back together: the inverse of
/// [`flatten_document`].
///
/// Entries are taken from the last to the first; each one collects its
/// children from the top of a stack of finished subtrees, and goes on the
/// stack itself. `None` when an entry asks for more children than are
/// finished, when it asks for children but cannot hold them, or when the
/// listing does not come to exactly one tree.
pub fn rebuild_document(flat: Vec<FlatNode>) -> (root: Option<NewNode>)
    ensures
        root is Some <==> (build(flat_view(flat@)) matches Some(st) && st.len() == 1),
        root matches Some(r) ==> build(flat_view(flat@)) == Some(seq![tree(r)]),
{
    let ghost all = flat_view(flat@);
    let mut pending = flat;
    let mut stack: Vec<NewNode> = Vec::new();
    proof {
        assert(all.subrange(all.len() as int, all.len() as int) =~= Seq::<(NewNode, nat)>::empty());
        lemma_trees(stack@);
        assert(trees(stack@) =~= Seq::<DocTree>::empty());
    }
    while pending.len() > 0
        invariant
            all == flat_view(flat@),
            pending@.len() <= all.len(),
            flat_view(pending@) == all.subrange(0, pending@.len() as int),
            build(all.subrange(pending@.len() as int, all.len() as int)) == Some(trees(stack@)),
        decreases pending@.len(),
    {
        let ghost i = pending@.len() as int;
        let ghost old_pending = pending@;
        let ghost st = trees(stack@);
        let entry = pending.pop().unwrap();
        let ghost suffix = all.subrange(i - 1, all.len() as int);
        proof {
            assert(entry == old_pending[i - 1]);
            assert(flat_view(old_pending)[i - 1] == (label(entry.node), entry.child_count as nat));
            assert(pending@ =~= old_pending.subrange(0, i - 1));
            assert(flat_view(pending@) =~= all.subrange(0, i - 1));
            assert(suffix.drop_first() =~= all.subrange(i, all.len() as int));
            assert(suffix[0] == all[i - 1]);
            lemma_trees(stack@);
            lemma_label_with_nodes(entry.node, vstd::pervasive::arbitrary());
            lemma_build_prefix_none(all.subrange(0, i - 1), suffix);
            assert(all.subrange(0, i - 1) + suffix =~= all);
        }
        let FlatNode { node, child_count } = entry;
        let ok = attach_entry(node, child_count, &mut stack);
        if !ok {
            proof {
                assert(build(suffix) is None);
            }
            return None;
        }
        proof {
            assert(build(suffix) == Some(trees(stack@)));
        }
    }
    proof {
        assert(all.subrange(0, all.len() as int) =~= all);
        lemma_trees(stack@);
    }
    if stack.len() == 1 {
        let r = stack.pop();
        proof {
            lemma_trees(seq![r->0]);
            assert(trees(seq![r->0]) =~= seq![tree(r->0)]);
        }
        r
    } else {
        None
    }
}

/// A listing whose tail does not rebuild does not rebuild either.
pub proof fn lemma_build_prefix_none(p: Seq<(NewNode, nat)>, s: Seq<(NewNode, nat)>)
    ensures
        build(s) is None ==> build(p + s) is None,
    decreases p.len(),
{
    if p.len() != 0 {
        lemma_build_prefix_none(p.drop_first(), s);
        assert((p + s).drop_first() =~= p.drop_first() + s);
    } else {
        assert(p + s =~= s);
    }
}

/// The listing of a single tree.
pub proof fn lemma_pre_all_single(t: DocTree)
    ensures
        pre_all(seq![t]) == pre(t),
{
    let e = Seq::<DocTree>::empty();
    assert(pre_all(e) == Seq::<(NewNode, nat)>::empty());
    assert(seq![t].drop_first() =~= e);
    assert(seq![t][0] == t);
    assert(pre(t) + Seq::<(NewNode, nat)>::empty() =~= pre(t));
}

/// Replacing the child list twice is replacing it once.
pub proof fn lemma_with_nodes_twice(n: NewNode, a: Vec<NewNode>, b: Vec<NewNode>)
    ensures
        n.with_nodes(a).with_nodes(b) == n.with_nodes(b),
        n.with_nodes(a).child_slot() is Some <==> n.child_slot() is Some,
        n.child_slot() is Some ==> n.with_nodes(a).child_slot() == Some(a@),
{
}

/// The labels of a node and of the same node with another child list agree.
pub proof fn lemma_label_with_nodes(n: NewNode, a: Vec<NewNode>)
    ensures
        label(n.with_nodes(a)) == label(n),
        label(n).child_slot() is Some <==> n.child_slot() is Some,
{
    lemma_with_nodes_twice(n, a, vstd::pervasive::arbitrary());
    lemma_with_nodes_twice(n, vstd::pervasive::arbitrary(), a);
}

/// `trees` maps `tree` over a sequence.
pub proof fn lemma_trees(s: Seq<NewNode>)
    ensures
        trees(s).len() == s.len(),
        forall|i: int| 0 <= i < s.len() ==> #[trigger] trees(s)[i] == tree(s[i]),
    decreases s.len(),
{
    if s.len() != 0 {
        lemma_trees(s.drop_last());
    }
}

/// The kids of a node's shape are the shapes of its kids.
pub proof fn lemma_tree_kids(n: NewNode)
    ensures
        tree(n).label == label(n),
        tree(n).kids == trees(kids(n)),
{
    if kids(n).len() == 0 {
        lemma_trees(kids(n));
        assert(trees(kids(n)) =~= Seq::<DocTree>::empty());
    }
}

/// The listing of two sequences of trees is the listing of the first
/// followed by that of the second.
pub proof fn lemma_pre_all_append(a: Seq<DocTree>, b: Seq<DocTree>)
    ensures
        pre_all(a + b) == pre_all(a) + pre_all(b),
    decreases a.len(),
{
    if a.len() == 0 {
        assert(a + b =~= b);
    } else {
        lemma_pre_all_append(a.drop_first(), b);
        assert((a + b).drop_first() =~= a.drop_first() + b);
    }
}

/// The shape of any node is well formed.
pub proof fn lemma_tree_well_formed(n: NewNode)
    ensures
        well_formed(tree(n)),
    decreases n,
{
    lemma_tree_kids(n);
    lemma_trees(kids(n));
    lemma_label_with_nodes(n, vstd::pervasive::arbitrary());
    lemma_kids_decrease(n);
    assert forall|i: int| 0 <= i < tree(n).kids.len() implies well_formed(#[trigger] tree(n).kids[i]) by {
        assert(decreases_to!(kids(n) => kids(n)[i]));
        lemma_tree_well_formed(kids(n)[i]);
    }
}

/// Rebuilding the listing of a well-formed tree followed by anything that
/// rebuilds pushes that tree on top of what the rest rebuilds to.
pub proof fn lemma_build_pre(t: DocTree, rest: Seq<(NewNode, nat)>)
    requires
        well_formed(t),
        build(rest) is Some,
    ensures
        build(pre(t) + rest) == Some(build(rest)->0.push(t)),
    decreases t,
{
    lemma_build_pre_all(t.kids, rest);
    let inner = pre_all(t.kids) + rest;
    let st = build(inner)->0;
    let c = t.kids.len();
    assert((pre(t) + rest).drop_first() =~= inner);
    assert(st.subrange(0, st.len() - c) =~= build(rest)->0);
    assert(st.subrange(st.len() - c, st.len() as int).reverse() =~= t.kids);
}

/// Rebuilding the listings of well-formed trees followed by anything that
/// rebuilds pushes those trees, last first, on top of what the rest
/// rebuilds to.
pub proof fn lemma_build_pre_all(s: Seq<DocTree>, rest: Seq<(NewNode, nat)>)
    requires
        forall|i: int| 0 <= i < s.len() ==> well_formed(#[trigger] s[i]),
        build(rest) is Some,
    ensures
        build(pre_all(s) + rest) == Some(build(rest)->0 + s.reverse()),
    decreases s,
{
    if s.len() == 0 {
        assert(pre_all(s) + rest =~= rest);
        assert(build(rest)->0 + s.reverse() =~= build(rest)->0);
    } else {
        lemma_build_pre_all(s.drop_first(), rest);
        let rest2 = pre_all(s.drop_first()) + rest;
        lemma_build_pre(s[0], rest2);
        assert(pre_all(s) + rest =~= pre(s[0]) + rest2);
        assert(build(rest)->0 + s.drop_first().reverse() + seq![s[0]] =~= build(rest)->0 + s.reverse());
        assert((build(rest)->0 + s.drop_first().reverse()).push(s[0]) =~= build(rest)->0 + s.drop_first().reverse() + seq![s[0]]);
    }
}

/// Rebuilding the listing of a document gives back the document: a
/// listing that [`flatten_document`] produced always rebuilds, and to a tree
/// of the same shape as the one it was taken from.
pub proof fn law_rebuild_after_flatten(root: NewNode, flat: Seq<FlatNode>)
    requires
        flat_view(flat) == pre(tree(root)),
    ensures
        build(flat_view(flat)) == Some(seq![tree(root)]),
{
    lemma_tree_well_formed(root);
    lemma_build_pre(tree(root), Seq::empty());
    assert(pre(tree(root)) + Seq::<(NewNode, nat)>::empty() =~= pre(tree(root)));
    assert(Seq::<DocTree>::empty().push(tree(root)) =~= seq![tree(root)]);
}

} // verus!
