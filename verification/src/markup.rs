//! The syntax tree of a message written in markdown.

use vstd::prelude::*;
use markdown::mdast::Node;
use crate::text::opt_text;

verus! {

/// A syntax tree as plain mathematical data.
pub enum MdTree {
    /// A document or a list item: its children in a row.
    Group(Seq<MdTree>),
    /// A paragraph.
    Paragraph(Seq<MdTree>),
    Text(Seq<char>),
    Strong(Seq<MdTree>),
    Emphasis(Seq<MdTree>),
    InlineCode(Seq<char>),
    Code { value: Seq<char>, lang: Option<Seq<char>> },
    Heading { depth: u8, children: Seq<MdTree> },
    List { ordered: bool, start: Option<u32>, children: Seq<MdTree> },
    Link { url: Seq<char>, children: Seq<MdTree> },
    Blockquote(Seq<MdTree>),
    Break,
    /// A node of any other kind, kept as the text that describes it.
    Unknown(Seq<char>),
}

/// A syntax tree.
#[derive(Debug)]
pub enum MdNode {
    /// A document or a list item: its children in a row.
    Group(Vec<MdNode>),
    /// A paragraph.
    Paragraph(Vec<MdNode>),
    Text(String),
    Strong(Vec<MdNode>),
    Emphasis(Vec<MdNode>),
    InlineCode(String),
    Code { value: String, lang: Option<String> },
    Heading { depth: u8, children: Vec<MdNode> },
    List { ordered: bool, start: Option<u32>, children: Vec<MdNode> },
    Link { url: String, children: Vec<MdNode> },
    Blockquote(Vec<MdNode>),
    Break,
    /// A node of any other kind, kept as the text that describes it.
    Unknown(String),
}

/// The variant of a node, without what it holds.
#[derive(Debug, Clone, Copy, PartialEq, Eq, Structural)]
pub enum NodeKind {
    Group,
    Paragraph,
    Text,
    Strong,
    Emphasis,
    InlineCode,
    Code,
    Heading,
    List,
    Link,
    Blockquote,
    Break,
    Unknown,
}

impl MdTree {
    /// The variant of this tree.
    pub open spec fn kind(self) -> NodeKind {
        match self {
            MdTree::Group(_) => NodeKind::Group,
            MdTree::Paragraph(_) => NodeKind::Paragraph,
            MdTree::Text(_) => NodeKind::Text,
            MdTree::Strong(_) => NodeKind::Strong,
            MdTree::Emphasis(_) => NodeKind::Emphasis,
            MdTree::InlineCode(_) => NodeKind::InlineCode,
            MdTree::Code { .. } => NodeKind::Code,
            MdTree::Heading { .. } => NodeKind::Heading,
            MdTree::List { .. } => NodeKind::List,
            MdTree::Link { .. } => NodeKind::Link,
            MdTree::Blockquote(_) => NodeKind::Blockquote,
            MdTree::Break => NodeKind::Break,
            MdTree::Unknown(_) => NodeKind::Unknown,
        }
    }

    /// The children of this tree; none where the variant has none.
    pub open spec fn children(self) -> Seq<MdTree> {
        match self {
            MdTree::Group(c) => c,
            MdTree::Paragraph(c) => c,
            MdTree::Strong(c) => c,
            MdTree::Emphasis(c) => c,
            MdTree::Heading { children, .. } => children,
            MdTree::List { children, .. } => children,
            MdTree::Link { children, .. } => children,
            MdTree::Blockquote(c) => c,
            _ => Seq::empty(),
        }
    }

    /// True where the variant holds children.
    pub open spec fn is_parent(self) -> bool {
        match self {
            MdTree::Group(_) => true,
            MdTree::Paragraph(_) => true,
            MdTree::Strong(_) => true,
            MdTree::Emphasis(_) => true,
            MdTree::Heading { .. } => true,
            MdTree::List { .. } => true,
            MdTree::Link { .. } => true,
            MdTree::Blockquote(_) => true,
            _ => false,
        }
    }
}

/// The views of a list of nodes.
pub open spec fn tree_views(nodes: Seq<MdNode>) -> Seq<MdTree>
    decreases nodes,
{
    Seq::new(
        nodes.len(),
        |i: int|
            if 0 <= i < nodes.len() {
                nodes[i]@
            } else {
                MdTree::Break
            },
    )
}

impl View for MdNode {
    type V = MdTree;

    open spec fn view(&self) -> MdTree
        decreases self,
    {
        match self {
            MdNode::Group(c) => MdTree::Group(tree_views(c@)),
            MdNode::Paragraph(c) => MdTree::Paragraph(tree_views(c@)),
            MdNode::Text(v) => MdTree::Text(v@),
            MdNode::Strong(c) => MdTree::Strong(tree_views(c@)),
            MdNode::Emphasis(c) => MdTree::Emphasis(tree_views(c@)),
            MdNode::InlineCode(v) => MdTree::InlineCode(v@),
            MdNode::Code { value, lang } => MdTree::Code { value: value@, lang: opt_text(*lang) },
            MdNode::Heading { depth, children } => MdTree::Heading {
                depth: *depth,
                children: tree_views(children@),
            },
            MdNode::List { ordered, start, children } => MdTree::List {
                ordered: *ordered,
                start: *start,
                children: tree_views(children@),
            },
            MdNode::Link { url, children } => MdTree::Link {
                url: url@,
                children: tree_views(children@),
            },
            MdNode::Blockquote(c) => MdTree::Blockquote(tree_views(c@)),
            MdNode::Break => MdTree::Break,
            MdNode::Unknown(v) => MdTree::Unknown(v@),
        }
    }
}

/// `markdown::mdast::Node`, the node of the parser's own tree. Proofs see
/// nothing inside it; what it holds is read through the functions below.
#[verifier::external_type_specification]
#[verifier::external_body]
pub struct ExNode(markdown::mdast::Node);

/// What a node of the parser holds, as a tree: its variant, its children
/// in their order, and the fields that the variant has.
pub uninterp spec fn tree_of(node: Node) -> MdTree;

/// The tree that the parser makes of a text, or the message with which it
/// refuses the text.
pub uninterp spec fn markdown_tree(text: Seq<char>) -> Result<MdTree, Seq<char>>;

/// `markdown::mdast::Node::children`: where the node is of a variant that
/// holds children, they come back, in their order.
pub assume_specification[ Node::children ](node: &Node) -> (out: Option<&Vec<Node>>)
    ensures
        tree_of(*node).is_parent() ==> out is Some && out->0@.len() == tree_of(
            *node,
        ).children().len(),
        tree_of(*node).is_parent() ==> forall|i: int|
            0 <= i < out->0@.len() ==> tree_of(#[trigger] out->0@[i]) == tree_of(
                *node,
            ).children()[i],
;

/// Tells the variants of `markdown::mdast::Node` apart: a root and a list
/// item count as a group, and every variant that is not listed as
/// unknown.
#[verifier::external_body]
fn node_kind(node: &Node) -> (kind: NodeKind)
    ensures
        kind == tree_of(*node).kind(),
{
    match node {
        Node::Root(_) | Node::ListItem(_) => NodeKind::Group,
        Node::Paragraph(_) => NodeKind::Paragraph,
        Node::Text(_) => NodeKind::Text,
        Node::Strong(_) => NodeKind::Strong,
        Node::Emphasis(_) => NodeKind::Emphasis,
        Node::InlineCode(_) => NodeKind::InlineCode,
        Node::Code(_) => NodeKind::Code,
        Node::Heading(_) => NodeKind::Heading,
        Node::List(_) => NodeKind::List,
        Node::Link(_) => NodeKind::Link,
        Node::Blockquote(_) => NodeKind::Blockquote,
        Node::Break(_) => NodeKind::Break,
        _ => NodeKind::Unknown,
    }
}

/// Reads the field `value` of a text, an inline code or a code block of
/// `markdown::mdast`.
#[verifier::external_body]
fn node_value(node: &Node) -> (out: String)
    ensures
        tree_of(*node) matches MdTree::Text(v) ==> out@ == v,
        tree_of(*node) matches MdTree::InlineCode(v) ==> out@ == v,
        tree_of(*node) matches MdTree::Code { value, .. } ==> out@ == value,
{
    match node {
        Node::Text(x) => x.value.clone(),
        Node::InlineCode(x) => x.value.clone(),
        Node::Code(x) => x.value.clone(),
        _ => String::new(),
    }
}

/// Reads the field `lang` of `markdown::mdast::Code`.
#[verifier::external_body]
fn code_language(node: &Node) -> (out: Option<String>)
    ensures
        tree_of(*node) matches MdTree::Code { lang, .. } ==> opt_text(out) == lang,
{
    match node {
        Node::Code(x) => x.lang.clone(),
        _ => None,
    }
}

/// Reads the field `depth` of `markdown::mdast::Heading`.
#[verifier::external_body]
fn heading_depth(node: &Node) -> (out: u8)
    ensures
        tree_of(*node) matches MdTree::Heading { depth, .. } ==> out == depth,
{
    match node {
        Node::Heading(x) => x.depth,
        _ => 0,
    }
}

/// Reads the fields `ordered` and `start` of `markdown::mdast::List`.
#[verifier::external_body]
fn list_numbering(node: &Node) -> (out: (bool, Option<u32>))
    ensures
        tree_of(*node) matches MdTree::List { ordered, start, .. } ==> out == (ordered, start),
{
    match node {
        Node::List(x) => (x.ordered, x.start),
        _ => (false, None),
    }
}

/// Reads the field `url` of `markdown::mdast::Link`.
#[verifier::external_body]
fn link_url(node: &Node) -> (out: String)
    ensures
        tree_of(*node) matches MdTree::Link { url, .. } ==> out@ == url,
{
    match node {
        Node::Link(x) => x.url.clone(),
        _ => String::new(),
    }
}

/// Formats a `markdown::mdast::Node` with its `Debug` impl, in the
/// alternate form: the text that stands for a node of unknown kind.
#[verifier::external_body]
fn node_description(node: &Node) -> (out: String)
    ensures
        tree_of(*node) matches MdTree::Unknown(text) ==> out@ == text,
{
    format!("{node:#?}")
}

/// What came back from the parser, as plain data.
pub open spec fn parse_view(out: Result<Node, String>) -> Result<MdTree, Seq<char>> {
    match out {
        Ok(node) => Ok(tree_of(node)),
        Err(reason) => Err(reason@),
    }
}

/// Calls `markdown::to_mdast` with the default options. The contract
/// names the result: the tree of the node that came back, or the message
/// of the error as a string.
#[verifier::external_body]
fn parse_markdown(text: &str) -> (out: Result<Node, String>)
    ensures
        parse_view(out) == markdown_tree(text@),
{
    match markdown::to_mdast(text, &markdown::ParseOptions::default()) {
        Ok(node) => Ok(node),
        Err(message) => Err(message.to_string()),
    }
}

/// Copies the children of a parser node into trees of this crate.
fn lift_children(node: &Node) -> (out: Vec<MdNode>)
    requires
        tree_of(*node).is_parent(),
    ensures
        tree_views(out@) == tree_of(*node).children(),
    decreases tree_of(*node), 0nat,
{
    let mut out: Vec<MdNode> = Vec::new();
    match node.children() {
        Some(children) => {
            let mut i: usize = 0;
            while i < children.len()
                invariant
                    0 <= i <= children.len(),
                    tree_of(*node).is_parent(),
                    children@.len() == tree_of(*node).children().len(),
                    forall|k: int|
                        0 <= k < children@.len() ==> tree_of(#[trigger] children@[k]) == tree_of(
                            *node,
                        ).children()[k],
                    out@.len() == i,
                    forall|k: int| 0 <= k < i ==> (#[trigger] out@[k])@ == tree_of(children@[k]),
                decreases children.len() - i,
            {
                let child = lift(&children[i]);
                out.push(child);
                i += 1;
            }
            assert(tree_views(out@) =~= tree_of(*node).children());
        },
        None => {
            // A node that holds children hands them out.
            assert(false);
        },
    }
    out
}

/// Copies a parser node into a tree of this crate.
pub fn lift(node: &Node) -> (out: MdNode)
    ensures
        out@ == tree_of(*node),
    decreases tree_of(*node), 1nat,
{
    match node_kind(node) {
        NodeKind::Group => MdNode::Group(lift_children(node)),
        NodeKind::Paragraph => MdNode::Paragraph(lift_children(node)),
        NodeKind::Text => MdNode::Text(node_value(node)),
        NodeKind::Strong => MdNode::Strong(lift_children(node)),
        NodeKind::Emphasis => MdNode::Emphasis(lift_children(node)),
        NodeKind::InlineCode => MdNode::InlineCode(node_value(node)),
        NodeKind::Code => MdNode::Code { value: node_value(node), lang: code_language(node) },
        NodeKind::Heading => MdNode::Heading {
            depth: heading_depth(node),
            children: lift_children(node),
        },
        NodeKind::List => {
            let (ordered, start) = list_numbering(node);
            MdNode::List { ordered, start, children: lift_children(node) }
        },
        NodeKind::Link => MdNode::Link { url: link_url(node), children: lift_children(node) },
        NodeKind::Blockquote => MdNode::Blockquote(lift_children(node)),
        NodeKind::Break => MdNode::Break,
        NodeKind::Unknown => MdNode::Unknown(node_description(node)),
    }
}

/// The tree of a text: what the parser makes of it, and where the parser
/// refuses the text, a node of unknown kind that holds the parser's
/// message.
pub open spec fn parsed(text: Seq<char>) -> MdTree {
    match markdown_tree(text) {
        Ok(tree) => tree,
        Err(reason) => MdTree::Unknown(reason),
    }
}

/// Parses a text written in markdown.
pub fn parse(text: &str) -> (out: MdNode)
    ensures
        out@ == parsed(text@),
{
    match parse_markdown(text) {
        Ok(node) => lift(&node),
        Err(reason) => MdNode::Unknown(reason),
    }
}

} // verus!
