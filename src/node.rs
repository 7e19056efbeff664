use vstd::prelude::*;

verus! {

/// The kinds of node in a CommonMark document tree.
#[derive(Clone, Copy, Debug, PartialEq, Eq, Structural)]
pub enum NodeType {
    Document,
    BlockQuote,
    List,
    Item,
    CodeBlock,
    HtmlBlock,
    CustomBlock,
    Paragraph,
    Heading,
    ThematicBreak,
    Text,
    SoftBreak,
    LineBreak,
    Code,
    HtmlInline,
    CustomInline,
    Emph,
    Strong,
    Link,
    Image,
    /// A node of a kind outside the CommonMark set (an extension's).
    Unknown,
}

/// One step of a preorder walk over a document tree: entering a node, with
/// the name of its kind and its literal text if it has one, or leaving the
/// node entered last and not yet left.
#[derive(Clone, Debug, PartialEq, Eq)]
pub enum Edge {
    Enter { name: String, literal: Option<String> },
    Exit,
}

/// The node kind that a CommonMark name stands for.
pub open spec fn type_of_name(name: Seq<char>) -> NodeType {
    if name == "document"@ {
        NodeType::Document
    } else if name == "block_quote"@ {
        NodeType::BlockQuote
    } else if name == "list"@ {
        NodeType::List
    } else if name == "item"@ {
        NodeType::Item
    } else if name == "code_block"@ {
        NodeType::CodeBlock
    } else if name == "html_block"@ {
        NodeType::HtmlBlock
    } else if name == "custom_block"@ {
        NodeType::CustomBlock
    } else if name == "paragraph"@ {
        NodeType::Paragraph
    } else if name == "heading"@ {
        NodeType::Heading
    } else if name == "thematic_break"@ {
        NodeType::ThematicBreak
    } else if name == "text"@ {
        NodeType::Text
    } else if name == "softbreak"@ {
        NodeType::SoftBreak
    } else if name == "linebreak"@ {
        NodeType::LineBreak
    } else if name == "code"@ {
        NodeType::Code
    } else if name == "html_inline"@ {
        NodeType::HtmlInline
    } else if name == "custom_inline"@ {
        NodeType::CustomInline
    } else if name == "emph"@ {
        NodeType::Emph
    } else if name == "strong"@ {
        NodeType::Strong
    } else if name == "link"@ {
        NodeType::Link
    } else if name == "image"@ {
        NodeType::Image
    } else {
        NodeType::Unknown
    }
}

/// Whether `name` holds exactly the characters of `word`.
fn is_named(name: &String, word: &str) -> (r: bool)
    ensures
        r == (name@ == word@),
{
    let w = word.to_owned();
    *name == w
}

impl NodeType {
    /// The node kind that a CommonMark name stands for; `Unknown` for any
    /// other name.
    pub fn from_name(name: &String) -> (r: NodeType)
        ensures
            r == type_of_name(name@),
    {
        if is_named(name, "document") {
            NodeType::Document
        } else if is_named(name, "block_quote") {
            NodeType::BlockQuote
        } else if is_named(name, "list") {
            NodeType::List
        } else if is_named(name, "item") {
            NodeType::Item
        } else if is_named(name, "code_block") {
            NodeType::CodeBlock
        } else if is_named(name, "html_block") {
            NodeType::HtmlBlock
        } else if is_named(name, "custom_block") {
            NodeType::CustomBlock
        } else if is_named(name, "paragraph") {
            NodeType::Paragraph
        } else if is_named(name, "heading") {
            NodeType::Heading
        } else if is_named(name, "thematic_break") {
            NodeType::ThematicBreak
        } else if is_named(name, "text") {
            NodeType::Text
        } else if is_named(name, "softbreak") {
            NodeType::SoftBreak
        } else if is_named(name, "linebreak") {
            NodeType::LineBreak
        } else if is_named(name, "code") {
            NodeType::Code
        } else if is_named(name, "html_inline") {
            NodeType::HtmlInline
        } else if is_named(name, "custom_inline") {
            NodeType::CustomInline
        } else if is_named(name, "emph") {
            NodeType::Emph
        } else if is_named(name, "strong") {
            NodeType::Strong
        } else if is_named(name, "link") {
            NodeType::Link
        } else if is_named(name, "image") {
            NodeType::Image
        } else {
            NodeType::Unknown
        }
    }
}

/// The kind of the node entered at step `i` of the walk `e`; `Unknown` where
/// no node is entered there.
pub open spec fn kind_at(e: Seq<Edge>, i: int) -> NodeType {
    if 0 <= i < e.len() {
        match e[i] {
            Edge::Enter { name, .. } => type_of_name(name@),
            Edge::Exit => NodeType::Unknown,
        }
    } else {
        NodeType::Unknown
    }
}

/// The literal text of the node entered at step `i` of the walk `e`.
pub open spec fn literal_at(e: Seq<Edge>, i: int) -> Option<String> {
    if 0 <= i < e.len() {
        match e[i] {
            Edge::Enter { literal, .. } => literal,
            Edge::Exit => None,
        }
    } else {
        None
    }
}

/// The step at which the first child of the node entered at step `i` is
/// entered: in a preorder walk it is the very next step, unless that step
/// leaves the node.
pub open spec fn first_child_at(e: Seq<Edge>, i: int) -> Option<int> {
    if 0 <= i && i + 1 < e.len() && e[i] is Enter && e[i + 1] is Enter {
        Some(i + 1)
    } else {
        None
    }
}

/// The kind of the node entered at step `i`.
fn kind_of(e: &Vec<Edge>, i: usize) -> (r: NodeType)
    ensures
        r == kind_at(e@, i as int),
{
    if i < e.len() {
        match &e[i] {
            Edge::Enter { name, .. } => NodeType::from_name(name),
            Edge::Exit => NodeType::Unknown,
        }
    } else {
        NodeType::Unknown
    }
}

/// The literal text of the node entered at step `i`.
fn literal_of(e: &Vec<Edge>, i: usize) -> (r: Option<String>)
    ensures
        r == literal_at(e@, i as int),
{
    if i < e.len() {
        match &e[i] {
            Edge::Enter { literal: Some(l), .. } => Some(l.clone()),
            _ => None,
        }
    } else {
        None
    }
}

/// The step at which the first child of the node entered at step `i` is
/// entered.
fn first_child_of(e: &Vec<Edge>, i: usize) -> (r: Option<usize>)
    ensures
        match first_child_at(e@, i as int) {
            Some(c) => r matches Some(k) && k == c,
            None => r is None,
        },
{
    if i < e.len() && e.len() - i > 1 {
        match (&e[i], &e[i + 1]) {
            (Edge::Enter { .. }, Edge::Enter { .. }) => Some(i + 1),
            _ => None,
        }
    } else {
        None
    }
}

/// A document tree, held as the preorder walk over it; its root is entered
/// at the first step.
pub struct Node {
    edges: Vec<Edge>,
}

/// A node of a document tree: the tree's walk and the step that enters it.
#[derive(Clone, Copy)]
pub struct NodeRef<'a> {
    edges: &'a Vec<Edge>,
    index: usize,
}

impl View for Node {
    type V = Seq<Edge>;

    closed spec fn view(&self) -> Seq<Edge> {
        self.edges@
    }
}

impl<'a> View for NodeRef<'a> {
    type V = (Seq<Edge>, int);

    closed spec fn view(&self) -> (Seq<Edge>, int) {
        (self.edges@, self.index as int)
    }
}

impl Node {
    /// The tree whose preorder walk is `edges`.
    pub fn from_edges(edges: Vec<Edge>) -> (r: Node)
        ensures
            r@ == edges@,
    {
        Node { edges }
    }

    /// The preorder walk over the tree.
    pub fn walk(&self) -> (r: &Vec<Edge>)
        ensures
            r@ == self@,
    {
        &self.edges
    }

    /// The root.
    pub fn root(&self) -> (r: NodeRef<'_>)
        ensures
            r@ == (self@, 0int),
    {
        NodeRef { edges: &self.edges, index: 0 }
    }

    /// The kind of the root.
    pub fn node_type(&self) -> (r: NodeType)
        ensures
            r == kind_at(self@, 0),
    {
        kind_of(&self.edges, 0)
    }

    /// The first child of the root, if it has children.
    pub fn first_child(&self) -> (r: Option<NodeRef<'_>>)
        ensures
            match first_child_at(self@, 0) {
                Some(c) => r matches Some(n) && n@ == (self@, c),
                None => r is None,
            },
    {
        self.root().first_child()
    }

    /// The literal text of the root, if it has one.
    pub fn literal(&self) -> (r: Option<String>)
        ensures
            r == literal_at(self@, 0),
    {
        literal_of(&self.edges, 0)
    }
}

impl<'a> NodeRef<'a> {
    /// The kind of this node.
    pub fn node_type(&self) -> (r: NodeType)
        ensures
            r == kind_at(self@.0, self@.1),
    {
        kind_of(self.edges, self.index)
    }

    /// The first child of this node, if it has children.
    pub fn first_child(&self) -> (r: Option<NodeRef<'a>>)
        ensures
            match first_child_at(self@.0, self@.1) {
                Some(c) => r matches Some(n) && n@ == (self@.0, c),
                None => r is None,
            },
    {
        match first_child_of(self.edges, self.index) {
            Some(c) => {
                Some(NodeRef { edges: self.edges, index: c })
            },
            None => None,
        }
    }

    /// The literal text of this node, if it has one.
    pub fn literal(&self) -> (r: Option<String>)
        ensures
            r == literal_at(self@.0, self@.1),
    {
        literal_of(self.edges, self.index)
    }
}

} // verus!
