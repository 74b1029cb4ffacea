//! The markup document as the parser reads it.
//!
//! A document is a table of nodes in document order. Each node tells how many
//! nodes its subtree spans, itself included, so the subtree of node `i` is
//! the run of nodes from `i` up to `i + span`.
use vstd::prelude::*;
use vstd::string::*;
use crate::text::str_eq;

verus! {

/// One attribute of an element.
#[derive(Debug, Clone, PartialEq, Eq)]
pub struct Attribute {
    /// The local name.
    pub name: String,
    pub value: String,
}

/// An [`Attribute`] as plain text.
pub struct AttributeView {
    pub name: Seq<char>,
    pub value: Seq<char>,
}

impl View for Attribute {
    type V = AttributeView;

    open spec fn view(&self) -> AttributeView {
        AttributeView { name: self.name@, value: self.value@ }
    }
}

/// One node of a document: an element, or something else that stands in the
/// markup (the document's root, text, a comment, a processing instruction).
#[derive(Debug, Clone, PartialEq, Eq)]
pub struct XmlNode {
    /// Whether the node is an element.
    pub element: bool,
    /// The local tag name; empty where the node is no element.
    pub name: String,
    /// The attributes in the order of the markup.
    pub attributes: Vec<Attribute>,
    /// For an element, the text that its content starts with, if it starts
    /// with text; for text and comments, their own text.
    pub text: Option<String>,
    /// The number of nodes in the node's subtree, the node included.
    pub span: usize,
}

/// An [`XmlNode`] as plain values.
pub struct XmlNodeView {
    pub element: bool,
    pub name: Seq<char>,
    pub attributes: Seq<AttributeView>,
    pub text: Option<Seq<char>>,
    pub span: nat,
}

impl View for XmlNode {
    type V = XmlNodeView;

    open spec fn view(&self) -> XmlNodeView {
        XmlNodeView {
            element: self.element,
            name: self.name@,
            attributes: self.attributes@.map_values(|a: Attribute| a@),
            text: match self.text {
                Some(t) => Some(t@),
                None => None,
            },
            span: self.span as nat,
        }
    }
}

/// A table of nodes as plain values.
pub open spec fn nodes_view(nodes: Seq<XmlNode>) -> Seq<XmlNodeView> {
    nodes.map_values(|n: XmlNode| n@)
}

/// Every subtree has at least its own node and ends within the table.
pub open spec fn spans_fit(nodes: Seq<XmlNodeView>) -> bool {
    forall|i: int| 0 <= i < nodes.len() ==> 1 <= (#[trigger] nodes[i]).span <= nodes.len() - i
}

/// Every subtree lies within each subtree that it starts in.
pub open spec fn nested(nodes: Seq<XmlNodeView>) -> bool {
    forall|i: int, j: int|
        0 <= i < j < nodes.len() && j < i + (#[trigger] nodes[i]).span ==> j + (
        #[trigger] nodes[j]).span <= i + nodes[i].span
}

/// The table describes a tree: the spans fit and are nested.
pub open spec fn is_tree(nodes: Seq<XmlNodeView>) -> bool {
    spans_fit(nodes) && nested(nodes)
}

/// The value of the first attribute called `name` among those from index
/// `from` on.
pub open spec fn attribute_from(attributes: Seq<AttributeView>, name: Seq<char>, from: int) -> Option<
    Seq<char>,
>
    decreases attributes.len() - from,
{
    if from < 0 || from >= attributes.len() {
        None
    } else if attributes[from].name == name {
        Some(attributes[from].value)
    } else {
        attribute_from(attributes, name, from + 1)
    }
}

/// The value of the first attribute called `name`.
pub open spec fn attribute_value(node: XmlNodeView, name: Seq<char>) -> Option<Seq<char>> {
    attribute_from(node.attributes, name, 0)
}

/// The index just past the subtree of node `index`.
pub open spec fn subtree_end(nodes: Seq<XmlNodeView>, index: int) -> int {
    if nodes[index].span == 0 {
        index + 1
    } else {
        index + nodes[index].span
    }
}

/// The first element among the sibling nodes that start at `from` and end
/// before `end`.
pub open spec fn first_element(nodes: Seq<XmlNodeView>, from: int, end: int) -> Option<int>
    decreases
            if end > from {
                end - from
            } else {
                0
            },
{
    if from < 0 || from >= end || from >= nodes.len() {
        None
    } else if nodes[from].element {
        Some(from)
    } else {
        first_element(nodes, subtree_end(nodes, from), end)
    }
}

/// The first element among the children of node `index`.
pub open spec fn first_element_child(nodes: Seq<XmlNodeView>, index: int) -> Option<int> {
    first_element(nodes, index + 1, subtree_end(nodes, index))
}

/// The names of the elements from index `from` on whose subtrees hold node
/// `target`, outermost first, each after a `/`.
pub open spec fn path_from(nodes: Seq<XmlNodeView>, target: int, from: int) -> Seq<char>
    decreases
            if from <= target {
                target - from + 1
            } else {
                0
            },
{
    if from < 0 || from > target || from >= nodes.len() {
        Seq::empty()
    } else if nodes[from].element && target < subtree_end(nodes, from) {
        "/"@ + nodes[from].name + path_from(nodes, target, from + 1)
    } else {
        path_from(nodes, target, from + 1)
    }
}

/// The path of node `target`: the names of the elements that enclose it and
/// its own, outermost first, each after a `/`.
pub open spec fn path_of(nodes: Seq<XmlNodeView>, target: int) -> Seq<char> {
    path_from(nodes, target, 0)
}

/// The document's root element: the first element among the children of the
/// table's first node.
pub open spec fn root_element(nodes: Seq<XmlNodeView>) -> Option<int> {
    if nodes.len() == 0 {
        None
    } else {
        first_element_child(nodes, 0)
    }
}

/// `roxmltree::Error`, the error of the markup reader. It is carried through
/// as it comes; nothing is claimed of what it holds.
#[verifier::external_type_specification]
#[verifier::external_body]
pub struct ExReaderError(roxmltree::Error);

/// The table of nodes that the markup reader, `roxmltree::Document::parse`,
/// makes of a text; `None` where the reader rejects the text.
pub uninterp spec fn xml_nodes(text: Seq<char>) -> Option<Seq<XmlNodeView>>;

/// Calls `roxmltree::Document::parse` and copies, for each node that
/// `Document::descendants` yields (all of them, in document order): whether
/// it is an element (`Node::is_element`), its local tag name
/// (`Node::tag_name`), its attributes by local name and value
/// (`Node::attributes`), what `Node::text` gives, and how many nodes
/// `Node::descendants` yields for it. The contract claims only that the
/// outcome depends on the text alone, and gives it a name.
#[verifier::external_body]
fn read_nodes(text: &str) -> (r: Result<Vec<XmlNode>, roxmltree::Error>)
    ensures
        r is Ok <==> xml_nodes(text@) is Some,
        r matches Ok(nodes) ==> xml_nodes(text@) == Some(nodes_view(nodes@)),
{
    let doc = roxmltree::Document::parse(text)?;
    Ok(doc.descendants().map(|n| XmlNode {
        element: n.is_element(),
        name: n.tag_name().name().to_string(),
        attributes: n.attributes().map(|a| Attribute {
            name: a.name().to_string(),
            value: a.value().to_string(),
        }).collect(),
        text: n.text().map(|t| t.to_string()),
        span: n.descendants().len(),
    }).collect())
}

/// Calls `to_string` on a `roxmltree::Error`: what went wrong and where, in
/// the reader's words. Nothing is claimed of the text.
#[verifier::external_body]
fn reader_message(error: &roxmltree::Error) -> (r: String) {
    error.to_string()
}

/// Why a text is no document.
#[derive(Debug, Clone, PartialEq, Eq)]
pub enum MarkupError {
    /// The text is not well-formed; the message is the reader's.
    Malformed(String),
    /// The reader's table does not describe a tree.
    Inconsistent,
}

/// A document: a table of nodes that describes a tree.
#[derive(Debug, PartialEq, Eq)]
pub struct Document {
    nodes: Vec<XmlNode>,
}

impl View for Document {
    type V = Seq<XmlNodeView>;

    closed spec fn view(&self) -> Seq<XmlNodeView> {
        nodes_view(self.nodes@)
    }
}

fn check_spans(nodes: &Vec<XmlNode>) -> (r: bool)
    ensures
        r == spans_fit(nodes_view(nodes@)),
{
    let mut i: usize = 0;
    while i < nodes.len()
        invariant
            i <= nodes.len(),
            forall|k: int| 0 <= k < i ==> 1 <= (#[trigger] nodes_view(nodes@)[k]).span <= nodes.len() - k,
        decreases nodes.len() - i,
    {
        let span = nodes[i].span;
        if span < 1 || span > nodes.len() - i {
            assert(nodes_view(nodes@)[i as int].span == span);
            return false;
        }
        assert(nodes_view(nodes@)[i as int].span == span);
        i += 1;
    }
    true
}

fn check_nesting(nodes: &Vec<XmlNode>) -> (r: bool)
    requires
        spans_fit(nodes_view(nodes@)),
    ensures
        r == nested(nodes_view(nodes@)),
{
    let ghost table = nodes_view(nodes@);
    let mut i: usize = nodes.len();
    while i > 0
        invariant
            i <= nodes.len(),
            table == nodes_view(nodes@),
            spans_fit(table),
            forall|a: int, b: int|
                i <= a < b < table.len() && b < a + (#[trigger] table[a]).span ==> b + (
                #[trigger] table[b]).span <= a + table[a].span,
        decreases i,
    {
        i -= 1;
        assert(table[i as int] == nodes[i as int]@);
        let end = i + nodes[i].span;
        let mut child: usize = i + 1;
        while child < end
            invariant
                i < child <= end,
                end == i + table[i as int].span,
                end <= nodes.len(),
                table == nodes_view(nodes@),
                spans_fit(table),
                forall|a: int, b: int|
                    i < a < b < table.len() && b < a + (#[trigger] table[a]).span ==> b + (
                    #[trigger] table[b]).span <= a + table[a].span,
                forall|b: int| i < b < child ==> b + (#[trigger] table[b]).span <= end,
            decreases end - child,
        {
            assert(table[child as int] == nodes[child as int]@);
            let child_end = child + nodes[child].span;
            if child_end > end {
                return false;
            }
            child = child_end;
        }
    }
    true
}

impl Document {
    #[verifier::type_invariant]
    closed spec fn well_formed(self) -> bool {
        is_tree(nodes_view(self.nodes@))
    }

    /// The document that a table of nodes describes, where it describes a
    /// tree.
    pub fn from_nodes(nodes: Vec<XmlNode>) -> (r: Option<Document>)
        ensures
            r is Some <==> is_tree(nodes_view(nodes@)),
            r matches Some(doc) ==> doc@ == nodes_view(nodes@),
    {
        if check_spans(&nodes) && check_nesting(&nodes) {
            Some(Document { nodes })
        } else {
            None
        }
    }

    /// The document that a markup text holds.
    pub fn parse(text: &str) -> (r: Result<Document, MarkupError>)
        ensures
            match xml_nodes(text@) {
                None => r matches Err(MarkupError::Malformed(_)),
                Some(nodes) => if is_tree(nodes) {
                    r matches Ok(doc) && doc@ == nodes
                } else {
                    r == Err::<Document, MarkupError>(MarkupError::Inconsistent)
                },
            },
    {
        match read_nodes(text) {
            Ok(nodes) => match Document::from_nodes(nodes) {
                Some(doc) => Ok(doc),
                None => Err(MarkupError::Inconsistent),
            },
            Err(error) => Err(MarkupError::Malformed(reader_message(&error))),
        }
    }

    /// The number of nodes.
    pub fn len(&self) -> (r: usize)
        ensures
            r == self@.len(),
            is_tree(self@),
    {
        proof {
            use_type_invariant(self);
        }
        self.nodes.len()
    }

    /// The node at `index`, if there is one.
    pub fn node(&self, index: usize) -> (r: Option<NodeRef<'_>>)
        ensures
            r is Some <==> index < self@.len(),
            r matches Some(e) ==> e.nodes() == self@ && e.index() == index,
    {
        proof {
            use_type_invariant(self);
        }
        if index < self.nodes.len() {
            Some(NodeRef { doc: self, index })
        } else {
            None
        }
    }

    /// The root element.
    pub fn root_element(&self) -> (r: Option<NodeRef<'_>>)
        ensures
            r is Some <==> root_element(self@) is Some,
            r matches Some(e) ==> e.nodes() == self@ && Some(e.index()) == root_element(self@),
    {
        match self.node(0) {
            Some(root) => root.first_element_child(),
            None => None,
        }
    }
}

/// A node of a document.
#[derive(Debug, Clone, Copy)]
pub struct NodeRef<'a> {
    doc: &'a Document,
    index: usize,
}

impl<'a> NodeRef<'a> {
    #[verifier::type_invariant]
    closed spec fn well_formed(self) -> bool {
        &&& self.index < self.doc.nodes@.len()
        &&& is_tree(nodes_view(self.doc.nodes@))
    }

    /// The table of the document that the node belongs to.
    pub closed spec fn nodes(self) -> Seq<XmlNodeView> {
        self.doc@
    }

    /// The node's place in the table.
    pub closed spec fn index(self) -> int {
        self.index as int
    }

    /// The node itself.
    pub open spec fn node(self) -> XmlNodeView {
        self.nodes()[self.index()]
    }

    /// The node's place in document order.
    pub fn position(&self) -> (r: usize)
        ensures
            r == self.index(),
            r < self.nodes().len() <= usize::MAX,
            is_tree(self.nodes()),
    {
        proof {
            use_type_invariant(self);
        }
        let _ = self.doc.nodes.len();
        self.index
    }

    /// Whether the node is an element.
    pub fn is_element(&self) -> (r: bool)
        ensures
            r == self.node().element,
    {
        proof {
            use_type_invariant(self);
        }
        self.doc.nodes[self.index].element
    }

    /// The local tag name.
    pub fn tag_name(&self) -> (r: &'a str)
        ensures
            r@ == self.node().name,
            0 <= self.index() < self.nodes().len(),
    {
        proof {
            use_type_invariant(self);
        }
        self.doc.nodes[self.index].name.as_str()
    }

    /// The number of nodes in the node's subtree, the node included.
    pub fn span(&self) -> (r: usize)
        ensures
            r == self.node().span,
            1 <= r <= self.nodes().len() - self.index(),
            self.nodes().len() <= usize::MAX,
    {
        proof {
            use_type_invariant(self);
        }
        let _ = self.doc.nodes.len();
        self.doc.nodes[self.index].span
    }

    /// The text that the node's content starts with.
    pub fn text(&self) -> (r: Option<&'a str>)
        ensures
            r is Some <==> self.node().text is Some,
            r matches Some(t) ==> Some(t@) == self.node().text,
    {
        proof {
            use_type_invariant(self);
        }
        match &self.doc.nodes[self.index].text {
            Some(t) => Some(t.as_str()),
            None => None,
        }
    }

    /// The value of the first attribute called `name`.
    pub fn attribute(&self, name: &str) -> (r: Option<&'a str>)
        ensures
            r is Some <==> attribute_value(self.node(), name@) is Some,
            r matches Some(v) ==> Some(v@) == attribute_value(self.node(), name@),
    {
        proof {
            use_type_invariant(self);
        }
        let attributes = &self.doc.nodes[self.index].attributes;
        let ghost views = self.node().attributes;
        let mut i: usize = 0;
        while i < attributes.len()
            invariant
                i <= attributes.len(),
                views == self.node().attributes,
                views == attributes@.map_values(|a: Attribute| a@),
                attribute_from(views, name@, 0) == attribute_from(views, name@, i as int),
            decreases attributes.len() - i,
        {
            assert(views[i as int] == attributes[i as int]@);
            if str_eq(attributes[i].name.as_str(), name) {
                return Some(attributes[i].value.as_str());
            }
            i += 1;
        }
        None
    }

    /// The node at `index` of the same document, if there is one.
    pub fn sibling(&self, index: usize) -> (r: Option<NodeRef<'a>>)
        ensures
            r is Some <==> index < self.nodes().len(),
            r matches Some(e) ==> e.nodes() == self.nodes() && e.index() == index,
    {
        proof {
            use_type_invariant(self);
        }
        if index < self.doc.nodes.len() {
            Some(NodeRef { doc: self.doc, index })
        } else {
            None
        }
    }

    /// The names of the elements that enclose the node and its own, outermost
    /// first, each after a `/`.
    pub fn path(&self) -> (r: String)
        ensures
            r@ == path_of(self.nodes(), self.index()),
    {
        proof {
            use_type_invariant(self);
        }
        let nodes = &self.doc.nodes;
        let ghost table = self.nodes();
        let mut path = String::new();
        let mut i: usize = 0;
        while i <= self.index
            invariant
                i <= self.index + 1,
                self.index < nodes.len(),
                nodes == &self.doc.nodes,
                table == self.nodes(),
                table == nodes_view(nodes@),
                spans_fit(table),
                path_of(table, self.index()) == path@ + path_from(table, self.index(), i as int),
            decreases self.index + 1 - i,
        {
            assert(table[i as int] == nodes[i as int]@);
            assert(table.len() == nodes.len());
            let ghost before = path@;
            if nodes[i].element && self.index - i < nodes[i].span {
                path.append("/");
                path.append(nodes[i].name.as_str());
                assert(before + ("/"@ + table[i as int].name + path_from(
                    table,
                    self.index(),
                    i + 1,
                )) =~= path@ + path_from(table, self.index(), i + 1));
            }
            i += 1;
        }
        assert(path@ + Seq::<char>::empty() =~= path@);
        path
    }

    /// The node at `index` of the same document.
    pub(crate) fn node_at(&self, index: usize) -> (r: NodeRef<'a>)
        requires
            index < self.nodes().len(),
        ensures
            r.nodes() == self.nodes(),
            r.index() == index,
    {
        proof {
            use_type_invariant(self);
        }
        NodeRef { doc: self.doc, index }
    }

    /// The first element among the node's children.
    pub fn first_element_child(&self) -> (r: Option<NodeRef<'a>>)
        ensures
            r is Some <==> first_element_child(self.nodes(), self.index()) is Some,
            r matches Some(e) ==> e.nodes() == self.nodes() && Some(e.index())
                == first_element_child(self.nodes(), self.index()),
    {
        proof {
            use_type_invariant(self);
        }
        let nodes = &self.doc.nodes;
        let ghost table = self.nodes();
        assert(table == nodes_view(nodes@));
        assert(table[self.index as int] == nodes[self.index as int]@);
        assert(table[self.index as int].span <= table.len() - self.index);
        assert(table.len() == nodes.len());
        let end = self.index + nodes[self.index].span;
        let mut i: usize = self.index + 1;
        while i < end
            invariant
                self.index < i,
                end <= nodes.len(),
                nodes == &self.doc.nodes,
                table == self.nodes(),
                table == nodes_view(nodes@),
                is_tree(table),
                first_element_child(table, self.index()) == first_element(table, i as int, end as int),
            decreases nodes.len() - i,
        {
            assert(table[i as int] == nodes[i as int]@);
            if nodes[i].element {
                return Some(NodeRef { doc: self.doc, index: i });
            }
            i += nodes[i].span;
        }
        None
    }
}

} // verus!
