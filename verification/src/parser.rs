//! The markup parser: from a document to the node tree.
use vstd::prelude::*;
use vstd::string::*;
use crate::markup::{
    attribute_value, first_element_child, is_tree, path_of, root_element, spans_fit, subtree_end,
    xml_nodes, Document, MarkupError, NodeRef, XmlNodeView,
};
use crate::node::{
    children_view, default_layout, horizontal_of, preorder, preorder_all, vertical_of, ButtonNode,
    ButtonNodeView,
    ColumnNode, Component, ComponentNode, ComponentNodeView, ComponentView,
    HorizontalAlignment, Node, NodeLayout, NodeLayoutView, NodeView, Padding, RowNode,
    TextNode, TextNodeView, VerticalAlignment,
};
use crate::number::{is_float_literal, Number, TEN, ZERO};
use crate::plain::same;
use crate::text::{lowercase, str_eq};

verus! {

/// The tag of a document's top-level element.
pub const ROOT_TAG: &'static str = "Component";

/// The kinds of node; each is the tag of its element.
#[derive(Debug, Copy, Clone, PartialEq, Eq, Structural)]
pub enum Kind {
    Button,
    Text,
    Column,
    Row,
}

/// The kind that a tag names; the match is exact.
pub open spec fn kind_of(tag: Seq<char>) -> Option<Kind> {
    if tag == "Button"@ {
        Some(Kind::Button)
    } else if tag == "Text"@ {
        Some(Kind::Text)
    } else if tag == "Column"@ {
        Some(Kind::Column)
    } else if tag == "Row"@ {
        Some(Kind::Row)
    } else {
        None
    }
}

/// Whether a tag names a kind that holds child nodes.
pub open spec fn is_container(tag: Seq<char>) -> bool {
    kind_of(tag) == Some(Kind::Column) || kind_of(tag) == Some(Kind::Row)
}

impl Kind {
    /// The kind that a tag names.
    pub fn of(tag: &str) -> (r: Option<Kind>)
        ensures
            r == kind_of(tag@),
    {
        if str_eq(tag, "Button") {
            Some(Kind::Button)
        } else if str_eq(tag, "Text") {
            Some(Kind::Text)
        } else if str_eq(tag, "Column") {
            Some(Kind::Column)
        } else if str_eq(tag, "Row") {
            Some(Kind::Row)
        } else {
            None
        }
    }
}

/// Why a document is no component.
#[derive(Debug, Clone, PartialEq, Eq)]
pub enum ParseError {
    /// The text is no document.
    Markup(MarkupError),
    /// The document has no top-level element.
    MissingRoot,
    /// The top-level element has another tag than the one expected.
    UnexpectedRoot { found: String },
    /// An element's tag names no kind of node.
    UnsupportedElement { tag: String, path: String },
}

/// A [`ParseError`] as plain values, without the reader's message.
pub enum ParseErrorView {
    Malformed,
    Inconsistent,
    MissingRoot,
    UnexpectedRoot { found: Seq<char> },
    UnsupportedElement { tag: Seq<char>, path: Seq<char> },
}

impl View for ParseError {
    type V = ParseErrorView;

    open spec fn view(&self) -> ParseErrorView {
        match self {
            ParseError::Markup(MarkupError::Malformed(_)) => ParseErrorView::Malformed,
            ParseError::Markup(MarkupError::Inconsistent) => ParseErrorView::Inconsistent,
            ParseError::MissingRoot => ParseErrorView::MissingRoot,
            ParseError::UnexpectedRoot { found } => ParseErrorView::UnexpectedRoot { found: found@ },
            ParseError::UnsupportedElement { tag, path } => ParseErrorView::UnsupportedElement {
                tag: tag@,
                path: path@,
            },
        }
    }
}

impl ParseError {
    /// What went wrong, in words.
    pub open spec fn message_text(self) -> Seq<char> {
        match self {
            ParseError::Markup(MarkupError::Malformed(message)) => "malformed markup: "@
                + message@,
            ParseError::Markup(MarkupError::Inconsistent) =>
                "malformed markup: the nodes do not form a tree"@,
            ParseError::MissingRoot => "the document has no root element"@,
            ParseError::UnexpectedRoot { found } => "unexpected root element "@ + found@,
            ParseError::UnsupportedElement { tag, path } => "unsupported element "@ + tag@
                + " at "@ + path@,
        }
    }

    /// What went wrong, in words: the kind of error, and the tag and path of
    /// the element at fault where there is one.
    pub fn message(&self) -> (r: String)
        ensures
            r@ == self.message_text(),
    {
        match self {
            ParseError::Markup(MarkupError::Malformed(message)) => {
                let mut text = String::from_str("malformed markup: ");
                text.append(message.as_str());
                text
            },
            ParseError::Markup(MarkupError::Inconsistent) => String::from_str(
                "malformed markup: the nodes do not form a tree",
            ),
            ParseError::MissingRoot => String::from_str("the document has no root element"),
            ParseError::UnexpectedRoot { found } => {
                let mut text = String::from_str("unexpected root element ");
                text.append(found.as_str());
                text
            },
            ParseError::UnsupportedElement { tag, path } => {
                let mut text = String::from_str("unsupported element ");
                text.append(tag.as_str());
                text.append(" at ");
                text.append(path.as_str());
                text
            },
        }
    }
}

/// A text, or the empty text where there is none.
pub open spec fn text_or_empty(text: Option<Seq<char>>) -> Seq<char> {
    match text {
        Some(t) => t,
        None => Seq::empty(),
    }
}

/// The spelling of a numeric attribute: the attribute's value where it is a
/// floating-point literal, else `default`.
pub open spec fn numeric_attribute(node: XmlNodeView, name: Seq<char>, default: Seq<char>) -> Seq<
    char,
> {
    match attribute_value(node, name) {
        Some(v) => if is_float_literal(v) {
            v
        } else {
            default
        },
        None => default,
    }
}

/// The layout that an element's attributes give.
pub open spec fn layout_of(node: XmlNodeView) -> NodeLayoutView {
    NodeLayoutView {
        align_x: match attribute_value(node, "HorizontalAlignment"@) {
            Some(v) => horizontal_of(lowercase(v)),
            None => HorizontalAlignment::Left,
        },
        align_y: match attribute_value(node, "VerticalAlignment"@) {
            Some(v) => vertical_of(lowercase(v)),
            None => VerticalAlignment::Top,
        },
        padding: numeric_attribute(node, "Padding"@, ZERO@),
    }
}

/// The button that an element describes.
pub open spec fn button_of(node: XmlNodeView) -> ButtonNodeView {
    ButtonNodeView {
        content: text_or_empty(node.text),
        message: text_or_empty(attribute_value(node, "Message"@)),
    }
}

/// The label that an element describes.
pub open spec fn text_of(node: XmlNodeView) -> TextNodeView {
    TextNodeView {
        content: match node.text {
            Some(t) => t,
            None => text_or_empty(attribute_value(node, "Content"@)),
        },
        size: numeric_attribute(node, "Size"@, TEN@),
    }
}

/// The number of nodes from index `from` on.
pub open spec fn remaining(nodes: Seq<XmlNodeView>, from: int) -> int {
    if 0 <= from < nodes.len() {
        nodes.len() - from
    } else {
        0
    }
}

/// The node that the element at `index` describes.
pub open spec fn node_of(nodes: Seq<XmlNodeView>, index: int) -> Result<
    ComponentNodeView,
    ParseErrorView,
>
    decreases remaining(nodes, index), 0int,
{
    let element = nodes[index];
    let layout = layout_of(element);
    match kind_of(element.name) {
        None => Err(
            ParseErrorView::UnsupportedElement {
                tag: element.name,
                path: path_of(nodes, index),
            },
        ),
        Some(Kind::Button) => Ok(
            ComponentNodeView { node: NodeView::Button(button_of(element)), layout },
        ),
        Some(Kind::Text) => Ok(ComponentNodeView { node: NodeView::Text(text_of(element)), layout }),
        Some(Kind::Column) => if 0 <= index < nodes.len() {
            match children_of(nodes, index + 1, subtree_end(nodes, index)) {
                Ok(children) => Ok(ComponentNodeView { node: NodeView::Column(children), layout }),
                Err(e) => Err(e),
            }
        } else {
            Ok(ComponentNodeView { node: NodeView::Column(Seq::empty()), layout })
        },
        Some(Kind::Row) => if 0 <= index < nodes.len() {
            match children_of(nodes, index + 1, subtree_end(nodes, index)) {
                Ok(children) => Ok(ComponentNodeView { node: NodeView::Row(children), layout }),
                Err(e) => Err(e),
            }
        } else {
            Ok(ComponentNodeView { node: NodeView::Row(Seq::empty()), layout })
        },
    }
}

/// The child nodes that a container gathers from the nodes between `from`
/// and `end`, in document order. Every element met on the way is a child.
/// After a container the walk goes on behind that container's subtree, whose
/// elements are its own children; after any other element it goes on with
/// the next node.
pub open spec fn children_of(nodes: Seq<XmlNodeView>, from: int, end: int) -> Result<
    Seq<ComponentNodeView>,
    ParseErrorView,
>
    decreases remaining(nodes, from), 1int,
{
    if from < 0 || from >= end || from >= nodes.len() {
        Ok(Seq::empty())
    } else if !nodes[from].element {
        children_of(nodes, from + 1, end)
    } else {
        match node_of(nodes, from) {
            Err(e) => Err(e),
            Ok(first) => {
                let next = if is_container(nodes[from].name) {
                    subtree_end(nodes, from)
                } else {
                    from + 1
                };
                match children_of(nodes, next, end) {
                    Ok(rest) => Ok(seq![first] + rest),
                    Err(e) => Err(e),
                }
            },
        }
    }
}

/// The places of the elements that a container takes for its children on the
/// walk from `from` to `end`.
pub open spec fn child_positions(nodes: Seq<XmlNodeView>, from: int, end: int) -> Seq<int>
    decreases remaining(nodes, from),
{
    if from < 0 || from >= end || from >= nodes.len() {
        Seq::empty()
    } else if !nodes[from].element {
        child_positions(nodes, from + 1, end)
    } else {
        let next = if is_container(nodes[from].name) {
            subtree_end(nodes, from)
        } else {
            from + 1
        };
        seq![from] + child_positions(nodes, next, end)
    }
}

/// A container's children stand in document order: the places of the
/// elements that it takes for children rise strictly, each is the place of
/// an element between `from` and `end`, and where the children can be parsed
/// there is one child for each place, in the order of the places.
pub proof fn children_in_document_order(nodes: Seq<XmlNodeView>, from: int, end: int)
    ensures
        ({
            let places = child_positions(nodes, from, end);
            &&& forall|k: int|
                0 <= k < places.len() ==> from <= #[trigger] places[k] < end && places[k]
                    < nodes.len() && nodes[places[k]].element
            &&& forall|j: int, k: int|
                0 <= j < k < places.len() ==> #[trigger] places[j] < #[trigger] places[k]
            &&& children_of(nodes, from, end) matches Ok(children) ==> {
                &&& children.len() == places.len()
                &&& forall|k: int|
                    0 <= k < places.len() ==> node_of(nodes, #[trigger] places[k]) == Ok::<
                        ComponentNodeView,
                        ParseErrorView,
                    >(children[k])
            }
        }),
    decreases remaining(nodes, from),
{
    if from < 0 || from >= end || from >= nodes.len() {
    } else if !nodes[from].element {
        children_in_document_order(nodes, from + 1, end);
    } else {
        let next = if is_container(nodes[from].name) {
            subtree_end(nodes, from)
        } else {
            from + 1
        };
        children_in_document_order(nodes, next, end);
        let rest = child_positions(nodes, next, end);
        let places = child_positions(nodes, from, end);
        assert(places == seq![from] + rest);
        assert forall|k: int| 0 <= k < places.len() implies from <= #[trigger] places[k] < end
            && places[k] < nodes.len() && nodes[places[k]].element by {
            if k > 0 {
                assert(places[k] == rest[k - 1]);
            }
        }
        assert forall|j: int, k: int| 0 <= j < k < places.len() implies #[trigger] places[j]
            < #[trigger] places[k] by {
            assert(places[k] == rest[k - 1]);
            if j > 0 {
                assert(places[j] == rest[j - 1]);
            }
        }
        if let Ok(children) = children_of(nodes, from, end) {
            let first = node_of(nodes, from)->Ok_0;
            let others = children_of(nodes, next, end)->Ok_0;
            assert(children == seq![first] + others);
            assert forall|k: int| 0 <= k < places.len() implies node_of(nodes, #[trigger] places[k])
                == Ok::<ComponentNodeView, ParseErrorView>(children[k]) by {
                if k > 0 {
                    assert(places[k] == rest[k - 1]);
                    assert(children[k] == others[k - 1]);
                }
            }
        }
    }
}

/// The places of the elements between `from` and `end`, in document order.
pub open spec fn elements_in(nodes: Seq<XmlNodeView>, from: int, end: int) -> Seq<int>
    decreases remaining(nodes, from),
{
    if from < 0 || from >= end || from >= nodes.len() {
        Seq::empty()
    } else if nodes[from].element {
        seq![from] + elements_in(nodes, from + 1, end)
    } else {
        elements_in(nodes, from + 1, end)
    }
}

/// The places of the elements that make up the node of the element at
/// `index`, in the depth-first order of that node's tree.
pub open spec fn tree_positions(nodes: Seq<XmlNodeView>, index: int) -> Seq<int>
    decreases remaining(nodes, index), 0int,
{
    if 0 <= index < nodes.len() && is_container(nodes[index].name) {
        seq![index] + walk_positions(nodes, index + 1, subtree_end(nodes, index))
    } else {
        seq![index]
    }
}

/// The places of the elements that make up the children which a container
/// gathers between `from` and `end`, in the depth-first order of their trees.
pub open spec fn walk_positions(nodes: Seq<XmlNodeView>, from: int, end: int) -> Seq<int>
    decreases remaining(nodes, from), 1int,
{
    if from < 0 || from >= end || from >= nodes.len() {
        Seq::empty()
    } else if !nodes[from].element {
        walk_positions(nodes, from + 1, end)
    } else {
        let next = if is_container(nodes[from].name) {
            subtree_end(nodes, from)
        } else {
            from + 1
        };
        tree_positions(nodes, from) + walk_positions(nodes, next, end)
    }
}

proof fn elements_in_split(nodes: Seq<XmlNodeView>, from: int, middle: int, end: int)
    requires
        0 <= from <= middle <= end <= nodes.len(),
    ensures
        elements_in(nodes, from, end) == elements_in(nodes, from, middle) + elements_in(
            nodes,
            middle,
            end,
        ),
    decreases middle - from,
{
    if from < middle {
        elements_in_split(nodes, from + 1, middle, end);
        if nodes[from].element {
            assert(seq![from] + (elements_in(nodes, from + 1, middle) + elements_in(
                nodes,
                middle,
                end,
            )) =~= seq![from] + elements_in(nodes, from + 1, middle) + elements_in(
                nodes,
                middle,
                end,
            ));
        }
    } else {
        assert(Seq::<int>::empty() + elements_in(nodes, middle, end) =~= elements_in(
            nodes,
            middle,
            end,
        ));
    }
}

/// In a tree, the walk of a container meets every element between `from`
/// and `end` once, in document order, where no subtree that starts in that
/// range ends behind it.
pub proof fn walk_meets_every_element(nodes: Seq<XmlNodeView>, from: int, end: int)
    requires
        is_tree(nodes),
        0 <= from <= end <= nodes.len(),
        forall|j: int| from <= j < end ==> j + (#[trigger] nodes[j]).span <= end,
    ensures
        walk_positions(nodes, from, end) == elements_in(nodes, from, end),
    decreases remaining(nodes, from),
{
    if from >= end {
    } else if !nodes[from].element {
        walk_meets_every_element(nodes, from + 1, end);
    } else if is_container(nodes[from].name) {
        let inner_end = subtree_end(nodes, from);
        assert(inner_end == from + nodes[from].span);
        walk_meets_every_element(nodes, from + 1, inner_end);
        walk_meets_every_element(nodes, inner_end, end);
        elements_in_split(nodes, from + 1, inner_end, end);
        let inner = elements_in(nodes, from + 1, inner_end);
        let after = elements_in(nodes, inner_end, end);
        assert(tree_positions(nodes, from) == seq![from] + inner);
        assert(walk_positions(nodes, from, end) == seq![from] + inner + after);
        assert(elements_in(nodes, from, end) == seq![from] + (inner + after));
        assert(seq![from] + inner + after =~= seq![from] + (inner + after));
    } else {
        walk_meets_every_element(nodes, from + 1, end);
        assert(tree_positions(nodes, from) == seq![from]);
    }
}

proof fn preorder_all_of_first_and_rest(first: ComponentNodeView, rest: Seq<ComponentNodeView>)
    ensures
        preorder_all(seq![first] + rest) == preorder(first) + preorder_all(rest),
    decreases rest.len(),
{
    let all = seq![first] + rest;
    if rest.len() == 0 {
        assert(all.drop_last() =~= Seq::<ComponentNodeView>::empty());
        assert(all.last() == first);
        assert(preorder_all(all.drop_last()) =~= Seq::<ComponentNodeView>::empty());
        assert(Seq::<ComponentNodeView>::empty() + preorder(first) =~= preorder(first));
        assert(preorder(first) + Seq::<ComponentNodeView>::empty() =~= preorder(first));
    } else {
        preorder_all_of_first_and_rest(first, rest.drop_last());
        assert(all.drop_last() =~= seq![first] + rest.drop_last());
        assert(all.last() == rest.last());
        assert(preorder(first) + preorder_all(rest.drop_last()) + preorder(rest.last())
            =~= preorder(first) + (preorder_all(rest.drop_last()) + preorder(rest.last())));
    }
}

/// Whether a run of tree nodes is made of the elements at a run of places:
/// one node for each place, in the same order, each the node of the element
/// at its place.
pub open spec fn made_of(
    nodes: Seq<XmlNodeView>,
    visited: Seq<ComponentNodeView>,
    places: Seq<int>,
) -> bool {
    &&& visited.len() == places.len()
    &&& forall|k: int|
        0 <= k < places.len() ==> node_of(nodes, #[trigger] places[k]) == Ok::<
            ComponentNodeView,
            ParseErrorView,
        >(visited[k])
}

proof fn made_of_both(
    nodes: Seq<XmlNodeView>,
    a: Seq<ComponentNodeView>,
    p: Seq<int>,
    b: Seq<ComponentNodeView>,
    q: Seq<int>,
)
    requires
        made_of(nodes, a, p),
        made_of(nodes, b, q),
    ensures
        made_of(nodes, a + b, p + q),
{
    assert forall|k: int| 0 <= k < (p + q).len() implies node_of(nodes, #[trigger] (p + q)[k])
        == Ok::<ComponentNodeView, ParseErrorView>((a + b)[k]) by {
        if k < p.len() {
            assert((p + q)[k] == p[k]);
        } else {
            assert((p + q)[k] == q[k - p.len()]);
        }
    }
}

/// The depth-first order of a parsed node is the order of its elements: the
/// nodes of the tree are the nodes of the elements at the tree's places, one
/// for each place and in the same order.
pub proof fn tree_is_made_of_its_elements(nodes: Seq<XmlNodeView>, index: int)
    ensures
        node_of(nodes, index) matches Ok(tree) ==> made_of(
            nodes,
            preorder(tree),
            tree_positions(nodes, index),
        ),
    decreases remaining(nodes, index), 0int,
{
    if let Ok(tree) = node_of(nodes, index) {
        if 0 <= index < nodes.len() && is_container(nodes[index].name) {
            let end = subtree_end(nodes, index);
            children_are_made_of_their_elements(nodes, index + 1, end);
            let children = children_of(nodes, index + 1, end)->Ok_0;
            assert(preorder(tree) == seq![tree] + preorder_all(children));
            assert(made_of(nodes, seq![tree], seq![index]));
            made_of_both(
                nodes,
                seq![tree],
                seq![index],
                preorder_all(children),
                walk_positions(nodes, index + 1, end),
            );
        } else {
            assert(preorder(tree) =~= seq![tree]);
        }
    }
}

/// The depth-first order of the children that a container gathers is the
/// order of their elements.
pub proof fn children_are_made_of_their_elements(nodes: Seq<XmlNodeView>, from: int, end: int)
    ensures
        children_of(nodes, from, end) matches Ok(children) ==> made_of(
            nodes,
            preorder_all(children),
            walk_positions(nodes, from, end),
        ),
    decreases remaining(nodes, from), 1int,
{
    if let Ok(children) = children_of(nodes, from, end) {
        if from < 0 || from >= end || from >= nodes.len() {
            assert(preorder_all(children) =~= Seq::<ComponentNodeView>::empty());
        } else if !nodes[from].element {
            children_are_made_of_their_elements(nodes, from + 1, end);
        } else {
            let next = if is_container(nodes[from].name) {
                subtree_end(nodes, from)
            } else {
                from + 1
            };
            let first = node_of(nodes, from)->Ok_0;
            let rest = children_of(nodes, next, end)->Ok_0;
            tree_is_made_of_its_elements(nodes, from);
            children_are_made_of_their_elements(nodes, next, end);
            preorder_all_of_first_and_rest(first, rest);
            made_of_both(
                nodes,
                preorder(first),
                tree_positions(nodes, from),
                preorder_all(rest),
                walk_positions(nodes, next, end),
            );
        }
    }
}

/// Every element below a container is a node once: in a tree, the
/// depth-first order of the node of a container holds one node for the
/// container and one for each element of its subtree, in document order,
/// each the node of its element.
pub proof fn every_element_is_a_node_once(nodes: Seq<XmlNodeView>, index: int)
    requires
        is_tree(nodes),
        0 <= index < nodes.len(),
        is_container(nodes[index].name),
    ensures
        node_of(nodes, index) matches Ok(tree) ==> made_of(
            nodes,
            preorder(tree),
            seq![index] + elements_in(nodes, index + 1, subtree_end(nodes, index)),
        ),
{
    tree_is_made_of_its_elements(nodes, index);
    let end = subtree_end(nodes, index);
    assert(end == index + nodes[index].span);
    walk_meets_every_element(nodes, index + 1, end);
}

/// An element that names no alignment and no padding gets the default
/// layout: left, top, zero.
pub proof fn layout_defaults(node: XmlNodeView)
    requires
        attribute_value(node, "HorizontalAlignment"@) is None,
        attribute_value(node, "VerticalAlignment"@) is None,
        attribute_value(node, "Padding"@) is None,
    ensures
        layout_of(node) == default_layout(),
{
}

/// Every node carries the layout of its element, whatever its kind.
pub proof fn nodes_carry_their_layout(nodes: Seq<XmlNodeView>, index: int)
    ensures
        node_of(nodes, index) matches Ok(node) ==> node.layout == layout_of(nodes[index]),
{
}

/// A numeric attribute that is absent or no number gets its default.
pub proof fn numeric_attribute_defaults(node: XmlNodeView, name: Seq<char>, default: Seq<char>)
    requires
        match attribute_value(node, name) {
            Some(v) => !is_float_literal(v),
            None => true,
        },
    ensures
        numeric_attribute(node, name, default) == default,
{
}

/// An element whose tag names no kind of node is an error, wherever it
/// stands.
pub proof fn unknown_tags_are_rejected(nodes: Seq<XmlNodeView>, index: int)
    requires
        kind_of(nodes[index].name) is None,
    ensures
        node_of(nodes, index) == Err::<ComponentNodeView, ParseErrorView>(
            ParseErrorView::UnsupportedElement {
                tag: nodes[index].name,
                path: path_of(nodes, index),
            },
        ),
{
}

/// The component that a document describes, where its top-level element is
/// to have the tag `root_tag`.
pub open spec fn component_of(nodes: Seq<XmlNodeView>, root_tag: Seq<char>) -> Result<
    ComponentView,
    ParseErrorView,
> {
    match root_element(nodes) {
        None => Err(ParseErrorView::MissingRoot),
        Some(root) => if nodes[root].name != root_tag {
            Err(ParseErrorView::UnexpectedRoot { found: nodes[root].name })
        } else {
            let message_type = attribute_value(nodes[root], "Message"@);
            let model_type = attribute_value(nodes[root], "Model"@);
            match first_element_child(nodes, root) {
                None => Ok(ComponentView { content: None, message_type, model_type }),
                Some(child) => match node_of(nodes, child) {
                    Ok(node) => Ok(ComponentView { content: Some(node), message_type, model_type }),
                    Err(e) => Err(e),
                },
            }
        },
    }
}

/// The component that a markup text describes.
pub open spec fn component_of_text(table: Option<Seq<XmlNodeView>>) -> Result<
    ComponentView,
    ParseErrorView,
> {
    match table {
        None => Err(ParseErrorView::Malformed),
        Some(nodes) => if is_tree(nodes) {
            component_of(nodes, ROOT_TAG@)
        } else {
            Err(ParseErrorView::Inconsistent)
        },
    }
}

fn owned(text: Option<&str>) -> (r: Option<String>)
    ensures
        r is Some <==> text is Some,
        r matches Some(s) ==> text matches Some(t) && s@ == t@,
{
    match text {
        Some(t) => Some(String::from_str(t)),
        None => None,
    }
}

fn owned_or_empty(text: Option<&str>) -> (r: String)
    ensures
        r@ == (match text {
            Some(t) => t@,
            None => Seq::<char>::empty(),
        }),
{
    match text {
        Some(t) => String::from_str(t),
        None => String::new(),
    }
}

/// The layout that an element's attributes give: `HorizontalAlignment` and
/// `VerticalAlignment`, matched without regard to case, and `Padding`. What
/// is absent or not understood gets its default: left, top, zero.
pub fn parse_layout(node: &NodeRef<'_>) -> (r: NodeLayout)
    ensures
        r@ == layout_of(node.node()),
{
    let align_x = match node.attribute("HorizontalAlignment") {
        Some(v) => HorizontalAlignment::from(v),
        None => HorizontalAlignment::default(),
    };
    let align_y = match node.attribute("VerticalAlignment") {
        Some(v) => VerticalAlignment::from(v),
        None => VerticalAlignment::default(),
    };
    let padding = Padding { value: Number::parse_or(node.attribute("Padding"), Number::zero()) };
    NodeLayout { align_x, align_y, padding }
}

/// The button that an element describes: its text is the content, its
/// `Message` attribute the message; each is empty where the element has none.
pub fn parse_button_node(node: NodeRef<'_>) -> (r: ButtonNode)
    ensures
        r@ == button_of(node.node()),
{
    ButtonNode {
        content: owned_or_empty(node.text()),
        message: owned_or_empty(node.attribute("Message")),
    }
}

/// The label that an element describes: the content is its text, or else its
/// `Content` attribute, or else empty; the size is its `Size` attribute, or
/// ten where that is absent or no number.
pub fn parse_text_node(node: NodeRef<'_>) -> (r: TextNode)
    ensures
        r@ == text_of(node.node()),
{
    let content = match node.text() {
        Some(text) => String::from_str(text),
        None => owned_or_empty(node.attribute("Content")),
    };
    let size = Number::parse_or(node.attribute("Size"), Number::ten());
    TextNode { content, size }
}

fn parse_children(node: NodeRef<'_>) -> (r: Result<Vec<Box<ComponentNode>>, ParseError>)
    ensures
        match r {
            Ok(children) => children_of(
                node.nodes(),
                node.index() + 1,
                subtree_end(node.nodes(), node.index()),
            ) == Ok::<Seq<ComponentNodeView>, ParseErrorView>(children_view(children@)),
            Err(e) => children_of(
                node.nodes(),
                node.index() + 1,
                subtree_end(node.nodes(), node.index()),
            ) == Err::<Seq<ComponentNodeView>, ParseErrorView>(e@),
        },
    decreases node.nodes().len() - node.index(), 0int,
{
    let ghost nodes = node.nodes();
    let start = node.position();
    let end = start + node.span();
    let mut children: Vec<Box<ComponentNode>> = Vec::new();
    let mut i: usize = start + 1;
    while i < end
        invariant
            start < i,
            end <= nodes.len(),
            nodes == node.nodes(),
            start == node.index(),
            end == subtree_end(nodes, start as int),
            spans_fit(nodes),
            children_of(nodes, start + 1, end as int) == (match children_of(
                nodes,
                i as int,
                end as int,
            ) {
                Ok(rest) => Ok::<Seq<ComponentNodeView>, ParseErrorView>(
                    children_view(children@) + rest,
                ),
                Err(e) => Err(e),
            }),
        decreases nodes.len() - i,
    {
        let child = node.node_at(i);
        if child.is_element() {
            let ghost before = children_view(children@);
            let parsed = match parse_component_node(child) {
                Ok(parsed) => parsed,
                Err(e) => {
                    assert(children_of(nodes, i as int, end as int) == Err::<
                        Seq<ComponentNodeView>,
                        ParseErrorView,
                    >(e@));
                    return Err(e);
                },
            };
            let ghost first = parsed@;
            children.push(Box::new(parsed));
            let next = if is_container_tag(child.tag_name()) {
                i + child.span()
            } else {
                i + 1
            };
            proof {
                assert(children_view(children@) =~= before + seq![first]);
                match children_of(nodes, next as int, end as int) {
                    Ok(rest) => {
                        assert(before + (seq![first] + rest) =~= children_view(children@) + rest);
                    },
                    Err(e) => {},
                }
            }
            i = next;
        } else {
            i += 1;
        }
    }
    assert(children_view(children@) + Seq::<ComponentNodeView>::empty() =~= children_view(
        children@,
    ));
    Ok(children)
}

fn is_container_tag(tag: &str) -> (r: bool)
    ensures
        r == is_container(tag@),
{
    match Kind::of(tag) {
        Some(Kind::Column) => true,
        Some(Kind::Row) => true,
        _ => false,
    }
}

/// The column that an element describes: its children are the elements
/// below it, in document order, each at its nearest enclosing container.
pub fn parse_column_node(node: NodeRef<'_>) -> (r: Result<ColumnNode, ParseError>)
    ensures
        same(r, children_of(node.nodes(), node.index() + 1, subtree_end(node.nodes(), node.index()))),
    decreases node.nodes().len() - node.index(), 1int,
{
    match parse_children(node) {
        Ok(content) => Ok(ColumnNode { content }),
        Err(e) => Err(e),
    }
}

/// The row that an element describes: its children are the elements below
/// it, in document order, each at its nearest enclosing container.
pub fn parse_row_node(node: NodeRef<'_>) -> (r: Result<RowNode, ParseError>)
    ensures
        same(r, children_of(node.nodes(), node.index() + 1, subtree_end(node.nodes(), node.index()))),
    decreases node.nodes().len() - node.index(), 1int,
{
    match parse_children(node) {
        Ok(content) => Ok(RowNode { content }),
        Err(e) => Err(e),
    }
}

/// The node that an element describes. The tag chooses the kind; a tag that
/// names none is an error, with the tag and the element's path.
pub fn parse_component_node(node: NodeRef<'_>) -> (r: Result<ComponentNode, ParseError>)
    ensures
        same(r, node_of(node.nodes(), node.index())),
    decreases node.nodes().len() - node.index(), 2int,
{
    let layout = parse_layout(&node);
    let component = match Kind::of(node.tag_name()) {
        Some(Kind::Button) => Node::Button(parse_button_node(node)),
        Some(Kind::Text) => Node::Text(parse_text_node(node)),
        Some(Kind::Column) => match parse_column_node(node) {
            Ok(column) => Node::Column(column),
            Err(e) => {
                return Err(e);
            },
        },
        Some(Kind::Row) => match parse_row_node(node) {
            Ok(row) => Node::Row(row),
            Err(e) => {
                return Err(e);
            },
        },
        None => {
            return Err(
                ParseError::UnsupportedElement {
                    tag: String::from_str(node.tag_name()),
                    path: node.path(),
                },
            );
        },
    };
    Ok(ComponentNode { node: component, layout })
}

/// The component that a document describes. Its top-level element must have
/// the tag `root_tag`; the attributes `Message` and `Model` of that element
/// name the message and model types; its first child element, if it has one,
/// is the content.
pub fn parse_component(document: &Document, root_tag: &str) -> (r: Result<Component, ParseError>)
    ensures
        same(r, component_of(document@, root_tag@)),
{
    let root = match document.root_element() {
        Some(root) => root,
        None => {
            return Err(ParseError::MissingRoot);
        },
    };
    if !str_eq(root.tag_name(), root_tag) {
        return Err(ParseError::UnexpectedRoot { found: String::from_str(root.tag_name()) });
    }
    let message_type = owned(root.attribute("Message"));
    let model_type = owned(root.attribute("Model"));
    let content = match root.first_element_child() {
        Some(child) => match parse_component_node(child) {
            Ok(node) => Some(node),
            Err(e) => {
                return Err(e);
            },
        },
        None => None,
    };
    Ok(Component { content, message_type, model_type })
}

/// The component that a markup text describes.
pub fn parse_str(content: &str) -> (r: Result<Component, ParseError>)
    ensures
        same(r, component_of_text(xml_nodes(content@))),
{
    match Document::parse(content) {
        Ok(document) => parse_component(&document, ROOT_TAG),
        Err(e) => Err(ParseError::Markup(e)),
    }
}

} // verus!
