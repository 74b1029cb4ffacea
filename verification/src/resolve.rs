//! Resolution: the node tree once the host parser has been asked.
//!
//! Whether a value is literal text or an embedded expression is settled once,
//! here, for every value of a tree. The emitters take the resolved tree and
//! ask nobody, so they cannot come to different conclusions.
use vstd::prelude::*;
use vstd::string::*;
use crate::expr::{
    inner_text, is_host_expression, resolve_value, resolves_value, trim_iced_expr, Resolved,
    ResolvedView,
};
use crate::node::{
    children_view, ButtonNode, ColumnNode, ComponentNode, ComponentNodeView, Node, NodeLayout,
    NodeLayoutView, NodeView, RowNode, TextNode,
};
use crate::number::Number;

verus! {

/// What pressing a button raises, once the host parser has been asked about
/// the wiring call.
#[derive(Debug, Clone, PartialEq, Eq)]
pub enum Wiring {
    /// The message is empty: nothing is raised.
    Inert,
    /// The action that the message names: the message without the braces
    /// around it.
    Action(String),
    /// The message as it came: wiring what it names is no expression of the
    /// host language.
    Malformed(String),
}

/// A [`Wiring`] as plain text.
pub enum WiringView {
    Inert,
    Action(Seq<char>),
    Malformed(Seq<char>),
}

impl View for Wiring {
    type V = WiringView;

    open spec fn view(&self) -> WiringView {
        match self {
            Wiring::Inert => WiringView::Inert,
            Wiring::Action(action) => WiringView::Action(action@),
            Wiring::Malformed(message) => WiringView::Malformed(message@),
        }
    }
}

/// The action that a button's message names: the message without the braces
/// around it.
pub open spec fn action_of(message: Seq<char>) -> Seq<char> {
    inner_text(message)
}

/// The call that wires an action to a button, as it stands in construction
/// logic.
pub open spec fn action_call(action: Seq<char>) -> Seq<char> {
    "on_press(Self::Message::"@ + action + ")"@
}

/// What is wired to a button with this message, given whether the wiring
/// call is an expression of the host language.
pub open spec fn wiring_of(message: Seq<char>, valid: bool) -> WiringView {
    if message.len() == 0 {
        WiringView::Inert
    } else if valid {
        WiringView::Action(action_of(message))
    } else {
        WiringView::Malformed(message)
    }
}

/// Whether `out` is what the message `message` wires under one of the two
/// answers that the host parser can give.
pub open spec fn resolves_wiring(message: Seq<char>, out: WiringView) -> bool {
    out == wiring_of(message, true) || out == wiring_of(message, false)
}

/// What a node is once its values are resolved.
#[derive(Debug, PartialEq, Eq)]
pub enum ResolvedKind {
    Button { content: Resolved, wiring: Wiring },
    Text { content: Resolved, size: Number },
    Column(Vec<ResolvedNode>),
    Row(Vec<ResolvedNode>),
}

/// A node once its values are resolved.
#[derive(Debug, PartialEq, Eq)]
pub struct ResolvedNode {
    pub layout: NodeLayout,
    pub kind: ResolvedKind,
}

/// A [`ResolvedKind`] as plain values.
pub enum ResolvedKindView {
    Button { content: ResolvedView, wiring: WiringView },
    Text { content: ResolvedView, size: Seq<char> },
    Column(Seq<ResolvedNodeView>),
    Row(Seq<ResolvedNodeView>),
}

/// A [`ResolvedNode`] as plain values.
pub struct ResolvedNodeView {
    pub layout: NodeLayoutView,
    pub kind: ResolvedKindView,
}

/// The plain form of a run of resolved nodes, in their order.
pub open spec fn resolved_nodes_view(nodes: Seq<ResolvedNode>) -> Seq<ResolvedNodeView>
    decreases nodes,
{
    Seq::new(
        nodes.len(),
        |i: int|
            if 0 <= i < nodes.len() {
                resolved_node_view(nodes[i])
            } else {
                arbitrary()
            },
    )
}

/// The plain form of what a resolved node is.
pub open spec fn resolved_kind_view(kind: ResolvedKind) -> ResolvedKindView
    decreases kind,
{
    match kind {
        ResolvedKind::Button { content, wiring } => ResolvedKindView::Button {
            content: content@,
            wiring: wiring@,
        },
        ResolvedKind::Text { content, size } => ResolvedKindView::Text {
            content: content@,
            size: size@,
        },
        ResolvedKind::Column(nodes) => ResolvedKindView::Column(resolved_nodes_view(nodes@)),
        ResolvedKind::Row(nodes) => ResolvedKindView::Row(resolved_nodes_view(nodes@)),
    }
}

/// The plain form of a resolved node.
pub open spec fn resolved_node_view(node: ResolvedNode) -> ResolvedNodeView
    decreases node,
{
    ResolvedNodeView { layout: node.layout@, kind: resolved_kind_view(node.kind) }
}

impl View for ResolvedKind {
    type V = ResolvedKindView;

    open spec fn view(&self) -> ResolvedKindView {
        resolved_kind_view(*self)
    }
}

impl View for ResolvedNode {
    type V = ResolvedNodeView;

    open spec fn view(&self) -> ResolvedNodeView {
        resolved_node_view(*self)
    }
}

/// The resolved nodes that a resolved container holds; none for any other
/// node.
pub open spec fn resolved_children(node: ResolvedNodeView) -> Seq<ResolvedNodeView> {
    match node.kind {
        ResolvedKindView::Column(nodes) => nodes,
        ResolvedKindView::Row(nodes) => nodes,
        _ => Seq::empty(),
    }
}

/// Whether `out` is a resolution of what a node is: of the same kind, with
/// each value resolved under an answer that the host parser can give, and
/// with the children resolved one by one, in their order.
pub open spec fn resolves_kind(node: NodeView, out: ResolvedKindView) -> bool
    decreases node,
{
    match node {
        NodeView::Button(button) => {
            &&& out matches ResolvedKindView::Button { content, wiring }
            &&& resolves_value(button.content, content)
            &&& resolves_wiring(button.message, wiring)
        },
        NodeView::Text(text) => {
            &&& out matches ResolvedKindView::Text { content, size }
            &&& resolves_value(text.content, content)
            &&& size == text.size
        },
        NodeView::Column(children) => {
            &&& out matches ResolvedKindView::Column(nodes)
            &&& resolves_all(children, nodes)
        },
        NodeView::Row(children) => {
            &&& out matches ResolvedKindView::Row(nodes)
            &&& resolves_all(children, nodes)
        },
    }
}

/// Whether `out` resolves a run of nodes one by one, in their order.
pub open spec fn resolves_all(nodes: Seq<ComponentNodeView>, out: Seq<ResolvedNodeView>) -> bool
    decreases nodes,
{
    &&& out.len() == nodes.len()
    &&& forall|i: int| 0 <= i < nodes.len() ==> resolves(#[trigger] nodes[i], out[i])
}

/// Whether `out` is a resolution of a node: with the node's layout, and a
/// resolution of what the node is.
pub open spec fn resolves(node: ComponentNodeView, out: ResolvedNodeView) -> bool
    decreases node,
{
    &&& out.layout == node.layout
    &&& resolves_kind(node.node, out.kind)
}

/// What is wired to a button with this message, where `valid` tells whether
/// the wiring call is an expression of the host language.
pub fn wire(message: &str, valid: bool) -> (r: Wiring)
    ensures
        r@ == wiring_of(message@, valid),
{
    if message.is_empty() {
        Wiring::Inert
    } else if valid {
        Wiring::Action(String::from_str(trim_iced_expr(message)))
    } else {
        Wiring::Malformed(String::from_str(message))
    }
}

/// What is wired to a button with this message. The host parser is asked
/// about the call that wires the action which the message names; the outcome
/// is that of [`wire`] for the answer that came back.
pub fn resolve_wiring(message: &str) -> (r: Wiring)
    ensures
        resolves_wiring(message@, r@),
{
    let mut call = String::from_str("on_press(Self::Message::");
    call.append(trim_iced_expr(message));
    call.append(")");
    assert(call@ == action_call(action_of(message@)));
    let valid = is_host_expression(call.as_str());
    wire(message, valid)
}

/// A resolution of a button: of its content and of its message.
pub fn resolve_button_node(node: &ButtonNode) -> (r: ResolvedKind)
    ensures
        resolves_kind(NodeView::Button(node@), r@),
{
    ResolvedKind::Button {
        content: resolve_value(node.content.as_str()),
        wiring: resolve_wiring(node.message.as_str()),
    }
}

/// A resolution of a label: of its content, with the node's size.
pub fn resolve_text_node(node: &TextNode) -> (r: ResolvedKind)
    ensures
        resolves_kind(NodeView::Text(node@), r@),
{
    ResolvedKind::Text { content: resolve_value(node.content.as_str()), size: node.size.clone() }
}

fn resolve_children(children: &Vec<Box<ComponentNode>>) -> (r: Vec<ResolvedNode>)
    ensures
        resolves_all(children_view(children@), resolved_nodes_view(r@)),
    decreases children,
{
    let mut out: Vec<ResolvedNode> = Vec::new();
    let mut i: usize = 0;
    while i < children.len()
        invariant
            i <= children.len(),
            out.len() == i,
            forall|k: int| 0 <= k < i ==> resolves(children[k]@, (#[trigger] out[k])@),
        decreases children.len() - i,
    {
        out.push(resolve_component_node(&children[i]));
        i += 1;
    }
    assert forall|k: int| 0 <= k < children.len() implies resolves(
        #[trigger] children_view(children@)[k],
        resolved_nodes_view(out@)[k],
    ) by {
        assert(resolves(children[k]@, out[k]@));
    }
    out
}

/// A resolution of a column: of its children, in their order.
pub fn resolve_column_node(node: &ColumnNode) -> (r: ResolvedKind)
    ensures
        resolves_kind(NodeView::Column(node@), r@),
    decreases node,
{
    ResolvedKind::Column(resolve_children(&node.content))
}

/// A resolution of a row: of its children, in their order.
pub fn resolve_row_node(node: &RowNode) -> (r: ResolvedKind)
    ensures
        resolves_kind(NodeView::Row(node@), r@),
    decreases node,
{
    ResolvedKind::Row(resolve_children(&node.content))
}

/// A resolution of a node: the node with its layout, every value in it
/// resolved under the answer that the host parser gave for it.
pub fn resolve_component_node(node: &ComponentNode) -> (r: ResolvedNode)
    ensures
        resolves(node@, r@),
    decreases node,
{
    let kind = match &node.node {
        Node::Button(button_node) => resolve_button_node(button_node),
        Node::Text(text_node) => resolve_text_node(text_node),
        Node::Column(column_node) => resolve_column_node(column_node),
        Node::Row(row_node) => resolve_row_node(row_node),
    };
    ResolvedNode { layout: node.layout.clone(), kind }
}

} // verus!
