//! The node tree: the typed form of one markup document.
use vstd::prelude::*;
use vstd::string::*;
use crate::number::{Number, ZERO};
use crate::plain::text_view;
use crate::text::{lowercase, str_eq, to_lowercase};

verus! {

/// Where a node sits horizontally in the room it is given.
#[derive(Debug, Copy, Clone, PartialEq, Eq, Structural)]
pub enum HorizontalAlignment {
    Left,
    Center,
    Right,
    Stretch,
}

/// Where a node sits vertically in the room it is given.
#[derive(Debug, Copy, Clone, PartialEq, Eq, Structural)]
pub enum VerticalAlignment {
    Top,
    Center,
    Bottom,
    Stretch,
}

/// The horizontal alignment that a lower-case word names; `Left` for any
/// other text.
pub open spec fn horizontal_of(word: Seq<char>) -> HorizontalAlignment {
    if word == "left"@ {
        HorizontalAlignment::Left
    } else if word == "center"@ {
        HorizontalAlignment::Center
    } else if word == "right"@ {
        HorizontalAlignment::Right
    } else if word == "stretch"@ {
        HorizontalAlignment::Stretch
    } else {
        HorizontalAlignment::Left
    }
}

/// The vertical alignment that a lower-case word names; `Top` for any other
/// text.
pub open spec fn vertical_of(word: Seq<char>) -> VerticalAlignment {
    if word == "top"@ {
        VerticalAlignment::Top
    } else if word == "center"@ {
        VerticalAlignment::Center
    } else if word == "bottom"@ {
        VerticalAlignment::Bottom
    } else if word == "stretch"@ {
        VerticalAlignment::Stretch
    } else {
        VerticalAlignment::Top
    }
}

impl HorizontalAlignment {
    /// The alignment that a word names once it is in lower case.
    pub fn from_lowercase(word: &str) -> (r: HorizontalAlignment)
        ensures
            r == horizontal_of(word@),
    {
        if str_eq(word, "left") {
            HorizontalAlignment::Left
        } else if str_eq(word, "center") {
            HorizontalAlignment::Center
        } else if str_eq(word, "right") {
            HorizontalAlignment::Right
        } else if str_eq(word, "stretch") {
            HorizontalAlignment::Stretch
        } else {
            HorizontalAlignment::Left
        }
    }
}

impl VerticalAlignment {
    /// The alignment that a word names once it is in lower case.
    pub fn from_lowercase(word: &str) -> (r: VerticalAlignment)
        ensures
            r == vertical_of(word@),
    {
        if str_eq(word, "top") {
            VerticalAlignment::Top
        } else if str_eq(word, "center") {
            VerticalAlignment::Center
        } else if str_eq(word, "bottom") {
            VerticalAlignment::Bottom
        } else if str_eq(word, "stretch") {
            VerticalAlignment::Stretch
        } else {
            VerticalAlignment::Top
        }
    }
}

impl Default for HorizontalAlignment {
    fn default() -> (r: HorizontalAlignment)
        ensures
            r == HorizontalAlignment::Left,
    {
        HorizontalAlignment::Left
    }
}

impl Default for VerticalAlignment {
    fn default() -> (r: VerticalAlignment)
        ensures
            r == VerticalAlignment::Top,
    {
        VerticalAlignment::Top
    }
}

impl<'a> From<&'a str> for HorizontalAlignment {
    fn from(value: &'a str) -> (r: HorizontalAlignment) {
        let word = to_lowercase(value);
        HorizontalAlignment::from_lowercase(word.as_str())
    }
}

impl<'a> vstd::std_specs::convert::FromSpecImpl<&'a str> for HorizontalAlignment {
    open spec fn obeys_from_spec() -> bool {
        true
    }

    open spec fn from_spec(value: &'a str) -> HorizontalAlignment {
        horizontal_of(lowercase(value@))
    }
}

impl<'a> From<&'a str> for VerticalAlignment {
    fn from(value: &'a str) -> (r: VerticalAlignment) {
        let word = to_lowercase(value);
        VerticalAlignment::from_lowercase(word.as_str())
    }
}

impl<'a> vstd::std_specs::convert::FromSpecImpl<&'a str> for VerticalAlignment {
    open spec fn obeys_from_spec() -> bool {
        true
    }

    open spec fn from_spec(value: &'a str) -> VerticalAlignment {
        vertical_of(lowercase(value@))
    }
}

/// The room left free around a node's content, on every side.
#[derive(Debug, PartialEq, Eq)]
pub struct Padding {
    pub value: Number,
}

impl View for Padding {
    type V = Seq<char>;

    open spec fn view(&self) -> Seq<char> {
        self.value@
    }
}

impl Clone for Padding {
    fn clone(&self) -> (r: Padding)
        ensures
            r@ == self@,
    {
        Padding { value: self.value.clone() }
    }
}

impl Default for Padding {
    fn default() -> (r: Padding)
        ensures
            r@ == ZERO@,
    {
        Padding { value: Number::zero() }
    }
}

/// Alignment and padding: what every node carries, whatever its kind.
#[derive(Debug, PartialEq, Eq)]
pub struct NodeLayout {
    pub align_x: HorizontalAlignment,
    pub align_y: VerticalAlignment,
    pub padding: Padding,
}

/// A [`NodeLayout`] with its padding as plain text.
pub struct NodeLayoutView {
    pub align_x: HorizontalAlignment,
    pub align_y: VerticalAlignment,
    pub padding: Seq<char>,
}

impl View for NodeLayout {
    type V = NodeLayoutView;

    open spec fn view(&self) -> NodeLayoutView {
        NodeLayoutView { align_x: self.align_x, align_y: self.align_y, padding: self.padding@ }
    }
}

/// The layout of a node that names none: left, top, no padding.
pub open spec fn default_layout() -> NodeLayoutView {
    NodeLayoutView {
        align_x: HorizontalAlignment::Left,
        align_y: VerticalAlignment::Top,
        padding: ZERO@,
    }
}

impl Clone for NodeLayout {
    fn clone(&self) -> (r: NodeLayout)
        ensures
            r@ == self@,
    {
        NodeLayout { align_x: self.align_x, align_y: self.align_y, padding: self.padding.clone() }
    }
}

impl Default for NodeLayout {
    fn default() -> (r: NodeLayout)
        ensures
            r@ == default_layout(),
    {
        NodeLayout {
            align_x: HorizontalAlignment::Left,
            align_y: VerticalAlignment::Top,
            padding: Padding::default(),
        }
    }
}

/// A pressable control.
#[derive(Debug, Clone, PartialEq, Eq)]
pub struct ButtonNode {
    /// What the control shows: literal text or an embedded expression.
    pub content: String,
    /// The action raised when the control is pressed; empty for none.
    pub message: String,
}

/// A [`ButtonNode`] as plain text.
pub struct ButtonNodeView {
    pub content: Seq<char>,
    pub message: Seq<char>,
}

impl View for ButtonNode {
    type V = ButtonNodeView;

    open spec fn view(&self) -> ButtonNodeView {
        ButtonNodeView { content: self.content@, message: self.message@ }
    }
}

/// A label.
#[derive(Debug, Clone, PartialEq, Eq)]
pub struct TextNode {
    /// What the label shows: literal text or an embedded expression.
    pub content: String,
    /// The size of the lettering.
    pub size: Number,
}

/// A [`TextNode`] as plain text.
pub struct TextNodeView {
    pub content: Seq<char>,
    pub size: Seq<char>,
}

impl View for TextNode {
    type V = TextNodeView;

    open spec fn view(&self) -> TextNodeView {
        TextNodeView { content: self.content@, size: self.size@ }
    }
}

/// A vertical container.
#[derive(Debug, PartialEq, Eq)]
pub struct ColumnNode {
    pub content: Vec<Box<ComponentNode>>,
}

/// A horizontal container.
#[derive(Debug, PartialEq, Eq)]
pub struct RowNode {
    pub content: Vec<Box<ComponentNode>>,
}

/// What a node is, with what belongs to that kind alone.
#[derive(Debug, PartialEq, Eq)]
pub enum Node {
    Button(ButtonNode),
    Text(TextNode),
    Column(ColumnNode),
    Row(RowNode),
}

/// One node of the tree.
#[derive(Debug, PartialEq, Eq)]
pub struct ComponentNode {
    pub node: Node,
    pub layout: NodeLayout,
}

/// A [`Node`] as plain values.
pub enum NodeView {
    Button(ButtonNodeView),
    Text(TextNodeView),
    Column(Seq<ComponentNodeView>),
    Row(Seq<ComponentNodeView>),
}

/// A [`ComponentNode`] as plain values.
pub struct ComponentNodeView {
    pub node: NodeView,
    pub layout: NodeLayoutView,
}

/// The plain form of a run of child nodes, in their order.
pub open spec fn children_view(children: Seq<Box<ComponentNode>>) -> Seq<ComponentNodeView>
    decreases children,
{
    Seq::new(
        children.len(),
        |i: int|
            if 0 <= i < children.len() {
                component_node_view(*children[i])
            } else {
                arbitrary()
            },
    )
}

/// The plain form of what a node is.
pub open spec fn node_view(node: Node) -> NodeView
    decreases node,
{
    match node {
        Node::Button(button) => NodeView::Button(button@),
        Node::Text(text) => NodeView::Text(text@),
        Node::Column(column) => NodeView::Column(children_view(column.content@)),
        Node::Row(row) => NodeView::Row(children_view(row.content@)),
    }
}

/// The plain form of a node.
pub open spec fn component_node_view(node: ComponentNode) -> ComponentNodeView
    decreases node,
{
    ComponentNodeView { node: node_view(node.node), layout: node.layout@ }
}

impl View for ColumnNode {
    type V = Seq<ComponentNodeView>;

    open spec fn view(&self) -> Seq<ComponentNodeView> {
        children_view(self.content@)
    }
}

impl View for RowNode {
    type V = Seq<ComponentNodeView>;

    open spec fn view(&self) -> Seq<ComponentNodeView> {
        children_view(self.content@)
    }
}

impl View for Node {
    type V = NodeView;

    open spec fn view(&self) -> NodeView {
        node_view(*self)
    }
}

impl View for ComponentNode {
    type V = ComponentNodeView;

    open spec fn view(&self) -> ComponentNodeView {
        component_node_view(*self)
    }
}

/// The children of a node: those of a container, none of any other node.
pub open spec fn children_of_node(node: ComponentNodeView) -> Seq<ComponentNodeView> {
    match node.node {
        NodeView::Column(children) => children,
        NodeView::Row(children) => children,
        _ => Seq::empty(),
    }
}

/// The nodes of a tree in depth-first order: the node itself, then the
/// trees of its children, one after the other.
pub open spec fn preorder(node: ComponentNodeView) -> Seq<ComponentNodeView>
    decreases node,
{
    match node.node {
        NodeView::Column(children) => seq![node] + preorder_all(children),
        NodeView::Row(children) => seq![node] + preorder_all(children),
        _ => seq![node],
    }
}

/// The nodes of a run of trees in depth-first order.
pub open spec fn preorder_all(nodes: Seq<ComponentNodeView>) -> Seq<ComponentNodeView>
    decreases nodes,
{
    if nodes.len() == 0 {
        Seq::empty()
    } else {
        preorder_all(nodes.drop_last()) + preorder(nodes.last())
    }
}

/// The number of nodes of a tree.
pub open spec fn node_count(node: ComponentNodeView) -> nat
    decreases node,
{
    match node.node {
        NodeView::Column(children) => 1 + node_count_all(children),
        NodeView::Row(children) => 1 + node_count_all(children),
        _ => 1,
    }
}

/// The number of nodes of a run of trees.
pub open spec fn node_count_all(nodes: Seq<ComponentNodeView>) -> nat
    decreases nodes,
{
    if nodes.len() == 0 {
        0
    } else {
        node_count_all(nodes.drop_last()) + node_count(nodes.last())
    }
}

/// The depth-first order holds as many nodes as the tree has, and starts
/// with the tree's root.
pub proof fn preorder_visits_each_node(node: ComponentNodeView)
    ensures
        preorder(node).len() == node_count(node),
        preorder(node)[0] == node,
    decreases node,
{
    match node.node {
        NodeView::Column(children) => {
            preorder_all_visits_each_node(children);
        },
        NodeView::Row(children) => {
            preorder_all_visits_each_node(children);
        },
        _ => {},
    }
}

/// The depth-first order of a run of trees holds as many nodes as the trees
/// have.
pub proof fn preorder_all_visits_each_node(nodes: Seq<ComponentNodeView>)
    ensures
        preorder_all(nodes).len() == node_count_all(nodes),
    decreases nodes,
{
    if nodes.len() > 0 {
        preorder_all_visits_each_node(nodes.drop_last());
        preorder_visits_each_node(nodes.last());
    }
}

/// The plain form of a run of borrowed nodes.
pub open spec fn borrowed_view(nodes: Seq<&ComponentNode>) -> Seq<ComponentNodeView> {
    nodes.map_values(|n: &ComponentNode| n@)
}

fn collect<'a>(node: &'a ComponentNode, out: &mut Vec<&'a ComponentNode>)
    ensures
        borrowed_view(final(out)@) == borrowed_view(old(out)@) + preorder(node@),
    decreases node,
{
    let ghost before = borrowed_view(out@);
    out.push(node);
    assert(borrowed_view(out@) =~= before + seq![node@]);
    match &node.node {
        Node::Column(column) => {
            collect_all(&column.content, out);
            assert(before + (seq![node@] + preorder_all(column@)) =~= before + seq![node@]
                + preorder_all(column@));
        },
        Node::Row(row) => {
            collect_all(&row.content, out);
            assert(before + (seq![node@] + preorder_all(row@)) =~= before + seq![node@]
                + preorder_all(row@));
        },
        _ => {},
    }
}

fn collect_all<'a>(children: &'a Vec<Box<ComponentNode>>, out: &mut Vec<&'a ComponentNode>)
    ensures
        borrowed_view(final(out)@) == borrowed_view(old(out)@) + preorder_all(
            children_view(children@),
        ),
    decreases children,
{
    let ghost before = borrowed_view(out@);
    let ghost nodes = children_view(children@);
    let mut i: usize = 0;
    assert(before + preorder_all(nodes.take(0)) =~= before);
    while i < children.len()
        invariant
            i <= children.len(),
            nodes == children_view(children@),
            borrowed_view(out@) == before + preorder_all(nodes.take(i as int)),
        decreases children.len() - i,
    {
        assert(nodes.take(i + 1).drop_last() =~= nodes.take(i as int));
        assert(nodes.take(i + 1).last() == children[i as int]@);
        collect(&children[i], out);
        assert(before + preorder_all(nodes.take(i as int)) + preorder(children[i as int]@) =~= before
            + preorder_all(nodes.take(i + 1)));
        i += 1;
    }
    assert(nodes.take(i as int) =~= nodes);
}

fn clone_children(children: &Vec<Box<ComponentNode>>) -> (r: Vec<Box<ComponentNode>>)
    ensures
        children_view(r@) == children_view(children@),
    decreases children,
{
    let mut copy: Vec<Box<ComponentNode>> = Vec::new();
    let mut i: usize = 0;
    while i < children.len()
        invariant
            i <= children.len(),
            copy.len() == i,
            forall|k: int| 0 <= k < i ==> (#[trigger] copy[k])@ == children[k]@,
        decreases children.len() - i,
    {
        copy.push(Box::new(clone_node(&children[i])));
        i += 1;
    }
    assert(children_view(copy@) =~= children_view(children@));
    copy
}

fn clone_kind(node: &Node) -> (r: Node)
    ensures
        r@ == node@,
    decreases node,
{
    match node {
        Node::Button(button) => Node::Button(
            ButtonNode { content: button.content.clone(), message: button.message.clone() },
        ),
        Node::Text(text) => Node::Text(
            TextNode { content: text.content.clone(), size: text.size.clone() },
        ),
        Node::Column(column) => Node::Column(ColumnNode { content: clone_children(&column.content) }),
        Node::Row(row) => Node::Row(RowNode { content: clone_children(&row.content) }),
    }
}

fn clone_node(node: &ComponentNode) -> (r: ComponentNode)
    ensures
        r@ == node@,
    decreases node,
{
    ComponentNode { node: clone_kind(&node.node), layout: node.layout.clone() }
}

impl Clone for Node {
    fn clone(&self) -> (r: Node)
        ensures
            r@ == self@,
    {
        clone_kind(self)
    }
}

impl Clone for ColumnNode {
    fn clone(&self) -> (r: ColumnNode)
        ensures
            r@ == self@,
    {
        ColumnNode { content: clone_children(&self.content) }
    }
}

impl Clone for RowNode {
    fn clone(&self) -> (r: RowNode)
        ensures
            r@ == self@,
    {
        RowNode { content: clone_children(&self.content) }
    }
}

impl Clone for ComponentNode {
    fn clone(&self) -> (r: ComponentNode)
        ensures
            r@ == self@,
    {
        clone_node(self)
    }
}

impl ComponentNode {
    /// The nodes of the tree in depth-first order: the node itself, then the
    /// trees of its children, one after the other. Every node of the tree is
    /// there once.
    pub fn descendants(&self) -> (r: Vec<&ComponentNode>)
        ensures
            borrowed_view(r@) == preorder(self@),
            r.len() == node_count(self@),
    {
        let mut out: Vec<&ComponentNode> = Vec::new();
        assert(borrowed_view(out@) =~= Seq::<ComponentNodeView>::empty());
        collect(self, &mut out);
        assert(Seq::<ComponentNodeView>::empty() + preorder(self@) =~= preorder(self@));
        proof {
            preorder_visits_each_node(self@);
        }
        out
    }
}

/// The root of a parsed document: the content tree, and the names of the
/// action vocabulary and of the state that its expressions refer to.
#[derive(Debug, PartialEq, Eq)]
pub struct Component {
    pub content: Option<ComponentNode>,
    pub message_type: Option<String>,
    pub model_type: Option<String>,
}

/// A [`Component`] as plain values.
pub struct ComponentView {
    pub content: Option<ComponentNodeView>,
    pub message_type: Option<Seq<char>>,
    pub model_type: Option<Seq<char>>,
}

impl Clone for Component {
    fn clone(&self) -> (r: Component)
        ensures
            r@ == self@,
    {
        Component {
            content: match &self.content {
                Some(node) => Some(node.clone()),
                None => None,
            },
            message_type: self.message_type.clone(),
            model_type: self.model_type.clone(),
        }
    }
}

impl View for Component {
    type V = ComponentView;

    open spec fn view(&self) -> ComponentView {
        ComponentView {
            content: match self.content {
                Some(node) => Some(node@),
                None => None,
            },
            message_type: text_view(self.message_type),
            model_type: text_view(self.model_type),
        }
    }
}

} // verus!
