//! The dynamic interpreter: the frame of a resolved node for a live preview.
//!
//! It goes by the same resolution as the static emitter, and it never fails:
//! where a value has braces around what is no expression, it shows the empty
//! text, and it wires a button to whatever its message names.
use vstd::prelude::*;
use vstd::string::*;
use crate::expr::{trim_iced_expr, Content, ContentView, Resolved, ResolvedView};
use crate::markup::{subtree_end, XmlNodeView};
use crate::node::{
    children_of_node, ButtonNode, ColumnNode, ComponentNode, ComponentNodeView, NodeLayout,
    NodeView, RowNode, TextNode,
};
use crate::parser::{
    child_positions, children_in_document_order, children_of, is_container, node_of,
    ParseErrorView,
};
use crate::resolve::{
    action_of, resolve_button_node, resolve_column_node, resolve_component_node,
    resolve_row_node, resolve_text_node, resolved_children, resolved_nodes_view, resolves,
    resolves_kind, ResolvedKind, ResolvedKindView, ResolvedNode, ResolvedNodeView, Wiring,
    WiringView,
};
use crate::view::{
    frames_of, frames_view, layout_container, static_frame, static_frames,
    static_frames_keep_order, EmitErrorView, Frame, FrameView, Widget, WidgetView,
};

verus! {

/// The content that the interpreter makes of a resolved value: the empty
/// text in the place of a malformed expression.
pub open spec fn dynamic_content(value: ResolvedView) -> ContentView {
    match value {
        ResolvedView::Literal(text) => ContentView::Literal(text),
        ResolvedView::Expression(text) => ContentView::Expression(text),
        ResolvedView::Malformed(_) => ContentView::Literal(Seq::empty()),
    }
}

/// What the interpreter wires to a button: the action that the message
/// names, whether or not it can be written down.
pub open spec fn dynamic_wiring(wiring: WiringView) -> Option<Seq<char>> {
    match wiring {
        WiringView::Inert => None,
        WiringView::Action(action) => Some(action),
        WiringView::Malformed(message) => Some(action_of(message)),
    }
}

/// The frames that the interpreter makes of a run of resolved nodes: one for
/// each node, at the node's place.
pub open spec fn dynamic_frames(nodes: Seq<ResolvedNodeView>) -> Seq<FrameView>
    decreases nodes, 0int,
{
    Seq::new(
        nodes.len(),
        |i: int|
            if 0 <= i < nodes.len() {
                dynamic_frame(nodes[i])
            } else {
                arbitrary()
            },
    )
}

/// The widget that the interpreter makes of what a resolved node is.
pub open spec fn dynamic_widget(kind: ResolvedKindView) -> WidgetView
    decreases kind, 1int,
{
    match kind {
        ResolvedKindView::Button { content, wiring } => WidgetView::Button {
            content: dynamic_content(content),
            on_press: dynamic_wiring(wiring),
        },
        ResolvedKindView::Text { content, size } => WidgetView::Text {
            content: dynamic_content(content),
            size,
        },
        ResolvedKindView::Column(nodes) => WidgetView::Column(dynamic_frames(nodes)),
        ResolvedKindView::Row(nodes) => WidgetView::Row(dynamic_frames(nodes)),
    }
}

/// The frame that the interpreter makes of a resolved node.
pub open spec fn dynamic_frame(node: ResolvedNodeView) -> FrameView
    decreases node, 2int,
{
    FrameView { layout: node.layout, widget: dynamic_widget(node.kind) }
}

/// The interpreter's frames keep the order of the nodes: there is one frame
/// for each node, at the node's place.
pub proof fn dynamic_frames_keep_order(nodes: Seq<ResolvedNodeView>)
    ensures
        dynamic_frames(nodes).len() == nodes.len(),
        forall|i: int|
            0 <= i < nodes.len() ==> dynamic_frames(nodes)[i] == dynamic_frame(#[trigger] nodes[i]),
{
}

/// The two emitters agree: whatever frame the static emitter makes of a
/// resolved node, the interpreter makes the same frame of it.
pub proof fn emitters_agree(node: ResolvedNodeView)
    ensures
        static_frame(node) matches Ok(frame) ==> dynamic_frame(node) == frame,
    decreases node,
{
    match node.kind {
        ResolvedKindView::Column(nodes) => {
            emitters_agree_on_all(nodes);
        },
        ResolvedKindView::Row(nodes) => {
            emitters_agree_on_all(nodes);
        },
        _ => {},
    }
}

/// The two emitters agree on a run of resolved nodes.
pub proof fn emitters_agree_on_all(nodes: Seq<ResolvedNodeView>)
    ensures
        static_frames(nodes) matches Ok(frames) ==> dynamic_frames(nodes) == frames,
    decreases nodes,
{
    if let Ok(frames) = static_frames(nodes) {
        static_frames_keep_order(nodes);
        assert forall|i: int| 0 <= i < nodes.len() implies dynamic_frames(nodes)[i] == frames[i] by {
            emitters_agree(nodes[i]);
        }
        assert(dynamic_frames(nodes) =~= frames);
    }
}

/// The order of the markup reaches the emitted container: where the element
/// at `index` is a container that can be parsed, and `resolved` is a
/// resolution of its node, there is one resolved child for each element that
/// the container takes for a child, in document order, each a resolution of
/// that element's node; and each emitter's frame of the container holds the
/// frames of those children, in the same order.
pub proof fn emitted_children_keep_markup_order(
    nodes: Seq<XmlNodeView>,
    index: int,
    resolved: ResolvedNodeView,
)
    requires
        0 <= index < nodes.len(),
        is_container(nodes[index].name),
        node_of(nodes, index) matches Ok(tree) && resolves(tree, resolved),
    ensures
        ({
            let places = child_positions(nodes, index + 1, subtree_end(nodes, index));
            let parts = resolved_children(resolved);
            let shown = frames_of(dynamic_frame(resolved));
            &&& parts.len() == places.len()
            &&& shown.len() == places.len()
            &&& forall|k: int|
                0 <= k < places.len() ==> (node_of(nodes, #[trigger] places[k]) matches Ok(child)
                    && resolves(child, parts[k]) && shown[k] == dynamic_frame(parts[k]))
            &&& static_frame(resolved) matches Ok(frame) ==> {
                &&& frames_of(frame).len() == places.len()
                &&& forall|k: int|
                    0 <= k < places.len() ==> static_frame(#[trigger] parts[k]) == Ok::<
                        FrameView,
                        EmitErrorView,
                    >(frames_of(frame)[k])
            }
        }),
{
    let tree = node_of(nodes, index)->Ok_0;
    let end = subtree_end(nodes, index);
    let places = child_positions(nodes, index + 1, end);
    let children = children_of(nodes, index + 1, end)->Ok_0;
    let parts = resolved_children(resolved);
    children_in_document_order(nodes, index + 1, end);
    assert(children_of_node(tree) == children);
    dynamic_frames_keep_order(parts);
    assert(frames_of(dynamic_frame(resolved)) == dynamic_frames(parts));
    assert forall|k: int| 0 <= k < places.len() implies (node_of(nodes, #[trigger] places[k])
        matches Ok(child) && resolves(child, parts[k]) && frames_of(dynamic_frame(resolved))[k]
        == dynamic_frame(parts[k])) by {
        assert(node_of(nodes, places[k]) == Ok::<ComponentNodeView, ParseErrorView>(children[k]));
        assert(resolves(children[k], parts[k]));
    }
    if let Ok(frame) = static_frame(resolved) {
        static_frames_keep_order(parts);
        assert(static_frames(parts) == Ok::<Seq<FrameView>, EmitErrorView>(frames_of(frame)));
    }
}

fn show_content(value: &Resolved) -> (r: Content)
    ensures
        r@ == dynamic_content(value@),
{
    match value {
        Resolved::Literal(text) => Content::Literal(text.clone()),
        Resolved::Expression(text) => Content::Expression(text.clone()),
        Resolved::Malformed(_) => Content::Literal(String::new()),
    }
}

fn show_wiring(wiring: &Wiring) -> (r: Option<String>)
    ensures
        r is Some <==> dynamic_wiring(wiring@) is Some,
        r matches Some(action) ==> Some(action@) == dynamic_wiring(wiring@),
{
    match wiring {
        Wiring::Inert => None,
        Wiring::Action(action) => Some(action.clone()),
        Wiring::Malformed(message) => Some(String::from_str(trim_iced_expr(message.as_str()))),
    }
}

fn show_frames(nodes: &Vec<ResolvedNode>) -> (r: Vec<Frame>)
    ensures
        frames_view(r@) == dynamic_frames(resolved_nodes_view(nodes@)),
    decreases nodes, 0int,
{
    let ghost views = resolved_nodes_view(nodes@);
    let mut frames: Vec<Frame> = Vec::new();
    let mut i: usize = 0;
    while i < nodes.len()
        invariant
            i <= nodes.len(),
            views == resolved_nodes_view(nodes@),
            frames.len() == i,
            forall|k: int| 0 <= k < i ==> frames[k]@ == dynamic_frame(#[trigger] views[k]),
        decreases nodes.len() - i,
    {
        let frame = show_frame(&nodes[i]);
        frames.push(frame);
        i += 1;
    }
    assert(frames_view(frames@) =~= dynamic_frames(views));
    frames
}

/// The widget that the interpreter makes of what a resolved node is.
pub fn show_widget(kind: &ResolvedKind) -> (r: Widget)
    ensures
        r@ == dynamic_widget(kind@),
    decreases kind, 1int,
{
    match kind {
        ResolvedKind::Button { content, wiring } => Widget::Button {
            content: show_content(content),
            on_press: show_wiring(wiring),
        },
        ResolvedKind::Text { content, size } => Widget::Text {
            content: show_content(content),
            size: size.clone(),
        },
        ResolvedKind::Column(nodes) => Widget::Column(show_frames(nodes)),
        ResolvedKind::Row(nodes) => Widget::Row(show_frames(nodes)),
    }
}

/// The frame that the interpreter makes of a resolved node: the widget of
/// the node's kind inside the node's layout.
pub fn show_frame(node: &ResolvedNode) -> (r: Frame)
    ensures
        r@ == dynamic_frame(node@),
    decreases node, 2int,
{
    layout_container(node.layout.clone(), show_widget(&node.kind))
}

/// What the preview writes for a content: literal text as it stands, an
/// expression by its own text.
pub fn label(content: &Content) -> (r: &str)
    ensures
        r@ == (match content@ {
            ContentView::Literal(text) => text,
            ContentView::Expression(text) => text,
        }),
{
    match content {
        Content::Literal(text) => text.as_str(),
        Content::Expression(text) => text.as_str(),
    }
}

/// The frame that the interpreter makes of a button. The node is resolved,
/// and the widget is that of [`show_widget`] for the resolution.
pub fn preview_button_node(node: &ButtonNode, layout: NodeLayout) -> (r: Frame)
    ensures
        exists|kind: ResolvedKindView| #[trigger]
            resolves_kind(NodeView::Button(node@), kind) && r@ == (FrameView {
                layout: layout@,
                widget: dynamic_widget(kind),
            }),
{
    let kind = resolve_button_node(node);
    layout_container(layout, show_widget(&kind))
}

/// The frame that the interpreter makes of a label. The node is resolved,
/// and the widget is that of [`show_widget`] for the resolution.
pub fn preview_text_node(node: &TextNode, layout: NodeLayout) -> (r: Frame)
    ensures
        exists|kind: ResolvedKindView| #[trigger]
            resolves_kind(NodeView::Text(node@), kind) && r@ == (FrameView {
                layout: layout@,
                widget: dynamic_widget(kind),
            }),
{
    let kind = resolve_text_node(node);
    layout_container(layout, show_widget(&kind))
}

/// The frame that the interpreter makes of a column: a vertical container of
/// its children's frames, in their order. The node is resolved, and the
/// widget is that of [`show_widget`] for the resolution.
pub fn preview_column_node(node: &ColumnNode, layout: NodeLayout) -> (r: Frame)
    ensures
        exists|kind: ResolvedKindView| #[trigger]
            resolves_kind(NodeView::Column(node@), kind) && r@ == (FrameView {
                layout: layout@,
                widget: dynamic_widget(kind),
            }),
{
    let kind = resolve_column_node(node);
    layout_container(layout, show_widget(&kind))
}

/// The frame that the interpreter makes of a row: a horizontal container of
/// its children's frames, in their order. The node is resolved, and the
/// widget is that of [`show_widget`] for the resolution.
pub fn preview_row_node(node: &RowNode, layout: NodeLayout) -> (r: Frame)
    ensures
        exists|kind: ResolvedKindView| #[trigger]
            resolves_kind(NodeView::Row(node@), kind) && r@ == (FrameView {
                layout: layout@,
                widget: dynamic_widget(kind),
            }),
{
    let kind = resolve_row_node(node);
    layout_container(layout, show_widget(&kind))
}

/// The frame that the interpreter makes of a node: the widget of the node's
/// kind inside the node's layout. The node is resolved, and the frame is
/// that of [`show_frame`] for the resolution.
pub fn preview_component_node(node: &ComponentNode) -> (r: Frame)
    ensures
        exists|resolved: ResolvedNodeView| #[trigger]
            resolves(node@, resolved) && r@ == dynamic_frame(resolved),
{
    let resolved = resolve_component_node(node);
    show_frame(&resolved)
}

} // verus!
