//! The view description and the static emitter.
//!
//! An emitter turns a resolved node into a frame: a widget inside the layout
//! that the node carries. The static emitter is strict: it hands out only
//! what can be written down as construction logic, and fails on the rest.
use vstd::prelude::*;
use vstd::string::*;
use crate::expr::{Content, ContentView, ResolvedView, Resolved};
use crate::node::{
    ButtonNode, ColumnNode, ComponentNode, NodeLayout, NodeLayoutView, NodeView, RowNode,
    TextNode,
};
use crate::number::Number;
use crate::plain::same;
use crate::resolve::{
    resolve_button_node, resolve_column_node, resolve_component_node, resolve_row_node,
    resolve_text_node, resolved_nodes_view, resolves, resolves_kind, ResolvedKind,
    ResolvedKindView, ResolvedNode, ResolvedNodeView, Wiring, WiringView,
};

verus! {

/// What is to be built for a node, by kind.
#[derive(Debug, PartialEq, Eq)]
pub enum Widget {
    /// A pressable control. It raises the action `on_press` when it is
    /// pressed, and nothing where there is none.
    Button { content: Content, on_press: Option<String> },
    /// A label.
    Text { content: Content, size: Number },
    /// A vertical container of the frames it holds, in their order.
    Column(Vec<Frame>),
    /// A horizontal container of the frames it holds, in their order.
    Row(Vec<Frame>),
}

/// A widget inside its layout.
#[derive(Debug, PartialEq, Eq)]
pub struct Frame {
    pub layout: NodeLayout,
    pub widget: Widget,
}

/// A [`Widget`] as plain values.
pub enum WidgetView {
    Button { content: ContentView, on_press: Option<Seq<char>> },
    Text { content: ContentView, size: Seq<char> },
    Column(Seq<FrameView>),
    Row(Seq<FrameView>),
}

/// A [`Frame`] as plain values.
pub struct FrameView {
    pub layout: NodeLayoutView,
    pub widget: WidgetView,
}

/// The plain form of a run of frames, in their order.
pub open spec fn frames_view(frames: Seq<Frame>) -> Seq<FrameView>
    decreases frames,
{
    Seq::new(
        frames.len(),
        |i: int|
            if 0 <= i < frames.len() {
                frame_view(frames[i])
            } else {
                arbitrary()
            },
    )
}

/// The plain form of a widget.
pub open spec fn widget_view(widget: Widget) -> WidgetView
    decreases widget,
{
    match widget {
        Widget::Button { content, on_press } => WidgetView::Button {
            content: content@,
            on_press: match on_press {
                Some(action) => Some(action@),
                None => None,
            },
        },
        Widget::Text { content, size } => WidgetView::Text { content: content@, size: size@ },
        Widget::Column(frames) => WidgetView::Column(frames_view(frames@)),
        Widget::Row(frames) => WidgetView::Row(frames_view(frames@)),
    }
}

/// The plain form of a frame.
pub open spec fn frame_view(frame: Frame) -> FrameView
    decreases frame,
{
    FrameView { layout: frame.layout@, widget: widget_view(frame.widget) }
}

impl View for Widget {
    type V = WidgetView;

    open spec fn view(&self) -> WidgetView {
        widget_view(*self)
    }
}

impl View for Frame {
    type V = FrameView;

    open spec fn view(&self) -> FrameView {
        frame_view(*self)
    }
}

/// The frames that a container holds; none for any other widget.
pub open spec fn frames_of(frame: FrameView) -> Seq<FrameView> {
    match frame.widget {
        WidgetView::Column(frames) => frames,
        WidgetView::Row(frames) => frames,
        _ => Seq::empty(),
    }
}

/// The one place where a widget gets its layout: every emitter frames what
/// it has built through this function, whatever the node's kind.
pub fn layout_container(layout: NodeLayout, content: Widget) -> (r: Frame)
    ensures
        r@ == (FrameView { layout: layout@, widget: content@ }),
{
    Frame { layout, widget: content }
}

/// Why a node cannot be written down as construction logic.
#[derive(Debug, Clone, PartialEq, Eq)]
pub enum EmitError {
    /// A content has braces around it, and what stands between them is no
    /// expression of the host language.
    MalformedExpression { text: String },
    /// A button's message names nothing that can be raised.
    MalformedAction { message: String },
}

/// An [`EmitError`] as plain text.
pub enum EmitErrorView {
    MalformedExpression { text: Seq<char> },
    MalformedAction { message: Seq<char> },
}

impl View for EmitError {
    type V = EmitErrorView;

    open spec fn view(&self) -> EmitErrorView {
        match self {
            EmitError::MalformedExpression { text } => EmitErrorView::MalformedExpression {
                text: text@,
            },
            EmitError::MalformedAction { message } => EmitErrorView::MalformedAction {
                message: message@,
            },
        }
    }
}

impl EmitError {
    /// What went wrong, in words.
    pub open spec fn message_text(self) -> Seq<char> {
        match self {
            EmitError::MalformedExpression { text } => "malformed expression "@ + text@,
            EmitError::MalformedAction { message } => "malformed action "@ + message@,
        }
    }

    /// What went wrong, in words: the kind of error and the value at fault.
    pub fn message(&self) -> (r: String)
        ensures
            r@ == self.message_text(),
    {
        match self {
            EmitError::MalformedExpression { text } => {
                let mut message = String::from_str("malformed expression ");
                message.append(text.as_str());
                message
            },
            EmitError::MalformedAction { message } => {
                let mut text = String::from_str("malformed action ");
                text.append(message.as_str());
                text
            },
        }
    }
}

/// The content that the static emitter makes of a resolved value.
pub open spec fn static_content(value: ResolvedView) -> Result<ContentView, EmitErrorView> {
    match value {
        ResolvedView::Literal(text) => Ok(ContentView::Literal(text)),
        ResolvedView::Expression(text) => Ok(ContentView::Expression(text)),
        ResolvedView::Malformed(text) => Err(EmitErrorView::MalformedExpression { text }),
    }
}

/// What the static emitter wires to a button.
pub open spec fn static_wiring(wiring: WiringView) -> Result<Option<Seq<char>>, EmitErrorView> {
    match wiring {
        WiringView::Inert => Ok(None),
        WiringView::Action(action) => Ok(Some(action)),
        WiringView::Malformed(message) => Err(EmitErrorView::MalformedAction { message }),
    }
}

/// The frames that the static emitter makes of a run of resolved nodes, in
/// their order; the error of the first node that has one.
pub open spec fn static_frames(nodes: Seq<ResolvedNodeView>) -> Result<
    Seq<FrameView>,
    EmitErrorView,
>
    decreases nodes, 0int,
{
    if nodes.len() == 0 {
        Ok(Seq::empty())
    } else {
        match static_frames(nodes.drop_last()) {
            Err(e) => Err(e),
            Ok(frames) => match static_frame(nodes.last()) {
                Err(e) => Err(e),
                Ok(frame) => Ok(frames.push(frame)),
            },
        }
    }
}

/// The widget that the static emitter makes of what a resolved node is. A
/// button shows its content and raises its action; a label shows its content
/// in its size; a column and a row hold the frames of their children.
pub open spec fn static_widget(kind: ResolvedKindView) -> Result<WidgetView, EmitErrorView>
    decreases kind, 1int,
{
    match kind {
        ResolvedKindView::Button { content, wiring } => match static_content(content) {
            Err(e) => Err(e),
            Ok(content) => match static_wiring(wiring) {
                Err(e) => Err(e),
                Ok(on_press) => Ok(WidgetView::Button { content, on_press }),
            },
        },
        ResolvedKindView::Text { content, size } => match static_content(content) {
            Err(e) => Err(e),
            Ok(content) => Ok(WidgetView::Text { content, size }),
        },
        ResolvedKindView::Column(nodes) => match static_frames(nodes) {
            Ok(frames) => Ok(WidgetView::Column(frames)),
            Err(e) => Err(e),
        },
        ResolvedKindView::Row(nodes) => match static_frames(nodes) {
            Ok(frames) => Ok(WidgetView::Row(frames)),
            Err(e) => Err(e),
        },
    }
}

/// The frame that the static emitter makes of a resolved node.
pub open spec fn static_frame(node: ResolvedNodeView) -> Result<FrameView, EmitErrorView>
    decreases node, 2int,
{
    match static_widget(node.kind) {
        Ok(widget) => Ok(FrameView { layout: node.layout, widget }),
        Err(e) => Err(e),
    }
}

/// The static emitter's frames keep the order of the nodes: where a run of
/// nodes has frames, there is one frame for each node, at the node's place.
pub proof fn static_frames_keep_order(nodes: Seq<ResolvedNodeView>)
    ensures
        static_frames(nodes) matches Ok(frames) ==> {
            &&& frames.len() == nodes.len()
            &&& forall|i: int|
                0 <= i < nodes.len() ==> static_frame(#[trigger] nodes[i]) == Ok::<
                    FrameView,
                    EmitErrorView,
                >(frames[i])
        },
    decreases nodes.len(),
{
    if nodes.len() > 0 {
        static_frames_keep_order(nodes.drop_last());
        if let Ok(frames) = static_frames(nodes) {
            assert forall|i: int| 0 <= i < nodes.len() implies static_frame(#[trigger] nodes[i])
                == Ok::<FrameView, EmitErrorView>(frames[i]) by {
                if i < nodes.len() - 1 {
                    assert(nodes.drop_last()[i] == nodes[i]);
                }
            }
        }
    }
}

/// A run of nodes has the error that a part of it from the start has.
proof fn static_frames_fail_on(nodes: Seq<ResolvedNodeView>, n: int)
    requires
        0 <= n <= nodes.len(),
        static_frames(nodes.take(n)) is Err,
    ensures
        static_frames(nodes) == static_frames(nodes.take(n)),
    decreases nodes.len() - n,
{
    if n < nodes.len() {
        assert(nodes.take(n + 1).drop_last() =~= nodes.take(n));
        static_frames_fail_on(nodes, n + 1);
    } else {
        assert(nodes.take(n) =~= nodes);
    }
}

fn emit_content(value: &Resolved) -> (r: Result<Content, EmitError>)
    ensures
        same(r, static_content(value@)),
{
    match value {
        Resolved::Literal(text) => Ok(Content::Literal(text.clone())),
        Resolved::Expression(text) => Ok(Content::Expression(text.clone())),
        Resolved::Malformed(text) => Err(EmitError::MalformedExpression { text: text.clone() }),
    }
}

fn emit_frames(nodes: &Vec<ResolvedNode>) -> (r: Result<Vec<Frame>, EmitError>)
    ensures
        match r {
            Ok(frames) => static_frames(resolved_nodes_view(nodes@)) == Ok::<
                Seq<FrameView>,
                EmitErrorView,
            >(frames_view(frames@)),
            Err(e) => static_frames(resolved_nodes_view(nodes@)) == Err::<
                Seq<FrameView>,
                EmitErrorView,
            >(e@),
        },
    decreases nodes, 0int,
{
    let ghost views = resolved_nodes_view(nodes@);
    let mut frames: Vec<Frame> = Vec::new();
    let mut i: usize = 0;
    assert(frames_view(frames@) =~= Seq::<FrameView>::empty());
    while i < nodes.len()
        invariant
            i <= nodes.len(),
            views == resolved_nodes_view(nodes@),
            static_frames(views.take(i as int)) == Ok::<Seq<FrameView>, EmitErrorView>(
                frames_view(frames@),
            ),
        decreases nodes.len() - i,
    {
        let ghost before = frames_view(frames@);
        assert(views.take(i + 1).drop_last() =~= views.take(i as int));
        assert(views.take(i + 1).last() == nodes[i as int]@);
        match emit_frame(&nodes[i]) {
            Ok(frame) => {
                let ghost added = frame@;
                frames.push(frame);
                assert(frames_view(frames@) =~= before.push(added));
            },
            Err(e) => {
                proof {
                    static_frames_fail_on(views, i + 1);
                }
                return Err(e);
            },
        }
        i += 1;
    }
    assert(views.take(i as int) =~= views);
    Ok(frames)
}

/// The widget that the static emitter makes of what a resolved node is.
pub fn emit_widget(kind: &ResolvedKind) -> (r: Result<Widget, EmitError>)
    ensures
        same(r, static_widget(kind@)),
    decreases kind, 1int,
{
    match kind {
        ResolvedKind::Button { content, wiring } => {
            let content = match emit_content(content) {
                Ok(content) => content,
                Err(e) => {
                    return Err(e);
                },
            };
            match wiring {
                Wiring::Inert => Ok(Widget::Button { content, on_press: None }),
                Wiring::Action(action) => Ok(
                    Widget::Button { content, on_press: Some(action.clone()) },
                ),
                Wiring::Malformed(message) => Err(
                    EmitError::MalformedAction { message: message.clone() },
                ),
            }
        },
        ResolvedKind::Text { content, size } => match emit_content(content) {
            Ok(content) => Ok(Widget::Text { content, size: size.clone() }),
            Err(e) => Err(e),
        },
        ResolvedKind::Column(nodes) => match emit_frames(nodes) {
            Ok(frames) => Ok(Widget::Column(frames)),
            Err(e) => Err(e),
        },
        ResolvedKind::Row(nodes) => match emit_frames(nodes) {
            Ok(frames) => Ok(Widget::Row(frames)),
            Err(e) => Err(e),
        },
    }
}

/// The frame that the static emitter makes of a resolved node: the widget
/// of the node's kind inside the node's layout.
pub fn emit_frame(node: &ResolvedNode) -> (r: Result<Frame, EmitError>)
    ensures
        same(r, static_frame(node@)),
    decreases node, 2int,
{
    match emit_widget(&node.kind) {
        Ok(widget) => Ok(layout_container(node.layout.clone(), widget)),
        Err(e) => Err(e),
    }
}

/// The widget that the static emitter makes of a button: a pressable control
/// that shows the content and raises the action that the message names; a
/// button with an empty message raises nothing. The node is resolved, and
/// the widget is that of [`emit_widget`] for the resolution.
pub fn view_button_node(node: &ButtonNode) -> (r: Result<Widget, EmitError>)
    ensures
        exists|kind: ResolvedKindView| #[trigger]
            resolves_kind(NodeView::Button(node@), kind) && same(r, static_widget(kind)),
{
    let kind = resolve_button_node(node);
    emit_widget(&kind)
}

/// The widget that the static emitter makes of a label: the content in the
/// node's size. The node is resolved, and the widget is that of
/// [`emit_widget`] for the resolution.
pub fn view_text_node(node: &TextNode) -> (r: Result<Widget, EmitError>)
    ensures
        exists|kind: ResolvedKindView| #[trigger]
            resolves_kind(NodeView::Text(node@), kind) && same(r, static_widget(kind)),
{
    let kind = resolve_text_node(node);
    emit_widget(&kind)
}

/// The widget that the static emitter makes of a column: a vertical
/// container of its children's frames, in their order. The node is resolved,
/// and the widget is that of [`emit_widget`] for the resolution.
pub fn view_column_node(node: &ColumnNode) -> (r: Result<Widget, EmitError>)
    ensures
        exists|kind: ResolvedKindView| #[trigger]
            resolves_kind(NodeView::Column(node@), kind) && same(r, static_widget(kind)),
{
    let kind = resolve_column_node(node);
    emit_widget(&kind)
}

/// The widget that the static emitter makes of a row: a horizontal container
/// of its children's frames, in their order. The node is resolved, and the
/// widget is that of [`emit_widget`] for the resolution.
pub fn view_row_node(node: &RowNode) -> (r: Result<Widget, EmitError>)
    ensures
        exists|kind: ResolvedKindView| #[trigger]
            resolves_kind(NodeView::Row(node@), kind) && same(r, static_widget(kind)),
{
    let kind = resolve_row_node(node);
    emit_widget(&kind)
}

/// The frame that the static emitter makes of a node: the widget of the
/// node's kind inside the node's layout. The node is resolved, and the frame
/// is that of [`emit_frame`] for the resolution.
pub fn view_component_node(node: &ComponentNode) -> (r: Result<Frame, EmitError>)
    ensures
        exists|resolved: ResolvedNodeView| #[trigger]
            resolves(node@, resolved) && same(r, static_frame(resolved)),
{
    let resolved = resolve_component_node(node);
    emit_frame(&resolved)
}

} // verus!
