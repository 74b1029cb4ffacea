use iced_xml::expr::{Content, Resolved};
use iced_xml::node::{
    ButtonNode, ColumnNode, ComponentNode, HorizontalAlignment, Node, NodeLayout, Padding,
    RowNode, TextNode, VerticalAlignment,
};
use iced_xml::number::Number;
use iced_xml::parser::parse_str;
use iced_xml::preview::{
    preview_button_node, preview_column_node, preview_component_node, preview_row_node,
    preview_text_node,
};
use iced_xml::preview::{label, show_frame, show_widget};
use iced_xml::resolve::{
    resolve_button_node, resolve_component_node, resolve_text_node, resolve_wiring, wire,
    ResolvedKind, ResolvedNode, Wiring,
};
use iced_xml::view::{
    emit_frame, emit_widget, layout_container, view_button_node, view_column_node,
    view_component_node, view_row_node, view_text_node, EmitError, Frame, Widget,
};

fn literal(text: &str) -> Content {
    Content::Literal(text.to_string())
}

fn expression(text: &str) -> Content {
    Content::Expression(text.to_string())
}

fn number(text: &str) -> Number {
    Number::parse(text).unwrap()
}

fn text_node(content: &str) -> ComponentNode {
    ComponentNode {
        node: Node::Text(TextNode { content: content.to_string(), size: number("10") }),
        layout: NodeLayout::default(),
    }
}

fn text_frame(content: Content) -> Frame {
    Frame { layout: NodeLayout::default(), widget: Widget::Text { content, size: number("10") } }
}

fn children(frame: &Frame) -> &Vec<Frame> {
    match &frame.widget {
        Widget::Column(frames) => frames,
        Widget::Row(frames) => frames,
        other => panic!("not a container: {:?}", other),
    }
}

#[test]
fn can_parse_button_content_expr() {
    let node = ButtonNode { content: "{self.value}".to_string(), message: String::new() };

    let parsed = view_button_node(&node);
    let expected = Widget::Button { content: expression("self.value"), on_press: None };

    println!("{:?}", parsed);

    assert_eq!(parsed, Ok(expected));
}

#[test]
fn can_parse_button_content_ident() {
    let node = ButtonNode { content: "Click me".to_string(), message: String::new() };

    let parsed = view_button_node(&node);
    let expected = Widget::Button { content: literal("Click me"), on_press: None };

    println!("{:?}", parsed);

    assert_eq!(parsed, Ok(expected));
}

#[test]
fn can_parse_button_message() {
    let node = ButtonNode { content: "Click me".to_string(), message: "{Increment}".to_string() };

    let parsed = view_button_node(&node);
    println!("{:?}", parsed);
    let expected = Widget::Button {
        content: literal("Click me"),
        on_press: Some("Increment".to_string()),
    };

    assert_eq!(parsed, Ok(expected));
}

#[test]
fn button_message_may_stand_without_braces() {
    let node = ButtonNode { content: "+".to_string(), message: "Increment".to_string() };
    assert_eq!(
        view_button_node(&node),
        Ok(Widget::Button { content: literal("+"), on_press: Some("Increment".to_string()) })
    );
    let node = ButtonNode { content: "+".to_string(), message: "Add(1)".to_string() };
    assert_eq!(
        view_button_node(&node),
        Ok(Widget::Button { content: literal("+"), on_press: Some("Add(1)".to_string()) })
    );
}

#[test]
fn static_emitter_fails_on_a_malformed_expression() {
    let node = ButtonNode { content: "{1 +}".to_string(), message: "Increment".to_string() };
    assert_eq!(
        view_button_node(&node),
        Err(EmitError::MalformedExpression { text: "{1 +}".to_string() })
    );
    let node = TextNode { content: "{}".to_string(), size: number("10") };
    assert_eq!(
        view_text_node(&node),
        Err(EmitError::MalformedExpression { text: "{}".to_string() })
    );
}

#[test]
fn static_emitter_fails_on_a_malformed_action() {
    for message in ["{}", "1abc", "a b", "{Increment", ")"] {
        let node = ButtonNode { content: "x".to_string(), message: message.to_string() };
        let expected = if message == "{Increment" {
            Ok(Widget::Button { content: literal("x"), on_press: Some("Increment".to_string()) })
        } else {
            Err(EmitError::MalformedAction { message: message.to_string() })
        };
        assert_eq!(view_button_node(&node), expected, "for {:?}", message);
    }
}

#[test]
fn wiring_goes_by_the_given_validity() {
    assert_eq!(wire("", true), Wiring::Inert);
    assert_eq!(wire("", false), Wiring::Inert);
    assert_eq!(wire("{Increment}", true), Wiring::Action("Increment".to_string()));
    assert_eq!(wire("Increment", true), Wiring::Action("Increment".to_string()));
    assert_eq!(wire("{Increment}", false), Wiring::Malformed("{Increment}".to_string()));
    assert_eq!(resolve_wiring(""), Wiring::Inert);
    assert_eq!(resolve_wiring("{Increment}"), Wiring::Action("Increment".to_string()));
    assert_eq!(resolve_wiring("a b"), Wiring::Malformed("a b".to_string()));
}

fn resolved_button(content: Resolved, wiring: Wiring) -> ResolvedNode {
    ResolvedNode { layout: NodeLayout::default(), kind: ResolvedKind::Button { content, wiring } }
}

fn resolved_text(content: Resolved) -> ResolvedNode {
    ResolvedNode {
        layout: NodeLayout::default(),
        kind: ResolvedKind::Text { content, size: number("10") },
    }
}

#[test]
fn nodes_are_resolved_value_by_value() {
    let button = ButtonNode { content: "{self.value}".to_string(), message: "{Add}".to_string() };
    assert_eq!(
        resolve_button_node(&button),
        ResolvedKind::Button {
            content: Resolved::Expression("self.value".to_string()),
            wiring: Wiring::Action("Add".to_string()),
        }
    );
    let button = ButtonNode { content: "{1 +}".to_string(), message: String::new() };
    assert_eq!(
        resolve_button_node(&button),
        ResolvedKind::Button {
            content: Resolved::Malformed("{1 +}".to_string()),
            wiring: Wiring::Inert,
        }
    );
    let text = TextNode { content: "hi".to_string(), size: number("7") };
    assert_eq!(
        resolve_text_node(&text),
        ResolvedKind::Text { content: Resolved::Literal("hi".to_string()), size: number("7") }
    );
    let markup = r#"<Component><Column Padding="2"><Text>a</Text><Row><Button Message="a b">{x}</Button></Row></Column></Component>"#;
    let node = parse_str(markup).unwrap().content.unwrap();
    let resolved = resolve_component_node(&node);
    assert_eq!(resolved.layout, node.layout);
    match &resolved.kind {
        ResolvedKind::Column(parts) => {
            assert_eq!(parts.len(), 2);
            assert_eq!(parts[0], resolved_text(Resolved::Literal("a".to_string())));
            assert_eq!(
                parts[1].kind,
                ResolvedKind::Row(vec![resolved_button(
                    Resolved::Expression("x".to_string()),
                    Wiring::Malformed("a b".to_string()),
                )])
            );
        }
        other => panic!("not a column: {:?}", other),
    }
}

#[test]
fn emitters_go_by_what_was_resolved() {
    let fine = resolved_button(
        Resolved::Expression("self.label".to_string()),
        Wiring::Action("Add".to_string()),
    );
    let frame = emit_frame(&fine).unwrap();
    assert_eq!(
        frame.widget,
        Widget::Button { content: expression("self.label"), on_press: Some("Add".to_string()) }
    );
    assert_eq!(show_frame(&fine), frame);

    let no_expression = resolved_text(Resolved::Malformed("{1 +}".to_string()));
    assert_eq!(
        emit_frame(&no_expression),
        Err(EmitError::MalformedExpression { text: "{1 +}".to_string() })
    );
    assert_eq!(show_frame(&no_expression), text_frame(literal("")));

    let no_action = resolved_button(
        Resolved::Literal("x".to_string()),
        Wiring::Malformed("{a b}".to_string()),
    );
    assert_eq!(
        emit_frame(&no_action),
        Err(EmitError::MalformedAction { message: "{a b}".to_string() })
    );
    assert_eq!(
        show_frame(&no_action).widget,
        Widget::Button { content: literal("x"), on_press: Some("a b".to_string()) }
    );

    let inert = resolved_button(Resolved::Literal("x".to_string()), Wiring::Inert);
    assert_eq!(
        emit_widget(&inert.kind),
        Ok(Widget::Button { content: literal("x"), on_press: None })
    );
    assert_eq!(show_widget(&inert.kind), Widget::Button { content: literal("x"), on_press: None });

    let column = ResolvedKind::Column(vec![
        resolved_text(Resolved::Literal("c1".to_string())),
        resolved_text(Resolved::Malformed("{first +}".to_string())),
        resolved_text(Resolved::Malformed("{second +}".to_string())),
    ]);
    assert_eq!(
        emit_widget(&column),
        Err(EmitError::MalformedExpression { text: "{first +}".to_string() })
    );
    assert_eq!(
        show_widget(&column),
        Widget::Column(vec![
            text_frame(literal("c1")),
            text_frame(literal("")),
            text_frame(literal("")),
        ])
    );
    let row = ResolvedKind::Row(vec![
        resolved_text(Resolved::Literal("c1".to_string())),
        resolved_text(Resolved::Expression("c2".to_string())),
    ]);
    let frames = || vec![text_frame(literal("c1")), text_frame(expression("c2"))];
    assert_eq!(emit_widget(&row), Ok(Widget::Row(frames())));
    assert_eq!(show_widget(&row), Widget::Row(frames()));
}

#[test]
fn labels_show_text_and_expressions_alike() {
    assert_eq!(label(&literal("Click me")), "Click me");
    assert_eq!(label(&expression("self.value")), "self.value");
}

#[test]
fn text_keeps_its_size() {
    let node = TextNode { content: "{self.value}".to_string(), size: number("50") };
    assert_eq!(
        view_text_node(&node),
        Ok(Widget::Text { content: expression("self.value"), size: number("50") })
    );
    let node = TextNode { content: "hi".to_string(), size: number("10") };
    assert_eq!(
        view_text_node(&node),
        Ok(Widget::Text { content: literal("hi"), size: number("10") })
    );
}

#[test]
fn layout_container_frames_any_widget() {
    let layout = NodeLayout {
        align_x: HorizontalAlignment::Center,
        align_y: VerticalAlignment::Bottom,
        padding: Padding { value: number("4") },
    };
    let widget = Widget::Text { content: literal("x"), size: number("1") };
    let frame = layout_container(layout.clone(), widget);
    assert_eq!(frame.layout, layout);
    assert_eq!(frame.widget, Widget::Text { content: literal("x"), size: number("1") });
    let frame = layout_container(layout.clone(), Widget::Column(Vec::new()));
    assert_eq!(frame, Frame { layout, widget: Widget::Column(Vec::new()) });
}

#[test]
fn containers_keep_the_order_of_their_children() {
    let content = vec![
        Box::new(text_node("c1")),
        Box::new(text_node("{c2}")),
        Box::new(text_node("c3")),
    ];
    let frames =
        || vec![text_frame(literal("c1")), text_frame(expression("c2")), text_frame(literal("c3"))];
    let column = ColumnNode { content: content.clone() };
    let row = RowNode { content };
    assert_eq!(view_column_node(&column), Ok(Widget::Column(frames())));
    assert_eq!(view_row_node(&row), Ok(Widget::Row(frames())));
    assert_eq!(
        preview_column_node(&column, NodeLayout::default()).widget,
        Widget::Column(frames())
    );
    assert_eq!(preview_row_node(&row, NodeLayout::default()).widget, Widget::Row(frames()));
}

#[test]
fn containers_report_the_first_error() {
    let column = ColumnNode {
        content: vec![
            Box::new(text_node("fine")),
            Box::new(text_node("{first +}")),
            Box::new(text_node("{second +}")),
        ],
    };
    assert_eq!(
        view_column_node(&column),
        Err(EmitError::MalformedExpression { text: "{first +}".to_string() })
    );
    let frame = preview_column_node(&column, NodeLayout::default());
    assert_eq!(
        children(&frame),
        &vec![text_frame(literal("fine")), text_frame(literal("")), text_frame(literal(""))]
    );
}

#[test]
fn markup_order_reaches_the_emitted_container() {
    for container in ["Column", "Row"] {
        let markup = format!(
            "<Component><{c}><Text>c1</Text><Text>c2</Text><Text>c3</Text></{c}></Component>",
            c = container
        );
        let node = parse_str(&markup).unwrap().content.unwrap();
        let expected =
            vec![text_frame(literal("c1")), text_frame(literal("c2")), text_frame(literal("c3"))];
        let emitted = view_component_node(&node).unwrap();
        assert_eq!(children(&emitted), &expected);
        assert_eq!(matches!(emitted.widget, Widget::Column(_)), container == "Column");
        assert_eq!(matches!(emitted.widget, Widget::Row(_)), container == "Row");
        let shown = preview_component_node(&node);
        assert_eq!(children(&shown), &expected);
        assert_eq!(matches!(shown.widget, Widget::Row(_)), container == "Row");
    }
}

#[test]
fn emitters_agree_where_the_static_one_succeeds() {
    let markup = r#"<Component Message="Message"><Column Padding="20" HorizontalAlignment="Center"><Button Message="Increment">Increment</Button><Text Size="50" Content="{self.value}" /><Row VerticalAlignment="Bottom"><Button Message="{Decrement}">{self.label}</Button></Row></Column></Component>"#;
    let node = parse_str(markup).unwrap().content.unwrap();
    let emitted = view_component_node(&node).unwrap();
    assert_eq!(preview_component_node(&node), emitted);
    assert_eq!(emitted.layout.align_x, HorizontalAlignment::Center);
    assert_eq!(emitted.layout.padding.value.as_str(), "20");
    let frames = children(&emitted);
    assert_eq!(frames.len(), 3);
    assert_eq!(
        frames[0].widget,
        Widget::Button { content: literal("Increment"), on_press: Some("Increment".to_string()) }
    );
    assert_eq!(
        frames[1].widget,
        Widget::Text { content: expression("self.value"), size: number("50") }
    );
    assert_eq!(frames[2].layout.align_y, VerticalAlignment::Bottom);
    assert_eq!(
        children(&frames[2])[0].widget,
        Widget::Button {
            content: expression("self.label"),
            on_press: Some("Decrement".to_string()),
        }
    );
}

#[test]
fn interpreter_never_fails() {
    let button = ButtonNode { content: "{1 +}".to_string(), message: "not an action".to_string() };
    let frame = preview_button_node(&button, NodeLayout::default());
    assert_eq!(
        frame.widget,
        Widget::Button { content: literal(""), on_press: Some("not an action".to_string()) }
    );
    let button = ButtonNode { content: "Click me".to_string(), message: String::new() };
    assert_eq!(
        preview_button_node(&button, NodeLayout::default()).widget,
        Widget::Button { content: literal("Click me"), on_press: None }
    );
    let text = TextNode { content: "{self.value}".to_string(), size: number("7") };
    assert_eq!(
        preview_text_node(&text, NodeLayout::default()).widget,
        Widget::Text { content: expression("self.value"), size: number("7") }
    );
    let text = TextNode { content: "{}".to_string(), size: number("7") };
    assert_eq!(
        preview_text_node(&text, NodeLayout::default()).widget,
        Widget::Text { content: literal(""), size: number("7") }
    );
}
