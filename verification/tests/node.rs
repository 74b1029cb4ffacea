use iced_xml::node::{
    ButtonNode, ColumnNode, Component, ComponentNode, HorizontalAlignment, Node, NodeLayout,
    Padding, RowNode, TextNode, VerticalAlignment,
};
use iced_xml::number::Number;

fn leaf(content: &str) -> ComponentNode {
    ComponentNode {
        node: Node::Button(ButtonNode { content: content.to_string(), message: String::new() }),
        layout: NodeLayout::default(),
    }
}

fn column(content: Vec<ComponentNode>) -> ComponentNode {
    ComponentNode {
        node: Node::Column(ColumnNode { content: content.into_iter().map(Box::new).collect() }),
        layout: NodeLayout::default(),
    }
}

fn row(content: Vec<ComponentNode>) -> ComponentNode {
    ComponentNode {
        node: Node::Row(RowNode { content: content.into_iter().map(Box::new).collect() }),
        layout: NodeLayout::default(),
    }
}

#[test]
fn alignment_defaults() {
    assert_eq!(HorizontalAlignment::default(), HorizontalAlignment::Left);
    assert_eq!(VerticalAlignment::default(), VerticalAlignment::Top);
    assert_eq!(Padding::default().value.as_str().parse::<f32>(), Ok(0.0));
    let layout = NodeLayout::default();
    assert_eq!(layout.align_x, HorizontalAlignment::Left);
    assert_eq!(layout.align_y, VerticalAlignment::Top);
    assert_eq!(layout.padding, Padding { value: Number::zero() });
}

#[test]
fn horizontal_alignment_from_text() {
    assert_eq!(HorizontalAlignment::from("left"), HorizontalAlignment::Left);
    assert_eq!(HorizontalAlignment::from("center"), HorizontalAlignment::Center);
    assert_eq!(HorizontalAlignment::from("right"), HorizontalAlignment::Right);
    assert_eq!(HorizontalAlignment::from("stretch"), HorizontalAlignment::Stretch);
    assert_eq!(HorizontalAlignment::from("Center"), HorizontalAlignment::Center);
    assert_eq!(HorizontalAlignment::from("RIGHT"), HorizontalAlignment::Right);
    assert_eq!(HorizontalAlignment::from("sTrEtCh"), HorizontalAlignment::Stretch);
    assert_eq!(HorizontalAlignment::from(""), HorizontalAlignment::Left);
    assert_eq!(HorizontalAlignment::from("top"), HorizontalAlignment::Left);
    assert_eq!(HorizontalAlignment::from("centre"), HorizontalAlignment::Left);
    assert_eq!(HorizontalAlignment::from(" center"), HorizontalAlignment::Left);
    assert_eq!(HorizontalAlignment::from_lowercase("center"), HorizontalAlignment::Center);
    assert_eq!(HorizontalAlignment::from_lowercase("Center"), HorizontalAlignment::Left);
}

#[test]
fn vertical_alignment_from_text() {
    assert_eq!(VerticalAlignment::from("top"), VerticalAlignment::Top);
    assert_eq!(VerticalAlignment::from("center"), VerticalAlignment::Center);
    assert_eq!(VerticalAlignment::from("bottom"), VerticalAlignment::Bottom);
    assert_eq!(VerticalAlignment::from("stretch"), VerticalAlignment::Stretch);
    assert_eq!(VerticalAlignment::from("Bottom"), VerticalAlignment::Bottom);
    assert_eq!(VerticalAlignment::from("CENTER"), VerticalAlignment::Center);
    assert_eq!(VerticalAlignment::from(""), VerticalAlignment::Top);
    assert_eq!(VerticalAlignment::from("left"), VerticalAlignment::Top);
    assert_eq!(VerticalAlignment::from_lowercase("bottom"), VerticalAlignment::Bottom);
    assert_eq!(VerticalAlignment::from_lowercase("BOTTOM"), VerticalAlignment::Top);
}

#[test]
fn traversal_is_depth_first_and_complete() {
    let tree = column(vec![
        leaf("a"),
        row(vec![leaf("b"), column(vec![leaf("c")]), leaf("d")]),
        leaf("e"),
    ]);
    let visited = tree.descendants();
    assert_eq!(visited.len(), 8);
    assert!(std::ptr::eq(visited[0], &tree));
    let labels: Vec<String> = visited
        .iter()
        .map(|node| match &node.node {
            Node::Button(button) => button.content.clone(),
            Node::Text(text) => text.content.clone(),
            Node::Column(_) => "Column".to_string(),
            Node::Row(_) => "Row".to_string(),
        })
        .collect();
    assert_eq!(labels, vec!["Column", "a", "Row", "b", "Column", "c", "d", "e"]);
    for (i, a) in visited.iter().enumerate() {
        for b in visited.iter().skip(i + 1) {
            assert!(!std::ptr::eq(*a, *b));
        }
    }
    assert_eq!(leaf("x").descendants().len(), 1);
    assert_eq!(column(Vec::new()).descendants().len(), 1);
}

#[test]
fn clones_are_equal_to_what_they_copy() {
    let tree = column(vec![
        leaf("a"),
        row(vec![ComponentNode {
            node: Node::Text(TextNode { content: "t".to_string(), size: Number::ten() }),
            layout: NodeLayout {
                align_x: HorizontalAlignment::Right,
                align_y: VerticalAlignment::Stretch,
                padding: Padding { value: Number::parse("2.5").unwrap() },
            },
        }]),
    ]);
    let copy = tree.clone();
    assert_eq!(copy, tree);
    assert_eq!(copy.node.clone(), tree.node);
    let component = Component {
        content: Some(tree),
        message_type: Some("Message".to_string()),
        model_type: None,
    };
    assert_eq!(component.clone(), component);
    assert_ne!(leaf("a"), leaf("b"));
}
