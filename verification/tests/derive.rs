use iced_xml::derive::{
    derive_component_impl, derive_component_struct, implement, parse_template_attribute,
    resolve_message_type, source_attribute, source_position, template_file, ComponentImpl,
    DeriveError, DeriveInput, ItemAttribute, ItemKind, Place, Template,
};
use iced_xml::expr::Resolved;
use iced_xml::resolve::{ResolvedKind, ResolvedNode, Wiring};
use iced_xml::expr::Content;
use iced_xml::node::{Component, NodeLayout};
use iced_xml::number::Number;
use iced_xml::parser::{parse_str, ParseError};
use iced_xml::view::{EmitError, Frame, Widget};

fn attribute(name: &str, value: Option<&str>) -> ItemAttribute {
    ItemAttribute { name: Some(name.to_string()), value: value.map(|v| v.to_string()) }
}

fn input(kind: ItemKind, attributes: Vec<ItemAttribute>) -> DeriveInput {
    DeriveInput { name: "Test".to_string(), kind, attributes }
}

const COUNTER: &str = r#"<Component Message="Message"><Text Size="50" Content="{self.value}" /></Component>"#;

fn found(text: &str) -> Template {
    Template::Found { text: text.to_string() }
}

fn missing(path: &str) -> Template {
    Template::Missing { path: path.to_string() }
}

#[test]
fn struct_without_component_attr_complains() {
    let input = input(ItemKind::Struct, vec![attribute("derive", None)]);

    let derived = derive_component_impl(&input, &missing("\"/m/src/window.ixml\""));
    assert_eq!(derived, Err(DeriveError::MissingSource));
    assert_eq!(derived.unwrap_err().message(), "Missing 'source' attriute");
    assert_eq!(derive_component_impl(&input, &found(COUNTER)), Err(DeriveError::MissingSource));
    assert_eq!(template_file(&input), Err(DeriveError::MissingSource));
}

#[test]
fn source_attribute_is_the_first_of_that_name() {
    let item = input(
        ItemKind::Struct,
        vec![
            attribute("derive", None),
            ItemAttribute { name: None, value: Some("path.ixml".to_string()) },
            attribute("source", Some("first.ixml")),
            attribute("source", Some("second.ixml")),
        ],
    );
    assert_eq!(source_attribute(&item), Some(&attribute("source", Some("first.ixml"))));
    assert_eq!(source_position(&item), Some(2));
    assert_eq!(source_position(&input(ItemKind::Struct, Vec::new())), None);
    assert_eq!(template_file(&item), Ok("first.ixml".to_string()));
    assert_eq!(source_attribute(&input(ItemKind::Struct, Vec::new())), None);
    assert_eq!(
        source_attribute(&input(ItemKind::Struct, vec![attribute("Source", Some("x"))])),
        None
    );
}

#[test]
fn source_attribute_must_name_a_file() {
    assert_eq!(
        parse_template_attribute(&attribute("source", Some("window.ixml"))),
        Ok("window.ixml".to_string())
    );
    assert_eq!(
        parse_template_attribute(&attribute("source", None)),
        Err(DeriveError::InvalidSyntax)
    );
    let item = input(ItemKind::Struct, vec![attribute("source", None)]);
    assert_eq!(template_file(&item), Err(DeriveError::InvalidSyntax));
    assert_eq!(derive_component_impl(&item, &found(COUNTER)), Err(DeriveError::InvalidSyntax));
    assert_eq!(
        derive_component_impl(&item, &missing("\"/m/src/window.ixml\"")),
        Err(DeriveError::InvalidSyntax)
    );
}

#[test]
fn missing_template_file_is_reported() {
    let item = input(ItemKind::Struct, vec![attribute("source", Some("missing.ixml"))]);
    assert_eq!(template_file(&item), Ok("missing.ixml".to_string()));
    let path = std::path::Path::new("/m").join("src").join("missing.ixml");
    let derived = derive_component_impl(&item, &missing(&format!("{:?}", path)));
    assert_eq!(
        derived,
        Err(DeriveError::FileNotFound { path: "\"/m/src/missing.ixml\"".to_string() })
    );
    assert_eq!(
        derived.unwrap_err().message(),
        "could not find component file '\"/m/src/missing.ixml\"'"
    );
    for kind in [ItemKind::Enum, ItemKind::Union] {
        let item = input(kind, vec![attribute("source", Some("missing.ixml"))]);
        assert_eq!(
            derive_component_impl(&item, &missing("\"p\"")),
            Err(DeriveError::FileNotFound { path: "\"p\"".to_string() })
        );
    }
}

#[test]
fn errors_are_reported_at_their_place() {
    assert_eq!(DeriveError::MissingSource.place(), Place::Item);
    assert_eq!(DeriveError::InvalidSyntax.place(), Place::SourceAttribute);
    assert_eq!(
        DeriveError::FileNotFound { path: "\"p\"".to_string() }.place(),
        Place::SourceAttribute
    );
    assert_eq!(DeriveError::Parse(ParseError::MissingRoot).place(), Place::Item);
    assert_eq!(DeriveError::UnsupportedItem.place(), Place::Item);
    assert_eq!(DeriveError::MissingMessageType.place(), Place::Item);
    assert_eq!(DeriveError::UnresolvedMessageType { name: "a b".to_string() }.place(), Place::Item);
    assert_eq!(
        DeriveError::Emit(EmitError::MalformedAction { message: "a b".to_string() }).place(),
        Place::Item
    );
}

#[test]
fn implementation_goes_by_what_was_resolved() {
    let label = |content: Resolved| ResolvedNode {
        layout: NodeLayout::default(),
        kind: ResolvedKind::Text { content, size: Number::ten() },
    };
    let message = Some("Message".to_string());
    let good = label(Resolved::Expression("self.value".to_string()));
    assert_eq!(
        implement("Test", &message, true, Some(&good)),
        Ok(ComponentImpl {
            name: "Test".to_string(),
            message_type: "Message".to_string(),
            view: Some(Frame {
                layout: NodeLayout::default(),
                widget: Widget::Text {
                    content: Content::Expression("self.value".to_string()),
                    size: Number::ten(),
                },
            }),
        })
    );
    assert_eq!(
        implement("Test", &message, false, Some(&good)),
        Err(DeriveError::UnresolvedMessageType { name: "Message".to_string() })
    );
    assert_eq!(implement("Test", &None, true, Some(&good)), Err(DeriveError::MissingMessageType));
    let bad = label(Resolved::Malformed("{1 +}".to_string()));
    assert_eq!(
        implement("Test", &message, true, Some(&bad)),
        Err(DeriveError::Emit(EmitError::MalformedExpression { text: "{1 +}".to_string() }))
    );
    assert_eq!(
        implement("Test", &message, false, Some(&bad)),
        Err(DeriveError::UnresolvedMessageType { name: "Message".to_string() })
    );
    assert_eq!(
        implement("Test", &message, true, None),
        Ok(ComponentImpl {
            name: "Test".to_string(),
            message_type: "Message".to_string(),
            view: None,
        })
    );
    let button = ResolvedNode {
        layout: NodeLayout::default(),
        kind: ResolvedKind::Button {
            content: Resolved::Literal("x".to_string()),
            wiring: Wiring::Malformed("a b".to_string()),
        },
    };
    assert_eq!(
        implement("Test", &message, true, Some(&button)),
        Err(DeriveError::Emit(EmitError::MalformedAction { message: "a b".to_string() }))
    );
}

#[test]
fn template_must_be_a_component() {
    let item = input(ItemKind::Struct, vec![attribute("source", Some("window.ixml"))]);
    assert_eq!(
        derive_component_impl(&item, &found("<Component><Frobnicate/></Component>")),
        Err(DeriveError::Parse(ParseError::UnsupportedElement {
            tag: "Frobnicate".to_string(),
            path: "/Component/Frobnicate".to_string(),
        }))
    );
}

#[test]
fn only_structs_are_derived() {
    for kind in [ItemKind::Enum, ItemKind::Union] {
        let item = input(kind, vec![attribute("source", Some("window.ixml"))]);
        assert_eq!(
            derive_component_impl(&item, &found(COUNTER)),
            Err(DeriveError::UnsupportedItem)
        );
    }
}

#[test]
fn derives_view_and_message_type() {
    let item = input(ItemKind::Struct, vec![attribute("source", Some("window.ixml"))]);
    let expected = ComponentImpl {
        name: "Test".to_string(),
        message_type: "Message".to_string(),
        view: Some(Frame {
            layout: NodeLayout::default(),
            widget: Widget::Text {
                content: Content::Expression("self.value".to_string()),
                size: Number::parse("50").unwrap(),
            },
        }),
    };
    assert_eq!(derive_component_impl(&item, &found(COUNTER)), Ok(expected));
}

#[test]
fn message_type_must_be_named_and_be_a_path() {
    let component = parse_str("<Component><Text>x</Text></Component>").unwrap();
    assert_eq!(
        derive_component_struct("Test", &component),
        Err(DeriveError::MissingMessageType)
    );
    let component = parse_str(r#"<Component Message="not a path"><Text>x</Text></Component>"#).unwrap();
    assert_eq!(
        derive_component_struct("Test", &component),
        Err(DeriveError::UnresolvedMessageType { name: "not a path".to_string() })
    );
    let component = parse_str(r#"<Component Message="app::Message"><Text>x</Text></Component>"#).unwrap();
    assert_eq!(
        derive_component_struct("Test", &component).unwrap().message_type,
        "app::Message".to_string()
    );
    assert_eq!(resolve_message_type(&None, true), Err(DeriveError::MissingMessageType));
    assert_eq!(resolve_message_type(&None, false), Err(DeriveError::MissingMessageType));
    assert_eq!(resolve_message_type(&Some("M".to_string()), true), Ok("M".to_string()));
    assert_eq!(
        resolve_message_type(&Some("M".to_string()), false),
        Err(DeriveError::UnresolvedMessageType { name: "M".to_string() })
    );
}

#[test]
fn empty_component_derives_no_view() {
    let component: Component = parse_str(r#"<Component Message="Message"/>"#).unwrap();
    assert_eq!(
        derive_component_struct("Test", &component),
        Ok(ComponentImpl {
            name: "Test".to_string(),
            message_type: "Message".to_string(),
            view: None,
        })
    );
}

#[test]
fn content_must_be_emittable() {
    let component = parse_str(r#"<Component Message="Message"><Text>{1 +}</Text></Component>"#).unwrap();
    assert_eq!(
        derive_component_struct("Test", &component),
        Err(DeriveError::Emit(EmitError::MalformedExpression { text: "{1 +}".to_string() }))
    );
}

#[test]
fn derive_errors_say_what_went_wrong() {
    assert_eq!(DeriveError::MissingSource.message(), "Missing 'source' attriute");
    assert_eq!(DeriveError::InvalidSyntax.message(), "Invalid syntax");
    assert_eq!(
        DeriveError::FileNotFound { path: "\"/m/src/window.ixml\"".to_string() }.message(),
        "could not find component file '\"/m/src/window.ixml\"'"
    );
    assert_eq!(
        DeriveError::Parse(ParseError::MissingRoot).message(),
        "the document has no root element"
    );
    assert_eq!(DeriveError::UnsupportedItem.message(), "only a struct can be a component");
    assert_eq!(DeriveError::MissingMessageType.message(), "the component names no message type");
    assert_eq!(
        DeriveError::UnresolvedMessageType { name: "a b".to_string() }.message(),
        "the message type is no path: a b"
    );
    assert_eq!(
        DeriveError::Emit(EmitError::MalformedExpression { text: "{1 +}".to_string() }).message(),
        "malformed expression {1 +}"
    );
    assert_eq!(
        EmitError::MalformedAction { message: "a b".to_string() }.message(),
        "malformed action a b"
    );
}
