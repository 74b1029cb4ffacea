//! Deriving a component: from an annotated item and its template to what the
//! generated implementation holds.
//!
//! The host takes the item apart, finds and reads the template file, and
//! writes the implementation down. What is decided in between is decided
//! here: which attribute names the template, what is reported where the
//! file is not there, and what the item's view and message type are.
use vstd::prelude::*;
use vstd::string::*;
use crate::markup::xml_nodes;
use crate::node::{Component, ComponentNodeView, ComponentView};
use crate::parser::{component_of_text, parse_str, ParseError, ParseErrorView};
use crate::plain::{plain, same, text_view};
use crate::resolve::{resolve_component_node, resolves, ResolvedNode, ResolvedNodeView};
use crate::text::str_eq;
use crate::view::{emit_frame, static_frame, EmitError, EmitErrorView, Frame, FrameView};

verus! {

/// The name of the attribute that names the template file.
pub const SOURCE: &'static str = "source";

/// What kind of item carries the derive.
#[derive(Debug, Copy, Clone, PartialEq, Eq, Structural)]
pub enum ItemKind {
    Struct,
    Enum,
    Union,
}

/// One attribute of the item.
#[derive(Debug, Clone, PartialEq, Eq)]
pub struct ItemAttribute {
    /// The attribute's name, where its path is a single identifier.
    pub name: Option<String>,
    /// The text, where the attribute has the form `name = "text"`.
    pub value: Option<String>,
}

/// An [`ItemAttribute`] as plain text.
pub struct ItemAttributeView {
    pub name: Option<Seq<char>>,
    pub value: Option<Seq<char>>,
}

impl View for ItemAttribute {
    type V = ItemAttributeView;

    open spec fn view(&self) -> ItemAttributeView {
        ItemAttributeView { name: text_view(self.name), value: text_view(self.value) }
    }
}

/// The item that carries the derive.
#[derive(Debug, Clone, PartialEq, Eq)]
pub struct DeriveInput {
    pub name: String,
    pub kind: ItemKind,
    pub attributes: Vec<ItemAttribute>,
}

/// A [`DeriveInput`] as plain values.
pub struct DeriveInputView {
    pub name: Seq<char>,
    pub kind: ItemKind,
    pub attributes: Seq<ItemAttributeView>,
}

impl View for DeriveInput {
    type V = DeriveInputView;

    open spec fn view(&self) -> DeriveInputView {
        DeriveInputView {
            name: self.name@,
            kind: self.kind,
            attributes: self.attributes@.map_values(|a: ItemAttribute| a@),
        }
    }
}

/// What the generated implementation holds.
#[derive(Debug, PartialEq, Eq)]
pub struct ComponentImpl {
    /// The item that gets the implementation.
    pub name: String,
    /// The path of the message type.
    pub message_type: String,
    /// The view; `None` for a component without content.
    pub view: Option<Frame>,
}

/// A [`ComponentImpl`] as plain values.
pub struct ComponentImplView {
    pub name: Seq<char>,
    pub message_type: Seq<char>,
    pub view: Option<FrameView>,
}

impl View for ComponentImpl {
    type V = ComponentImplView;

    open spec fn view(&self) -> ComponentImplView {
        ComponentImplView {
            name: self.name@,
            message_type: self.message_type@,
            view: match self.view {
                Some(frame) => Some(frame@),
                None => None,
            },
        }
    }
}

/// What the host found where the template file should be.
#[derive(Debug, Clone, PartialEq, Eq)]
pub enum Template {
    /// No file. `path` is the path that the host looked at, as the host
    /// writes a path down for a reader: in double quotes, with what needs it
    /// escaped. For the file `/m/src/missing.ixml` it is
    /// `"/m/src/missing.ixml"`, the quotes included.
    Missing { path: String },
    /// The file's text.
    Found { text: String },
}

/// A [`Template`] as plain text.
pub enum TemplateView {
    Missing { path: Seq<char> },
    Found { text: Seq<char> },
}

impl View for Template {
    type V = TemplateView;

    open spec fn view(&self) -> TemplateView {
        match self {
            Template::Missing { path } => TemplateView::Missing { path: path@ },
            Template::Found { text } => TemplateView::Found { text: text@ },
        }
    }
}

/// Where in the item the host reports an error.
#[derive(Debug, Copy, Clone, PartialEq, Eq, Structural)]
pub enum Place {
    /// At the item as a whole.
    Item,
    /// At the item's `source` attribute.
    SourceAttribute,
}

/// Why nothing can be derived.
#[derive(Debug, Clone, PartialEq, Eq)]
pub enum DeriveError {
    /// The item has no `source` attribute.
    MissingSource,
    /// The `source` attribute does not have the form `source = "file"`.
    InvalidSyntax,
    /// The template file is not there. `path` is the path that the host
    /// looked at, as the host handed it in.
    FileNotFound { path: String },
    /// The template is no component.
    Parse(ParseError),
    /// The item is no struct.
    UnsupportedItem,
    /// The component names no message type.
    MissingMessageType,
    /// The name of the message type is no path.
    UnresolvedMessageType { name: String },
    /// The content cannot be written down as construction logic.
    Emit(EmitError),
}

/// A [`DeriveError`] as plain values.
pub enum DeriveErrorView {
    MissingSource,
    InvalidSyntax,
    FileNotFound { path: Seq<char> },
    Parse(ParseErrorView),
    UnsupportedItem,
    MissingMessageType,
    UnresolvedMessageType { name: Seq<char> },
    Emit(EmitErrorView),
}

impl View for DeriveError {
    type V = DeriveErrorView;

    open spec fn view(&self) -> DeriveErrorView {
        match self {
            DeriveError::MissingSource => DeriveErrorView::MissingSource,
            DeriveError::InvalidSyntax => DeriveErrorView::InvalidSyntax,
            DeriveError::FileNotFound { path } => DeriveErrorView::FileNotFound { path: path@ },
            DeriveError::Parse(e) => DeriveErrorView::Parse(e@),
            DeriveError::UnsupportedItem => DeriveErrorView::UnsupportedItem,
            DeriveError::MissingMessageType => DeriveErrorView::MissingMessageType,
            DeriveError::UnresolvedMessageType { name } => DeriveErrorView::UnresolvedMessageType {
                name: name@,
            },
            DeriveError::Emit(e) => DeriveErrorView::Emit(e@),
        }
    }
}

impl DeriveError {
    /// What went wrong, in words.
    pub open spec fn message_text(self) -> Seq<char> {
        match self {
            DeriveError::MissingSource => "Missing 'source' attriute"@,
            DeriveError::InvalidSyntax => "Invalid syntax"@,
            DeriveError::FileNotFound { path } => "could not find component file '"@ + path@
                + "'"@,
            DeriveError::Parse(e) => e.message_text(),
            DeriveError::UnsupportedItem => "only a struct can be a component"@,
            DeriveError::MissingMessageType => "the component names no message type"@,
            DeriveError::UnresolvedMessageType { name } => "the message type is no path: "@
                + name@,
            DeriveError::Emit(e) => e.message_text(),
        }
    }

    /// Where the host reports the error: at the `source` attribute where the
    /// attribute is at fault or names a file that is not there, else at the
    /// item.
    pub open spec fn place_of(self) -> Place {
        match self {
            DeriveError::InvalidSyntax => Place::SourceAttribute,
            DeriveError::FileNotFound { path } => Place::SourceAttribute,
            _ => Place::Item,
        }
    }

    /// Where the host reports the error.
    pub fn place(&self) -> (r: Place)
        ensures
            r == self.place_of(),
    {
        match self {
            DeriveError::InvalidSyntax => Place::SourceAttribute,
            DeriveError::FileNotFound { .. } => Place::SourceAttribute,
            _ => Place::Item,
        }
    }

    /// What went wrong, in words, for the diagnostic that the host reports.
    pub fn message(&self) -> (r: String)
        ensures
            r@ == self.message_text(),
    {
        match self {
            DeriveError::MissingSource => String::from_str("Missing 'source' attriute"),
            DeriveError::InvalidSyntax => String::from_str("Invalid syntax"),
            DeriveError::FileNotFound { path } => {
                let mut text = String::from_str("could not find component file '");
                text.append(path.as_str());
                text.append("'");
                text
            },
            DeriveError::Parse(e) => e.message(),
            DeriveError::UnsupportedItem => String::from_str("only a struct can be a component"),
            DeriveError::MissingMessageType => String::from_str(
                "the component names no message type",
            ),
            DeriveError::UnresolvedMessageType { name } => {
                let mut text = String::from_str("the message type is no path: ");
                text.append(name.as_str());
                text
            },
            DeriveError::Emit(e) => e.message(),
        }
    }
}

/// The index of the first attribute called `source` among those from index
/// `from` on.
pub open spec fn source_from(attributes: Seq<ItemAttributeView>, from: int) -> Option<int>
    decreases attributes.len() - from,
{
    if from < 0 || from >= attributes.len() {
        None
    } else if attributes[from].name == Some(SOURCE@) {
        Some(from)
    } else {
        source_from(attributes, from + 1)
    }
}

/// The template file that an attribute names.
pub open spec fn template_of_attribute(attribute: ItemAttributeView) -> Result<
    Seq<char>,
    DeriveErrorView,
> {
    match attribute.value {
        Some(file) => Ok(file),
        None => Err(DeriveErrorView::InvalidSyntax),
    }
}

/// The template file that an item names: the text of its first `source`
/// attribute.
pub open spec fn template_of(input: DeriveInputView) -> Result<Seq<char>, DeriveErrorView> {
    match source_from(input.attributes, 0) {
        None => Err(DeriveErrorView::MissingSource),
        Some(i) => template_of_attribute(input.attributes[i]),
    }
}

/// The message type of a component, given whether its name is a path.
pub open spec fn message_type_of(message_type: Option<Seq<char>>, resolves: bool) -> Result<
    Seq<char>,
    DeriveErrorView,
> {
    match message_type {
        None => Err(DeriveErrorView::MissingMessageType),
        Some(name) => if resolves {
            Ok(name)
        } else {
            Err(DeriveErrorView::UnresolvedMessageType { name })
        },
    }
}

/// What the implementation for the item `name` holds, given the message
/// type that the component names, whether that name is a path, and the
/// resolved content.
pub open spec fn impl_of(
    name: Seq<char>,
    message_type: Option<Seq<char>>,
    is_path: bool,
    content: Option<ResolvedNodeView>,
) -> Result<ComponentImplView, DeriveErrorView> {
    match message_type_of(message_type, is_path) {
        Err(e) => Err(e),
        Ok(message_type) => match content {
            None => Ok(ComponentImplView { name, message_type, view: None }),
            Some(node) => match static_frame(node) {
                Ok(frame) => Ok(ComponentImplView { name, message_type, view: Some(frame) }),
                Err(e) => Err(DeriveErrorView::Emit(e)),
            },
        },
    }
}

/// Whether `resolved` is a resolution of a component's content: none for no
/// content, else a resolution of the content's node.
pub open spec fn resolves_content(
    content: Option<ComponentNodeView>,
    resolved: Option<ResolvedNodeView>,
) -> bool {
    match content {
        None => resolved is None,
        Some(node) => resolved matches Some(out) && resolves(node, out),
    }
}

/// Whether `out` is what the implementation for the item `name` holds for
/// some resolution of the component's content and one of the two answers
/// that the host parser can give about the message type.
pub open spec fn implements(
    name: Seq<char>,
    component: ComponentView,
    out: Result<ComponentImplView, DeriveErrorView>,
) -> bool {
    exists|is_path: bool, resolved: Option<ResolvedNodeView>|
        resolves_content(component.content, resolved) && out == #[trigger] impl_of(
            name,
            component.message_type,
            is_path,
            resolved,
        )
}

/// Whether `out` is what is derived for an item, given what the host found
/// where the template file should be. The errors come in this order: the
/// item names no template; the file is not there; the template is no
/// component; the item is no struct; then those of the implementation.
pub open spec fn derives(
    input: DeriveInputView,
    template: TemplateView,
    out: Result<ComponentImplView, DeriveErrorView>,
) -> bool {
    match template_of(input) {
        Err(e) => out == Err::<ComponentImplView, DeriveErrorView>(e),
        Ok(_) => match template {
            TemplateView::Missing { path } => out == Err::<ComponentImplView, DeriveErrorView>(
                DeriveErrorView::FileNotFound { path },
            ),
            TemplateView::Found { text } => match component_of_text(xml_nodes(text)) {
                Err(e) => out == Err::<ComponentImplView, DeriveErrorView>(
                    DeriveErrorView::Parse(e),
                ),
                Ok(component) => match input.kind {
                    ItemKind::Struct => implements(input.name, component, out),
                    _ => out == Err::<ComponentImplView, DeriveErrorView>(
                        DeriveErrorView::UnsupportedItem,
                    ),
                },
            },
        },
    }
}

/// Calls `syn::parse_str::<syn::Path>` and tells whether it accepted the
/// text as one Rust path. Nothing is claimed of the answer: the parser lexes
/// with the compiler's own lexer too where it runs inside a procedural
/// macro, so the same text need not get the same answer everywhere.
#[verifier::external_body]
fn is_type_path(text: &str) -> (r: bool) {
    syn::parse_str::<syn::Path>(text).is_ok()
}

fn is_source(attribute: &ItemAttribute) -> (r: bool)
    ensures
        r == (attribute@.name == Some(SOURCE@)),
{
    match &attribute.name {
        Some(name) => str_eq(name.as_str(), SOURCE),
        None => false,
    }
}

/// The place of the item's first attribute called `source`.
pub fn source_position(input: &DeriveInput) -> (r: Option<usize>)
    ensures
        r is Some <==> source_from(input@.attributes, 0) is Some,
        r matches Some(i) ==> source_from(input@.attributes, 0) == Some(i as int) && i
            < input.attributes.len(),
{
    let ghost views = input@.attributes;
    let mut i: usize = 0;
    while i < input.attributes.len()
        invariant
            i <= input.attributes.len(),
            views == input.attributes@.map_values(|a: ItemAttribute| a@),
            source_from(views, 0) == source_from(views, i as int),
        decreases input.attributes.len() - i,
    {
        assert(views[i as int] == input.attributes[i as int]@);
        if is_source(&input.attributes[i]) {
            return Some(i);
        }
        i += 1;
    }
    None
}

/// The item's first attribute called `source`.
pub fn source_attribute(input: &DeriveInput) -> (r: Option<&ItemAttribute>)
    ensures
        match r {
            Some(attribute) => source_from(input@.attributes, 0) matches Some(i)
                && input@.attributes[i] == attribute@,
            None => source_from(input@.attributes, 0) is None,
        },
{
    match source_position(input) {
        Some(i) => Some(&input.attributes[i]),
        None => None,
    }
}

/// The template file that a `source` attribute names; an error where the
/// attribute does not have the form `source = "file"`.
pub fn parse_template_attribute(attribute: &ItemAttribute) -> (r: Result<String, DeriveError>)
    ensures
        same(r, template_of_attribute(attribute@)),
{
    match &attribute.value {
        Some(file) => Ok(file.clone()),
        None => Err(DeriveError::InvalidSyntax),
    }
}

/// The template file that an item names.
pub fn template_file(input: &DeriveInput) -> (r: Result<String, DeriveError>)
    ensures
        same(r, template_of(input@)),
{
    match source_attribute(input) {
        Some(attribute) => parse_template_attribute(attribute),
        None => Err(DeriveError::MissingSource),
    }
}

/// The message type of a component, where `resolves` tells whether its name
/// is a path.
pub fn resolve_message_type(message_type: &Option<String>, resolves: bool) -> (r: Result<
    String,
    DeriveError,
>)
    ensures
        same(r, message_type_of(text_view(*message_type), resolves)),
{
    match message_type {
        None => Err(DeriveError::MissingMessageType),
        Some(name) => if resolves {
            Ok(name.clone())
        } else {
            Err(DeriveError::UnresolvedMessageType { name: name.clone() })
        },
    }
}

fn asks_path(message_type: &Option<String>) -> (r: bool) {
    match message_type {
        Some(name) => is_type_path(name.as_str()),
        None => false,
    }
}

/// What the implementation for the item `name` holds, where `is_path` tells
/// whether the name of the message type is a path and `content` is the
/// resolved content. It fails where the component names no message type,
/// where that name is no path, and where the content cannot be written down
/// as construction logic.
pub fn implement(
    name: &str,
    message_type: &Option<String>,
    is_path: bool,
    content: Option<&ResolvedNode>,
) -> (r: Result<ComponentImpl, DeriveError>)
    ensures
        same(
            r,
            impl_of(
                name@,
                text_view(*message_type),
                is_path,
                match content {
                    Some(node) => Some(node@),
                    None => None,
                },
            ),
        ),
{
    let message_type = match resolve_message_type(message_type, is_path) {
        Ok(message_type) => message_type,
        Err(e) => {
            return Err(e);
        },
    };
    let view = match content {
        None => None,
        Some(node) => match emit_frame(node) {
            Ok(frame) => Some(frame),
            Err(e) => {
                return Err(DeriveError::Emit(e));
            },
        },
    };
    Ok(ComponentImpl { name: String::from_str(name), message_type, view })
}

/// What the implementation for the item `name` holds: the path of the
/// component's message type and the view of its content. The host parser is
/// asked whether the name of the message type is a path, and the content is
/// resolved; the outcome is that of [`implement`] for what came back.
pub fn derive_component_struct(name: &str, component: &Component) -> (r: Result<
    ComponentImpl,
    DeriveError,
>)
    ensures
        implements(name@, component@, plain(r)),
{
    let is_path = asks_path(&component.message_type);
    match &component.content {
        None => {
            let r = implement(name, &component.message_type, is_path, None);
            assert(resolves_content(component@.content, None));
            assert(plain(r) == impl_of(name@, component@.message_type, is_path, None));
            r
        },
        Some(node) => {
            let resolved = resolve_component_node(node);
            let r = implement(name, &component.message_type, is_path, Some(&resolved));
            assert(resolves_content(component@.content, Some(resolved@)));
            assert(plain(r) == impl_of(
                name@,
                component@.message_type,
                is_path,
                Some(resolved@),
            ));
            r
        },
    }
}

/// What is derived for an item, given what the host found where the
/// template file should be.
pub fn derive_component_impl(input: &DeriveInput, template: &Template) -> (r: Result<
    ComponentImpl,
    DeriveError,
>)
    ensures
        derives(input@, template@, plain(r)),
{
    match template_file(input) {
        Ok(_) => {},
        Err(e) => {
            return Err(e);
        },
    }
    let text = match template {
        Template::Found { text } => text,
        Template::Missing { path } => {
            return Err(DeriveError::FileNotFound { path: path.clone() });
        },
    };
    let component = match parse_str(text.as_str()) {
        Ok(component) => component,
        Err(e) => {
            return Err(DeriveError::Parse(e));
        },
    };
    match input.kind {
        ItemKind::Struct => derive_component_struct(input.name.as_str(), &component),
        _ => Err(DeriveError::UnsupportedItem),
    }
}

} // verus!
