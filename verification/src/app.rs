//! The live preview: what it holds and how it answers what happens.
//!
//! The host polls: at each tick it asks the preview which source to read,
//! reads it, and hands the text back. The preview parses the text, resolves
//! the values of the content once, and puts the outcome in the place of what
//! it showed before.
use vstd::prelude::*;
use vstd::string::*;
use crate::markup::xml_nodes;
use crate::node::{Component, ComponentView};
use crate::plain::text_view;
use crate::parser::{component_of_text, parse_str};
use crate::preview::{dynamic_frame, show_frame};
use crate::resolve::{resolve_component_node, resolves, ResolvedNode, ResolvedNodeView};
use crate::view::{Frame, FrameView};

verus! {

/// What can happen to the preview.
#[derive(Debug, Clone, PartialEq, Eq)]
pub enum Message {
    /// The polling interval has passed.
    Tick,
    /// Another file is to be shown.
    PathChanged(String),
    /// Nothing.
    NOP,
}

/// Where the markup comes from.
#[derive(Debug, Clone, PartialEq, Eq)]
pub enum Source {
    /// The markup that the host has built in.
    Default,
    /// The file at this path.
    File(String),
}

/// What the host is to do after an update.
#[derive(Debug, Clone, PartialEq, Eq)]
pub enum Action {
    Nothing,
    /// Read the source and hand its text to [`App::load`].
    Read(Source),
}

/// What the preview shows.
#[derive(Debug, PartialEq, Eq)]
pub enum Screen {
    /// A line of plain text.
    Notice(String),
    /// The frame of the component's content.
    Content(Frame),
}

/// A [`Screen`] as plain values.
pub enum ScreenView {
    Notice(Seq<char>),
    Content(FrameView),
}

impl View for Screen {
    type V = ScreenView;

    open spec fn view(&self) -> ScreenView {
        match self {
            Screen::Notice(text) => ScreenView::Notice(text@),
            Screen::Content(frame) => ScreenView::Content(frame@),
        }
    }
}

/// The notice that stands for markup that is no component.
pub const INVALID: &'static str = "Invalid xml";

/// What a preview in this state shows: a notice while there is no component,
/// the empty notice while there is no resolved content, else the frame that
/// the interpreter makes of the resolved content.
pub open spec fn screen_of(app: AppView) -> ScreenView {
    match app.parsed {
        None => ScreenView::Notice(INVALID@),
        Some(_) => match app.resolved {
            None => ScreenView::Notice(Seq::empty()),
            Some(resolved) => ScreenView::Content(dynamic_frame(resolved)),
        },
    }
}

/// The preview's state.
#[derive(Debug, PartialEq, Eq)]
pub struct App {
    /// What the last reading gave: `None` before the first one, and where
    /// the text was no component.
    pub parsed: Option<Component>,
    /// The content of `parsed` with its values resolved; `None` where there
    /// is no content.
    pub resolved: Option<ResolvedNode>,
    /// The file that is shown; `None` for the built-in markup.
    pub path: Option<String>,
}

/// An [`App`] as plain values.
pub struct AppView {
    pub parsed: Option<ComponentView>,
    pub resolved: Option<ResolvedNodeView>,
    pub path: Option<Seq<char>>,
}

impl View for App {
    type V = AppView;

    open spec fn view(&self) -> AppView {
        AppView {
            parsed: match self.parsed {
                Some(component) => Some(component@),
                None => None,
            },
            resolved: match self.resolved {
                Some(resolved) => Some(resolved@),
                None => None,
            },
            path: text_view(self.path),
        }
    }
}

/// Whether `resolved` is what goes with `parsed`: a resolution of the
/// component's content, and nothing where there is no content.
pub open spec fn resolved_for(
    parsed: Option<ComponentView>,
    resolved: Option<ResolvedNodeView>,
) -> bool {
    match parsed {
        Some(component) => match component.content {
            Some(node) => resolved matches Some(out) && resolves(node, out),
            None => resolved is None,
        },
        None => resolved is None,
    }
}

/// Whether an action is to read the source that `path` names.
pub open spec fn reads(action: Action, path: Option<Seq<char>>) -> bool {
    match path {
        None => action == Action::Read(Source::Default),
        Some(p) => action matches Action::Read(Source::File(file)) && file@ == p,
    }
}

impl App {
    /// A preview of the file at `path`, or of the built-in markup, that has
    /// read nothing yet.
    pub fn with_initial_path(path: Option<String>) -> (r: App)
        ensures
            r.parsed is None,
            r.resolved is None,
            r.path == path,
    {
        App { parsed: None, resolved: None, path }
    }

    /// The preview's answer to a message. A tick asks the host to read the
    /// current source; a change of path is taken down for the next tick.
    pub fn update(&mut self, message: Message) -> (action: Action)
        ensures
            match message {
                Message::Tick => final(self)@ == old(self)@ && reads(action, old(self)@.path),
                Message::PathChanged(path) => {
                    &&& final(self)@.parsed == old(self)@.parsed
                    &&& final(self)@.resolved == old(self)@.resolved
                    &&& final(self)@.path == Some(path@)
                    &&& action == Action::Nothing
                },
                Message::NOP => final(self)@ == old(self)@ && action == Action::Nothing,
            },
    {
        match message {
            Message::Tick => match &self.path {
                None => Action::Read(Source::Default),
                Some(path) => Action::Read(Source::File(path.clone())),
            },
            Message::PathChanged(path) => {
                self.path = Some(path);
                Action::Nothing
            },
            Message::NOP => Action::Nothing,
        }
    }

    /// What the preview shows.
    pub fn screen(&self) -> (r: Screen)
        ensures
            r@ == screen_of(self@),
    {
        match &self.parsed {
            None => Screen::Notice(String::from_str(INVALID)),
            Some(_) => match &self.resolved {
                None => Screen::Notice(String::new()),
                Some(resolved) => Screen::Content(show_frame(resolved)),
            },
        }
    }

    /// Takes the text that the host has read: the component that the text
    /// describes replaces what was there, with a resolution of its content;
    /// nothing is there where the text describes none.
    pub fn load(&mut self, text: &str)
        ensures
            final(self)@.path == old(self)@.path,
            final(self)@.parsed == (match component_of_text(xml_nodes(text@)) {
                Ok(component) => Some(component),
                Err(_) => None,
            }),
            resolved_for(final(self)@.parsed, final(self)@.resolved),
    {
        match parse_str(text) {
            Ok(component) => {
                self.resolved = match &component.content {
                    Some(node) => Some(resolve_component_node(node)),
                    None => None,
                };
                self.parsed = Some(component);
            },
            Err(_) => {
                self.parsed = None;
                self.resolved = None;
            },
        }
    }
}

} // verus!
