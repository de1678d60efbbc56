//! Widgets: named, prioritized, show/hide-able units. The drawable part of
//! each widget is a closed set of kinds; the interactive state each kind
//! needs (a scroll offset, a list selection, an input buffer) lives here,
//! while actual drawing is left to the hosting toolkit.

use vstd::prelude::*;
use crate::bookmarks::BookmarkId;
use crate::command::{InputSubmitCommand, InputSubmitV};
use crate::helptext::{Span, SpanV};

verus! {

#[verifier::external_type_specification]
#[verifier::external_body]
pub struct ExInput(tui_input::Input);

#[verifier::external_type_specification]
#[verifier::external_body]
pub struct ExKeyEvent(crossterm::event::KeyEvent);

/// What a `tui_input::Input` buffer holds. The buffer also keeps a cursor,
/// so editing is not a function of this value alone.
pub uninterp spec fn input_text(i: tui_input::Input) -> Seq<char>;

/// Relies on tui_input::Input::new: the fresh buffer holds exactly the
/// given value (with the cursor at its end).
#[verifier::external_body]
pub fn input_new(value: &str) -> (r: tui_input::Input)
    ensures
        input_text(r) == value@,
{
    tui_input::Input::new(value.to_owned())
}

/// Relies on tui_input::Input::value: returns what the buffer holds.
#[verifier::external_body]
pub fn input_value(i: &tui_input::Input) -> (r: String)
    ensures
        r@ == input_text(*i),
{
    i.value().to_owned()
}

/// Relies on tui_input's crossterm event handler: applies one editing key
/// to the buffer. What the buffer holds afterwards depends on its cursor,
/// which this model does not track, so nothing is assumed of the result.
#[verifier::external_body]
pub fn input_edit(i: &mut tui_input::Input, key: &crossterm::event::KeyEvent) {
    let _ = tui_input::backend::crossterm::EventHandler::handle_event(
        i,
        &crossterm::event::Event::Key(*key),
    );
}

/// Which pane of the bookmark list has the selection.
#[derive(Clone, Copy, Debug, PartialEq, Eq, Structural)]
pub enum Selection {
    Tree,
    Table,
}

/// The drawable kinds a widget can wrap, with the interactive state each
/// one needs. The base chrome (status line, menu line, tab strip) reads its
/// state from the shell's managers at draw time and needs none here.
pub enum WidgetKind {
    StatusBar,
    MenuBar,
    Tabs,
    Splash,
    Help { scroll: usize, content: Vec<Vec<Span>> },
    TabList { selected: usize },
    BookmarkList { selection: Selection, table_sel: usize, selected_folder: BookmarkId },
    Input { title: String, input: tui_input::Input, max_size: usize, command: InputSubmitCommand },
}

/// Ghost mirror of `WidgetKind`.
#[verifier::ext_equal]
pub enum WidgetKindV {
    StatusBar,
    MenuBar,
    Tabs,
    Splash,
    Help { scroll: usize, content: Seq<Seq<SpanV>> },
    TabList { selected: usize },
    BookmarkList { selection: Selection, table_sel: usize, selected_folder: u128 },
    Input { title: Seq<char>, value: Seq<char>, max_size: usize, command: InputSubmitV },
}

impl DeepView for WidgetKind {
    type V = WidgetKindV;

    open spec fn deep_view(&self) -> WidgetKindV {
        match self {
            WidgetKind::StatusBar => WidgetKindV::StatusBar,
            WidgetKind::MenuBar => WidgetKindV::MenuBar,
            WidgetKind::Tabs => WidgetKindV::Tabs,
            WidgetKind::Splash => WidgetKindV::Splash,
            WidgetKind::Help { scroll, content } => WidgetKindV::Help {
                scroll: *scroll,
                content: content.deep_view(),
            },
            WidgetKind::TabList { selected } => WidgetKindV::TabList { selected: *selected },
            WidgetKind::BookmarkList { selection, table_sel, selected_folder } => {
                WidgetKindV::BookmarkList {
                    selection: *selection,
                    table_sel: *table_sel,
                    selected_folder: selected_folder.value,
                }
            },
            WidgetKind::Input { title, input, max_size, command } => WidgetKindV::Input {
                title: title@,
                value: input_text(*input),
                max_size: *max_size,
                command: command.deep_view(),
            },
        }
    }
}

/// One widget: a unique id, a draw priority (0 is drawn first, 255 last),
/// whether it is visible, and the drawable it wraps.
pub struct Widget {
    pub id: String,
    pub priority: u8,
    pub visible: bool,
    pub kind: WidgetKind,
}

/// Ghost mirror of `Widget`.
#[verifier::ext_equal]
pub struct WidgetV {
    pub id: Seq<char>,
    pub priority: u8,
    pub visible: bool,
    pub kind: WidgetKindV,
}

impl DeepView for Widget {
    type V = WidgetV;

    open spec fn deep_view(&self) -> WidgetV {
        WidgetV {
            id: self.id@,
            priority: self.priority,
            visible: self.visible,
            kind: self.kind.deep_view(),
        }
    }
}

impl Widget {
    /// A widget wrapping the given drawable.
    pub fn new(id: &str, priority: u8, visible: bool, kind: WidgetKind) -> (w: Widget)
        ensures
            w.deep_view() == (WidgetV { id: id@, priority, visible, kind: kind.deep_view() }),
    {
        Widget { id: id.to_owned(), priority, visible, kind }
    }
}

} // verus!
