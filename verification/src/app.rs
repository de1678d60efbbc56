//! The dispatch loop's state and logic: one `App` owns every manager, routes
//! each key press to the focused widget first and the global key table
//! second, and drains the command queue, applying each command to exactly
//! one manager operation. The hosting shell only reads keys, draws, and
//! performs the network fetches this module asks for.

use vstd::prelude::*;
use crate::bookmarks::{folder_view, BookmarkManager};
use crate::command::{Command, CommandQueue, CommandV, InputSubmitCommand, InputSubmitV};
use crate::helptext::{spec_styled_lines, generate_lines_from_helptext, HELPTEXT};
use crate::keys::{KeyCode, KeyInput};
use crate::menu::MenuBar;
use crate::numfmt::{dec_rep, usize_to_string};
use crate::status::{StatusBar, StatusBarV};
use crate::tabs::{spec_is_https, TabManager, TabV};
use crate::widget::{input_new, Selection, Widget, WidgetKind, WidgetKindV, WidgetV};
use crate::widget_manager::{
    has_widget, index_of_id, spec_show_widgets, spec_hide_widgets, spec_toggle_widgets, wm_wf,
    WidgetManager,
};

verus! {

broadcast use vstd::seq::group_seq_axioms, vstd::std_specs::vec::group_vec_axioms, crate::strutil::lemma_vec_deep_view_len, crate::strutil::lemma_vec_deep_view_index;

/// A network fetch the hosting shell must perform before the drain can
/// finish opening a tab.
pub struct FetchRequest {
    pub title: String,
    pub url: String,
}

/// Ghost mirror of `FetchRequest`.
#[verifier::ext_equal]
pub struct FetchRequestV {
    pub title: Seq<char>,
    pub url: Seq<char>,
}

impl DeepView for FetchRequest {
    type V = FetchRequestV;

    open spec fn deep_view(&self) -> FetchRequestV {
        FetchRequestV { title: self.title@, url: self.url@ }
    }
}

/// Ghost mirror of the whole shell state.
#[verifier::ext_equal]
pub struct AppV {
    pub should_quit: bool,
    pub status_bar: StatusBarV,
    pub menu_bar: MenuBar,
    pub tabs: Seq<TabV>,
    pub current: int,
    pub bookmarks_root: crate::bookmarks::FolderV,
    pub widgets: Seq<WidgetV>,
    pub focussed: Option<Seq<char>>,
    pub queue: Seq<CommandV>,
}

/// The shell: every manager, the command queue, and the quit flag.
pub struct App {
    pub should_quit: bool,
    pub status_bar: StatusBar,
    pub menu_bar: MenuBar,
    pub tab_manager: TabManager,
    pub bookmark_manager: BookmarkManager,
    pub widget_manager: WidgetManager,
    pub command_queue: CommandQueue,
}

impl App {
    /// The whole state as a ghost value.
    pub open spec fn v(&self) -> AppV {
        AppV {
            should_quit: self.should_quit,
            status_bar: self.status_bar.deep_view(),
            menu_bar: self.menu_bar,
            tabs: self.tab_manager.tabs_v(),
            current: self.tab_manager.current as int,
            bookmarks_root: folder_view(self.bookmark_manager.root),
            widgets: self.widget_manager.widgets_v(),
            focussed: self.widget_manager.focussed_v(),
            queue: self.command_queue@,
        }
    }

    /// Well-formed: both managers keep their invariants and at least one
    /// tab is open, so there is always a current tab.
    pub open spec fn wf(&self) -> bool {
        &&& self.widget_manager.wf()
        &&& self.tab_manager.wf()
        &&& self.tab_manager.tabs_v().len() > 0
    }
}

/// The state with another status-line message.
pub open spec fn with_status(a: AppV, msg: Seq<char>) -> AppV {
    AppV { status_bar: StatusBarV { status: msg, ..a.status_bar }, ..a }
}

/// The state with one more command queued.
pub open spec fn with_cmd(a: AppV, c: CommandV) -> AppV {
    AppV { queue: a.queue.push(c), ..a }
}

/// The state with a widget registered, unless its id is taken.
pub open spec fn with_widget(a: AppV, w: WidgetV) -> AppV {
    if has_widget(a.widgets, w.id) {
        a
    } else {
        AppV { widgets: a.widgets.push(w), ..a }
    }
}

/// The status message for switching to a tab.
pub open spec fn switched_msg(idx: int) -> Seq<char> {
    "Switched to tab "@ + dec_rep(idx as nat)
}

/// The help overlay, as created by the help key.
pub open spec fn help_widget_v() -> WidgetV {
    WidgetV {
        id: "help"@,
        priority: 255,
        visible: false,
        kind: WidgetKindV::Help { scroll: 0, content: spec_styled_lines(HELPTEXT@) },
    }
}

/// The tab-list overlay, selecting the current tab.
pub open spec fn tab_list_widget_v(selected: usize) -> WidgetV {
    WidgetV {
        id: "tab_list"@,
        priority: 64,
        visible: false,
        kind: WidgetKindV::TabList { selected },
    }
}

/// The bookmark-list overlay, with the tree pane active and the root
/// folder selected.
pub open spec fn bookmark_list_widget_v(root_id: u128) -> WidgetV {
    WidgetV {
        id: "bookmark_list"@,
        priority: 64,
        visible: false,
        kind: WidgetKindV::BookmarkList {
            selection: Selection::Tree,
            table_sel: 0,
            selected_folder: root_id,
        },
    }
}

/// An input prompt overlay.
pub open spec fn input_widget_v(
    title: Seq<char>,
    value: Seq<char>,
    max_size: usize,
    command: InputSubmitV,
) -> WidgetV {
    WidgetV {
        id: "input"@,
        priority: 64,
        visible: false,
        kind: WidgetKindV::Input { title, value, max_size, command },
    }
}

/// Asking to show a widget, focused.
pub open spec fn show_cmd(id: Seq<char>) -> CommandV {
    CommandV::ShowWidget { id, focus: true }
}

/// The global key table: what a key does when no focused widget consumed
/// it. Unrecognized keys change nothing.
pub open spec fn spec_process_key(a: AppV, key: KeyInput) -> AppV {
    let len = a.tabs.len() as int;
    match key.code {
        KeyCode::Char(c) => {
            if key.alt && 48 <= c as int <= 57 {
                let d = c as int - 48;
                let a1 = AppV { current: if d < len { d } else { a.current }, ..a };
                with_status(a1, switched_msg(d))
            } else if key.ctrl && c == 'g' {
                let w = input_widget_v(
                    "Enter the URL to visit"@,
                    ""@,
                    80,
                    InputSubmitV::OpenTabWithUrl,
                );
                with_cmd(with_widget(a, w), show_cmd("input"@))
            } else if key.ctrl && c == 'r' {
                let w = input_widget_v(
                    "Enter name for this tab"@,
                    a.tabs[a.current].name,
                    40,
                    InputSubmitV::RenameTab { tab_idx: a.current as usize },
                );
                with_cmd(with_widget(a, w), show_cmd("input"@))
            } else if key.ctrl && c == 'w' {
                with_cmd(a, CommandV::CloseTab { idx: a.current as usize })
            } else if key.ctrl && c == 'n' {
                with_cmd(
                    a,
                    CommandV::NewTabUrl { title: "New Tab"@, url: "gosub://blank"@ },
                )
            } else if key.ctrl && c == 'q' {
                with_cmd(a, CommandV::Quit)
            } else {
                a
            }
        },
        KeyCode::F(n) => {
            if n == 1 {
                with_cmd(with_widget(a, help_widget_v()), show_cmd("help"@))
            } else if n == 2 {
                with_cmd(
                    with_widget(a, tab_list_widget_v(a.current as usize)),
                    show_cmd("tab_list"@),
                )
            } else if n == 8 {
                with_cmd(
                    with_widget(a, bookmark_list_widget_v(a.bookmarks_root.id)),
                    show_cmd("bookmark_list"@),
                )
            } else {
                a
            }
        },
        KeyCode::Tab => {
            if key.shift {
                let idx = if a.current > 0 {
                    a.current - 1
                } else {
                    len - 1
                };
                with_status(AppV { current: idx, ..a }, switched_msg(idx))
            } else {
                let idx = (a.current + 1) % len;
                with_status(AppV { current: idx, ..a }, switched_msg(idx))
            }
        },
        _ => a,
    }
}

impl App {
    /// A fresh shell over the given bookmark tree: default status and menu
    /// lines, no tabs yet, an empty queue, and the three base chrome
    /// widgets (status line, menu line, tab strip) registered and visible.
    pub fn new(bookmark_manager: BookmarkManager) -> (a: App)
        ensures
            a.v() == (AppV {
                should_quit: false,
                status_bar: StatusBarV { status: "Press F1 for help"@, tab_info: None },
                menu_bar: MenuBar { active: false, menu_item_active: 0 },
                tabs: Seq::<TabV>::empty(),
                current: 0,
                bookmarks_root: folder_view(bookmark_manager.root),
                widgets: seq![
                    WidgetV {
                        id: "statusbar"@,
                        priority: 0,
                        visible: true,
                        kind: WidgetKindV::StatusBar,
                    },
                    WidgetV {
                        id: "menubar"@,
                        priority: 0,
                        visible: true,
                        kind: WidgetKindV::MenuBar,
                    },
                    WidgetV { id: "tabs"@, priority: 0, visible: true, kind: WidgetKindV::Tabs },
                ],
                focussed: None,
                queue: Seq::<CommandV>::empty(),
            }),
            a.widget_manager.wf(),
            a.tab_manager.wf(),
    {
        let mut app = App {
            should_quit: false,
            status_bar: StatusBar::new(),
            menu_bar: MenuBar::new(),
            tab_manager: TabManager::new(),
            bookmark_manager,
            widget_manager: WidgetManager::new(),
            command_queue: CommandQueue::new(),
        };
        proof {
            reveal_strlit("statusbar");
            reveal_strlit("menubar");
            reveal_strlit("tabs");
        }
        app.widget_manager.create(Widget::new("statusbar", 0, true, WidgetKind::StatusBar));
        proof {
            assert(!has_widget(Seq::<WidgetV>::empty(), "statusbar"@));
            assert(app.widget_manager.widgets_v() =~= seq![
                WidgetV {
                    id: "statusbar"@,
                    priority: 0,
                    visible: true,
                    kind: WidgetKindV::StatusBar,
                },
            ]);
            assert("menubar"@.len() != "statusbar"@.len());
        }
        app.widget_manager.create(Widget::new("menubar", 0, true, WidgetKind::MenuBar));
        proof {
            assert(app.widget_manager.widgets_v() =~= seq![
                WidgetV {
                    id: "statusbar"@,
                    priority: 0,
                    visible: true,
                    kind: WidgetKindV::StatusBar,
                },
                WidgetV { id: "menubar"@, priority: 0, visible: true, kind: WidgetKindV::MenuBar },
            ]);
            assert("tabs"@.len() != "statusbar"@.len());
            assert("tabs"@.len() != "menubar"@.len());
        }
        app.widget_manager.create(Widget::new("tabs", 0, true, WidgetKind::Tabs));
        proof {
            assert(app.widget_manager.widgets_v() =~= seq![
                WidgetV {
                    id: "statusbar"@,
                    priority: 0,
                    visible: true,
                    kind: WidgetKindV::StatusBar,
                },
                WidgetV { id: "menubar"@, priority: 0, visible: true, kind: WidgetKindV::MenuBar },
                WidgetV { id: "tabs"@, priority: 0, visible: true, kind: WidgetKindV::Tabs },
            ]);
            assert(app.v() =~~= (AppV {
                should_quit: false,
                status_bar: StatusBarV { status: "Press F1 for help"@, tab_info: None },
                menu_bar: MenuBar { active: false, menu_item_active: 0 },
                tabs: Seq::<TabV>::empty(),
                current: 0,
                bookmarks_root: folder_view(app.bookmark_manager.root),
                widgets: app.widget_manager.widgets_v(),
                focussed: None,
                queue: Seq::<CommandV>::empty(),
            }));
        }
        app
    }

    /// Applies the global key table to one key press.
    pub fn process_key(&mut self, key: &KeyInput)
        requires
            old(self).wf(),
        ensures
            final(self).v() == spec_process_key(old(self).v(), *key),
            final(self).wf(),
    {
        let ghost a0 = self.v();
        match key.code {
            KeyCode::Char(c) => {
                let cu = c as u32;
                if key.alt && cu >= 48 && cu <= 57 {
                    let d = (cu - 48) as usize;
                    let _ = self.tab_manager.switch(d);
                    let num = usize_to_string(d);
                    let mut msg = "Switched to tab ".to_owned();
                    msg.append(num.as_str());
                    self.status_bar.status(msg.as_str());
                    proof {
                        assert(self.v() =~~= spec_process_key(a0, *key));
                    }
                } else if key.ctrl && c == 'g' {
                    let kind = WidgetKind::Input {
                        title: "Enter the URL to visit".to_owned(),
                        input: input_new(""),
                        max_size: 80,
                        command: InputSubmitCommand::OpenTabWithUrl,
                    };
                    self.widget_manager.create(Widget::new("input", 64, false, kind));
                    self.command_queue.push(
                        Command::ShowWidget { id: "input".to_owned(), focus: true },
                    );
                    proof {
                        assert(self.v() =~~= spec_process_key(a0, *key));
                    }
                } else if key.ctrl && c == 'r' {
                    let name = self.tab_manager.current().name.clone();
                    let tab_idx = self.tab_manager.current;
                    let kind = WidgetKind::Input {
                        title: "Enter name for this tab".to_owned(),
                        input: input_new(name.as_str()),
                        max_size: 40,
                        command: InputSubmitCommand::RenameTab { tab_idx },
                    };
                    self.widget_manager.create(Widget::new("input", 64, false, kind));
                    self.command_queue.push(
                        Command::ShowWidget { id: "input".to_owned(), focus: true },
                    );
                    proof {
                        assert(self.v() =~~= spec_process_key(a0, *key));
                    }
                } else if key.ctrl && c == 'w' {
                    let idx = self.tab_manager.current;
                    self.command_queue.push(Command::CloseTab { idx });
                    proof {
                        assert(self.v() =~~= spec_process_key(a0, *key));
                    }
                } else if key.ctrl && c == 'n' {
                    self.command_queue.push(
                        Command::NewTabUrl {
                            title: "New Tab".to_owned(),
                            url: "gosub://blank".to_owned(),
                        },
                    );
                    proof {
                        assert(self.v() =~~= spec_process_key(a0, *key));
                    }
                } else if key.ctrl && c == 'q' {
                    self.command_queue.push(Command::Quit);
                    proof {
                        assert(self.v() =~~= spec_process_key(a0, *key));
                    }
                } else {
                    proof {
                        assert(self.v() =~~= spec_process_key(a0, *key));
                    }
                }
            },
            KeyCode::F(n) => {
                if n == 1 {
                    let kind = WidgetKind::Help {
                        scroll: 0,
                        content: generate_lines_from_helptext(),
                    };
                    self.widget_manager.create(Widget::new("help", 255, false, kind));
                    self.command_queue.push(
                        Command::ShowWidget { id: "help".to_owned(), focus: true },
                    );
                    proof {
                        assert(self.v() =~~= spec_process_key(a0, *key));
                    }
                } else if n == 2 {
                    let kind = WidgetKind::TabList { selected: self.tab_manager.current };
                    self.widget_manager.create(Widget::new("tab_list", 64, false, kind));
                    self.command_queue.push(
                        Command::ShowWidget { id: "tab_list".to_owned(), focus: true },
                    );
                    proof {
                        assert(self.v() =~~= spec_process_key(a0, *key));
                    }
                } else if n == 8 {
                    let kind = WidgetKind::BookmarkList {
                        selection: Selection::Tree,
                        table_sel: 0,
                        selected_folder: self.bookmark_manager.root.id,
                    };
                    self.widget_manager.create(Widget::new("bookmark_list", 64, false, kind));
                    self.command_queue.push(
                        Command::ShowWidget { id: "bookmark_list".to_owned(), focus: true },
                    );
                    proof {
                        assert(self.v() =~~= spec_process_key(a0, *key));
                    }
                } else {
                    proof {
                        assert(self.v() =~~= spec_process_key(a0, *key));
                    }
                }
            },
            KeyCode::Tab => {
                let idx = if key.shift {
                    self.tab_manager.prev()
                } else {
                    self.tab_manager.next()
                };
                let num = usize_to_string(idx);
                let mut msg = "Switched to tab ".to_owned();
                msg.append(num.as_str());
                self.status_bar.status(msg.as_str());
                proof {
                    assert(self.v() =~~= spec_process_key(a0, *key));
                }
            },
            _ => {
                proof {
                    assert(self.v() =~~= spec_process_key(a0, *key));
                }
            },
        }
    }
}

} // verus!

verus! {


/// What the hosting shell must still do after a key was routed: nothing,
/// apply one editing key to the focused input buffer, or move the bookmark
/// tree cursor.
#[derive(Clone, Copy, Debug, PartialEq, Eq, Structural)]
pub enum UiAction {
    Idle,
    EditInput,
    TreeDown,
    TreeUp,
    TreeLeft,
    TreeRight,
    TreeToggle,
}

/// How many bookmarks the selected folder holds (zero when the id no
/// longer names a folder).
pub open spec fn spec_bookmark_count(root: crate::bookmarks::FolderV, id: u128) -> int {
    match crate::bookmarks::find_folder_in(root, id) {
        Some(f) => f.bookmarks.len() as int,
        None => 0,
    }
}

/// Routing one key press: the focused widget's handler runs first; the
/// base chrome widgets never consume a key, every overlay consumes all of
/// them; an unconsumed key falls through to the global key table.
pub open spec fn spec_handle_key(a: AppV, key: KeyInput) -> (AppV, UiAction) {
    match a.focussed {
        None => (spec_process_key(a, key), UiAction::Idle),
        Some(fid) => {
            let i = index_of_id(a.widgets, fid);
            let w = a.widgets[i];
            match w.kind {
                WidgetKindV::StatusBar => (spec_process_key(a, key), UiAction::Idle),
                WidgetKindV::MenuBar => (spec_process_key(a, key), UiAction::Idle),
                WidgetKindV::Tabs => (spec_process_key(a, key), UiAction::Idle),
                WidgetKindV::Splash => {
                    if key.code == KeyCode::Esc || key.code == KeyCode::Char(' ') {
                        (with_cmd(a, CommandV::DestroyWidget { id: "splash"@ }), UiAction::Idle)
                    } else {
                        (a, UiAction::Idle)
                    }
                },
                WidgetKindV::Help { scroll, content } => {
                    if key.code == KeyCode::Esc {
                        (with_cmd(a, CommandV::DestroyWidget { id: "help"@ }), UiAction::Idle)
                    } else if key.code == KeyCode::Down {
                        let ns: usize = if scroll + 1 < content.len() {
                            (scroll + 1) as usize
                        } else {
                            scroll
                        };
                        let w2 = WidgetV { kind: WidgetKindV::Help { scroll: ns, content }, ..w };
                        (AppV { widgets: a.widgets.update(i, w2), ..a }, UiAction::Idle)
                    } else if key.code == KeyCode::Up {
                        let ns: usize = if scroll > 0 {
                            (scroll - 1) as usize
                        } else {
                            0
                        };
                        let w2 = WidgetV { kind: WidgetKindV::Help { scroll: ns, content }, ..w };
                        (AppV { widgets: a.widgets.update(i, w2), ..a }, UiAction::Idle)
                    } else {
                        (a, UiAction::Idle)
                    }
                },
                WidgetKindV::TabList { selected } => {
                    if key.code == KeyCode::Esc {
                        (with_cmd(a, CommandV::DestroyWidget { id: "tab_list"@ }), UiAction::Idle)
                    } else if key.code == KeyCode::Down {
                        let ns: usize = if selected + 1 < a.tabs.len() {
                            (selected + 1) as usize
                        } else {
                            selected
                        };
                        let w2 = WidgetV { kind: WidgetKindV::TabList { selected: ns }, ..w };
                        (AppV { widgets: a.widgets.update(i, w2), ..a }, UiAction::Idle)
                    } else if key.code == KeyCode::Up {
                        let ns: usize = if selected > 0 {
                            (selected - 1) as usize
                        } else {
                            0
                        };
                        let w2 = WidgetV { kind: WidgetKindV::TabList { selected: ns }, ..w };
                        (AppV { widgets: a.widgets.update(i, w2), ..a }, UiAction::Idle)
                    } else if key.code == KeyCode::Enter {
                        let a1 = AppV {
                            current: if (selected as int) < a.tabs.len() {
                                selected as int
                            } else {
                                a.current
                            },
                            ..a
                        };
                        (
                            with_cmd(a1, CommandV::DestroyWidget { id: "tab_list"@ }),
                            UiAction::Idle,
                        )
                    } else {
                        (a, UiAction::Idle)
                    }
                },
                WidgetKindV::BookmarkList { selection, table_sel, selected_folder } => {
                    if key.code == KeyCode::Esc {
                        (
                            with_cmd(a, CommandV::DestroyWidget { id: "bookmark_list"@ }),
                            UiAction::Idle,
                        )
                    } else if key.code == KeyCode::Right {
                        (
                            a,
                            if selection == Selection::Tree {
                                UiAction::TreeRight
                            } else {
                                UiAction::Idle
                            },
                        )
                    } else if key.code == KeyCode::Left {
                        (
                            a,
                            if selection == Selection::Tree {
                                UiAction::TreeLeft
                            } else {
                                UiAction::Idle
                            },
                        )
                    } else if key.code == KeyCode::Down {
                        if selection == Selection::Tree {
                            (a, UiAction::TreeDown)
                        } else {
                            let cnt = spec_bookmark_count(a.bookmarks_root, selected_folder);
                            let ns: usize = if table_sel + 1 < cnt {
                                (table_sel + 1) as usize
                            } else {
                                table_sel
                            };
                            let w2 = WidgetV {
                                kind: WidgetKindV::BookmarkList {
                                    selection,
                                    table_sel: ns,
                                    selected_folder,
                                },
                                ..w
                            };
                            (AppV { widgets: a.widgets.update(i, w2), ..a }, UiAction::Idle)
                        }
                    } else if key.code == KeyCode::Up {
                        if selection == Selection::Tree {
                            (a, UiAction::TreeUp)
                        } else {
                            let ns: usize = if table_sel > 0 {
                                (table_sel - 1) as usize
                            } else {
                                0
                            };
                            let w2 = WidgetV {
                                kind: WidgetKindV::BookmarkList {
                                    selection,
                                    table_sel: ns,
                                    selected_folder,
                                },
                                ..w
                            };
                            (AppV { widgets: a.widgets.update(i, w2), ..a }, UiAction::Idle)
                        }
                    } else if key.code == KeyCode::Tab {
                        let ns = if selection == Selection::Tree {
                            Selection::Table
                        } else {
                            Selection::Tree
                        };
                        let w2 = WidgetV {
                            kind: WidgetKindV::BookmarkList {
                                selection: ns,
                                table_sel: 0,
                                selected_folder,
                            },
                            ..w
                        };
                        (AppV { widgets: a.widgets.update(i, w2), ..a }, UiAction::Idle)
                    } else if key.code == KeyCode::Char(' ') {
                        (
                            a,
                            if selection == Selection::Tree {
                                UiAction::TreeToggle
                            } else {
                                UiAction::Idle
                            },
                        )
                    } else {
                        (a, UiAction::Idle)
                    }
                },
                WidgetKindV::Input { title, value, max_size, command } => {
                    if key.code == KeyCode::Esc {
                        (with_cmd(a, CommandV::DestroyWidget { id: "input"@ }), UiAction::Idle)
                    } else if key.code == KeyCode::Enter {
                        let a1 = with_cmd(a, CommandV::InputSubmit { command, value });
                        (
                            with_cmd(a1, CommandV::DestroyWidget { id: "input"@ }),
                            UiAction::Idle,
                        )
                    } else {
                        (a, UiAction::EditInput)
                    }
                },
            }
        },
    }
}

impl App {
    /// Routes one key press: the focused widget's handler first, then the
    /// global key table if nothing consumed it. Returns what the hosting
    /// shell must still do for this key.
    pub fn handle_key(&mut self, key: &KeyInput) -> (r: UiAction)
        requires
            old(self).wf(),
        ensures
            final(self).v() == spec_handle_key(old(self).v(), *key).0,
            r == spec_handle_key(old(self).v(), *key).1,
            final(self).wf(),
    {
        let ghost a0 = self.v();
        let fidx = match self.widget_manager.focussed_index() {
            None => {
                self.process_key(key);
                return UiAction::Idle;
            },
            Some(i) => i,
        };
        let ghost ws0 = self.widget_manager.widgets_v();
        let w = self.widget_manager.widgets.remove(fidx);
        proof {
            assert(self.widget_manager.widgets_v() =~= ws0.remove(fidx as int));
        }
        let Widget { id, priority, visible, kind } = w;
        let mut action = UiAction::Idle;
        let mut fell_through = false;
        let kind2 = match kind {
            WidgetKind::StatusBar => {
                fell_through = true;
                WidgetKind::StatusBar
            },
            WidgetKind::MenuBar => {
                fell_through = true;
                WidgetKind::MenuBar
            },
            WidgetKind::Tabs => {
                fell_through = true;
                WidgetKind::Tabs
            },
            WidgetKind::Splash => {
                if key.code == KeyCode::Esc || key.code == KeyCode::Char(' ') {
                    self.command_queue.push(
                        Command::DestroyWidget { id: "splash".to_owned() },
                    );
                }
                WidgetKind::Splash
            },
            WidgetKind::Help { scroll, content } => {
                if key.code == KeyCode::Esc {
                    self.command_queue.push(Command::DestroyWidget { id: "help".to_owned() });
                    WidgetKind::Help { scroll, content }
                } else if key.code == KeyCode::Down {
                    let ns: usize = if scroll < content.len() && scroll + 1 < content.len() {
                        scroll + 1
                    } else {
                        scroll
                    };
                    WidgetKind::Help { scroll: ns, content }
                } else if key.code == KeyCode::Up {
                    let ns: usize = if scroll > 0 {
                        scroll - 1
                    } else {
                        0
                    };
                    WidgetKind::Help { scroll: ns, content }
                } else {
                    WidgetKind::Help { scroll, content }
                }
            },
            WidgetKind::TabList { selected } => {
                if key.code == KeyCode::Esc {
                    self.command_queue.push(
                        Command::DestroyWidget { id: "tab_list".to_owned() },
                    );
                    WidgetKind::TabList { selected }
                } else if key.code == KeyCode::Down {
                    let n = self.tab_manager.len();
                    let ns: usize = if selected < n && selected + 1 < n {
                        selected + 1
                    } else {
                        selected
                    };
                    WidgetKind::TabList { selected: ns }
                } else if key.code == KeyCode::Up {
                    let ns: usize = if selected > 0 {
                        selected - 1
                    } else {
                        0
                    };
                    WidgetKind::TabList { selected: ns }
                } else if key.code == KeyCode::Enter {
                    let _ = self.tab_manager.switch(selected);
                    self.command_queue.push(
                        Command::DestroyWidget { id: "tab_list".to_owned() },
                    );
                    WidgetKind::TabList { selected }
                } else {
                    WidgetKind::TabList { selected }
                }
            },
            WidgetKind::BookmarkList { selection, table_sel, selected_folder } => {
                if key.code == KeyCode::Esc {
                    self.command_queue.push(
                        Command::DestroyWidget { id: "bookmark_list".to_owned() },
                    );
                    WidgetKind::BookmarkList { selection, table_sel, selected_folder }
                } else if key.code == KeyCode::Right {
                    if selection == Selection::Tree {
                        action = UiAction::TreeRight;
                    }
                    WidgetKind::BookmarkList { selection, table_sel, selected_folder }
                } else if key.code == KeyCode::Left {
                    if selection == Selection::Tree {
                        action = UiAction::TreeLeft;
                    }
                    WidgetKind::BookmarkList { selection, table_sel, selected_folder }
                } else if key.code == KeyCode::Down {
                    if selection == Selection::Tree {
                        action = UiAction::TreeDown;
                        WidgetKind::BookmarkList { selection, table_sel, selected_folder }
                    } else {
                        let cnt = match self.bookmark_manager.find_folder(selected_folder) {
                            Some(f) => f.bookmarks.len(),
                            None => 0,
                        };
                        let ns: usize = if table_sel < cnt && table_sel + 1 < cnt {
                            table_sel + 1
                        } else {
                            table_sel
                        };
                        WidgetKind::BookmarkList {
                            selection,
                            table_sel: ns,
                            selected_folder,
                        }
                    }
                } else if key.code == KeyCode::Up {
                    if selection == Selection::Tree {
                        action = UiAction::TreeUp;
                        WidgetKind::BookmarkList { selection, table_sel, selected_folder }
                    } else {
                        let ns: usize = if table_sel > 0 {
                            table_sel - 1
                        } else {
                            0
                        };
                        WidgetKind::BookmarkList {
                            selection,
                            table_sel: ns,
                            selected_folder,
                        }
                    }
                } else if key.code == KeyCode::Tab {
                    let ns = if selection == Selection::Tree {
                        Selection::Table
                    } else {
                        Selection::Tree
                    };
                    WidgetKind::BookmarkList {
                        selection: ns,
                        table_sel: 0,
                        selected_folder,
                    }
                } else if key.code == KeyCode::Char(' ') {
                    if selection == Selection::Tree {
                        action = UiAction::TreeToggle;
                    }
                    WidgetKind::BookmarkList { selection, table_sel, selected_folder }
                } else {
                    WidgetKind::BookmarkList { selection, table_sel, selected_folder }
                }
            },
            WidgetKind::Input { title, input, max_size, command } => {
                if key.code == KeyCode::Esc {
                    self.command_queue.push(Command::DestroyWidget { id: "input".to_owned() });
                } else if key.code == KeyCode::Enter {
                    let value = crate::widget::input_value(&input);
                    self.command_queue.push(Command::InputSubmit { command, value });
                    self.command_queue.push(Command::DestroyWidget { id: "input".to_owned() });
                } else {
                    action = UiAction::EditInput;
                }
                WidgetKind::Input { title, input, max_size, command }
            },
        };
        self.widget_manager.widgets.insert(fidx, Widget { id, priority, visible, kind: kind2 });
        proof {
            let wsf = self.widget_manager.widgets_v();
            assert(wsf.len() == ws0.len());
            assert(forall|j: int| 0 <= j < ws0.len() && j != fidx as int ==> wsf[j] == ws0[j]);
            assert(wsf[fidx as int].id == ws0[fidx as int].id);
            assert(wsf[fidx as int].visible == ws0[fidx as int].visible);
            crate::widget_manager::lemma_wf_kind_update(
                ws0,
                wsf,
                self.widget_manager.focussed_v(),
                fidx as int,
            );
            if wsf[fidx as int] == ws0[fidx as int] {
                assert(wsf =~= ws0);
            } else {
                assert(wsf =~= ws0.update(fidx as int, wsf[fidx as int]));
            }
        }
        if fell_through {
            proof {
                assert(self.v() =~~= a0);
            }
            self.process_key(key);
        }
        proof {
            assert(self.v() =~~= spec_handle_key(a0, *key).0);
            assert(action == spec_handle_key(a0, *key).1);
        }
        action
    }
}

} // verus!

verus! {

/// The number of input submissions waiting in the queue. Each one enqueues
/// a single follow-up command when processed, so the drain's termination
/// measure counts them double.
pub open spec fn submit_weight(q: Seq<CommandV>) -> nat
    decreases q.len(),
{
    if q.len() == 0 {
        0
    } else {
        (if q[0] is InputSubmit {
            1nat
        } else {
            0nat
        }) + submit_weight(q.drop_first())
    }
}

/// Appending a command adds its own weight.
pub proof fn lemma_submit_weight_push(q: Seq<CommandV>, c: CommandV)
    ensures
        submit_weight(q.push(c)) == submit_weight(q) + (if c is InputSubmit {
            1nat
        } else {
            0nat
        }),
    decreases q.len(),
{
    let w: nat = if c is InputSubmit {
        1nat
    } else {
        0nat
    };
    if q.len() == 0 {
        assert(q.push(c)[0] == c);
        assert(q.push(c).drop_first() =~= Seq::<CommandV>::empty());
        assert(submit_weight(Seq::<CommandV>::empty()) == 0);
        assert(submit_weight(q.push(c)) == w);
        assert(submit_weight(q) == 0);
    } else {
        assert(q.push(c)[0] == q[0]);
        assert(q.push(c).drop_first() =~= q.drop_first().push(c));
        lemma_submit_weight_push(q.drop_first(), c);
        assert(submit_weight(q.push(c)) == (if q[0] is InputSubmit {
            1nat
        } else {
            0nat
        }) + submit_weight(q.drop_first()) + w);
    }
}

/// The state after showing a widget: it becomes visible, and takes the
/// focus if asked and present.
pub open spec fn apply_show(a: AppV, id: Seq<char>, focus: bool) -> AppV {
    AppV {
        widgets: spec_show_widgets(a.widgets, id),
        focussed: if focus && has_widget(a.widgets, id) {
            Some(id)
        } else {
            a.focussed
        },
        ..a
    }
}

/// The state after hiding a widget: it loses the focus if it held it.
pub open spec fn apply_hide(a: AppV, id: Seq<char>) -> AppV {
    AppV {
        widgets: spec_hide_widgets(a.widgets, id),
        focussed: if a.focussed == Some(id) {
            None
        } else {
            a.focussed
        },
        ..a
    }
}

/// The state after toggling a widget's visibility.
pub open spec fn apply_toggle(a: AppV, id: Seq<char>, focus: bool) -> AppV {
    AppV {
        widgets: spec_toggle_widgets(a.widgets, id),
        focussed: if has_widget(a.widgets, id) {
            let now_visible = !a.widgets[index_of_id(a.widgets, id)].visible;
            if !now_visible && a.focussed == Some(id) {
                None
            } else if focus && now_visible {
                Some(id)
            } else {
                a.focussed
            }
        } else {
            a.focussed
        },
        ..a
    }
}

/// The state after destroying a widget: removed from the arena, and the
/// focus cleared if it held it.
pub open spec fn apply_destroy(a: AppV, id: Seq<char>) -> AppV {
    AppV {
        widgets: if has_widget(a.widgets, id) {
            a.widgets.remove(index_of_id(a.widgets, id))
        } else {
            a.widgets
        },
        focussed: if a.focussed == Some(id) {
            None
        } else {
            a.focussed
        },
        ..a
    }
}

/// The state after renaming a tab in place; out-of-range indices change
/// nothing.
pub open spec fn apply_rename(a: AppV, idx: usize, name: Seq<char>) -> AppV {
    if (idx as int) < a.tabs.len() {
        AppV { tabs: a.tabs.update(idx as int, TabV { name, ..a.tabs[idx as int] }), ..a }
    } else {
        a
    }
}

/// The state after opening a tab with the given content: appended, made
/// current, and announced in the status line.
pub open spec fn apply_open(a: AppV, title: Seq<char>, url: Seq<char>, content: Seq<char>) -> AppV {
    let idx = a.tabs.len() as int;
    let a1 = AppV {
        tabs: a.tabs.push(TabV { name: title, url, content, secure: spec_is_https(url) }),
        current: idx,
        ..a
    };
    with_status(a1, "Opened new tab "@ + dec_rep(idx as nat))
}

/// The state after a close request: refused with a message when only one
/// tab remains; otherwise the tab goes (if the index is real), the current
/// index is clamped back into range, and the close is announced either way.
pub open spec fn apply_close(a: AppV, idx: usize) -> AppV {
    if a.tabs.len() == 1 {
        with_status(a, "Can't close last tab"@)
    } else {
        let a1 = if (idx as int) < a.tabs.len() {
            AppV {
                tabs: a.tabs.remove(idx as int),
                current: if a.current >= a.tabs.len() - 1 {
                    a.tabs.len() - 2
                } else {
                    a.current
                },
                ..a
            }
        } else {
            a
        };
        with_status(a1, "Closed tab "@ + dec_rep(idx as nat))
    }
}

/// The follow-up command an input submission enqueues.
pub open spec fn submit_follow_up(command: InputSubmitV, value: Seq<char>) -> CommandV {
    match command {
        InputSubmitV::RenameTab { tab_idx } => CommandV::RenameTab { tab_idx, name: value },
        InputSubmitV::OpenTabWithUrl => CommandV::NewTabUrl { title: "New Tab"@, url: value },
    }
}

/// Draining the queue to exhaustion: commands are applied oldest first,
/// each to exactly one manager operation; a command enqueued mid-drain is
/// processed in the same drain. Returns the final state, the commands
/// applied in order, and the pending network fetch if a remote tab open
/// paused the drain (quitting also stops it).
pub open spec fn spec_drain(a: AppV) -> (AppV, Seq<CommandV>, Option<FetchRequestV>)
    decreases a.queue.len() + submit_weight(a.queue),
    via spec_drain_decreases
{
    if a.queue.len() == 0 {
        (a, Seq::<CommandV>::empty(), None)
    } else {
        let c = a.queue[0];
        let a1 = AppV { queue: a.queue.drop_first(), ..a };
        match c {
            CommandV::Quit => (AppV { should_quit: true, ..a1 }, seq![c], None),
            CommandV::ShowWidget { id, focus } => {
                let (af, t, f) = spec_drain(apply_show(a1, id, focus));
                (af, seq![c] + t, f)
            },
            CommandV::HideWidget { id } => {
                let (af, t, f) = spec_drain(apply_hide(a1, id));
                (af, seq![c] + t, f)
            },
            CommandV::ToggleWidget { id, focus } => {
                let (af, t, f) = spec_drain(apply_toggle(a1, id, focus));
                (af, seq![c] + t, f)
            },
            CommandV::FocusWidget { id } => {
                let (af, t, f) = spec_drain(a1);
                (af, seq![c] + t, f)
            },
            CommandV::UnfocusWidget { id } => {
                let (af, t, f) = spec_drain(a1);
                (af, seq![c] + t, f)
            },
            CommandV::DestroyWidget { id } => {
                let (af, t, f) = spec_drain(apply_destroy(a1, id));
                (af, seq![c] + t, f)
            },
            CommandV::InputSubmit { command, value } => {
                let a2 = AppV { queue: a1.queue.push(submit_follow_up(command, value)), ..a1 };
                let (af, t, f) = spec_drain(a2);
                (af, seq![c] + t, f)
            },
            CommandV::RenameTab { tab_idx, name } => {
                let (af, t, f) = spec_drain(apply_rename(a1, tab_idx, name));
                (af, seq![c] + t, f)
            },
            CommandV::NewTabUrl { title, url } => {
                match crate::content::spec_resolve(url) {
                    crate::content::ResolutionV::Local { content } => {
                        let (af, t, f) = spec_drain(apply_open(a1, title, url, content));
                        (af, seq![c] + t, f)
                    },
                    crate::content::ResolutionV::Invalid => {
                        let (af, t, f) = spec_drain(apply_open(a1, title, url, "Invalid URL"@));
                        (af, seq![c] + t, f)
                    },
                    crate::content::ResolutionV::Remote => {
                        (a1, seq![c], Some(FetchRequestV { title, url }))
                    },
                }
            },
            CommandV::CloseTab { idx } => {
                let (af, t, f) = spec_drain(apply_close(a1, idx));
                (af, seq![c] + t, f)
            },
        }
    }
}

#[via_fn]
proof fn spec_drain_decreases(a: AppV) {
    if a.queue.len() > 0 {
        match a.queue[0] {
            CommandV::InputSubmit { command, value } => {
                lemma_submit_weight_push(
                    a.queue.drop_first(),
                    submit_follow_up(command, value),
                );
            },
            _ => {},
        }
    }
}

impl App {
    /// Drains the command queue to exhaustion, applying each command in
    /// order, including commands enqueued during the drain. Returns the
    /// fetch the hosting shell must perform when a remote tab open pauses
    /// the drain; after fetching, `complete_open` and another drain finish
    /// the job.
    pub fn process_commands(&mut self) -> (r: Option<FetchRequest>)
        requires
            old(self).wf(),
        ensures
            final(self).v() == spec_drain(old(self).v()).0,
            r.deep_view() == spec_drain(old(self).v()).2,
            final(self).wf(),
    {
        loop
            invariant
                self.wf(),
                spec_drain(old(self).v()).0 == spec_drain(self.v()).0,
                spec_drain(old(self).v()).2 == spec_drain(self.v()).2,
            decreases self.command_queue@.len() + submit_weight(self.command_queue@),
        {
            let ghost pre = self.v();
            let cmd = match self.command_queue.pending() {
                None => {
                    proof {
                        assert(self.v() =~~= pre);
                        assert(spec_drain(pre).0 == pre);
                    }
                    return None;
                },
                Some(c) => c,
            };
            let ghost c = cmd.deep_view();
            let ghost a1 = AppV { queue: pre.queue.drop_first(), ..pre };
            proof {
                assert(self.v() =~~= a1);
            }
            match cmd {
                Command::Quit => {
                    self.should_quit = true;
                    proof {
                        assert(pre.queue[0] == CommandV::Quit);
                        assert(self.v() =~~= (AppV { should_quit: true, ..a1 }));
                        assert(spec_drain(pre).0 =~~= self.v());
                    }
                    return None;
                },
                Command::ShowWidget { id, focus } => {
                    self.widget_manager.show(id.as_str(), focus);
                    proof {
                        assert(self.v() =~~= apply_show(a1, id@, focus));
                    }
                },
                Command::HideWidget { id } => {
                    self.widget_manager.hide_widget(id.as_str());
                    proof {
                        assert(self.v() =~~= apply_hide(a1, id@));
                    }
                },
                Command::ToggleWidget { id, focus } => {
                    self.widget_manager.toggle(id.as_str(), focus);
                    proof {
                        assert(self.v() =~~= apply_toggle(a1, id@, focus));
                    }
                },
                Command::FocusWidget { id: _ } => {
                },
                Command::UnfocusWidget { id: _ } => {
                },
                Command::DestroyWidget { id } => {
                    self.widget_manager.destroy(id.as_str());
                    proof {
                        assert(self.v() =~~= apply_destroy(a1, id@));
                    }
                },
                Command::InputSubmit { command, value } => {
                    match command {
                        InputSubmitCommand::RenameTab { tab_idx } => {
                            self.command_queue.push(Command::RenameTab { tab_idx, name: value });
                        },
                        InputSubmitCommand::OpenTabWithUrl => {
                            self.command_queue.push(
                                Command::NewTabUrl { title: "New Tab".to_owned(), url: value },
                            );
                        },
                    }
                    proof {
                        lemma_submit_weight_push(
                            a1.queue,
                            submit_follow_up(c->InputSubmit_command, c->InputSubmit_value),
                        );
                        assert(self.v() =~~= (AppV {
                            queue: a1.queue.push(
                                submit_follow_up(c->InputSubmit_command, c->InputSubmit_value),
                            ),
                            ..a1
                        }));
                    }
                },
                Command::RenameTab { tab_idx, name } => {
                    self.tab_manager.rename(tab_idx, name.as_str());
                    proof {
                        assert(self.v() =~~= apply_rename(a1, tab_idx, name@));
                    }
                },
                Command::NewTabUrl { title, url } => {
                    match crate::content::resolve_url(url.as_str()) {
                        crate::content::Resolution::Local { content } => {
                            let idx = self.tab_manager.open(
                                title.as_str(),
                                url.as_str(),
                                content.as_str(),
                            );
                            let _ = self.tab_manager.switch(idx);
                            let num = usize_to_string(idx);
                            let mut msg = "Opened new tab ".to_owned();
                            msg.append(num.as_str());
                            self.status_bar.status(msg.as_str());
                            proof {
                                assert(self.v() =~~= apply_open(
                                    a1,
                                    title@,
                                    url@,
                                    crate::content::spec_resolve(
                                        url@,
                                    )->Local_content,
                                ));
                            }
                        },
                        crate::content::Resolution::Invalid { message } => {
                            let idx = self.tab_manager.open(
                                title.as_str(),
                                url.as_str(),
                                message.as_str(),
                            );
                            let _ = self.tab_manager.switch(idx);
                            let num = usize_to_string(idx);
                            let mut msg = "Opened new tab ".to_owned();
                            msg.append(num.as_str());
                            self.status_bar.status(msg.as_str());
                            proof {
                                assert(self.v() =~~= apply_open(a1, title@, url@, "Invalid URL"@));
                            }
                        },
                        crate::content::Resolution::Remote => {
                            let r = FetchRequest { title, url };
                            proof {
                                assert(pre.queue[0] == (CommandV::NewTabUrl {
                                    title: r.deep_view().title,
                                    url: r.deep_view().url,
                                }));
                                assert(self.v() =~~= a1);
                                assert(spec_drain(pre).0 =~~= self.v());
                                assert(spec_drain(pre).2 == Some(r.deep_view()));
                            }
                            return Some(r);
                        },
                    }
                },
                Command::CloseTab { idx } => {
                    if self.tab_manager.len() == 1 {
                        self.status_bar.status("Can't close last tab");
                        proof {
                            assert(self.v() =~~= apply_close(a1, idx));
                        }
                    } else {
                        self.tab_manager.close(idx);
                        let num = usize_to_string(idx);
                        let mut msg = "Closed tab ".to_owned();
                        msg.append(num.as_str());
                        self.status_bar.status(msg.as_str());
                        proof {
                            assert(self.v() =~~= apply_close(a1, idx));
                        }
                    }
                },
            }
        }
    }

    /// Finishes a remote tab open after the hosting shell fetched the URL:
    /// the tab is appended with the fetched content (or the shell's failure
    /// message), made current, and announced in the status line.
    pub fn complete_open(&mut self, title: &str, url: &str, content: &str)
        requires
            old(self).wf(),
        ensures
            final(self).v() == apply_open(old(self).v(), title@, url@, content@),
            final(self).wf(),
    {
        let ghost a0 = self.v();
        let idx = self.tab_manager.open(title, url, content);
        let _ = self.tab_manager.switch(idx);
        let num = usize_to_string(idx);
        let mut msg = "Opened new tab ".to_owned();
        msg.append(num.as_str());
        self.status_bar.status(msg.as_str());
        proof {
            assert(self.v() =~~= apply_open(a0, title@, url@, content@));
        }
    }
}

} // verus!

verus! {

impl App {
    /// Applies one editing key to the focused input prompt's buffer. When
    /// the focused widget is not an input prompt (or nothing is focused),
    /// nothing changes. What the buffer holds afterwards is up to the
    /// editor, so only the rest of the state is pinned down.
    pub fn edit_focused_input(&mut self, key: &crossterm::event::KeyEvent)
        requires
            old(self).wf(),
        ensures
            final(self).wf(),
            ({
                let a = old(self).v();
                match a.focussed {
                    Some(fid) => {
                        let i = index_of_id(a.widgets, fid);
                        match a.widgets[i].kind {
                            WidgetKindV::Input { title, value, max_size, command } => {
                                &&& final(self).v().widgets.len() == a.widgets.len()
                                &&& (forall|j: int|
                                    0 <= j < a.widgets.len() && j != i ==> final(self).v().widgets[j]
                                        == a.widgets[j])
                                &&& final(self).v().widgets[i].id == a.widgets[i].id
                                &&& final(self).v().widgets[i].priority == a.widgets[i].priority
                                &&& final(self).v().widgets[i].visible == a.widgets[i].visible
                                &&& final(self).v().widgets[i].kind is Input
                                &&& final(self).v().widgets[i].kind->Input_title == title
                                &&& final(self).v().widgets[i].kind->Input_max_size == max_size
                                &&& final(self).v().widgets[i].kind->Input_command == command
                                &&& (AppV { widgets: a.widgets, ..final(self).v() }) == a
                            },
                            _ => final(self).v() == a,
                        }
                    },
                    None => final(self).v() == a,
                }
            }),
    {
        let ghost a0 = self.v();
        let fidx = match self.widget_manager.focussed_index() {
            None => {
                return ;
            },
            Some(i) => i,
        };
        let ghost ws0 = self.widget_manager.widgets_v();
        let w = self.widget_manager.widgets.remove(fidx);
        proof {
            assert(self.widget_manager.widgets_v() =~= ws0.remove(fidx as int));
        }
        let Widget { id, priority, visible, kind } = w;
        let kind2 = match kind {
            WidgetKind::Input { title, mut input, max_size, command } => {
                crate::widget::input_edit(&mut input, key);
                WidgetKind::Input { title, input, max_size, command }
            },
            other => other,
        };
        self.widget_manager.widgets.insert(fidx, Widget { id, priority, visible, kind: kind2 });
        proof {
            let wsf = self.widget_manager.widgets_v();
            assert(wsf.len() == ws0.len());
            assert(forall|j: int| 0 <= j < ws0.len() && j != fidx as int ==> wsf[j] == ws0[j]);
            assert(wsf[fidx as int].id == ws0[fidx as int].id);
            assert(wsf[fidx as int].visible == ws0[fidx as int].visible);
            crate::widget_manager::lemma_wf_kind_update(
                ws0,
                wsf,
                self.widget_manager.focussed_v(),
                fidx as int,
            );
            if wsf[fidx as int] == ws0[fidx as int] {
                assert(wsf =~= ws0);
                assert(self.v() =~~= a0);
            } else {
                assert((AppV { widgets: a0.widgets, ..self.v() }) =~~= a0);
            }
        }
    }

    /// Records which bookmark folder the tree cursor now points at, after
    /// the hosting shell moved it. Without a bookmark-list widget this does
    /// nothing.
    pub fn set_bookmark_selected(&mut self, id: crate::bookmarks::BookmarkId)
        requires
            old(self).wf(),
        ensures
            final(self).wf(),
            ({
                let a = old(self).v();
                if has_widget(a.widgets, "bookmark_list"@) {
                    let i = index_of_id(a.widgets, "bookmark_list"@);
                    match a.widgets[i].kind {
                        WidgetKindV::BookmarkList { selection, table_sel, selected_folder } => {
                            final(self).v() == (AppV {
                                widgets: a.widgets.update(
                                    i,
                                    WidgetV {
                                        kind: WidgetKindV::BookmarkList {
                                            selection,
                                            table_sel,
                                            selected_folder: id.value,
                                        },
                                        ..a.widgets[i]
                                    },
                                ),
                                ..a
                            })
                        },
                        _ => final(self).v() == a,
                    }
                } else {
                    final(self).v() == a
                }
            }),
    {
        let ghost a0 = self.v();
        let fidx = match self.widget_manager.find_index("bookmark_list") {
            None => {
                return ;
            },
            Some(i) => i,
        };
        let ghost ws0 = self.widget_manager.widgets_v();
        let w = self.widget_manager.widgets.remove(fidx);
        proof {
            assert(self.widget_manager.widgets_v() =~= ws0.remove(fidx as int));
        }
        let Widget { id: wid, priority, visible, kind } = w;
        let kind2 = match kind {
            WidgetKind::BookmarkList { selection, table_sel, selected_folder: _ } => {
                WidgetKind::BookmarkList { selection, table_sel, selected_folder: id }
            },
            other => other,
        };
        self.widget_manager.widgets.insert(
            fidx,
            Widget { id: wid, priority, visible, kind: kind2 },
        );
        proof {
            let wsf = self.widget_manager.widgets_v();
            assert(wsf.len() == ws0.len());
            assert(forall|j: int| 0 <= j < ws0.len() && j != fidx as int ==> wsf[j] == ws0[j]);
            assert(wsf[fidx as int].id == ws0[fidx as int].id);
            assert(wsf[fidx as int].visible == ws0[fidx as int].visible);
            crate::widget_manager::lemma_wf_kind_update(
                ws0,
                wsf,
                self.widget_manager.focussed_v(),
                fidx as int,
            );
            if wsf[fidx as int] == ws0[fidx as int] {
                assert(wsf =~= ws0);
                assert(self.v() =~~= a0);
            } else {
                assert(wsf =~= ws0.update(fidx as int, wsf[fidx as int]));
                assert(self.v() =~~= (AppV {
                    widgets: a0.widgets.update(fidx as int, wsf[fidx as int]),
                    ..a0
                }));
            }
        }
    }
}

} // verus!

verus! {

/// Whether a command lets the drain continue past it: quitting stops the
/// drain, and a tab open over the network (directly or via a submitted
/// URL) pauses it for the fetch.
pub open spec fn nonstopping(c: CommandV) -> bool {
    match c {
        CommandV::Quit => false,
        CommandV::NewTabUrl { title, url } => !(crate::content::spec_resolve(url)
            is Remote),
        CommandV::InputSubmit { command, value } => match command {
            InputSubmitV::OpenTabWithUrl => !(crate::content::spec_resolve(value) is Remote),
            InputSubmitV::RenameTab { tab_idx } => true,
        },
        _ => true,
    }
}

/// The follow-up commands the queued input submissions will enqueue, in
/// queue order.
pub open spec fn drain_extras(q: Seq<CommandV>) -> Seq<CommandV>
    decreases q.len(),
{
    if q.len() == 0 {
        Seq::<CommandV>::empty()
    } else {
        match q[0] {
            CommandV::InputSubmit { command, value } => seq![submit_follow_up(command, value)]
                + drain_extras(q.drop_first()),
            _ => drain_extras(q.drop_first()),
        }
    }
}

/// Appending a command that is not an input submission adds no follow-ups.
proof fn lemma_drain_extras_push_plain(q: Seq<CommandV>, c: CommandV)
    requires
        !(c is InputSubmit),
    ensures
        drain_extras(q.push(c)) == drain_extras(q),
    decreases q.len(),
{
    if q.len() == 0 {
        assert(q.push(c)[0] == c);
        assert(q.push(c).drop_first() =~= Seq::<CommandV>::empty());
        assert(drain_extras(q.push(c)) == drain_extras(Seq::<CommandV>::empty()));
        assert(drain_extras(q) == Seq::<CommandV>::empty());
    } else {
        assert(q.push(c)[0] == q[0]);
        assert(q.push(c).drop_first() =~= q.drop_first().push(c));
        lemma_drain_extras_push_plain(q.drop_first(), c);
        assert(drain_extras(q.push(c)) == match q[0] {
            CommandV::InputSubmit { command, value } => seq![submit_follow_up(command, value)]
                + drain_extras(q.drop_first()),
            _ => drain_extras(q.drop_first()),
        });
    }
}

proof fn lemma_drain_order_step(a: AppV, a2: AppV)
    requires
        a.queue.len() > 0,
        forall|i: int| 0 <= i < a2.queue.len() ==> nonstopping(#[trigger] a2.queue[i]),
        a2.queue.len() + submit_weight(a2.queue) < a.queue.len() + submit_weight(a.queue),
        seq![a.queue[0]] + a2.queue + drain_extras(a2.queue) == a.queue + drain_extras(a.queue),
        spec_drain(a).1 == seq![a.queue[0]] + spec_drain(a2).1,
        spec_drain(a).2 == spec_drain(a2).2,
    ensures
        spec_drain(a).1 == a.queue + drain_extras(a.queue),
        spec_drain(a).2 is None,
    decreases a2.queue.len() + submit_weight(a2.queue), 1int,
{
    lemma_drain_applies_in_order(a2);
    assert(seq![a.queue[0]] + (a2.queue + drain_extras(a2.queue)) =~= seq![a.queue[0]] + a2.queue
        + drain_extras(a2.queue));
}

/// The command round-trip law: when nothing in the queue quits or waits on
/// a network fetch, draining runs to completion and applies exactly the
/// queued commands, oldest first, followed by exactly the commands those
/// enqueued mid-drain (one per input submission), in the same order — so a
/// re-entrant enqueue is observed in the same drain, never deferred.
pub proof fn lemma_drain_applies_in_order(a: AppV)
    requires
        forall|i: int| 0 <= i < a.queue.len() ==> nonstopping(#[trigger] a.queue[i]),
    ensures
        spec_drain(a).1 == a.queue + drain_extras(a.queue),
        spec_drain(a).1.take(a.queue.len() as int) == a.queue,
        spec_drain(a).2 is None,
    decreases a.queue.len() + submit_weight(a.queue), 0int,
{
    if a.queue.len() == 0 {
        assert(a.queue + drain_extras(a.queue) =~= spec_drain(a).1);
    } else {
        let c = a.queue[0];
        assert(nonstopping(c));
        let q1 = a.queue.drop_first();
        let a1 = AppV { queue: q1, ..a };
        match c {
            CommandV::Quit => {
                assert(false);
            },
            CommandV::ShowWidget { id, focus } => {
                assert(seq![c] + q1 + drain_extras(q1) =~= a.queue + drain_extras(a.queue));
                lemma_drain_order_step(a, apply_show(a1, id, focus));
            },
            CommandV::HideWidget { id } => {
                assert(seq![c] + q1 + drain_extras(q1) =~= a.queue + drain_extras(a.queue));
                lemma_drain_order_step(a, apply_hide(a1, id));
            },
            CommandV::ToggleWidget { id, focus } => {
                assert(seq![c] + q1 + drain_extras(q1) =~= a.queue + drain_extras(a.queue));
                lemma_drain_order_step(a, apply_toggle(a1, id, focus));
            },
            CommandV::FocusWidget { id } => {
                assert(seq![c] + q1 + drain_extras(q1) =~= a.queue + drain_extras(a.queue));
                lemma_drain_order_step(a, a1);
            },
            CommandV::UnfocusWidget { id } => {
                assert(seq![c] + q1 + drain_extras(q1) =~= a.queue + drain_extras(a.queue));
                lemma_drain_order_step(a, a1);
            },
            CommandV::DestroyWidget { id } => {
                assert(seq![c] + q1 + drain_extras(q1) =~= a.queue + drain_extras(a.queue));
                lemma_drain_order_step(a, apply_destroy(a1, id));
            },
            CommandV::InputSubmit { command, value } => {
                let t = submit_follow_up(command, value);
                let a2 = AppV { queue: q1.push(t), ..a1 };
                lemma_submit_weight_push(q1, t);
                lemma_drain_extras_push_plain(q1, t);
                assert(nonstopping(t));
                assert(forall|i: int| 0 <= i < q1.len() ==> #[trigger] a2.queue[i] == q1[i]);
                assert(a2.queue[q1.len() as int] == t);
                assert(drain_extras(a.queue) == seq![t] + drain_extras(q1));
                assert(seq![c] + q1.push(t) + drain_extras(q1) =~= a.queue + (seq![t]
                    + drain_extras(q1)));
                lemma_drain_order_step(a, a2);
            },
            CommandV::RenameTab { tab_idx, name } => {
                assert(seq![c] + q1 + drain_extras(q1) =~= a.queue + drain_extras(a.queue));
                lemma_drain_order_step(a, apply_rename(a1, tab_idx, name));
            },
            CommandV::NewTabUrl { title, url } => {
                assert(seq![c] + q1 + drain_extras(q1) =~= a.queue + drain_extras(a.queue));
                match crate::content::spec_resolve(url) {
                    crate::content::ResolutionV::Local { content } => {
                        lemma_drain_order_step(a, apply_open(a1, title, url, content));
                    },
                    crate::content::ResolutionV::Invalid => {
                        lemma_drain_order_step(a, apply_open(a1, title, url, "Invalid URL"@));
                    },
                    crate::content::ResolutionV::Remote => {
                        assert(false);
                    },
                }
            },
            CommandV::CloseTab { idx } => {
                assert(seq![c] + q1 + drain_extras(q1) =~= a.queue + drain_extras(a.queue));
                lemma_drain_order_step(a, apply_close(a1, idx));
            },
        }
    }
    assert(spec_drain(a).1.take(a.queue.len() as int) =~= a.queue);
}

} // verus!
