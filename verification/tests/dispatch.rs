use crossterm::event::{KeyEvent, KeyModifiers};
use dive::app::{App, UiAction};
use dive::bookmarks::BookmarkManager;
use dive::command::Command;
use dive::keys::{KeyCode, KeyInput};
use dive::widget::WidgetKind;

fn app_with_tabs(names: &[&str]) -> App {
    let mut app = App::new(BookmarkManager::empty());
    for name in names {
        app.tab_manager.open(name, "gosub://blank", "");
    }
    app
}

fn type_text(app: &mut App, text: &str) {
    for c in text.chars() {
        let key = KeyInput::plain(KeyCode::Char(c));
        let action = app.handle_key(&key);
        assert_eq!(action, UiAction::EditInput);
        let raw = KeyEvent::new(crossterm::event::KeyCode::Char(c), KeyModifiers::NONE);
        app.edit_focused_input(&raw);
    }
}

#[test]
fn tab_key_switches_and_close_scenario() {
    let mut app = app_with_tabs(&["A", "B"]);
    assert_eq!(app.tab_manager.current, 0);

    app.handle_key(&KeyInput::plain(KeyCode::Tab));
    assert!(app.process_commands().is_none());
    assert_eq!(app.tab_manager.current, 1);
    assert_eq!(app.status_bar.status, "Switched to tab 1");

    app.handle_key(&KeyInput::ctrl(KeyCode::Char('w')));
    assert!(app.process_commands().is_none());
    assert_eq!(app.tab_manager.len(), 1);
    assert_eq!(app.tab_manager.current, 0);
    assert_eq!(app.tab_manager.tabs[0].name, "A");
    assert_eq!(app.status_bar.status, "Closed tab 1");

    app.handle_key(&KeyInput::ctrl(KeyCode::Char('w')));
    assert!(app.process_commands().is_none());
    assert_eq!(app.tab_manager.len(), 1);
    assert_eq!(app.status_bar.status, "Can't close last tab");
}

#[test]
fn shift_tab_switches_backward() {
    let mut app = app_with_tabs(&["A", "B", "C"]);
    let mut key = KeyInput::plain(KeyCode::Tab);
    key.shift = true;
    app.handle_key(&key);
    assert_eq!(app.tab_manager.current, 2);
    assert_eq!(app.status_bar.status, "Switched to tab 2");
}

#[test]
fn alt_digit_jumps_to_tab() {
    let mut app = app_with_tabs(&["A", "B", "C"]);
    app.handle_key(&KeyInput::alt(KeyCode::Char('2')));
    assert_eq!(app.tab_manager.current, 2);
    assert_eq!(app.status_bar.status, "Switched to tab 2");
    // out of range: index unchanged, message still reported
    app.handle_key(&KeyInput::alt(KeyCode::Char('7')));
    assert_eq!(app.tab_manager.current, 2);
    assert_eq!(app.status_bar.status, "Switched to tab 7");
}

#[test]
fn f8_opens_bookmark_list_and_esc_destroys_it() {
    let mut app = app_with_tabs(&["A"]);
    app.handle_key(&KeyInput::plain(KeyCode::F(8)));
    assert!(app.process_commands().is_none());

    let w = app.widget_manager.find("bookmark_list").expect("widget exists");
    assert!(w.visible);
    assert_eq!(app.widget_manager.focussed().unwrap().id, "bookmark_list");

    app.handle_key(&KeyInput::plain(KeyCode::Esc));
    assert!(app.process_commands().is_none());
    assert!(app.widget_manager.find("bookmark_list").is_none());
    assert!(app.widget_manager.focussed().is_none());
}

#[test]
fn f1_opens_help_and_arrows_scroll() {
    let mut app = app_with_tabs(&["A"]);
    app.handle_key(&KeyInput::plain(KeyCode::F(1)));
    assert!(app.process_commands().is_none());
    assert_eq!(app.widget_manager.focussed().unwrap().id, "help");

    app.handle_key(&KeyInput::plain(KeyCode::Down));
    app.handle_key(&KeyInput::plain(KeyCode::Down));
    app.handle_key(&KeyInput::plain(KeyCode::Up));
    match &app.widget_manager.find("help").unwrap().kind {
        WidgetKind::Help { scroll, content } => {
            assert_eq!(*scroll, 1);
            assert!(content.len() > 10);
        },
        _ => panic!("help widget has the wrong kind"),
    }

    app.handle_key(&KeyInput::plain(KeyCode::Esc));
    assert!(app.process_commands().is_none());
    assert!(app.widget_manager.find("help").is_none());
}

#[test]
fn f2_opens_tab_list_and_enter_switches() {
    let mut app = app_with_tabs(&["A", "B", "C"]);
    app.handle_key(&KeyInput::plain(KeyCode::F(2)));
    assert!(app.process_commands().is_none());
    assert_eq!(app.widget_manager.focussed().unwrap().id, "tab_list");

    app.handle_key(&KeyInput::plain(KeyCode::Down));
    app.handle_key(&KeyInput::plain(KeyCode::Down));
    app.handle_key(&KeyInput::plain(KeyCode::Enter));
    assert!(app.process_commands().is_none());
    assert_eq!(app.tab_manager.current, 2);
    assert!(app.widget_manager.find("tab_list").is_none());
}

#[test]
fn ctrl_g_prompts_and_opens_typed_url() {
    let mut app = app_with_tabs(&["A"]);
    app.handle_key(&KeyInput::ctrl(KeyCode::Char('g')));
    assert!(app.process_commands().is_none());
    assert_eq!(app.widget_manager.focussed().unwrap().id, "input");

    type_text(&mut app, "gosub://credits");
    app.handle_key(&KeyInput::plain(KeyCode::Enter));
    assert!(app.process_commands().is_none());

    assert!(app.widget_manager.find("input").is_none());
    assert_eq!(app.tab_manager.len(), 2);
    assert_eq!(app.tab_manager.current, 1);
    let tab = app.tab_manager.current();
    assert_eq!(tab.name, "New Tab");
    assert_eq!(tab.url, "gosub://credits");
    assert_eq!(tab.content, "Here be credits for the gosub engine");
    assert_eq!(app.status_bar.status, "Opened new tab 1");
}

#[test]
fn ctrl_r_renames_current_tab() {
    let mut app = app_with_tabs(&["A", "B"]);
    app.tab_manager.switch(1);
    app.handle_key(&KeyInput::ctrl(KeyCode::Char('r')));
    assert!(app.process_commands().is_none());

    // the prompt starts from the current name; typing appends at the cursor
    type_text(&mut app, "!!");
    app.handle_key(&KeyInput::plain(KeyCode::Enter));
    assert!(app.process_commands().is_none());
    assert_eq!(app.tab_manager.tabs[1].name, "B!!");
    assert_eq!(app.tab_manager.tabs[0].name, "A");
}

#[test]
fn input_esc_cancels_without_submitting() {
    let mut app = app_with_tabs(&["A"]);
    app.handle_key(&KeyInput::ctrl(KeyCode::Char('g')));
    assert!(app.process_commands().is_none());
    type_text(&mut app, "xyz");
    app.handle_key(&KeyInput::plain(KeyCode::Esc));
    assert!(app.process_commands().is_none());
    assert!(app.widget_manager.find("input").is_none());
    assert_eq!(app.tab_manager.len(), 1);
}

#[test]
fn ctrl_n_opens_blank_tab() {
    let mut app = app_with_tabs(&["A"]);
    app.handle_key(&KeyInput::ctrl(KeyCode::Char('n')));
    assert!(app.process_commands().is_none());
    assert_eq!(app.tab_manager.len(), 2);
    let tab = app.tab_manager.current();
    assert_eq!(tab.name, "New Tab");
    assert_eq!(tab.url, "gosub://blank");
    assert_eq!(tab.content, "This page is left intentionally blank");
}

#[test]
fn ctrl_q_quits() {
    let mut app = app_with_tabs(&["A"]);
    assert!(!app.should_quit);
    app.handle_key(&KeyInput::ctrl(KeyCode::Char('q')));
    assert!(app.process_commands().is_none());
    assert!(app.should_quit);
}

#[test]
fn remote_url_pauses_for_fetch() {
    let mut app = app_with_tabs(&["A"]);
    app.command_queue.push(Command::NewTabUrl {
        title: "New Tab".to_string(),
        url: "https://example.com".to_string(),
    });
    let req = app.process_commands().expect("a fetch is requested");
    assert_eq!(req.title, "New Tab");
    assert_eq!(req.url, "https://example.com");
    // the tab is only opened once the fetch result is handed back
    assert_eq!(app.tab_manager.len(), 1);

    app.complete_open(&req.title, &req.url, "fetched body");
    assert!(app.process_commands().is_none());
    assert_eq!(app.tab_manager.len(), 2);
    let tab = app.tab_manager.current();
    assert_eq!(tab.content, "fetched body");
    assert!(tab.secure);
    assert_eq!(app.status_bar.status, "Opened new tab 1");
}

#[test]
fn invalid_url_opens_error_tab() {
    let mut app = app_with_tabs(&["A"]);
    app.command_queue.push(Command::NewTabUrl {
        title: "New Tab".to_string(),
        url: "not a url".to_string(),
    });
    assert!(app.process_commands().is_none());
    assert_eq!(app.tab_manager.len(), 2);
    assert_eq!(app.tab_manager.current().content, "Invalid URL");
}

#[test]
fn splash_is_destroyed_by_esc() {
    let mut app = app_with_tabs(&["A"]);
    app.widget_manager.create(dive::widget::Widget::new(
        "splash",
        255,
        false,
        WidgetKind::Splash,
    ));
    app.widget_manager.show("splash", true);
    assert_eq!(app.widget_manager.focussed().unwrap().id, "splash");

    app.handle_key(&KeyInput::plain(KeyCode::Esc));
    assert!(app.process_commands().is_none());
    assert!(app.widget_manager.find("splash").is_none());
    assert!(app.widget_manager.focussed().is_none());
}

#[test]
fn base_chrome_never_consumes_keys() {
    let mut app = app_with_tabs(&["A", "B"]);
    // focus the tab strip, then press Tab: it falls through to the
    // global table and still switches tabs
    app.widget_manager.show("tabs", true);
    app.handle_key(&KeyInput::plain(KeyCode::Tab));
    assert_eq!(app.tab_manager.current, 1);
}

#[test]
fn bookmark_list_panes_and_tree_actions() {
    let mut app = app_with_tabs(&["A"]);
    app.handle_key(&KeyInput::plain(KeyCode::F(8)));
    assert!(app.process_commands().is_none());

    // tree pane: arrows become tree actions for the hosting shell
    assert_eq!(app.handle_key(&KeyInput::plain(KeyCode::Down)), UiAction::TreeDown);
    assert_eq!(app.handle_key(&KeyInput::plain(KeyCode::Right)), UiAction::TreeRight);
    assert_eq!(app.handle_key(&KeyInput::plain(KeyCode::Char(' '))), UiAction::TreeToggle);

    // switch to the table pane: arrows move the table selection locally
    assert_eq!(app.handle_key(&KeyInput::plain(KeyCode::Tab)), UiAction::Idle);
    assert_eq!(app.handle_key(&KeyInput::plain(KeyCode::Down)), UiAction::Idle);
    match &app.widget_manager.find("bookmark_list").unwrap().kind {
        WidgetKind::BookmarkList { table_sel, .. } => {
            // the root folder of an empty tree has no bookmarks to select
            assert_eq!(*table_sel, 0);
        },
        _ => panic!("bookmark list widget has the wrong kind"),
    }
}
