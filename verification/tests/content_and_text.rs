use dive::content::{gosub_help, process_gosub_protocol, resolve_url, Resolution};
use dive::helptext::{generate_lines_from_helptext, styled_lines};
use dive::logger::Logger;
use dive::menu::MenuBar;
use dive::numfmt::usize_to_string;
use dive::status::{StatusBar, TabInfo};

fn local_content(r: Resolution) -> String {
    match r {
        Resolution::Local { content } => content,
        Resolution::Remote => panic!("expected local content, got a fetch plan"),
        Resolution::Invalid { message } => panic!("expected local content, got: {}", message),
    }
}

#[test]
fn internal_scheme_pages() {
    assert_eq!(
        local_content(resolve_url("gosub://blank")),
        "This page is left intentionally blank"
    );
    assert_eq!(local_content(resolve_url("gosub://help")), gosub_help());
    assert_eq!(
        local_content(resolve_url("gosub://credits")),
        "Here be credits for the gosub engine"
    );
    assert_eq!(
        local_content(resolve_url("gosub://settings")),
        "Here you can tinker with all kinds of dive and gosub settings"
    );
    assert_eq!(local_content(resolve_url("gosub://nope")), "Unknown gosub protocol");
    assert!(gosub_help().contains("gosub://help"));
    assert_eq!(process_gosub_protocol(&None), "Unknown gosub protocol");
}

#[test]
fn placeholder_schemes() {
    assert_eq!(local_content(resolve_url("file:///tmp/x")), "File content is not yet supported");
    assert_eq!(local_content(resolve_url("data:text/plain,hi")), "Data content is not yet supported");
    assert_eq!(local_content(resolve_url("gopher://old.net")), "Unknown protocol");
}

#[test]
fn network_schemes_ask_for_a_fetch() {
    assert!(matches!(resolve_url("https://example.com"), Resolution::Remote));
    assert!(matches!(resolve_url("http://example.com"), Resolution::Remote));
}

#[test]
fn unparsable_url_is_invalid() {
    match resolve_url("not a url") {
        Resolution::Invalid { message } => assert_eq!(message, "Invalid URL"),
        _ => panic!("expected an invalid resolution"),
    }
    assert!(matches!(resolve_url(""), Resolution::Invalid { .. }));
}

#[test]
fn decimal_rendering() {
    assert_eq!(usize_to_string(0), "0");
    assert_eq!(usize_to_string(7), "7");
    assert_eq!(usize_to_string(10), "10");
    assert_eq!(usize_to_string(42), "42");
    assert_eq!(usize_to_string(100), "100");
    assert_eq!(usize_to_string(65535), "65535");
}

#[test]
fn styled_line_markers() {
    let lines = styled_lines("#1Hi");
    assert_eq!(lines.len(), 1);
    assert_eq!(lines[0].len(), 2);
    assert_eq!(lines[0][0].text, "");
    assert_eq!(lines[0][0].style, 0);
    assert_eq!(lines[0][1].text, "Hi");
    assert_eq!(lines[0][1].style, 1);

    let lines = styled_lines("a#2b#0c");
    let parts: Vec<(&str, u8)> =
        lines[0].iter().map(|s| (s.text.as_str(), s.style)).collect();
    assert_eq!(parts, vec![("a", 0), ("b", 2), ("c", 0)]);
}

#[test]
fn styled_lines_split_on_newlines() {
    let lines = styled_lines("one\ntwo\n");
    assert_eq!(lines.len(), 3);
    assert_eq!(lines[0][0].text, "one");
    assert_eq!(lines[1][0].text, "two");
    assert_eq!(lines[2][0].text, "");
}

#[test]
fn plain_hash_is_ordinary_text() {
    let lines = styled_lines("a#x#");
    assert_eq!(lines[0].len(), 1);
    assert_eq!(lines[0][0].text, "a#x#");
    assert_eq!(lines[0][0].style, 0);
}

#[test]
fn help_screen_content() {
    let lines = generate_lines_from_helptext();
    assert!(lines.len() > 20);
    // the title line switches to palette entry 1
    let title: Vec<(&str, u8)> =
        lines[2].iter().map(|s| (s.text.as_str(), s.style)).collect();
    assert_eq!(title, vec![("", 0), ("Gosub Dive Help", 1)]);
    // a key-binding line alternates between entries 1 and 0
    let flat: String = lines
        .iter()
        .flat_map(|l| l.iter())
        .map(|s| s.text.as_str())
        .collect();
    assert!(flat.contains("CTRL-Q"));
    assert!(flat.contains("Quit Gosub Dive"));
}

#[test]
fn status_bar_state() {
    let mut s = StatusBar::new();
    assert_eq!(s.status, "Press F1 for help");
    assert!(s.tab_info.is_none());
    s.status("hello");
    assert_eq!(s.status, "hello");
    s.tab_info(Some(TabInfo { name: "A".to_string(), url: "u".to_string(), secure: true }));
    assert!(s.tab_info.as_ref().unwrap().secure);
    s.tab_info(None);
    assert!(s.tab_info.is_none());
}

#[test]
fn menu_bar_state() {
    let mut m = MenuBar::new();
    assert!(!m.active);
    assert_eq!(m.menu_item_active, 0);
    m.set_active(true);
    assert!(m.active);
}

#[test]
fn logger_evicts_oldest_past_capacity() {
    let mut l = Logger::new(2);
    l.log("one");
    l.log("two");
    assert_eq!(l.logs().as_slice(), &["one".to_string(), "two".to_string()]);
    l.log("three");
    assert_eq!(l.logs().as_slice(), &["two".to_string(), "three".to_string()]);
}
