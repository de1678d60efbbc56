use dive::command::{Command, CommandQueue};
use dive::tabs::{is_https_url, TabManager};

#[test]
fn open_switch_and_len() {
    let mut t = TabManager::new();
    assert_eq!(t.len(), 0);
    let a = t.open("A", "gosub://blank", "page a");
    let b = t.open("B", "https://example.com", "page b");
    assert_eq!(a, 0);
    assert_eq!(b, 1);
    assert_eq!(t.len(), 2);
    // open does not switch by itself
    assert_eq!(t.current, 0);
    assert_eq!(t.switch(1), 1);
    assert_eq!(t.current().name, "B");
    // out-of-range switch is a no-op
    assert_eq!(t.switch(9), 1);
}

#[test]
fn secure_follows_url_scheme() {
    let mut t = TabManager::new();
    t.open("plain", "http://example.com", "");
    t.open("tls", "https://example.com", "");
    t.open("internal", "gosub://blank", "");
    assert!(!t.tabs[0].secure);
    assert!(t.tabs[1].secure);
    assert!(!t.tabs[2].secure);
    assert!(is_https_url("https://x"));
    assert!(!is_https_url("https:/x"));
    assert!(!is_https_url("http://x"));
    assert!(!is_https_url("https:"));
}

#[test]
fn rename_in_place() {
    let mut t = TabManager::new();
    t.open("A", "gosub://blank", "");
    t.rename(0, "Renamed");
    assert_eq!(t.tabs[0].name, "Renamed");
    // out of range: no-op
    t.rename(5, "X");
    assert_eq!(t.len(), 1);
}

#[test]
fn close_last_tab_is_refused() {
    let mut t = TabManager::new();
    t.open("A", "gosub://blank", "");
    t.close(0);
    assert_eq!(t.len(), 1);
    assert_eq!(t.current, 0);
    assert_eq!(t.tabs[0].name, "A");
}

#[test]
fn close_clamps_current() {
    let mut t = TabManager::new();
    t.open("A", "gosub://blank", "");
    t.open("B", "gosub://blank", "");
    t.open("C", "gosub://blank", "");
    t.switch(2);
    t.close(2);
    assert_eq!(t.len(), 2);
    assert!(t.current <= 1);
    assert_eq!(t.current, 1);

    let mut u = TabManager::new();
    u.open("A", "gosub://blank", "");
    u.open("B", "gosub://blank", "");
    u.open("C", "gosub://blank", "");
    u.switch(0);
    u.close(1);
    assert_eq!(u.current, 0);
    assert_eq!(u.tabs[1].name, "C");
}

#[test]
fn next_cycles_back_after_len_steps() {
    let mut t = TabManager::new();
    t.open("A", "gosub://blank", "");
    t.open("B", "gosub://blank", "");
    t.open("C", "gosub://blank", "");
    t.switch(1);
    let start = t.current;
    for _ in 0..3 {
        t.next();
    }
    assert_eq!(t.current, start);
}

#[test]
fn prev_inverts_next() {
    let mut t = TabManager::new();
    t.open("A", "gosub://blank", "");
    t.open("B", "gosub://blank", "");
    t.open("C", "gosub://blank", "");
    for start in 0..3 {
        t.switch(start);
        t.next();
        t.prev();
        assert_eq!(t.current, start);
    }
    // wrap-around both ways
    t.switch(2);
    assert_eq!(t.next(), 0);
    assert_eq!(t.prev(), 2);
}

#[test]
fn tab_info_copies_fields() {
    let mut t = TabManager::new();
    t.open("A", "https://example.com", "body");
    let info = t.current().info();
    assert_eq!(info.name, "A");
    assert_eq!(info.url, "https://example.com");
    assert!(info.secure);
}

#[test]
fn queue_is_fifo() {
    let mut q = CommandQueue::new();
    assert!(q.pending().is_none());
    q.push(Command::Quit);
    q.push(Command::CloseTab { idx: 3 });
    q.push(Command::HideWidget { id: "x".to_string() });
    assert_eq!(q.len(), 3);
    assert_eq!(q.pending(), Some(Command::Quit));
    assert_eq!(q.pending(), Some(Command::CloseTab { idx: 3 }));
    assert_eq!(q.pending(), Some(Command::HideWidget { id: "x".to_string() }));
    assert!(q.pending().is_none());
}

#[test]
fn queue_push_while_draining() {
    let mut q = CommandQueue::new();
    q.push(Command::CloseTab { idx: 0 });
    q.push(Command::CloseTab { idx: 1 });
    assert_eq!(q.pending(), Some(Command::CloseTab { idx: 0 }));
    // a command enqueued mid-drain comes out after the rest
    q.push(Command::CloseTab { idx: 2 });
    assert_eq!(q.pending(), Some(Command::CloseTab { idx: 1 }));
    assert_eq!(q.pending(), Some(Command::CloseTab { idx: 2 }));
    assert!(q.pending().is_none());
}
