use dive::widget::{Widget, WidgetKind};
use dive::widget_manager::WidgetManager;

fn plain(id: &str, priority: u8, visible: bool) -> Widget {
    Widget::new(id, priority, visible, WidgetKind::Splash)
}

#[test]
fn show_focus_and_displace() {
    let mut m = WidgetManager::new();
    m.create(plain("a", 10, false));
    m.create(plain("b", 20, false));

    m.show("a", true);
    assert_eq!(m.focussed().unwrap().id, "a");
    assert!(m.is_visible("a"));

    // showing b with focus displaces a: only one widget is ever focused
    m.show("b", true);
    assert_eq!(m.focussed().unwrap().id, "b");
    assert!(m.is_visible("a"));
    assert!(m.is_visible("b"));
}

#[test]
fn hide_clears_focus() {
    let mut m = WidgetManager::new();
    m.create(plain("a", 10, false));
    m.show("a", true);
    assert!(m.focussed().is_some());

    m.hide_widget("a");
    assert!(m.focussed().is_none());
    assert!(!m.is_visible("a"));
}

#[test]
fn hide_other_keeps_focus() {
    let mut m = WidgetManager::new();
    m.create(plain("a", 10, false));
    m.create(plain("b", 20, false));
    m.show("a", false);
    m.show("b", true);
    m.hide_widget("a");
    assert_eq!(m.focussed().unwrap().id, "b");
}

#[test]
fn toggle_takes_and_releases_focus() {
    let mut m = WidgetManager::new();
    m.create(plain("a", 10, false));

    m.toggle("a", true);
    assert!(m.is_visible("a"));
    assert_eq!(m.focussed().unwrap().id, "a");

    m.toggle("a", true);
    assert!(!m.is_visible("a"));
    assert!(m.focussed().is_none());
}

#[test]
fn destroy_removes_and_clears_focus() {
    let mut m = WidgetManager::new();
    m.create(plain("a", 10, false));
    m.create(plain("b", 20, false));
    m.show("a", true);

    m.destroy("a");
    assert!(m.find("a").is_none());
    assert!(m.focussed().is_none());
    assert!(m.find("b").is_some());
}

#[test]
fn unknown_id_operations_are_noops() {
    let mut m = WidgetManager::new();
    m.create(plain("a", 10, true));
    m.show("ghost", true);
    m.hide_widget("ghost");
    m.toggle("ghost", true);
    m.destroy("ghost");
    assert!(m.focussed().is_none());
    assert!(m.find("a").is_some());
    assert!(!m.is_visible("ghost"));
}

#[test]
fn create_with_taken_id_is_refused() {
    let mut m = WidgetManager::new();
    m.create(plain("a", 10, false));
    m.create(plain("a", 99, true));
    let w = m.find("a").unwrap();
    assert_eq!(w.priority, 10);
    assert!(!w.visible);
}

#[test]
fn render_order_sorts_by_priority_and_skips_hidden() {
    let mut m = WidgetManager::new();
    m.create(plain("late", 255, true));
    m.create(plain("hidden", 0, false));
    m.create(plain("first", 0, true));
    m.create(plain("mid", 64, true));

    let order = m.render_order();
    let ids: Vec<&str> = order.iter().map(|&i| m.widgets[i].id.as_str()).collect();
    assert_eq!(ids, vec!["first", "mid", "late"]);

    // priorities along the order never decrease
    let mut last: u16 = 0;
    for &i in order.iter() {
        let p = m.widgets[i].priority as u16;
        assert!(p >= last);
        last = p;
    }
}

#[test]
fn render_order_keeps_arena_order_on_ties() {
    let mut m = WidgetManager::new();
    m.create(plain("x", 7, true));
    m.create(plain("y", 7, true));
    m.create(plain("z", 7, true));
    let order = m.render_order();
    let ids: Vec<&str> = order.iter().map(|&i| m.widgets[i].id.as_str()).collect();
    assert_eq!(ids, vec!["x", "y", "z"]);
}
