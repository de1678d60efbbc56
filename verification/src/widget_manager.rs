//! The widget registry: an ordered arena of widgets keyed by unique id,
//! plus the single focus pointer. Showing, hiding, toggling and destroying
//! keep two invariants: ids stay unique, and the focused widget (if any) is
//! a present, visible widget.

use vstd::prelude::*;
use crate::strutil::str_eq;
use crate::widget::{Widget, WidgetV};

verus! {

broadcast use
    vstd::seq::group_seq_axioms,
    vstd::std_specs::vec::group_vec_axioms,
    crate::strutil::lemma_vec_deep_view_len,
    crate::strutil::lemma_vec_deep_view_index;

/// No two widgets share an id.
pub open spec fn unique_ids(ws: Seq<WidgetV>) -> bool {
    forall|i: int, j: int| 0 <= i < j < ws.len() ==> ws[i].id != ws[j].id
}

/// Some widget carries this id.
pub open spec fn has_widget(ws: Seq<WidgetV>, id: Seq<char>) -> bool {
    exists|i: int| 0 <= i < ws.len() && ws[i].id == id
}

/// The index of the widget with this id (meaningful when `has_widget`).
pub open spec fn index_of_id(ws: Seq<WidgetV>, id: Seq<char>) -> int {
    choose|i: int| 0 <= i < ws.len() && ws[i].id == id
}

/// The widget with this id, if present, is focused at index `i`.
pub open spec fn focused_at(ws: Seq<WidgetV>, focussed: Option<Seq<char>>, i: int) -> bool {
    0 <= i < ws.len() && focussed == Some(ws[i].id)
}

/// Well-formed: ids are unique and the focus pointer, if set, names a
/// present widget that is visible.
pub open spec fn wm_wf(ws: Seq<WidgetV>, focussed: Option<Seq<char>>) -> bool {
    &&& unique_ids(ws)
    &&& match focussed {
        Some(id) => has_widget(ws, id) && ws[index_of_id(ws, id)].visible,
        None => true,
    }
}

/// The widget list after setting the widget with this id visible.
pub open spec fn spec_show_widgets(ws: Seq<WidgetV>, id: Seq<char>) -> Seq<WidgetV> {
    ws.map_values(
        |w: WidgetV|
            if w.id == id {
                WidgetV { visible: true, ..w }
            } else {
                w
            },
    )
}

/// The widget list after setting the widget with this id hidden.
pub open spec fn spec_hide_widgets(ws: Seq<WidgetV>, id: Seq<char>) -> Seq<WidgetV> {
    ws.map_values(
        |w: WidgetV|
            if w.id == id {
                WidgetV { visible: false, ..w }
            } else {
                w
            },
    )
}

/// The widget list after flipping the visibility of the widget with this
/// id.
pub open spec fn spec_toggle_widgets(ws: Seq<WidgetV>, id: Seq<char>) -> Seq<WidgetV> {
    ws.map_values(
        |w: WidgetV|
            if w.id == id {
                WidgetV { visible: !w.visible, ..w }
            } else {
                w
            },
    )
}

/// Draw order: `a` is drawn before `b` when its priority is smaller, ties
/// broken by position in the arena.
pub open spec fn draws_before(ws: Seq<WidgetV>, a: int, b: int) -> bool {
    ws[a].priority < ws[b].priority || (ws[a].priority == ws[b].priority && a < b)
}

/// `r` is exactly the visible widgets, in draw order: priorities
/// non-decreasing, ties in arena order, hidden widgets absent.
pub open spec fn render_order_ok(ws: Seq<WidgetV>, r: Seq<usize>) -> bool {
    &&& forall|k: int| 0 <= k < r.len() ==> r[k] < ws.len() && ws[#[trigger] r[k] as int].visible
    &&& forall|i: int|
        0 <= i < ws.len() && ws[i].visible ==> exists|k: int| 0 <= k < r.len() && #[trigger] r[k] == i
    &&& forall|k1: int, k2: int|
        0 <= k1 < k2 < r.len() ==> draws_before(ws, #[trigger] r[k1] as int, #[trigger] r[k2] as int)
}

/// The widget registry and the focus pointer.
pub struct WidgetManager {
    pub widgets: Vec<Widget>,
    pub focussed_widget_id: Option<String>,
}

impl WidgetManager {
    /// The arena as a sequence of ghost widgets.
    pub open spec fn widgets_v(&self) -> Seq<WidgetV> {
        self.widgets.deep_view()
    }

    /// The focus pointer as a ghost id.
    pub open spec fn focussed_v(&self) -> Option<Seq<char>> {
        self.focussed_widget_id.deep_view()
    }

    /// Well-formed: unique ids; the focused widget exists and is visible.
    pub open spec fn wf(&self) -> bool {
        wm_wf(self.widgets_v(), self.focussed_v())
    }

    /// An empty registry with nothing focused.
    pub fn new() -> (m: WidgetManager)
        ensures
            m.widgets_v() == Seq::<WidgetV>::empty(),
            m.focussed_v() is None,
            m.wf(),
    {
        let m = WidgetManager { widgets: Vec::new(), focussed_widget_id: None };
        proof {
            assert(m.widgets_v() =~= Seq::<WidgetV>::empty());
        }
        m
    }

    /// The index of the widget with this id, scanning from the front.
    pub(crate) fn find_index(&self, id: &str) -> (r: Option<usize>)
        requires
            unique_ids(self.widgets_v()),
        ensures
            match r {
                Some(i) => i < self.widgets_v().len() && self.widgets_v()[i as int].id == id@ && i
                    == index_of_id(self.widgets_v(), id@),
                None => !has_widget(self.widgets_v(), id@),
            },
    {
        let ghost ws = self.widgets_v();
        let mut i: usize = 0;
        while i < self.widgets.len()
            invariant
                i <= ws.len(),
                ws == self.widgets_v(),
                ws.len() == self.widgets@.len(),
                forall|j: int| 0 <= j < i ==> ws[j].id != id@,
                unique_ids(ws),
            decreases self.widgets@.len() - i,
        {
            if str_eq(self.widgets[i].id.as_str(), id) {
                proof {
                    assert(ws[i as int].id == id@);
                    let w = index_of_id(ws, id@);
                    assert(0 <= w < ws.len() && ws[w].id == id@);
                    assert(w == i as int);
                }
                return Some(i);
            }
            i = i + 1;
        }
        None
    }

    /// A borrowed view of the widget with this id.
    pub fn find(&self, id: &str) -> (r: Option<&Widget>)
        requires
            unique_ids(self.widgets_v()),
        ensures
            match r {
                Some(w) => has_widget(self.widgets_v(), id@) && w.deep_view() == self.widgets_v()[
                    index_of_id(self.widgets_v(), id@)
                ],
                None => !has_widget(self.widgets_v(), id@),
            },
    {
        match self.find_index(id) {
            Some(i) => Some(&self.widgets[i]),
            None => None,
        }
    }

    /// Registers a widget. An id collision leaves the registry unchanged,
    /// so ids stay unique.
    pub fn create(&mut self, widget: Widget)
        requires
            old(self).wf(),
        ensures
            !has_widget(old(self).widgets_v(), widget.deep_view().id) ==> final(self).widgets_v()
                == old(self).widgets_v().push(widget.deep_view()),
            has_widget(old(self).widgets_v(), widget.deep_view().id) ==> final(self).widgets_v()
                == old(self).widgets_v(),
            final(self).focussed_v() == old(self).focussed_v(),
            final(self).wf(),
    {
        let ghost ws = self.widgets_v();
        let present = self.find_index(widget.id.as_str());
        if present.is_none() {
            self.widgets.push(widget);
            proof {
                assert(self.widgets_v() =~= ws.push(widget.deep_view()));
                let ws2 = self.widgets_v();
                assert(unique_ids(ws2));
                match self.focussed_v() {
                    Some(id) => {
                        let w = index_of_id(ws, id);
                        assert(ws2[w] == ws[w]);
                        assert(has_widget(ws2, id));
                        assert(index_of_id(ws2, id) == w);
                    },
                    None => {},
                }
            }
        }
    }

    /// Removes the widget with this id; if it held the focus, the focus is
    /// cleared. An unknown id is a no-op.
    pub fn destroy(&mut self, id: &str)
        requires
            old(self).wf(),
        ensures
            has_widget(old(self).widgets_v(), id@) ==> final(self).widgets_v() == old(
                self,
            ).widgets_v().remove(index_of_id(old(self).widgets_v(), id@)),
            !has_widget(old(self).widgets_v(), id@) ==> final(self).widgets_v() == old(
                self,
            ).widgets_v(),
            final(self).focussed_v() == if old(self).focussed_v() == Some(id@) {
                None::<Seq<char>>
            } else {
                old(self).focussed_v()
            },
            final(self).wf(),
    {
        let ghost ws = self.widgets_v();
        match self.find_index(id) {
            Some(i) => {
                let _ = self.widgets.remove(i);
                proof {
                    assert(self.widgets_v() =~= ws.remove(i as int));
                }
                let clear = match &self.focussed_widget_id {
                    Some(f) => str_eq(f.as_str(), id),
                    None => false,
                };
                if clear {
                    self.focussed_widget_id = None;
                }
                proof {
                    let ws2 = self.widgets_v();
                    assert(unique_ids(ws2)) by {
                        assert forall|a: int, b: int| 0 <= a < b < ws2.len() implies ws2[a].id
                            != ws2[b].id by {
                            let a0 = if a < i as int {
                                a
                            } else {
                                a + 1
                            };
                            let b0 = if b < i as int {
                                b
                            } else {
                                b + 1
                            };
                            assert(ws2[a] == ws[a0] && ws2[b] == ws[b0]);
                        }
                    }
                    match self.focussed_v() {
                        Some(fid) => {
                            assert(fid != id@);
                            let w = index_of_id(ws, fid);
                            let w2 = if w < i as int {
                                w
                            } else {
                                w - 1
                            };
                            assert(ws2[w2] == ws[w]);
                            assert(has_widget(ws2, fid));
                            let u = index_of_id(ws2, fid);
                            assert(ws2[u].id == fid && ws2[w2].id == fid);
                            assert(u == w2);
                        },
                        None => {},
                    }
                }
            },
            None => {},
        }
    }

    /// Sets the widget with this id visible; with `focus`, it also becomes
    /// the sole focused widget, displacing any prior focus. An unknown id
    /// is a no-op.
    pub fn show(&mut self, id: &str, focus: bool)
        requires
            old(self).wf(),
        ensures
            final(self).widgets_v() == spec_show_widgets(old(self).widgets_v(), id@),
            final(self).focussed_v() == if focus && has_widget(old(self).widgets_v(), id@) {
                Some(id@)
            } else {
                old(self).focussed_v()
            },
            final(self).wf(),
    {
        let ghost ws = self.widgets_v();
        match self.find_index(id) {
            Some(i) => {
                let mut w = self.widgets.remove(i);
                w.visible = true;
                self.widgets.insert(i, w);
                if focus {
                    self.focussed_widget_id = Some(id.to_owned());
                }
                proof {
                    let ws2 = self.widgets_v();
                    assert(ws2 =~= spec_show_widgets(ws, id@));
                    assert(unique_ids(ws2));
                    assert(ws2[i as int].visible && ws2[i as int].id == id@);
                    assert(index_of_id(ws2, id@) == i as int);
                    match self.focussed_v() {
                        Some(fid) => {
                            if fid != id@ {
                                let u = index_of_id(ws, fid);
                                assert(ws2[u] == spec_show_widgets(ws, id@)[u]);
                                assert(ws2[u].id == fid && ws2[u].visible);
                                assert(index_of_id(ws2, fid) == u);
                            }
                        },
                        None => {},
                    }
                }
            },
            None => {
                proof {
                    assert(spec_show_widgets(ws, id@) =~= ws);
                }
            },
        }
    }

    /// Sets the widget with this id hidden; if it held the focus, the focus
    /// is cleared. An unknown id is a no-op.
    pub fn hide_widget(&mut self, id: &str)
        requires
            old(self).wf(),
        ensures
            final(self).widgets_v() == spec_hide_widgets(old(self).widgets_v(), id@),
            final(self).focussed_v() == if old(self).focussed_v() == Some(id@) {
                None::<Seq<char>>
            } else {
                old(self).focussed_v()
            },
            final(self).wf(),
    {
        let ghost ws = self.widgets_v();
        match self.find_index(id) {
            Some(i) => {
                let mut w = self.widgets.remove(i);
                w.visible = false;
                self.widgets.insert(i, w);
                let clear = match &self.focussed_widget_id {
                    Some(f) => str_eq(f.as_str(), id),
                    None => false,
                };
                if clear {
                    self.focussed_widget_id = None;
                }
                proof {
                    let ws2 = self.widgets_v();
                    assert(ws2 =~= spec_hide_widgets(ws, id@));
                    assert(unique_ids(ws2));
                    match self.focussed_v() {
                        Some(fid) => {
                            assert(fid != id@);
                            let u = index_of_id(ws, fid);
                            assert(ws2[u] == spec_hide_widgets(ws, id@)[u]);
                            assert(ws2[u].id == fid && ws2[u].visible);
                            assert(index_of_id(ws2, fid) == u);
                        },
                        None => {},
                    }
                }
            },
            None => {
                proof {
                    assert(spec_hide_widgets(ws, id@) =~= ws);
                }
            },
        }
    }

    /// Flips the visibility of the widget with this id. On a transition to
    /// hidden the focus is cleared if that widget held it; on a transition
    /// to visible with `focus`, the widget takes the focus. An unknown id
    /// is a no-op.
    pub fn toggle(&mut self, id: &str, focus: bool)
        requires
            old(self).wf(),
        ensures
            final(self).widgets_v() == spec_toggle_widgets(old(self).widgets_v(), id@),
            final(self).focussed_v() == {
                let ws = old(self).widgets_v();
                if has_widget(ws, id@) {
                    let now_visible = !ws[index_of_id(ws, id@)].visible;
                    if !now_visible && old(self).focussed_v() == Some(id@) {
                        None::<Seq<char>>
                    } else if focus && now_visible {
                        Some(id@)
                    } else {
                        old(self).focussed_v()
                    }
                } else {
                    old(self).focussed_v()
                }
            },
            final(self).wf(),
    {
        let ghost ws = self.widgets_v();
        match self.find_index(id) {
            Some(i) => {
                let mut w = self.widgets.remove(i);
                w.visible = !w.visible;
                let now_visible = w.visible;
                self.widgets.insert(i, w);
                if !now_visible {
                    let clear = match &self.focussed_widget_id {
                        Some(f) => str_eq(f.as_str(), id),
                        None => false,
                    };
                    if clear {
                        self.focussed_widget_id = None;
                    }
                }
                if focus && now_visible {
                    self.focussed_widget_id = Some(id.to_owned());
                }
                proof {
                    let ws2 = self.widgets_v();
                    assert(ws2 =~= spec_toggle_widgets(ws, id@));
                    assert(unique_ids(ws2));
                    assert(ws2[i as int].id == id@);
                    assert(index_of_id(ws2, id@) == i as int);
                    match self.focussed_v() {
                        Some(fid) => {
                            if fid == id@ {
                                assert(ws2[i as int].visible);
                            } else {
                                let u = index_of_id(ws, fid);
                                assert(ws2[u] == spec_toggle_widgets(ws, id@)[u]);
                                assert(ws2[u].id == fid && ws2[u].visible);
                                assert(index_of_id(ws2, fid) == u);
                            }
                        },
                        None => {},
                    }
                }
            },
            None => {
                proof {
                    assert(spec_toggle_widgets(ws, id@) =~= ws);
                }
            },
        }
    }

    /// The focused widget, resolved to a live widget.
    pub fn focussed(&self) -> (r: Option<&Widget>)
        requires
            self.wf(),
        ensures
            match self.focussed_v() {
                Some(fid) => r is Some && r->0.deep_view() == self.widgets_v()[index_of_id(
                    self.widgets_v(),
                    fid,
                )] && r->0.deep_view().id == fid,
                None => r is None,
            },
    {
        let focus_id = match &self.focussed_widget_id {
            Some(f) => f.clone(),
            None => { return None },
        };
        self.find(focus_id.as_str())
    }

    /// Whether the widget with this id exists and is visible.
    pub fn is_visible(&self, id: &str) -> (r: bool)
        requires
            unique_ids(self.widgets_v()),
        ensures
            r == (has_widget(self.widgets_v(), id@) && self.widgets_v()[index_of_id(
                self.widgets_v(),
                id@,
            )].visible),
    {
        match self.find_index(id) {
            Some(i) => self.widgets[i].visible,
            None => false,
        }
    }

    /// The indices of the widgets to draw, in order: every visible widget
    /// exactly once, priorities non-decreasing (0 first), ties in arena
    /// order; hidden widgets are skipped entirely.
    pub fn render_order(&self) -> (r: Vec<usize>)
        ensures
            render_order_ok(self.widgets_v(), r@),
    {
        let ghost ws = self.widgets_v();
        let mut r: Vec<usize> = Vec::new();
        let mut p: usize = 0;
        while p < 256
            invariant
                p <= 256,
                ws == self.widgets_v(),
                ws.len() == self.widgets@.len(),
                forall|k: int|
                    0 <= k < r@.len() ==> r@[k] < ws.len() && ws[#[trigger] r@[k] as int].visible
                        && (ws[r@[k] as int].priority as int) < p,
                forall|i: int|
                    0 <= i < ws.len() && ws[i].visible && (ws[i].priority as int) < p ==> exists|
                        k: int,
                    | 0 <= k < r@.len() && #[trigger] r@[k] == i,
                forall|k1: int, k2: int|
                    0 <= k1 < k2 < r@.len() ==> draws_before(
                        ws,
                        #[trigger] r@[k1] as int,
                        #[trigger] r@[k2] as int,
                    ),
            decreases 256 - p,
        {
            let mut i: usize = 0;
            while i < self.widgets.len()
                invariant
                    p < 256,
                    i <= ws.len(),
                    ws == self.widgets_v(),
                    ws.len() == self.widgets@.len(),
                    forall|k: int|
                        0 <= k < r@.len() ==> r@[k] < ws.len() && ws[
                            #[trigger] r@[k] as int
                        ].visible && ((ws[r@[k] as int].priority as int) < p || (ws[r@[k]
                            as int].priority as int == p && r@[k] < i)),
                    forall|j: int|
                        0 <= j < ws.len() && ws[j].visible && ((ws[j].priority as int) < p || (ws[
                            j
                        ].priority as int == p && j < i)) ==> exists|k: int|
                            0 <= k < r@.len() && #[trigger] r@[k] == j,
                    forall|k1: int, k2: int|
                        0 <= k1 < k2 < r@.len() ==> draws_before(
                            ws,
                            #[trigger] r@[k1] as int,
                            #[trigger] r@[k2] as int,
                        ),
                decreases ws.len() - i,
            {
                if self.widgets[i].visible && (self.widgets[i].priority as usize) == p {
                    let ghost prevr = r@;
                    r.push(i);
                    proof {
                        assert(r@[prevr.len() as int] == i);
                        assert(forall|k: int| 0 <= k < prevr.len() ==> r@[k] == prevr[k]);
                    }
                }
                i = i + 1;
            }
            p = p + 1;
        }
        proof {
            assert(forall|i: int|
                0 <= i < ws.len() ==> (ws[i].priority as int) < 256);
        }
        r
    }
}

/// At most one widget is ever reported focused: any two indices that the
/// focus pointer matches are the same index.
pub proof fn lemma_at_most_one_focused(
    ws: Seq<WidgetV>,
    focussed: Option<Seq<char>>,
    i: int,
    j: int,
)
    requires
        wm_wf(ws, focussed),
        focused_at(ws, focussed, i),
        focused_at(ws, focussed, j),
    ensures
        i == j,
{
    assert(ws[i].id == ws[j].id);
}

} // verus!

verus! {

/// Replacing one widget's drawable state, keeping its id and visibility,
/// preserves well-formedness.
pub proof fn lemma_wf_kind_update(
    ws: Seq<WidgetV>,
    ws2: Seq<WidgetV>,
    focussed: Option<Seq<char>>,
    i: int,
)
    requires
        wm_wf(ws, focussed),
        0 <= i < ws.len(),
        ws2.len() == ws.len(),
        forall|j: int| 0 <= j < ws.len() && j != i ==> ws2[j] == ws[j],
        ws2[i].id == ws[i].id,
        ws2[i].visible == ws[i].visible,
    ensures
        wm_wf(ws2, focussed),
{
    assert(unique_ids(ws2)) by {
        assert forall|a: int, b: int| 0 <= a < b < ws2.len() implies ws2[a].id != ws2[b].id by {
            assert(ws2[a].id == ws[a].id && ws2[b].id == ws[b].id);
        }
    }
    match focussed {
        Some(fid) => {
            let w = index_of_id(ws, fid);
            assert(ws2[w].id == fid);
            assert(ws2[w].visible);
            assert(has_widget(ws2, fid));
            let u = index_of_id(ws2, fid);
            assert(ws2[u].id == fid);
            assert(u == w);
        },
        None => {},
    }
}

impl WidgetManager {
    /// The arena index of the focused widget, if any.
    pub fn focussed_index(&self) -> (r: Option<usize>)
        requires
            self.wf(),
        ensures
            match self.focussed_v() {
                Some(fid) => r is Some && r->0 == index_of_id(self.widgets_v(), fid)
                    && r->0 < self.widgets_v().len() && self.widgets_v()[r->0 as int].id == fid,
                None => r is None,
            },
    {
        let focus_id = match &self.focussed_widget_id {
            Some(f) => f.clone(),
            None => { return None },
        };
        self.find_index(focus_id.as_str())
    }
}

} // verus!
