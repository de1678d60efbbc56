//! The tab collection: an ordered list of named, URL-addressed content
//! slots, exactly one of which is current whenever any exist.

use vstd::prelude::*;
use crate::status::TabInfo;

verus! {

broadcast use
    vstd::seq::group_seq_axioms,
    vstd::std_specs::vec::group_vec_axioms,
    crate::strutil::lemma_vec_deep_view_len,
    crate::strutil::lemma_vec_deep_view_index;

/// Whether a URL names the encrypted network scheme, judged by its prefix.
pub open spec fn spec_is_https(url: Seq<char>) -> bool {
    url.len() >= 8 && url.subrange(0, 8) == "https://"@
}

/// Whether a URL string starts with the encrypted scheme prefix.
pub fn is_https_url(url: &str) -> (b: bool)
    ensures
        b == spec_is_https(url@),
{
    let n = url.unicode_len();
    if n < 8 {
        false
    } else {
        let p = url.substring_char(0, 8).to_owned();
        let h = "https://".to_owned();
        p == h
    }
}

/// One tab: a name, the URL it shows, the content fetched for it, and
/// whether the URL uses the encrypted scheme.
pub struct Tab {
    pub name: String,
    pub url: String,
    pub content: String,
    pub secure: bool,
}

/// Ghost mirror of `Tab`.
#[verifier::ext_equal]
pub struct TabV {
    pub name: Seq<char>,
    pub url: Seq<char>,
    pub content: Seq<char>,
    pub secure: bool,
}

impl DeepView for Tab {
    type V = TabV;

    open spec fn deep_view(&self) -> TabV {
        TabV { name: self.name@, url: self.url@, content: self.content@, secure: self.secure }
    }
}

impl Tab {
    /// The status-line metadata for this tab.
    pub fn info(&self) -> (r: TabInfo)
        ensures
            r.name@ == self.name@,
            r.url@ == self.url@,
            r.secure == self.secure,
    {
        TabInfo { name: self.name.clone(), url: self.url.clone(), secure: self.secure }
    }
}

/// The ordered tab list plus the index of the current tab.
pub struct TabManager {
    pub tabs: Vec<Tab>,
    pub current: usize,
}

impl TabManager {
    /// The tab list as a sequence of ghost tabs.
    pub open spec fn tabs_v(&self) -> Seq<TabV> {
        self.tabs.deep_view()
    }

    /// Well-formed: the current index stays inside the list, and sits at
    /// zero while the list is empty.
    pub open spec fn wf(&self) -> bool {
        &&& self.tabs_v().len() > 0 ==> (self.current as int) < self.tabs_v().len()
        &&& self.tabs_v().len() == 0 ==> self.current == 0
    }

    /// An empty tab collection.
    pub fn new() -> (t: TabManager)
        ensures
            t.tabs_v() == Seq::<TabV>::empty(),
            t.current == 0,
            t.wf(),
    {
        TabManager { tabs: Vec::new(), current: 0 }
    }

    /// The current tab.
    pub fn current(&self) -> (r: &Tab)
        requires
            self.wf(),
            self.tabs_v().len() > 0,
        ensures
            r.deep_view() == self.tabs_v()[self.current as int],
    {
        &self.tabs[self.current]
    }

    /// Renames the tab at `idx` in place; out-of-range indices are ignored.
    pub fn rename(&mut self, idx: usize, name: &str)
        ensures
            idx < old(self).tabs_v().len() ==> final(self).tabs_v() == old(self).tabs_v().update(
                idx as int,
                TabV { name: name@, ..old(self).tabs_v()[idx as int] },
            ),
            idx >= old(self).tabs_v().len() ==> final(self).tabs_v() == old(self).tabs_v(),
            final(self).current == old(self).current,
    {
        if idx < self.tabs.len() {
            let ghost prev = self.tabs.deep_view();
            let mut t = self.tabs.remove(idx);
            t.name = name.to_owned();
            self.tabs.insert(idx, t);
            proof {
                assert(self.tabs.deep_view() =~= prev.update(
                    idx as int,
                    TabV { name: name@, ..prev[idx as int] },
                ));
            }
        }
    }

    /// Appends a new tab holding the given content, marking it secure when
    /// the URL uses the encrypted scheme, and returns its index. The new tab
    /// does not become current until `switch` is called.
    pub fn open(&mut self, name: &str, url: &str, content: &str) -> (idx: usize)
        requires
            old(self).wf(),
        ensures
            final(self).tabs_v() == old(self).tabs_v().push(
                TabV { name: name@, url: url@, content: content@, secure: spec_is_https(url@) },
            ),
            final(self).current == old(self).current,
            idx == old(self).tabs_v().len(),
            final(self).wf(),
    {
        let secure = is_https_url(url);
        let tab = Tab {
            name: name.to_owned(),
            url: url.to_owned(),
            content: content.to_owned(),
            secure,
        };
        let ghost prev = self.tabs.deep_view();
        self.tabs.push(tab);
        proof {
            assert(self.tabs.deep_view() =~= prev.push(
                TabV { name: name@, url: url@, content: content@, secure: spec_is_https(url@) },
            ));
        }
        self.tabs.len() - 1
    }

    /// Makes the tab at `idx` current if it exists; returns the (possibly
    /// unchanged) current index.
    pub fn switch(&mut self, idx: usize) -> (r: usize)
        requires
            old(self).wf(),
        ensures
            idx < old(self).tabs_v().len() ==> final(self).current == idx,
            idx >= old(self).tabs_v().len() ==> final(self).current == old(self).current,
            final(self).tabs_v() == old(self).tabs_v(),
            r == final(self).current,
            final(self).wf(),
    {
        if idx < self.tabs.len() {
            self.current = idx;
        }
        self.current
    }

    /// Advances to the next tab, wrapping past the end.
    pub fn next(&mut self) -> (r: usize)
        requires
            old(self).wf(),
            old(self).tabs_v().len() > 0,
        ensures
            final(self).current == (old(self).current + 1) % (old(self).tabs_v().len() as int),
            final(self).tabs_v() == old(self).tabs_v(),
            r == final(self).current,
            final(self).wf(),
    {
        let n = self.tabs.len();
        self.current = (self.current + 1) % n;
        self.current
    }

    /// Retreats to the previous tab, wrapping past the start.
    pub fn prev(&mut self) -> (r: usize)
        requires
            old(self).wf(),
            old(self).tabs_v().len() > 0,
        ensures
            final(self).current == if old(self).current > 0 {
                old(self).current - 1
            } else {
                old(self).tabs_v().len() - 1
            },
            final(self).tabs_v() == old(self).tabs_v(),
            r == final(self).current,
            final(self).wf(),
    {
        if self.current > 0 {
            self.current = self.current - 1;
        } else {
            self.current = self.tabs.len() - 1;
        }
        self.current
    }

    /// Removes the tab at `idx` and clamps the current index back into
    /// range. Refused (a no-op) when only one tab remains or `idx` is out of
    /// range, so the list never becomes empty.
    pub fn close(&mut self, idx: usize)
        requires
            old(self).wf(),
        ensures
            (idx < old(self).tabs_v().len() && old(self).tabs_v().len() > 1) ==> {
                &&& final(self).tabs_v() == old(self).tabs_v().remove(idx as int)
                &&& final(self).current == if old(self).current >= old(self).tabs_v().len() - 1 {
                    old(self).tabs_v().len() - 2
                } else {
                    old(self).current as int
                }
                &&& final(self).current <= old(self).tabs_v().len() - 2
            },
            !(idx < old(self).tabs_v().len() && old(self).tabs_v().len() > 1) ==> *final(self) == *old(
                self,
            ),
            final(self).wf(),
    {
        if idx < self.tabs.len() && self.tabs.len() > 1 {
            let ghost prev = self.tabs.deep_view();
            let _ = self.tabs.remove(idx);
            proof {
                assert(self.tabs.deep_view() =~= prev.remove(idx as int));
            }
            if self.current >= self.tabs.len() {
                self.current = self.tabs.len() - 1;
            }
        }
    }

    /// How many tabs are open.
    pub fn len(&self) -> (n: usize)
        ensures
            n == self.tabs_v().len(),
    {
        self.tabs.len()
    }
}

} // verus!

verus! {

/// Where `next` moves the current index: one step forward, wrapping.
pub open spec fn spec_next_current(current: int, len: int) -> int {
    (current + 1) % len
}

/// Where `prev` moves the current index: one step back, wrapping.
pub open spec fn spec_prev_current(current: int, len: int) -> int {
    if current > 0 {
        current - 1
    } else {
        len - 1
    }
}

/// The current index after `k` calls of `next` on a list of `len` tabs.
pub open spec fn iter_next(current: int, len: int, k: nat) -> int
    decreases k,
{
    if k == 0 {
        current
    } else {
        spec_next_current(iter_next(current, len, (k - 1) as nat), len)
    }
}

/// Advancing `k` times lands on `(current + k) % len`.
pub proof fn lemma_iter_next_closed(current: int, len: int, k: nat)
    requires
        0 <= current < len,
    ensures
        iter_next(current, len, k) == (current + k) % len,
    decreases k,
{
    if k == 0 {
        vstd::arithmetic::div_mod::lemma_small_mod(current as nat, len as nat);
    } else {
        lemma_iter_next_closed(current, len, (k - 1) as nat);
        vstd::arithmetic::div_mod::lemma_add_mod_noop_right(1, current + k - 1, len);
        assert((iter_next(current, len, (k - 1) as nat) + 1) % len == (1 + (current + k - 1) % len)
            % len);
    }
}

/// The cyclic law for `next`: advancing as many times as there are tabs
/// returns the current index to where it started. `next` itself moves the
/// index by `spec_next_current`, so this speaks for repeated calls of it.
pub proof fn lemma_next_cycles(current: int, len: int)
    requires
        0 <= current < len,
    ensures
        iter_next(current, len, len as nat) == current,
{
    lemma_iter_next_closed(current, len, len as nat);
    vstd::arithmetic::div_mod::lemma_mod_add_multiples_vanish(current, len);
    vstd::arithmetic::div_mod::lemma_small_mod(current as nat, len as nat);
}

/// `prev` undoes `next`: stepping forward then back returns the current
/// index to where it started.
pub proof fn lemma_prev_inverts_next(current: int, len: int)
    requires
        0 <= current < len,
    ensures
        spec_prev_current(spec_next_current(current, len), len) == current,
{
    if current < len - 1 {
        vstd::arithmetic::div_mod::lemma_small_mod((current + 1) as nat, len as nat);
    } else {
        vstd::arithmetic::div_mod::lemma_mod_self_0(len);
    }
}

/// `next` undoes `prev` as well.
pub proof fn lemma_next_inverts_prev(current: int, len: int)
    requires
        0 <= current < len,
    ensures
        spec_next_current(spec_prev_current(current, len), len) == current,
{
    if current > 0 {
        vstd::arithmetic::div_mod::lemma_small_mod(current as nat, len as nat);
    } else {
        vstd::arithmetic::div_mod::lemma_mod_self_0(len);
    }
}

} // verus!
