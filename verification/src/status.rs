//! The status line: a free-text message plus optional metadata about the
//! current tab.

use vstd::prelude::*;

verus! {

/// Tab metadata shown at the right of the status line.
pub struct TabInfo {
    pub name: String,
    pub url: String,
    pub secure: bool,
}

/// Ghost mirror of `TabInfo`.
#[verifier::ext_equal]
pub struct TabInfoV {
    pub name: Seq<char>,
    pub url: Seq<char>,
    pub secure: bool,
}

impl DeepView for TabInfo {
    type V = TabInfoV;

    open spec fn deep_view(&self) -> TabInfoV {
        TabInfoV { name: self.name@, url: self.url@, secure: self.secure }
    }
}

/// The status line state.
pub struct StatusBar {
    pub status: String,
    pub tab_info: Option<TabInfo>,
}

/// Ghost mirror of `StatusBar`.
#[verifier::ext_equal]
pub struct StatusBarV {
    pub status: Seq<char>,
    pub tab_info: Option<TabInfoV>,
}

impl DeepView for StatusBar {
    type V = StatusBarV;

    open spec fn deep_view(&self) -> StatusBarV {
        StatusBarV { status: self.status@, tab_info: self.tab_info.deep_view() }
    }
}

impl StatusBar {
    /// A fresh status line, showing the help hint and no tab metadata.
    pub fn new() -> (s: StatusBar)
        ensures
            s.deep_view().status == "Press F1 for help"@,
            s.deep_view().tab_info is None,
    {
        StatusBar { status: "Press F1 for help".to_owned(), tab_info: None }
    }

    /// Replaces the status message.
    pub fn status(&mut self, status: &str)
        ensures
            final(self).deep_view().status == status@,
            final(self).deep_view().tab_info == old(self).deep_view().tab_info,
    {
        self.status = status.to_owned();
    }

    /// Replaces the tab metadata.
    pub fn tab_info(&mut self, tab_info: Option<TabInfo>)
        ensures
            final(self).deep_view().tab_info == tab_info.deep_view(),
            final(self).deep_view().status == old(self).deep_view().status,
    {
        self.tab_info = tab_info;
    }
}

} // verus!
