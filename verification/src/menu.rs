//! The menu line at the top of the screen: a fixed row of entries, one of
//! which may be highlighted while the menu is active.

use vstd::prelude::*;

verus! {

/// Menu line state. Drawing is left to the hosting toolkit; this only keeps
/// whether the menu is active and which entry is highlighted.
pub struct MenuBar {
    pub active: bool,
    pub menu_item_active: u8,
}

impl MenuBar {
    /// An inactive menu with the first entry selected.
    pub fn new() -> (m: MenuBar)
        ensures
            !m.active,
            m.menu_item_active == 0,
    {
        MenuBar { active: false, menu_item_active: 0 }
    }

    /// Activates or deactivates the menu.
    pub fn set_active(&mut self, active: bool)
        ensures
            final(self).active == active,
            final(self).menu_item_active == old(self).menu_item_active,
    {
        self.active = active;
    }
}

} // verus!
