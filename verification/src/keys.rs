//! The keyboard surface as the dispatch loop sees it: a key code plus the
//! modifier flags that the global key table inspects.

use vstd::prelude::*;

verus! {

/// The key codes the dispatch loop distinguishes. Anything else arrives as
/// `Other` and falls through every binding.
#[derive(Clone, Copy, Debug, PartialEq, Eq, Structural)]
pub enum KeyCode {
    Char(char),
    F(u8),
    Tab,
    Esc,
    Enter,
    Up,
    Down,
    Left,
    Right,
    Backspace,
    Delete,
    Home,
    End,
    Other,
}

/// One pressed key with its modifiers.
#[derive(Clone, Copy, Debug, PartialEq, Eq, Structural)]
pub struct KeyInput {
    pub code: KeyCode,
    pub ctrl: bool,
    pub alt: bool,
    pub shift: bool,
}

impl KeyInput {
    /// A key press without modifiers.
    pub fn plain(code: KeyCode) -> (k: KeyInput)
        ensures
            k == (KeyInput { code, ctrl: false, alt: false, shift: false }),
    {
        KeyInput { code, ctrl: false, alt: false, shift: false }
    }

    /// A key press with the control modifier held.
    pub fn ctrl(code: KeyCode) -> (k: KeyInput)
        ensures
            k == (KeyInput { code, ctrl: true, alt: false, shift: false }),
    {
        KeyInput { code, ctrl: true, alt: false, shift: false }
    }

    /// A key press with the alt modifier held.
    pub fn alt(code: KeyCode) -> (k: KeyInput)
        ensures
            k == (KeyInput { code, ctrl: false, alt: true, shift: false }),
    {
        KeyInput { code, ctrl: false, alt: true, shift: false }
    }
}

} // verus!
