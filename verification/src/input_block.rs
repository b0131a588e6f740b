//! Input arbitration between the control panel and the scene: while the
//! panel wants the keyboard or the pointer, the scene must not also react
//! to them, and the pan camera pauses while the pointer hovers the panel.

use vstd::prelude::*;

verus! {

/// What the scene's input handling must do this frame.
#[derive(Clone, Copy, Debug, PartialEq, Eq, Structural)]
pub struct InputBlockDecision {
    /// Drop all pressed keys before the scene sees them.
    pub clear_keyboard: bool,
    /// Drop all pressed mouse buttons before the scene sees them.
    pub clear_mouse_buttons: bool,
    /// Whether the pan camera stays active.
    pub pan_enabled: bool,
}

/// Blocks scene input while the control panel has focus. The unverified
/// panel glue records each frame what the panel wants; `decide` yields
/// what the scene's input state must do with it.
#[derive(Clone, Copy, Debug, PartialEq, Eq, Structural)]
pub struct BlockInputPlugin {
    /// The panel has keyboard focus (a text field is being edited).
    pub wants_keyboard_input: bool,
    /// The panel has pointer focus (a widget is being dragged or clicked).
    pub wants_pointer_input: bool,
    /// The pointer hovers over the panel's area.
    pub wants_mouse_scroll: bool,
}

impl BlockInputPlugin {
    /// A fresh arbiter: the panel wants nothing yet.
    pub fn new() -> (b: BlockInputPlugin)
        ensures
            !b.wants_keyboard_input,
            !b.wants_pointer_input,
            !b.wants_mouse_scroll,
    {
        BlockInputPlugin {
            wants_keyboard_input: false,
            wants_pointer_input: false,
            wants_mouse_scroll: false,
        }
    }

    /// Records what the panel wants this frame.
    pub fn update_focus(&mut self, keyboard: bool, pointer: bool, scroll: bool)
        ensures
            *final(self) == (BlockInputPlugin {
                wants_keyboard_input: keyboard,
                wants_pointer_input: pointer,
                wants_mouse_scroll: scroll,
            }),
    {
        self.wants_keyboard_input = keyboard;
        self.wants_pointer_input = pointer;
        self.wants_mouse_scroll = scroll;
    }

    /// The arbitration rule: each input class is withheld from the scene
    /// exactly while the panel wants it, and panning pauses exactly while
    /// the pointer is over the panel.
    pub fn decide(&self) -> (d: InputBlockDecision)
        ensures
            d.clear_keyboard == self.wants_keyboard_input,
            d.clear_mouse_buttons == self.wants_pointer_input,
            d.pan_enabled == !self.wants_mouse_scroll,
    {
        InputBlockDecision {
            clear_keyboard: self.wants_keyboard_input,
            clear_mouse_buttons: self.wants_pointer_input,
            pan_enabled: !self.wants_mouse_scroll,
        }
    }
}

} // verus!
