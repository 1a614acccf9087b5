//! The state that one widget instance keeps from frame to frame.

use vstd::prelude::*;
use crate::bindings::Modifiers;

verus! {

/// The transient state of one terminal view. The host keeps it between
/// frames and hands it in for each one.
#[derive(Clone, Copy, Debug, PartialEq, Eq, Structural)]
pub struct TerminalViewState {
    pub is_dragged: bool,
    pub is_focused: bool,
    /// Wheel motion not yet turned into lines, in fixed-point units.
    pub scroll_pixels: i32,
    pub keyboard_modifiers: Modifiers,
}

impl Default for TerminalViewState {
    /// The state of a view that has not seen a frame yet.
    fn default() -> (state: TerminalViewState)
        ensures
            !state.is_dragged,
            !state.is_focused,
            state.scroll_pixels == 0,
            state.keyboard_modifiers == (Modifiers {
                alt: false,
                ctrl: false,
                shift: false,
                mac_cmd: false,
                command: false,
            }),
    {
        TerminalViewState {
            is_dragged: false,
            is_focused: false,
            scroll_pixels: 0,
            keyboard_modifiers: Modifiers::none(),
        }
    }
}

} // verus!
