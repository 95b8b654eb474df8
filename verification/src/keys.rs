//! The keyboard input model: every raw terminal key press is reduced to one
//! of these values before the state machine sees it.

use vstd::prelude::*;

verus! {

/// A key press, as the views understand it.  The terminal layer translates
/// raw input events into this type; everything the views decide is a
/// function of these plain values.
#[derive(Clone, Copy, Debug, PartialEq, Eq, Structural)]
pub enum Key {
    /// A printable character (including digits and letters used as hotkeys).
    Char(char),
    Up,
    Down,
    Enter,
    Esc,
    Backspace,
    /// Any key the dashboard does not react to.
    Other,
}

} // verus!
