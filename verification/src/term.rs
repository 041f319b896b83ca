//! Events that reach the navigator: key presses and ticks.

use vstd::prelude::*;

verus! {

/// What the navigator reads of a key press.
#[derive(Clone, Copy, Debug, PartialEq, Eq, Structural)]
pub enum Key {
    /// A character key.
    Char(char),
    Delete,
    Enter,
    Esc,
    Backspace,
    /// Any other key.
    Other,
}

/// One event of the input queue.
#[derive(Clone, Copy, Debug, PartialEq, Eq, Structural)]
pub enum TermEvent {
    Key(Key),
    Tick,
}

} // verus!
