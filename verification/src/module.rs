//! Shared vocabulary of panel modules: display modes, pointer buttons and
//! the result of handling an input event.

use vstd::prelude::*;
use crate::action::Action;

verus! {

/// How a status module is drawn: a square icon, or a double-wide
/// icon-plus-readout widget.
#[derive(Debug, Clone, Copy, PartialEq, Eq, Default, Structural)]
pub enum DisplayMode {
    #[default]
    Icon,
    Verbose,
}

/// Pointer button identifier.
#[derive(Debug, Clone, Copy, PartialEq, Eq, Structural)]
pub enum MouseButton {
    Left,
    Middle,
    Right,
}

/// Return value of a module's event handling.
#[derive(Debug, PartialEq, Eq)]
pub enum EventResult {
    /// The event was not handled by this module.
    Ignored,
    /// The event was consumed; no further propagation needed.
    Handled,
    /// The event triggered an action that the panel should execute.
    Action(Action),
}

/// An input event once the caller has resolved where the pointer is:
/// pointer positions and scroll deltas are floating-point, so hit testing
/// happens before an event reaches the library.
#[derive(Debug, Clone, Copy, PartialEq, Eq, Structural)]
pub enum PointerEvent {
    /// The pointer moved over the module.
    Move,
    /// A button went down over the module.
    Press(MouseButton),
    /// A button went up over the module.
    Release(MouseButton),
    /// The wheel turned over the module.
    Scroll,
    /// A key was pressed while the module had keyboard focus.
    Key { key: u32, modifiers: u32 },
}

} // verus!
