//! Unified action system for user interactions across modules and themes.

use vstd::prelude::*;

verus! {

/// Something a click or key press asks the panel to do.
#[derive(Debug, PartialEq, Eq)]
pub enum Action {
    /// Launch an external program.
    Exec { command: String, args: Vec<String> },
    /// Send a `hyprctl dispatch` command to Hyprland.
    HyprDispatch { dispatch: String },
    /// Forward a named action to a specific module.
    ModuleAction { module: String, action: String },
    /// Execute multiple actions sequentially.
    Chain { actions: Vec<Action> },
}

} // verus!
