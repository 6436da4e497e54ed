//! Auto-hide modes and animation phases of a panel.

use vstd::prelude::*;

verus! {

/// Controls when and how a panel hides itself.
#[derive(Debug, Clone, PartialEq, Eq, Structural)]
pub enum AutoHideMode {
    /// Panel is always visible; never auto-hides.
    Disabled,
    /// Panel slides off-screen when not hovered; optional edge trigger strip.
    AutoHide { edge_trigger: bool },
    /// Panel dodges the active (focused) window by moving out of its way.
    DodgeActive,
    /// Dock-style reveal on hover with configurable margin and hide delay.
    DockHover {
        /// Pixels from the screen edge that trigger reveal.
        hover_margin: u32,
        /// Milliseconds to wait before hiding after the cursor leaves.
        hide_delay_ms: u64,
    },
}

/// Current phase of the auto-hide animation state machine.
#[derive(Debug, Clone, Copy, PartialEq, Eq, Structural)]
pub enum AnimPhase {
    /// Panel is fully visible.
    Visible,
    /// Panel is in the process of sliding off-screen.
    Hiding,
    /// Panel is fully hidden (only edge trigger strip visible, if enabled).
    Hidden,
    /// Panel is in the process of sliding back on-screen.
    Showing,
}

} // verus!
