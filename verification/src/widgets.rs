//! Cells of the table widget used by calendar-like popups.

use vstd::prelude::*;

verus! {

/// Visual style for a table cell.
#[derive(Debug, Clone, Copy, Default, PartialEq, Eq, Structural)]
pub enum CellStyle {
    /// Normal cell — standard foreground color.
    #[default]
    Normal,
    /// Highlighted cell (e.g., today's date) — accent background, contrasting text.
    Highlighted,
    /// Dimmed cell (e.g., adjacent month days) — reduced opacity.
    Dimmed,
    /// Accent text without background (e.g., holidays, special days).
    Accent,
}

/// A single cell in the table.
#[derive(Debug, Clone, Default, PartialEq, Eq)]
pub struct TableCell {
    /// Text to display in the cell.
    pub text: String,
    /// Cell style.
    pub style: CellStyle,
}

} // verus!
