//! Layout strategies and module grouping of a panel.

use vstd::prelude::*;

verus! {

/// Selects the layout algorithm used by a panel.
#[derive(Debug, Clone, Copy, Default, PartialEq, Eq, Structural)]
pub enum LayoutType {
    #[default]
    Horizontal,
    Vertical,
    Dock,
}

/// Module grouping for three-section layouts (horizontal or vertical).
///
/// Each field holds an ordered list of module IDs. The center group is always
/// geometrically centered; start and end groups are flush to their edges.
#[derive(Debug, Default, Clone, PartialEq, Eq)]
pub struct ModuleGroups {
    pub start: Vec<String>,
    pub center: Vec<String>,
    pub end: Vec<String>,
}

/// Three-group horizontal layout: `start | center | end`. It keeps no state.
#[derive(Debug, Clone, Copy, Default, PartialEq, Eq, Structural)]
pub struct HorizontalLayout {}

impl HorizontalLayout {
    /// The (stateless) horizontal layout.
    pub fn new() -> (r: Self)
        ensures
            r == (HorizontalLayout {}),
    {
        HorizontalLayout {}
    }
}

} // verus!
