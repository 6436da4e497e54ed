//! Screen edges panels anchor to.

use vstd::prelude::*;

verus! {

/// Screen edge for panel anchoring.
#[derive(Debug, Clone, Copy, PartialEq, Eq, Structural)]
pub enum Edge {
    Top,
    Bottom,
    Left,
    Right,
}

} // verus!
