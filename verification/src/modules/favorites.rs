//! Pinned-application entries.

use vstd::prelude::*;
use crate::action::Action;
use crate::module::EventResult;

verus! {

/// A single pinned application entry.
#[derive(Debug)]
pub struct FavoriteEntry {
    /// Tooltip / label.
    pub label: String,
    /// XDG icon name used to look up the application icon.
    pub icon: String,
    /// Action executed on left-click.
    pub action: Action,
}

/// Runtime state of the pinned-applications row (icon sizes and pixels are
/// the drawing layer's).
#[derive(Debug)]
pub struct FavoritesModule {
    pub entries: Vec<FavoriteEntry>,
    /// Show a dot under icons whose applications have open windows.
    pub show_running_indicator: bool,
    /// Slot under the pointer.
    pub hovered_index: Option<usize>,
}

/// The slot a pointer position denotes: the given slot when the row has
/// it, else none.
pub open spec fn row_slot(slot: Option<usize>, len: nat) -> Option<usize> {
    match slot {
        Some(i) => if i < len {
            Some(i)
        } else {
            None
        },
        None => None,
    }
}

impl FavoritesModule {
    /// The row of `entries`, nothing hovered.
    pub fn new(entries: Vec<FavoriteEntry>, show_running_indicator: bool) -> (r: Self)
        ensures
            r.entries == entries,
            r.show_running_indicator == show_running_indicator,
            r.hovered_index is None,
    {
        FavoritesModule { entries, show_running_indicator, hovered_index: None }
    }

    /// Stable module identifier.
    pub fn id(&self) -> (r: &'static str)
        ensures
            r@ == "favorites"@,
    {
        "favorites"
    }

    /// The pointer moved to slot `slot` (none between or beside the icons):
    /// that slot becomes the hovered one; motion over the row is always
    /// handled.
    pub fn hover(&mut self, slot: Option<usize>) -> (r: EventResult)
        ensures
            r is Handled,
            final(self).hovered_index == row_slot(slot, old(self).entries@.len()),
            final(self).entries == old(self).entries,
    {
        self.hovered_index = match slot {
            Some(i) => if i < self.entries.len() {
                Some(i)
            } else {
                None
            },
            None => None,
        };
        EventResult::Handled
    }

    /// A left click on slot `slot`: the action of the entry there, if any
    /// (the caller runs a copy of it).
    pub fn clicked_action(&self, slot: Option<usize>) -> (r: Option<&Action>)
        ensures
            match row_slot(slot, self.entries@.len()) {
                Some(i) => r == Some(&self.entries@[i as int].action),
                None => r is None,
            },
    {
        match slot {
            Some(i) => if i < self.entries.len() {
                Some(&self.entries[i].action)
            } else {
                None
            },
            None => None,
        }
    }
}

} // verus!
