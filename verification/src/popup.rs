//! The single popup a panel may show: which module owns it and whether it
//! must be redrawn. The popup's content and its Wayland surface are held by
//! the application runtime next to this state.

use vstd::prelude::*;
use crate::action::Action;
use crate::text::opt_text;

verus! {

/// Result of forwarding an input event to popup content.
#[derive(Debug, PartialEq, Eq)]
pub enum PopupEventResult {
    /// The event was not handled.
    Ignored,
    /// The event was consumed; the popup needs repainting.
    Handled,
    /// The event produced an action for the panel to run.
    Action(Action),
    /// The popup asks to be closed.
    Close,
}

/// Which module's popup is open and whether it needs repainting.
#[derive(Debug)]
pub struct PopupState {
    /// ID of the module whose popup is open. `None` = no popup.
    pub active_module: Option<String>,
    /// Whether the popup content has changed and needs repainting.
    pub dirty: bool,
    /// Whether a surface has been attached to the open popup.
    pub surface_attached: bool,
    /// Popup surface width in pixels.
    pub width: u32,
    /// Popup surface height in pixels.
    pub height: u32,
}

/// Content of a [`PopupState`].
pub struct PopupModel {
    pub active_module: Option<Seq<char>>,
    pub dirty: bool,
    pub surface_attached: bool,
    pub width: u32,
    pub height: u32,
}

impl View for PopupState {
    type V = PopupModel;

    open spec fn view(&self) -> PopupModel {
        PopupModel {
            active_module: opt_text(self.active_module),
            dirty: self.dirty,
            surface_attached: self.surface_attached,
            width: self.width,
            height: self.height,
        }
    }
}

/// The closed popup, as content.
pub open spec fn closed_popup() -> PopupModel {
    PopupModel { active_module: None, dirty: false, surface_attached: false, width: 0, height: 0 }
}

/// A click toggling `module`'s popup: closes it when it is the open one,
/// else opens it (closing any other), with no surface yet and a first paint
/// owed.
pub open spec fn toggled(p: PopupModel, module: Seq<char>) -> PopupModel {
    if p.active_module == Some(module) {
        closed_popup()
    } else {
        PopupModel { active_module: Some(module), dirty: true, surface_attached: false, width: 0, height: 0 }
    }
}

/// The closed popup.
pub open spec fn is_closed(p: PopupState) -> bool {
    p.active_module is None && !p.dirty && !p.surface_attached && p.width == 0 && p.height == 0
}

impl PopupState {
    /// No popup open.
    pub fn new() -> (r: Self)
        ensures
            is_closed(r),
    {
        PopupState { active_module: None, dirty: false, surface_attached: false, width: 0, height: 0 }
    }

    /// Close the popup (dropping its surface).
    pub fn close(&mut self)
        ensures
            is_closed(*final(self)),
    {
        self.active_module = None;
        self.dirty = false;
        self.surface_attached = false;
        self.width = 0;
        self.height = 0;
    }

    /// Open the popup of `module_id`, closing any other first; it needs a
    /// first paint.
    pub fn open(&mut self, module_id: String)
        ensures
            final(self).active_module == Some(module_id),
            final(self).dirty,
            !final(self).surface_attached,
            final(self).width == 0,
            final(self).height == 0,
    {
        self.close();
        self.active_module = Some(module_id);
        self.dirty = true;
    }

    /// Close the popup if `module_id`'s is open, otherwise open `module_id`'s.
    /// True when a popup was opened (its content must then be built).
    pub fn toggle(&mut self, module_id: &str) -> (r: bool)
        ensures
            r == (opt_text(old(self).active_module) != Some(module_id@)),
            final(self)@ == toggled(old(self)@, module_id@),
            r ==> opt_text(final(self).active_module) == Some(module_id@) && final(self).dirty
                && !final(self).surface_attached,
            !r ==> is_closed(*final(self)),
    {
        let same = match &self.active_module {
            Some(m) => *m == module_id.to_owned(),
            None => false,
        };
        if same {
            self.close();
            false
        } else {
            self.open(module_id.to_owned());
            true
        }
    }

    /// Is a popup open?
    pub fn is_open(&self) -> (r: bool)
        ensures
            r == (self.active_module is Some),
    {
        self.active_module.is_some()
    }

    /// A surface of `width` × `height` was created for the open popup.
    pub fn attach_surface(&mut self, width: u32, height: u32)
        ensures
            final(self).surface_attached,
            final(self).width == width,
            final(self).height == height,
            final(self).dirty,
            final(self).active_module == old(self).active_module,
    {
        self.surface_attached = true;
        self.width = width;
        self.height = height;
        self.dirty = true;
    }

    /// The content reported whether it changed; a change needs a repaint.
    pub fn content_updated(&mut self, changed: bool) -> (r: bool)
        ensures
            r == (changed && old(self).active_module is Some),
            final(self).dirty == (old(self).dirty || r),
            final(self).active_module == old(self).active_module,
            final(self).surface_attached == old(self).surface_attached,
    {
        if changed && self.active_module.is_some() {
            self.dirty = true;
            true
        } else {
            false
        }
    }

    /// Start a frame: only a dirty popup with a surface is painted, and
    /// painting clears the dirty flag.
    pub fn begin_frame(&mut self) -> (r: bool)
        ensures
            r == (old(self).dirty && old(self).surface_attached),
            final(self).dirty == (old(self).dirty && !r),
            final(self).active_module == old(self).active_module,
            final(self).surface_attached == old(self).surface_attached,
    {
        if !self.dirty || !self.surface_attached {
            return false;
        }
        self.dirty = false;
        true
    }

    /// Apply what the content made of an input event: a handled event needs
    /// a repaint, a close request closes the popup.
    pub fn event_handled(&mut self, result: &PopupEventResult)
        ensures
            *result is Close ==> is_closed(*final(self)),
            *result is Handled ==> final(self).dirty && final(self).active_module == old(
                self,
            ).active_module,
            !(*result is Close) && !(*result is Handled) ==> final(self).dirty == old(self).dirty
                && final(self).active_module == old(self).active_module,
    {
        match result {
            PopupEventResult::Handled => {
                self.dirty = true;
            },
            PopupEventResult::Close => {
                self.close();
            },
            _ => {},
        }
    }
}

impl Default for PopupState {
    fn default() -> (r: Self)
        ensures
            is_closed(r),
    {
        PopupState::new()
    }
}

/// Two clicks on the same module cancel out: a popup that was not open is
/// closed again, and one that was open is open again, owing a fresh paint.
pub proof fn law_double_toggle(p: PopupModel, module: Seq<char>)
    ensures
        toggled(toggled(p, module), module) == (if p.active_module == Some(module) {
            toggled(closed_popup(), module)
        } else {
            closed_popup()
        }),
{
}

} // verus!
