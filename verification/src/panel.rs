//! What a panel decides on its own: which compositor events need a
//! redraw, where keyboard and wheel input goes, how a click toggles a
//! popup, when a frame is drawn, how an auto-hiding panel is offset, and
//! how its pixels are handed to the compositor. Layout, hit testing and
//! drawing are floating-point and belong to the drawing layer.

use vstd::prelude::*;
use crate::action::Action;
use crate::event::HyprEvent;
use crate::geometry::Edge;
use crate::layout::ModuleGroups;
use crate::module::{EventResult, MouseButton, PointerEvent};
use crate::popup::{is_closed, PopupState};
use crate::text::opt_text;

verus! {

/// Compositor events after which panels are redrawn: every event but
/// keyboard-layout, submap and floating-mode changes.
pub open spec fn redraws_after(e: HyprEvent) -> bool {
    !(e is LayoutChanged || e is SubMap || e is FloatingMode)
}

/// Does this compositor event change something panels show?
pub fn event_needs_redraw(event: &HyprEvent) -> (r: bool)
    ensures
        r == redraws_after(*event),
{
    match event {
        HyprEvent::LayoutChanged { .. } | HyprEvent::SubMap { .. } | HyprEvent::FloatingMode { .. } => false,
        _ => true,
    }
}

/// What handling an input event asks of the caller.
#[derive(Debug)]
pub enum InputResult {
    /// Nothing further to do.
    Nothing,
    /// A module produced an action to run.
    Action(Action),
    /// The popup of this module was opened: the caller creates its surface.
    OpenPopup { module_id: String },
    /// The open popup was closed: the caller flushes the connection.
    ClosePopup,
}

/// What pointer routing does at one module of the layout.
#[derive(Debug, Clone, Copy, PartialEq, Eq, Structural)]
pub enum PointerStep {
    /// The pointer is not over this module: go on to the next one.
    Skip,
    /// A left click on a module with a popup: toggle that popup
    /// ([`Panel::toggle_popup`]) and stop.
    TogglePopup,
    /// Hand the event to the module ([`Panel::module_result`]); stop unless
    /// it ignores the event.
    Deliver,
}

/// The step pointer routing takes at a module, given whether the pointer is
/// over it, the kind of event and whether the module has a popup.
pub open spec fn pointer_step(hit: bool, kind: PointerEvent, has_popup: bool) -> PointerStep {
    if !hit {
        PointerStep::Skip
    } else if kind == PointerEvent::Press(MouseButton::Left) && has_popup {
        PointerStep::TogglePopup
    } else {
        PointerStep::Deliver
    }
}

/// The state of one panel that its input and frame decisions read.
#[derive(Debug)]
pub struct Panel {
    /// Screen edge the panel is anchored to.
    pub edge: Edge,
    /// The panel's popup (at most one open at a time).
    pub popup: PopupState,
    /// Module under the pointer, from the last motion over the panel.
    pub hovered_module: Option<String>,
    /// The panel must be redrawn.
    pub dirty: bool,
    /// The surface must be resized to the new size.
    pub needs_resize: bool,
    pub surface_width: u32,
    pub surface_height: u32,
    /// A compositor surface exists for the panel.
    pub has_surface: bool,
    /// The compositor acknowledged the surface; nothing may be drawn on a
    /// surface before that.
    pub surface_configured: bool,
}

impl Panel {
    /// A panel with no surface yet and nothing hovered; it starts dirty so
    /// that its first frame is drawn.
    pub fn new(edge: Edge, surface_width: u32, surface_height: u32) -> (r: Self)
        ensures
            r.edge == edge,
            is_closed(r.popup),
            r.hovered_module is None,
            r.dirty,
            !r.needs_resize,
            r.surface_width == surface_width,
            r.surface_height == surface_height,
            !r.has_surface,
            !r.surface_configured,
    {
        Panel {
            edge,
            popup: PopupState::new(),
            hovered_module: None,
            dirty: true,
            needs_resize: false,
            surface_width,
            surface_height,
            has_surface: false,
            surface_configured: false,
        }
    }

    /// The module list was replaced: redraw.
    pub fn modules_replaced(&mut self)
        ensures
            final(self).dirty,
            final(self).hovered_module == old(self).hovered_module,
    {
        self.dirty = true;
    }

    /// A compositor event arrived: mark the panel dirty when it changes
    /// something shown, and say so.
    pub fn handle_hypr_event(&mut self, event: &HyprEvent) -> (r: bool)
        ensures
            r == redraws_after(*event),
            final(self).dirty == (old(self).dirty || r),
            final(self).hovered_module == old(self).hovered_module,
    {
        let r = event_needs_redraw(event);
        if r {
            self.dirty = true;
        }
        r
    }

    /// Where a key press goes: to the module whose popup is open, else to
    /// the hovered module, else nowhere.
    pub fn key_target(&self) -> (r: Option<String>)
        ensures
            opt_text(r) == (match self.popup.active_module {
                Some(m) => Some(m@),
                None => opt_text(self.hovered_module),
            }),
    {
        match &self.popup.active_module {
            Some(m) => Some(m.clone()),
            None => match &self.hovered_module {
                Some(h) => Some(h.clone()),
                None => None,
            },
        }
    }

    /// Where a wheel step goes: to the hovered module.
    pub fn scroll_target(&self) -> (r: Option<String>)
        ensures
            opt_text(r) == opt_text(self.hovered_module),
    {
        match &self.hovered_module {
            Some(h) => Some(h.clone()),
            None => None,
        }
    }

    /// The pointer moved; `module` is the one it is over, if any.
    pub fn pointer_moved(&mut self, module: Option<String>)
        ensures
            final(self).hovered_module == module,
            final(self).dirty == old(self).dirty,
    {
        self.hovered_module = module;
    }

    /// The pointer left the panel: nothing is hovered any more, and the
    /// panel is redrawn when the dock's magnification had to change.
    pub fn cursor_left(&mut self, magnification_changed: bool)
        ensures
            final(self).hovered_module is None,
            final(self).dirty == (old(self).dirty || magnification_changed),
    {
        self.hovered_module = None;
        if magnification_changed {
            self.dirty = true;
        }
    }

    /// A module handled an input event: its action is passed on, a handled
    /// event makes the panel dirty, an ignored one is none (the event may
    /// then go to the next module under the pointer).
    pub fn module_result(&mut self, result: EventResult) -> (r: Option<InputResult>)
        ensures
            match result {
                EventResult::Action(a) => r matches Some(InputResult::Action(b)) && a == b && final(self).dirty
                    == old(self).dirty,
                EventResult::Handled => r matches Some(InputResult::Nothing) && final(self).dirty,
                EventResult::Ignored => r is None && final(self).dirty == old(self).dirty,
            },
            final(self).hovered_module == old(self).hovered_module,
    {
        match result {
            EventResult::Action(a) => Some(InputResult::Action(a)),
            EventResult::Handled => {
                self.dirty = true;
                Some(InputResult::Nothing)
            },
            EventResult::Ignored => None,
        }
    }

    /// A left click on a module that has a popup: close its popup when it is
    /// the open one, else open it (replacing any other); redraw either way.
    pub fn toggle_popup(&mut self, module_id: &str) -> (r: InputResult)
        ensures
            final(self).dirty,
            opt_text(old(self).popup.active_module) == Some(module_id@) ==> r is ClosePopup && is_closed(
                final(self).popup,
            ),
            opt_text(old(self).popup.active_module) != Some(module_id@) ==> (r matches InputResult::OpenPopup {
                module_id: m,
            } && m@ == module_id@) && opt_text(final(self).popup.active_module) == Some(module_id@),
            final(self).hovered_module == old(self).hovered_module,
    {
        let opened = self.popup.toggle(module_id);
        self.dirty = true;
        if opened {
            InputResult::OpenPopup { module_id: module_id.to_owned() }
        } else {
            InputResult::ClosePopup
        }
    }

    /// Pointer routing reaches `module_id`, the next module of the layout in
    /// drawing order: see [`pointer_step`]. A motion over the module makes it
    /// the hovered one before the module sees the event; nothing else
    /// changes.
    pub fn route_to_module(&mut self, module_id: &str, hit: bool, kind: PointerEvent, has_popup: bool) -> (r:
        PointerStep)
        ensures
            r == pointer_step(hit, kind, has_popup),
            hit && kind == PointerEvent::Move ==> opt_text(final(self).hovered_module) == Some(
                module_id@,
            ) && *final(self) == (Panel { hovered_module: final(self).hovered_module, ..*old(self) }),
            !(hit && kind == PointerEvent::Move) ==> *final(self) == *old(self),
    {
        if !hit {
            return PointerStep::Skip;
        }
        match kind {
            PointerEvent::Move => {
                self.hovered_module = Some(module_id.to_owned());
                PointerStep::Deliver
            },
            PointerEvent::Press(MouseButton::Left) => if has_popup {
                PointerStep::TogglePopup
            } else {
                PointerStep::Deliver
            },
            _ => PointerStep::Deliver,
        }
    }

    /// Pointer routing went through the whole layout without stopping: a
    /// motion over no module at all leaves nothing hovered; otherwise nothing
    /// changes.
    pub fn finish_pointer_route(&mut self, hit_any: bool, kind: PointerEvent)
        ensures
            !hit_any && kind == PointerEvent::Move ==> *final(self) == (Panel {
                hovered_module: None,
                ..*old(self)
            }),
            !(!hit_any && kind == PointerEvent::Move) ==> *final(self) == *old(self),
    {
        if !hit_any {
            match kind {
                PointerEvent::Move => {
                    self.hovered_module = None;
                },
                _ => {},
            }
        }
    }

    /// Start a frame: nothing is drawn on a surface the compositor has not
    /// acknowledged; otherwise a running dock animation makes the panel
    /// dirty, and only a dirty panel is drawn, which clears the flag.
    pub fn begin_frame(&mut self, dock_animating: bool) -> (r: bool)
        ensures
            (old(self).has_surface && !old(self).surface_configured) ==> !r && final(self).dirty == old(
                self,
            ).dirty,
            !(old(self).has_surface && !old(self).surface_configured) ==> r == (old(self).dirty
                || dock_animating) && !final(self).dirty,
            final(self).hovered_module == old(self).hovered_module,
    {
        if self.has_surface && !self.surface_configured {
            return false;
        }
        let draw = self.dirty || dock_animating;
        self.dirty = false;
        draw
    }

    /// The layout needs a surface of `width` × `height`: a different size
    /// is stored and the surface marked for resizing.
    pub fn fit_surface(&mut self, width: u32, height: u32) -> (r: bool)
        ensures
            r == (width != old(self).surface_width || height != old(self).surface_height),
            final(self).surface_width == width,
            final(self).surface_height == height,
            final(self).needs_resize == (old(self).needs_resize || r),
            final(self).dirty == old(self).dirty,
    {
        let r = width != self.surface_width || height != self.surface_height;
        if r {
            self.surface_width = width;
            self.surface_height = height;
            self.needs_resize = true;
        }
        r
    }
}

/// The layer-surface margins `(top, right, bottom, left)` that slide a
/// panel on `edge` by `offset` pixels: only the margin of its own edge moves.
pub open spec fn margins_spec(edge: Edge, offset: i32) -> (i32, i32, i32, i32) {
    match edge {
        Edge::Top => (offset, 0, 0, 0),
        Edge::Right => (0, offset, 0, 0),
        Edge::Bottom => (0, 0, offset, 0),
        Edge::Left => (0, 0, 0, offset),
    }
}

/// Margins `(top, right, bottom, left)` for a panel on `edge` slid by `offset`.
pub fn auto_hide_margins(edge: Edge, offset: i32) -> (r: (i32, i32, i32, i32))
    ensures
        r == margins_spec(edge, offset),
{
    match edge {
        Edge::Top => (offset, 0, 0, 0),
        Edge::Right => (0, offset, 0, 0),
        Edge::Bottom => (0, 0, offset, 0),
        Edge::Left => (0, 0, 0, offset),
    }
}

/// The exclusive zone of an auto-hiding panel: none (-1) while fully
/// hidden, so windows may use the space; otherwise its thickness across
/// its edge.
pub fn exclusive_zone(edge: Edge, fully_hidden: bool, surface_width: u32, surface_height: u32) -> (r: i64)
    ensures
        fully_hidden ==> r == -1,
        !fully_hidden && (edge == Edge::Top || edge == Edge::Bottom) ==> r == surface_height,
        !fully_hidden && (edge == Edge::Left || edge == Edge::Right) ==> r == surface_width,
{
    if fully_hidden {
        -1
    } else {
        match edge {
            Edge::Top | Edge::Bottom => surface_height as i64,
            Edge::Left | Edge::Right => surface_width as i64,
        }
    }
}

/// `dst` after copying the whole pixels that both buffers hold from `src`
/// (premultiplied RGBA, byte order R G B A) in the compositor's ARGB8888
/// little-endian byte order (B G R A); bytes past them are kept.
pub open spec fn argb_copy(dst: Seq<u8>, src: Seq<u8>) -> Seq<u8> {
    let pixels = (if dst.len() < src.len() { dst.len() } else { src.len() }) / 4;
    Seq::new(
        dst.len(),
        |i: int|
            if i < pixels * 4 {
                let p = i - i % 4;
                if i % 4 == 0 {
                    src[p + 2]
                } else if i % 4 == 2 {
                    src[p]
                } else {
                    src[i]
                }
            } else {
                dst[i]
            },
    )
}

/// Fill a compositor buffer from a canvas (see [`argb_copy`]).
pub fn copy_to_argb8888(dst: &mut Vec<u8>, src: &Vec<u8>)
    ensures
        final(dst)@ == argb_copy(old(dst)@, src@),
{
    let copy_len = if dst.len() < src.len() { dst.len() } else { src.len() };
    let pixels = copy_len / 4;
    let ghost target = argb_copy(old(dst)@, src@);
    assert(pixels * 4 <= copy_len) by (nonlinear_arith)
        requires
            pixels == copy_len / 4,
    ;
    let mut i: usize = 0;
    while i < pixels
        invariant
            pixels == (if old(dst)@.len() < src@.len() { old(dst)@.len() } else { src@.len() }) / 4,
            i <= pixels,
            pixels * 4 <= copy_len,
            copy_len <= dst@.len(),
            copy_len <= src@.len(),
            dst@.len() == old(dst)@.len(),
            target == argb_copy(old(dst)@, src@),
            forall|k: int| 0 <= k < i * 4 ==> dst@[k] == #[trigger] target[k],
            forall|k: int| i * 4 <= k < dst@.len() ==> dst@[k] == #[trigger] old(dst)@[k],
        decreases pixels - i,
    {
        assert(i * 4 + 4 <= pixels * 4) by (nonlinear_arith)
            requires
                i < pixels,
        ;
        let b = i * 4;
        dst.set(b, src[b + 2]);
        dst.set(b + 1, src[b + 1]);
        dst.set(b + 2, src[b]);
        dst.set(b + 3, src[b + 3]);
        assert forall|k: int| b <= k < b + 4 implies dst@[k] == #[trigger] target[k] by {
            assert(k - k % 4 == b);
        }
        i += 1;
    }
    assert(dst@ =~= target);
}

/// The thickness a panel is styled with: a side panel's explicit width,
/// else an explicit height, else the style's default.
pub fn bar_thickness(height: Option<u32>, width: Option<u32>, default: u32) -> (r: u32)
    ensures
        r == (match width {
            Some(w) => w,
            None => match height {
                Some(h) => h,
                None => default,
            },
        }),
{
    match width {
        Some(w) => w,
        None => match height {
            Some(h) => h,
            None => default,
        },
    }
}

/// The surface of a panel on an output of `display_width` × `display_height`:
/// a top or bottom panel spans the width at its explicit height (else the
/// bar thickness); a side panel is its explicit width (else 48) by the full
/// height.
pub fn panel_surface_size(
    edge: Edge,
    display_width: u32,
    display_height: u32,
    height: Option<u32>,
    width: Option<u32>,
    bar_height: u32,
) -> (r: (u32, u32))
    ensures
        (edge == Edge::Top || edge == Edge::Bottom) ==> r == (display_width, match height {
            Some(h) => h,
            None => bar_height,
        }),
        (edge == Edge::Left || edge == Edge::Right) ==> r == (match width {
            Some(w) => w,
            None => 48u32,
        }, display_height),
{
    match edge {
        Edge::Top | Edge::Bottom => (display_width, match height {
            Some(h) => h,
            None => bar_height,
        }),
        Edge::Left | Edge::Right => (match width {
            Some(w) => w,
            None => 48,
        }, display_height),
    }
}

/// Characters of each string.
pub open spec fn ids_view(v: Seq<String>) -> Seq<Seq<char>> {
    v.map_values(|s: String| s@)
}

/// The panel's module ids in placement order: start, then center, then end.
pub fn panel_module_ids(groups: &ModuleGroups) -> (r: Vec<String>)
    ensures
        ids_view(r@) == ids_view(groups.start@) + ids_view(groups.center@) + ids_view(groups.end@),
{
    let mut out: Vec<String> = Vec::new();
    append_ids(&mut out, &groups.start);
    append_ids(&mut out, &groups.center);
    append_ids(&mut out, &groups.end);
    out
}

fn append_ids(out: &mut Vec<String>, ids: &Vec<String>)
    ensures
        ids_view(final(out)@) == ids_view(old(out)@) + ids_view(ids@),
{
    let ghost start = ids_view(out@);
    let mut i: usize = 0;
    while i < ids.len()
        invariant
            i <= ids@.len(),
            ids_view(out@) == start + ids_view(ids@.take(i as int)),
        decreases ids@.len() - i,
    {
        let ghost before = out@;
        out.push(ids[i].clone());
        assert(ids_view(out@) =~= ids_view(before).push(ids[i as int]@));
        assert(ids_view(ids@.take(i as int + 1)) =~= ids_view(ids@.take(i as int)).push(ids[i as int]@));
        i += 1;
    }
    assert(ids@.take(ids@.len() as int) =~= ids@);
}

} // verus!
