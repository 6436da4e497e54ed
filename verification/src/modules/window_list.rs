//! Window list (taskbar): which windows get a button, when the buttons
//! must be rebuilt, and what clicking one does. Icons and drawing belong to
//! the application runtime.

use vstd::prelude::*;
use crate::action::Action;
use crate::find::lemma_filter_take_step;
use crate::module::{EventResult, MouseButton};
use crate::modules::workspaces::{active_for_output, active_workspace_for};
use crate::state::{windows_view, HyprState, WindowInfo, WindowModel};

verus! {

/// Button rendering style.
#[derive(Debug, Clone, Copy, Default, PartialEq, Eq, Structural)]
pub enum WindowListStyle {
    /// Text buttons with window title (classic taskbar).
    #[default]
    Buttons,
    /// Icon-only compact view.
    Icons,
    /// Icon plus truncated title.
    IconLabel,
}


/// Predicate "window to list": every window, or only those on workspace
/// `active` when the list is limited to the current workspace.
pub open spec fn listed_window(current_only: bool, active: i32) -> spec_fn(WindowModel) -> bool {
    |w: WindowModel| !current_only || w.workspace_id == active
}

/// The windows the list shows on output `output`, in compositor order.
pub open spec fn windows_shown(s: crate::state::StateModel, output: Seq<char>, current_only: bool) -> Seq<WindowModel> {
    s.windows.filter(listed_window(current_only, active_for_output(s, output)))
}

/// The windows to give buttons on output `output_name`.
pub fn windows_for_output(state: &HyprState, output_name: &str, current_workspace_only: bool) -> (r: Vec<WindowInfo>)
    ensures
        windows_view(r@) == windows_shown(state@, output_name@, current_workspace_only),
{
    let active = active_workspace_for(state, output_name);
    let ghost all = state@.windows;
    let ghost keep = listed_window(current_workspace_only, active);
    let mut out: Vec<WindowInfo> = Vec::new();
    let mut i: usize = 0;
    while i < state.windows.len()
        invariant
            i <= state.windows@.len(),
            all == state@.windows,
            all == windows_view(state.windows@),
            keep == listed_window(current_workspace_only, active),
            windows_view(out@) == all.take(i as int).filter(keep),
        decreases state.windows@.len() - i,
    {
        proof {
            lemma_filter_take_step(all, keep, i as int);
        }
        if !current_workspace_only || state.windows[i].workspace_id == active {
            let w = state.windows[i].clone();
            let ghost before = out@;
            out.push(w);
            assert(windows_view(out@) =~= windows_view(before).push(w@));
        }
        i += 1;
    }
    assert(all.take(all.len() as int) =~= all);
    out
}

/// The buttons must be rebuilt when the window addresses differ (in order)
/// or, position by position, a title or focus flag changed.
pub open spec fn window_list_changed_spec(old: Seq<WindowModel>, new: Seq<WindowModel>) -> bool {
    ||| old.map_values(|w: WindowModel| w.address) != new.map_values(|w: WindowModel| w.address)
    ||| exists|i: int|
        0 <= i < old.len() && i < new.len() && (old[i].title != new[i].title || old[i].is_focused
            != new[i].is_focused)
}

/// Must the window buttons be rebuilt (see [`window_list_changed_spec`])?
pub fn window_list_changed(old: &Vec<WindowInfo>, new: &Vec<WindowInfo>) -> (r: bool)
    ensures
        r == window_list_changed_spec(windows_view(old@), windows_view(new@)),
{
    let ghost o = windows_view(old@);
    let ghost n = windows_view(new@);
    if old.len() != new.len() {
        assert(o.map_values(|w: WindowModel| w.address).len() != n.map_values(
            |w: WindowModel| w.address,
        ).len());
        return true;
    }
    let mut i: usize = 0;
    while i < old.len()
        invariant
            old@.len() == new@.len(),
            i <= old@.len(),
            o == windows_view(old@),
            n == windows_view(new@),
            forall|j: int| 0 <= j < i ==> o[j].address == n[j].address && o[j].title == n[j].title
                && o[j].is_focused == n[j].is_focused,
        decreases old@.len() - i,
    {
        if old[i].address != new[i].address {
            assert(o.map_values(|w: WindowModel| w.address)[i as int] != n.map_values(
                |w: WindowModel| w.address,
            )[i as int]);
            return true;
        }
        if old[i].title != new[i].title || old[i].is_focused != new[i].is_focused {
            assert(o[i as int].title != n[i as int].title || o[i as int].is_focused
                != n[i as int].is_focused);
            return true;
        }
        i += 1;
    }
    assert(o.map_values(|w: WindowModel| w.address) =~= n.map_values(|w: WindowModel| w.address));
    false
}

/// What a click on the button of the window at `address` does: left
/// focuses it, middle closes it, right does nothing.
pub fn window_click(address: &String, button: MouseButton) -> (r: EventResult)
    ensures
        match button {
            MouseButton::Left => r matches EventResult::Action(Action::HyprDispatch { dispatch })
                && dispatch@ == "focuswindow address:"@ + address@,
            MouseButton::Middle => r matches EventResult::Action(Action::HyprDispatch { dispatch })
                && dispatch@ == "closewindow address:"@ + address@,
            MouseButton::Right => r matches EventResult::Ignored,
        },
{
    match button {
        MouseButton::Left => {
            let mut d = "focuswindow address:".to_owned();
            d.append(address.as_str());
            EventResult::Action(Action::HyprDispatch { dispatch: d })
        },
        MouseButton::Middle => {
            let mut d = "closewindow address:".to_owned();
            d.append(address.as_str());
            EventResult::Action(Action::HyprDispatch { dispatch: d })
        },
        MouseButton::Right => EventResult::Ignored,
    }
}

} // verus!
