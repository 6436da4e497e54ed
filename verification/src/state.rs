//! Aggregated Hyprland compositor state and how each event changes it.
//!
//! Built at startup from the command socket and kept live by applying
//! [`HyprEvent`]s from the event socket with [`HyprState::apply_event`].

use vstd::prelude::*;
use crate::event::{opt_chars, EventModel, HyprEvent};
use crate::find::{
    any_match, first_match, is_first_match, lemma_any_match_has_first, lemma_filter_all,
    lemma_filter_take_step, lemma_first_match_is, lemma_first_match_none, lemma_update_first_absent,
    lemma_update_first_at, update_first,
};
use crate::text::{
    chars_of, i32_to_string, int_to_decimal, lemma_i32_decimal_round_trip, parse_i32, parse_i32_spec,
    substring,
};

verus! {

/// A Hyprland workspace descriptor.
#[derive(Debug, PartialEq, Eq)]
pub struct Workspace {
    pub id: i32,
    pub name: String,
    pub monitor: String,
    pub has_urgent: bool,
}

/// A Hyprland window descriptor.
#[derive(Debug, PartialEq, Eq)]
pub struct WindowInfo {
    /// Hyprland window address, normalised without the `0x` prefix.
    pub address: String,
    pub title: String,
    pub class: String,
    pub workspace_id: i32,
    pub is_focused: bool,
    pub is_fullscreen: bool,
}

/// A connected monitor as reported by Hyprland.
#[derive(Debug, PartialEq, Eq)]
pub struct MonitorInfo {
    pub name: String,
    pub width: u32,
    pub height: u32,
    pub active_workspace: i32,
}

/// Aggregated Hyprland compositor state.
#[derive(Debug)]
pub struct HyprState {
    /// All known workspaces.
    pub workspaces: Vec<Workspace>,
    /// The currently active workspace ID.
    pub active_workspace: i32,
    /// The currently focused window, if any.
    pub active_window: Option<WindowInfo>,
    /// All connected monitors.
    pub monitors: Vec<MonitorInfo>,
    /// All open windows.
    pub windows: Vec<WindowInfo>,
    /// Name of the currently focused monitor (updated by `focusedmon` events).
    pub focused_monitor: String,
}

/// Content of a [`Workspace`].
pub struct WorkspaceModel {
    pub id: i32,
    pub name: Seq<char>,
    pub monitor: Seq<char>,
    pub has_urgent: bool,
}

/// Content of a [`WindowInfo`].
pub struct WindowModel {
    pub address: Seq<char>,
    pub title: Seq<char>,
    pub class: Seq<char>,
    pub workspace_id: i32,
    pub is_focused: bool,
    pub is_fullscreen: bool,
}

/// Content of a [`MonitorInfo`].
pub struct MonitorModel {
    pub name: Seq<char>,
    pub width: u32,
    pub height: u32,
    pub active_workspace: i32,
}

/// Content of a [`HyprState`].
pub struct StateModel {
    pub workspaces: Seq<WorkspaceModel>,
    pub active_workspace: i32,
    pub active_window: Option<WindowModel>,
    pub monitors: Seq<MonitorModel>,
    pub windows: Seq<WindowModel>,
    pub focused_monitor: Seq<char>,
}

impl View for Workspace {
    type V = WorkspaceModel;

    open spec fn view(&self) -> WorkspaceModel {
        WorkspaceModel {
            id: self.id,
            name: self.name@,
            monitor: self.monitor@,
            has_urgent: self.has_urgent,
        }
    }
}

impl View for WindowInfo {
    type V = WindowModel;

    open spec fn view(&self) -> WindowModel {
        WindowModel {
            address: self.address@,
            title: self.title@,
            class: self.class@,
            workspace_id: self.workspace_id,
            is_focused: self.is_focused,
            is_fullscreen: self.is_fullscreen,
        }
    }
}

impl View for MonitorInfo {
    type V = MonitorModel;

    open spec fn view(&self) -> MonitorModel {
        MonitorModel {
            name: self.name@,
            width: self.width,
            height: self.height,
            active_workspace: self.active_workspace,
        }
    }
}

/// Contents of a list of workspaces.
pub open spec fn workspaces_view(v: Seq<Workspace>) -> Seq<WorkspaceModel> {
    v.map_values(|w: Workspace| w@)
}

/// Contents of a list of windows.
pub open spec fn windows_view(v: Seq<WindowInfo>) -> Seq<WindowModel> {
    v.map_values(|w: WindowInfo| w@)
}

/// Contents of a list of monitors.
pub open spec fn monitors_view(v: Seq<MonitorInfo>) -> Seq<MonitorModel> {
    v.map_values(|m: MonitorInfo| m@)
}

/// Content of an optional window.
pub open spec fn opt_window(o: Option<WindowInfo>) -> Option<WindowModel> {
    match o {
        Some(w) => Some(w@),
        None => None,
    }
}

impl View for HyprState {
    type V = StateModel;

    open spec fn view(&self) -> StateModel {
        StateModel {
            workspaces: workspaces_view(self.workspaces@),
            active_workspace: self.active_workspace,
            active_window: opt_window(self.active_window),
            monitors: monitors_view(self.monitors@),
            windows: windows_view(self.windows@),
            focused_monitor: self.focused_monitor@,
        }
    }
}

impl Clone for Workspace {
    fn clone(&self) -> (r: Self)
        ensures
            r == *self,
    {
        Workspace {
            id: self.id,
            name: self.name.clone(),
            monitor: self.monitor.clone(),
            has_urgent: self.has_urgent,
        }
    }
}

impl Clone for WindowInfo {
    fn clone(&self) -> (r: Self)
        ensures
            r == *self,
    {
        WindowInfo {
            address: self.address.clone(),
            title: self.title.clone(),
            class: self.class.clone(),
            workspace_id: self.workspace_id,
            is_focused: self.is_focused,
            is_fullscreen: self.is_fullscreen,
        }
    }
}

impl Clone for MonitorInfo {
    fn clone(&self) -> (r: Self)
        ensures
            r == *self,
    {
        MonitorInfo {
            name: self.name.clone(),
            width: self.width,
            height: self.height,
            active_workspace: self.active_workspace,
        }
    }
}

// ── Selectors and single-record edits ─────────────────────────────────────────

pub open spec fn ws_with_id(id: i32) -> spec_fn(WorkspaceModel) -> bool {
    |w: WorkspaceModel| w.id == id
}

pub open spec fn ws_without_id(id: i32) -> spec_fn(WorkspaceModel) -> bool {
    |w: WorkspaceModel| w.id != id
}

pub open spec fn ws_named(name: Seq<char>) -> spec_fn(WorkspaceModel) -> bool {
    |w: WorkspaceModel| w.name == name
}

pub open spec fn mon_named(name: Seq<char>) -> spec_fn(MonitorModel) -> bool {
    |m: MonitorModel| m.name == name
}

pub open spec fn mon_not_named(name: Seq<char>) -> spec_fn(MonitorModel) -> bool {
    |m: MonitorModel| m.name != name
}

pub open spec fn mon_showing(id: i32) -> spec_fn(MonitorModel) -> bool {
    |m: MonitorModel| m.active_workspace == id
}

pub open spec fn win_at(address: Seq<char>) -> spec_fn(WindowModel) -> bool {
    |w: WindowModel| w.address == address
}

pub open spec fn win_not_at(address: Seq<char>) -> spec_fn(WindowModel) -> bool {
    |w: WindowModel| w.address != address
}

pub open spec fn win_titled(class: Seq<char>, title: Seq<char>) -> spec_fn(WindowModel) -> bool {
    |w: WindowModel| w.class == class && w.title == title
}

pub open spec fn set_urgent(flag: bool) -> spec_fn(WorkspaceModel) -> WorkspaceModel {
    |w: WorkspaceModel| WorkspaceModel { has_urgent: flag, ..w }
}

pub open spec fn set_monitor(monitor: Seq<char>) -> spec_fn(WorkspaceModel) -> WorkspaceModel {
    |w: WorkspaceModel| WorkspaceModel { monitor: monitor, ..w }
}

pub open spec fn mon_set_active(id: i32) -> spec_fn(MonitorModel) -> MonitorModel {
    |m: MonitorModel| MonitorModel { active_workspace: id, ..m }
}

pub open spec fn win_set_focused(flag: bool) -> spec_fn(WindowModel) -> WindowModel {
    |w: WindowModel| WindowModel { is_focused: flag, ..w }
}

pub open spec fn win_focus_if_at(address: Seq<char>) -> spec_fn(WindowModel) -> WindowModel {
    |w: WindowModel| WindowModel { is_focused: w.address == address, ..w }
}

pub open spec fn win_set_fullscreen(flag: bool) -> spec_fn(WindowModel) -> WindowModel {
    |w: WindowModel| WindowModel { is_fullscreen: flag, ..w }
}

pub open spec fn win_set_title(title: Seq<char>) -> spec_fn(WindowModel) -> WindowModel {
    |w: WindowModel| WindowModel { title: title, ..w }
}

pub open spec fn win_set_workspace(id: i32) -> spec_fn(WindowModel) -> WindowModel {
    |w: WindowModel| WindowModel { workspace_id: id, ..w }
}

pub open spec fn win_reopened(class: Seq<char>, title: Seq<char>, id: i32) -> spec_fn(
    WindowModel,
) -> WindowModel {
    |w: WindowModel| WindowModel { title: title, class: class, workspace_id: id, ..w }
}

// ── Event rules ───────────────────────────────────────────────────────────────

/// A window address without a leading `0x` / `0X`.
pub open spec fn normalize_address_spec(a: Seq<char>) -> Seq<char> {
    if a.len() >= 2 && a[0] == '0' && (a[1] == 'x' || a[1] == 'X') {
        a.subrange(2, a.len() as int)
    } else {
        a
    }
}

/// The ID of the first workspace called `name`, else `name` read as an
/// integer, else 0.
pub open spec fn workspace_id_for_name(name: Seq<char>, workspaces: Seq<WorkspaceModel>) -> i32 {
    match first_match(workspaces, ws_named(name)) {
        Some(i) => workspaces[i].id,
        None => match parse_i32_spec(name) {
            Some(v) => v,
            None => 0,
        },
    }
}

/// The record created for a workspace first seen in a `createworkspace` event.
pub open spec fn new_workspace(id: i32) -> WorkspaceModel {
    WorkspaceModel {
        id,
        name: int_to_decimal(id as int),
        monitor: Seq::empty(),
        has_urgent: false,
    }
}

/// The state after `e`.
pub open spec fn apply_event_spec(s: StateModel, e: EventModel) -> StateModel {
    match e {
        EventModel::WorkspaceChanged { id } => StateModel {
            active_workspace: id,
            monitors: update_first(s.monitors, mon_named(s.focused_monitor), mon_set_active(id)),
            workspaces: update_first(s.workspaces, ws_with_id(id), set_urgent(false)),
            ..s
        },
        EventModel::WorkspaceAdded { id } => if any_match(s.workspaces, ws_with_id(id)) {
            s
        } else {
            StateModel { workspaces: s.workspaces.push(new_workspace(id)), ..s }
        },
        EventModel::WorkspaceDestroyed { id } => StateModel {
            workspaces: s.workspaces.filter(ws_without_id(id)),
            ..s
        },
        EventModel::WorkspaceMoved { id, monitor } => StateModel {
            workspaces: update_first(s.workspaces, ws_with_id(id), set_monitor(monitor)),
            ..s
        },
        EventModel::ActiveWindow { class, title } => {
            let cleared = s.windows.map_values(win_set_focused(false));
            match first_match(cleared, win_titled(class, title)) {
                Some(i) => StateModel {
                    windows: cleared.update(i, win_set_focused(true)(cleared[i])),
                    active_window: Some(win_set_focused(true)(cleared[i])),
                    ..s
                },
                None => StateModel {
                    windows: cleared,
                    active_window: Some(
                        WindowModel {
                            address: Seq::empty(),
                            title,
                            class,
                            workspace_id: s.active_workspace,
                            is_focused: true,
                            is_fullscreen: false,
                        },
                    ),
                    ..s
                },
            }
        },
        EventModel::ActiveWindowV2 { address } => {
            let n = normalize_address_spec(address);
            let marked = s.windows.map_values(win_focus_if_at(n));
            match first_match(marked, win_at(n)) {
                Some(i) => StateModel { windows: marked, active_window: Some(marked[i]), ..s },
                None => StateModel { windows: marked, ..s },
            }
        },
        EventModel::WindowOpened { address, workspace_name, class, title } => {
            let n = normalize_address_spec(address);
            let id = workspace_id_for_name(workspace_name, s.workspaces);
            match first_match(s.windows, win_at(n)) {
                Some(i) => StateModel {
                    windows: s.windows.update(i, win_reopened(class, title, id)(s.windows[i])),
                    ..s
                },
                None => StateModel {
                    windows: s.windows.push(
                        WindowModel {
                            address: n,
                            title,
                            class,
                            workspace_id: id,
                            is_focused: false,
                            is_fullscreen: false,
                        },
                    ),
                    ..s
                },
            }
        },
        EventModel::WindowClosed { address } => {
            let n = normalize_address_spec(address);
            StateModel {
                windows: s.windows.filter(win_not_at(n)),
                active_window: match s.active_window {
                    Some(a) => if a.address == n {
                        None
                    } else {
                        Some(a)
                    },
                    None => None,
                },
                ..s
            }
        },
        EventModel::WindowMoved { address, workspace_name } => {
            let n = normalize_address_spec(address);
            let id = workspace_id_for_name(workspace_name, s.workspaces);
            StateModel { windows: update_first(s.windows, win_at(n), win_set_workspace(id)), ..s }
        },
        EventModel::Urgent { address } => {
            let n = normalize_address_spec(address);
            match first_match(s.windows, win_at(n)) {
                Some(i) => {
                    let ws = s.windows[i].workspace_id;
                    if any_match(s.monitors, mon_showing(ws)) {
                        s
                    } else {
                        StateModel {
                            workspaces: update_first(s.workspaces, ws_with_id(ws), set_urgent(true)),
                            ..s
                        }
                    }
                },
                None => s,
            }
        },
        EventModel::MonitorAdded { id: _, name, description: _ } => if any_match(
            s.monitors,
            mon_named(name),
        ) {
            s
        } else {
            StateModel {
                monitors: s.monitors.push(
                    MonitorModel { name, width: 0, height: 0, active_workspace: 0 },
                ),
                ..s
            }
        },
        EventModel::MonitorRemoved { name } => StateModel {
            monitors: s.monitors.filter(mon_not_named(name)),
            ..s
        },
        EventModel::ActiveMonitor { name, workspace_id } => StateModel {
            focused_monitor: name,
            monitors: update_first(s.monitors, mon_named(name), mon_set_active(workspace_id)),
            active_workspace: workspace_id,
            workspaces: update_first(s.workspaces, ws_with_id(workspace_id), set_urgent(false)),
            ..s
        },
        EventModel::Fullscreen { enter } => match s.active_window {
            Some(a) => StateModel {
                active_window: Some(win_set_fullscreen(enter)(a)),
                windows: if a.address.len() > 0 {
                    update_first(s.windows, win_at(a.address), win_set_fullscreen(enter))
                } else {
                    s.windows
                },
                ..s
            },
            None => s,
        },
        EventModel::WindowTitleV2 { address, title } => {
            let n = normalize_address_spec(address);
            StateModel {
                windows: update_first(s.windows, win_at(n), win_set_title(title)),
                active_window: match s.active_window {
                    Some(a) => if a.address == n {
                        Some(win_set_title(title)(a))
                    } else {
                        Some(a)
                    },
                    None => None,
                },
                ..s
            }
        },
        EventModel::WindowTitle { .. } => s,
        EventModel::LayoutChanged { .. } => s,
        EventModel::SubMap { .. } => s,
        EventModel::FloatingMode { .. } => s,
    }
}

// ── Lookups ───────────────────────────────────────────────────────────────────

/// Index of the first workspace with ID `id`.
fn find_workspace_by_id(ws: &Vec<Workspace>, id: i32) -> (r: Option<usize>)
    ensures
        match r {
            Some(i) => i < ws@.len() && first_match(workspaces_view(ws@), ws_with_id(id)) == Some(
                i as int,
            ),
            None => first_match(workspaces_view(ws@), ws_with_id(id)) is None && !any_match(
                workspaces_view(ws@),
                ws_with_id(id),
            ),
        },
{
    let ghost s = workspaces_view(ws@);
    let mut i: usize = 0;
    while i < ws.len()
        invariant
            i <= ws@.len(),
            s == workspaces_view(ws@),
            forall|j: int| 0 <= j < i ==> !ws_with_id(id)(#[trigger] s[j]),
        decreases ws@.len() - i,
    {
        if ws[i].id == id {
            proof {
                lemma_first_match_is(s, ws_with_id(id), i as int);
            }
            return Some(i);
        }
        i += 1;
    }
    proof {
        lemma_first_match_none(s, ws_with_id(id));
    }
    None
}

/// Index of the first workspace called `name`.
fn find_workspace_by_name(ws: &Vec<Workspace>, name: &String) -> (r: Option<usize>)
    ensures
        match r {
            Some(i) => i < ws@.len() && first_match(workspaces_view(ws@), ws_named(name@)) == Some(
                i as int,
            ),
            None => first_match(workspaces_view(ws@), ws_named(name@)) is None,
        },
{
    let ghost s = workspaces_view(ws@);
    let mut i: usize = 0;
    while i < ws.len()
        invariant
            i <= ws@.len(),
            s == workspaces_view(ws@),
            forall|j: int| 0 <= j < i ==> !ws_named(name@)(#[trigger] s[j]),
        decreases ws@.len() - i,
    {
        if ws[i].name == *name {
            proof {
                lemma_first_match_is(s, ws_named(name@), i as int);
            }
            return Some(i);
        }
        i += 1;
    }
    proof {
        lemma_first_match_none(s, ws_named(name@));
    }
    None
}

/// Index of the first monitor called `name`.
fn find_monitor_by_name(ms: &Vec<MonitorInfo>, name: &String) -> (r: Option<usize>)
    ensures
        match r {
            Some(i) => i < ms@.len() && first_match(monitors_view(ms@), mon_named(name@)) == Some(
                i as int,
            ),
            None => first_match(monitors_view(ms@), mon_named(name@)) is None && !any_match(
                monitors_view(ms@),
                mon_named(name@),
            ),
        },
{
    let ghost s = monitors_view(ms@);
    let mut i: usize = 0;
    while i < ms.len()
        invariant
            i <= ms@.len(),
            s == monitors_view(ms@),
            forall|j: int| 0 <= j < i ==> !mon_named(name@)(#[trigger] s[j]),
        decreases ms@.len() - i,
    {
        if ms[i].name == *name {
            proof {
                lemma_first_match_is(s, mon_named(name@), i as int);
            }
            return Some(i);
        }
        i += 1;
    }
    proof {
        lemma_first_match_none(s, mon_named(name@));
    }
    None
}

/// Is workspace `id` the active workspace of some monitor?
fn any_monitor_showing(ms: &Vec<MonitorInfo>, id: i32) -> (r: bool)
    ensures
        r == any_match(monitors_view(ms@), mon_showing(id)),
{
    let ghost s = monitors_view(ms@);
    let mut i: usize = 0;
    while i < ms.len()
        invariant
            i <= ms@.len(),
            s == monitors_view(ms@),
            forall|j: int| 0 <= j < i ==> !mon_showing(id)(#[trigger] s[j]),
        decreases ms@.len() - i,
    {
        if ms[i].active_workspace == id {
            assert(mon_showing(id)(s[i as int]));
            return true;
        }
        i += 1;
    }
    false
}

/// Index of the first window at `address`.
fn find_window_at(ws: &Vec<WindowInfo>, address: &String) -> (r: Option<usize>)
    ensures
        match r {
            Some(i) => i < ws@.len() && first_match(windows_view(ws@), win_at(address@)) == Some(
                i as int,
            ),
            None => first_match(windows_view(ws@), win_at(address@)) is None,
        },
{
    let ghost s = windows_view(ws@);
    let mut i: usize = 0;
    while i < ws.len()
        invariant
            i <= ws@.len(),
            s == windows_view(ws@),
            forall|j: int| 0 <= j < i ==> !win_at(address@)(#[trigger] s[j]),
        decreases ws@.len() - i,
    {
        if ws[i].address == *address {
            proof {
                lemma_first_match_is(s, win_at(address@), i as int);
            }
            return Some(i);
        }
        i += 1;
    }
    proof {
        lemma_first_match_none(s, win_at(address@));
    }
    None
}

/// Index of the first window with the given class and title.
fn find_window_titled(ws: &Vec<WindowInfo>, class: &String, title: &String) -> (r: Option<usize>)
    ensures
        match r {
            Some(i) => i < ws@.len() && first_match(
                windows_view(ws@),
                win_titled(class@, title@),
            ) == Some(i as int),
            None => first_match(windows_view(ws@), win_titled(class@, title@)) is None,
        },
{
    let ghost s = windows_view(ws@);
    let mut i: usize = 0;
    while i < ws.len()
        invariant
            i <= ws@.len(),
            s == windows_view(ws@),
            forall|j: int| 0 <= j < i ==> !win_titled(class@, title@)(#[trigger] s[j]),
        decreases ws@.len() - i,
    {
        if ws[i].class == *class && ws[i].title == *title {
            proof {
                lemma_first_match_is(s, win_titled(class@, title@), i as int);
            }
            return Some(i);
        }
        i += 1;
    }
    proof {
        lemma_first_match_none(s, win_titled(class@, title@));
    }
    None
}

/// Strip a leading `0x`/`0X` from a Hyprland window address, if present.
///
/// Hyprland's JSON output includes the prefix, while `.socket2.sock` events
/// do not; addresses are kept in the unprefixed form.
pub fn normalize_address(address: &str) -> (r: String)
    ensures
        r@ == normalize_address_spec(address@),
{
    let v = chars_of(address);
    if v.len() >= 2 && v[0] == '0' && (v[1] == 'x' || v[1] == 'X') {
        substring(address, 2, v.len())
    } else {
        assert(address@.subrange(0, v@.len() as int) =~= address@);
        substring(address, 0, v.len())
    }
}

/// Look up a workspace ID from its name, falling back to parsing the name
/// as an integer for numeric workspaces.
pub fn workspace_id_from_name(name: &String, workspaces: &Vec<Workspace>) -> (r: i32)
    ensures
        r == workspace_id_for_name(name@, workspaces_view(workspaces@)),
{
    match find_workspace_by_name(workspaces, name) {
        Some(i) => workspaces[i].id,
        None => {
            let v = chars_of(name.as_str());
            assert(v@.subrange(0, v@.len() as int) =~= name@);
            match parse_i32(&v, 0, v.len()) {
                Some(id) => id,
                None => 0,
            }
        },
    }
}

// ── Applying events ───────────────────────────────────────────────────────────

impl HyprState {
    /// Clear the urgency flag of the first workspace with ID `id`.
    fn clear_urgent(&mut self, id: i32)
        ensures
            final(self)@ == (StateModel {
                workspaces: update_first(old(self)@.workspaces, ws_with_id(id), set_urgent(false)),
                ..old(self)@
            }),
    {
        match find_workspace_by_id(&self.workspaces, id) {
            Some(i) => {
                self.workspaces[i].has_urgent = false;
                assert(workspaces_view(self.workspaces@) =~= update_first(
                    old(self)@.workspaces,
                    ws_with_id(id),
                    set_urgent(false),
                ));
            },
            None => {},
        }
    }

    /// Point the first monitor called `name` at workspace `id`.
    fn set_monitor_workspace(&mut self, name: &String, id: i32)
        ensures
            final(self)@ == (StateModel {
                monitors: update_first(old(self)@.monitors, mon_named(name@), mon_set_active(id)),
                ..old(self)@
            }),
    {
        match find_monitor_by_name(&self.monitors, name) {
            Some(i) => {
                self.monitors[i].active_workspace = id;
                assert(monitors_view(self.monitors@) =~= update_first(
                    old(self)@.monitors,
                    mon_named(name@),
                    mon_set_active(id),
                ));
            },
            None => {},
        }
    }

    fn workspace_changed(&mut self, id: i32)
        ensures
            final(self)@ == apply_event_spec(old(self)@, EventModel::WorkspaceChanged { id }),
    {
        self.active_workspace = id;
        let focused = self.focused_monitor.clone();
        self.set_monitor_workspace(&focused, id);
        self.clear_urgent(id);
    }

    fn workspace_added(&mut self, id: i32)
        ensures
            final(self)@ == apply_event_spec(old(self)@, EventModel::WorkspaceAdded { id }),
    {
        match find_workspace_by_id(&self.workspaces, id) {
            Some(i) => {
                proof {
                    let s = workspaces_view(self.workspaces@);
                    assert(ws_with_id(id)(s[i as int]));
                }
            },
            None => {
                let name = i32_to_string(id);
                self.workspaces.push(
                    Workspace { id, name, monitor: String::new(), has_urgent: false },
                );
                assert(workspaces_view(self.workspaces@) =~= old(self)@.workspaces.push(
                    new_workspace(id),
                ));
            },
        }
    }

    fn workspace_destroyed(&mut self, id: i32)
        ensures
            final(self)@ == apply_event_spec(old(self)@, EventModel::WorkspaceDestroyed { id }),
    {
        let ghost s = old(self)@.workspaces;
        let mut kept: Vec<Workspace> = Vec::new();
        let mut i: usize = 0;
        while i < self.workspaces.len()
            invariant
                i <= self.workspaces@.len(),
                s == workspaces_view(self.workspaces@),
                workspaces_view(kept@) == s.take(i as int).filter(ws_without_id(id)),
            decreases self.workspaces@.len() - i,
        {
            proof {
                lemma_filter_take_step(s, ws_without_id(id), i as int);
            }
            if self.workspaces[i].id != id {
                let w = self.workspaces[i].clone();
                kept.push(w);
                assert(workspaces_view(kept@) =~= s.take(i as int + 1).filter(ws_without_id(id)));
            }
            i += 1;
        }
        assert(s.take(s.len() as int) =~= s);
        self.workspaces = kept;
    }

    fn workspace_moved(&mut self, id: i32, monitor: &String)
        ensures
            final(self)@ == apply_event_spec(
                old(self)@,
                EventModel::WorkspaceMoved { id, monitor: monitor@ },
            ),
    {
        match find_workspace_by_id(&self.workspaces, id) {
            Some(i) => {
                self.workspaces[i].monitor = monitor.clone();
                assert(workspaces_view(self.workspaces@) =~= update_first(
                    old(self)@.workspaces,
                    ws_with_id(id),
                    set_monitor(monitor@),
                ));
            },
            None => {},
        }
    }

    fn active_window_changed(&mut self, class: &String, title: &String)
        ensures
            final(self)@ == apply_event_spec(
                old(self)@,
                EventModel::ActiveWindow { class: class@, title: title@ },
            ),
    {
        let ghost s = old(self)@.windows;
        let mut i: usize = 0;
        while i < self.windows.len()
            invariant
                i <= self.windows@.len() == s.len(),
                forall|j: int|
                    0 <= j < i ==> #[trigger] windows_view(self.windows@)[j] == win_set_focused(
                        false,
                    )(s[j]),
                self.workspaces == old(self).workspaces,
                self.monitors == old(self).monitors,
                self.active_window == old(self).active_window,
                self.active_workspace == old(self).active_workspace,
                self.focused_monitor == old(self).focused_monitor,
                forall|j: int|
                    i <= j < s.len() ==> #[trigger] windows_view(self.windows@)[j] == s[j],
            decreases self.windows@.len() - i,
        {
            let ghost prev = windows_view(self.windows@);
            assert(prev[i as int] == s[i as int]);
            self.windows[i].is_focused = false;
            assert forall|j: int| 0 <= j < s.len() && j != i implies #[trigger] windows_view(
                self.windows@,
            )[j] == prev[j] by {}
            assert(windows_view(self.windows@)[i as int] == win_set_focused(false)(s[i as int]));
            i += 1;
        }
        assert(windows_view(self.windows@) =~= s.map_values(win_set_focused(false)));
        match find_window_titled(&self.windows, class, title) {
            Some(k) => {
                self.windows[k].is_focused = true;
                self.active_window = Some(self.windows[k].clone());
                assert(windows_view(self.windows@) =~= s.map_values(win_set_focused(false)).update(
                    k as int,
                    win_set_focused(true)(s.map_values(win_set_focused(false))[k as int]),
                ));
            },
            None => {
                self.active_window = Some(
                    WindowInfo {
                        address: String::new(),
                        title: title.clone(),
                        class: class.clone(),
                        workspace_id: self.active_workspace,
                        is_focused: true,
                        is_fullscreen: false,
                    },
                );
            },
        }
    }

    fn active_window_v2(&mut self, address: &String)
        ensures
            final(self)@ == apply_event_spec(
                old(self)@,
                EventModel::ActiveWindowV2 { address: address@ },
            ),
    {
        let normalized = normalize_address(address.as_str());
        let ghost s = old(self)@.windows;
        let mut i: usize = 0;
        while i < self.windows.len()
            invariant
                i <= self.windows@.len() == s.len(),
                forall|j: int|
                    0 <= j < i ==> #[trigger] windows_view(self.windows@)[j] == win_focus_if_at(
                        normalized@,
                    )(s[j]),
                self.workspaces == old(self).workspaces,
                self.monitors == old(self).monitors,
                self.active_window == old(self).active_window,
                self.active_workspace == old(self).active_workspace,
                self.focused_monitor == old(self).focused_monitor,
                forall|j: int|
                    i <= j < s.len() ==> #[trigger] windows_view(self.windows@)[j] == s[j],
            decreases self.windows@.len() - i,
        {
            let ghost prev = windows_view(self.windows@);
            assert(prev[i as int] == s[i as int]);
            let focused = self.windows[i].address == normalized;
            self.windows[i].is_focused = focused;
            assert forall|j: int| 0 <= j < s.len() && j != i implies #[trigger] windows_view(
                self.windows@,
            )[j] == prev[j] by {}
            assert(windows_view(self.windows@)[i as int] == win_focus_if_at(normalized@)(
                s[i as int],
            ));
            i += 1;
        }
        assert(windows_view(self.windows@) =~= s.map_values(win_focus_if_at(normalized@)));
        match find_window_at(&self.windows, &normalized) {
            Some(k) => {
                self.active_window = Some(self.windows[k].clone());
            },
            None => {},
        }
    }

    fn window_opened(
        &mut self,
        address: &String,
        workspace_name: &String,
        class: &String,
        title: &String,
    )
        ensures
            final(self)@ == apply_event_spec(
                old(self)@,
                EventModel::WindowOpened {
                    address: address@,
                    workspace_name: workspace_name@,
                    class: class@,
                    title: title@,
                },
            ),
    {
        let normalized = normalize_address(address.as_str());
        let id = workspace_id_from_name(workspace_name, &self.workspaces);
        match find_window_at(&self.windows, &normalized) {
            Some(k) => {
                self.windows[k].title = title.clone();
                self.windows[k].class = class.clone();
                self.windows[k].workspace_id = id;
                assert(windows_view(self.windows@) =~= old(self)@.windows.update(
                    k as int,
                    win_reopened(class@, title@, id)(old(self)@.windows[k as int]),
                ));
            },
            None => {
                self.windows.push(
                    WindowInfo {
                        address: normalized,
                        title: title.clone(),
                        class: class.clone(),
                        workspace_id: id,
                        is_focused: false,
                        is_fullscreen: false,
                    },
                );
                assert(windows_view(self.windows@) =~= old(self)@.windows.push(
                    WindowModel {
                        address: normalize_address_spec(address@),
                        title: title@,
                        class: class@,
                        workspace_id: id,
                        is_focused: false,
                        is_fullscreen: false,
                    },
                ));
            },
        }
    }

    fn window_closed(&mut self, address: &String)
        ensures
            final(self)@ == apply_event_spec(
                old(self)@,
                EventModel::WindowClosed { address: address@ },
            ),
    {
        let normalized = normalize_address(address.as_str());
        let ghost s = old(self)@.windows;
        let mut kept: Vec<WindowInfo> = Vec::new();
        let mut i: usize = 0;
        while i < self.windows.len()
            invariant
                i <= self.windows@.len(),
                s == windows_view(self.windows@),
                windows_view(kept@) == s.take(i as int).filter(win_not_at(normalized@)),
            decreases self.windows@.len() - i,
        {
            proof {
                lemma_filter_take_step(s, win_not_at(normalized@), i as int);
            }
            if self.windows[i].address != normalized {
                let w = self.windows[i].clone();
                kept.push(w);
                assert(windows_view(kept@) =~= s.take(i as int + 1).filter(
                    win_not_at(normalized@),
                ));
            }
            i += 1;
        }
        assert(s.take(s.len() as int) =~= s);
        self.windows = kept;
        let clear = match &self.active_window {
            Some(active) => active.address == normalized,
            None => false,
        };
        if clear {
            self.active_window = None;
        }
    }

    fn window_moved(&mut self, address: &String, workspace_name: &String)
        ensures
            final(self)@ == apply_event_spec(
                old(self)@,
                EventModel::WindowMoved { address: address@, workspace_name: workspace_name@ },
            ),
    {
        let normalized = normalize_address(address.as_str());
        let id = workspace_id_from_name(workspace_name, &self.workspaces);
        match find_window_at(&self.windows, &normalized) {
            Some(k) => {
                self.windows[k].workspace_id = id;
                assert(windows_view(self.windows@) =~= update_first(
                    old(self)@.windows,
                    win_at(normalized@),
                    win_set_workspace(id),
                ));
            },
            None => {},
        }
    }

    fn urgent(&mut self, address: &String)
        ensures
            final(self)@ == apply_event_spec(old(self)@, EventModel::Urgent { address: address@ }),
    {
        let normalized = normalize_address(address.as_str());
        match find_window_at(&self.windows, &normalized) {
            Some(k) => {
                let ws_id = self.windows[k].workspace_id;
                if !any_monitor_showing(&self.monitors, ws_id) {
                    match find_workspace_by_id(&self.workspaces, ws_id) {
                        Some(i) => {
                            self.workspaces[i].has_urgent = true;
                            assert(workspaces_view(self.workspaces@) =~= update_first(
                                old(self)@.workspaces,
                                ws_with_id(ws_id),
                                set_urgent(true),
                            ));
                        },
                        None => {},
                    }
                }
            },
            None => {},
        }
    }

    fn monitor_added(&mut self, name: &String, id: Option<i32>, description: &Option<String>)
        ensures
            final(self)@ == apply_event_spec(
                old(self)@,
                EventModel::MonitorAdded { id, name: name@, description: opt_chars(*description) },
            ),
    {
        match find_monitor_by_name(&self.monitors, name) {
            Some(i) => {
                proof {
                    assert(mon_named(name@)(monitors_view(self.monitors@)[i as int]));
                }
            },
            None => {
                self.monitors.push(
                    MonitorInfo { name: name.clone(), width: 0, height: 0, active_workspace: 0 },
                );
                assert(monitors_view(self.monitors@) =~= old(self)@.monitors.push(
                    MonitorModel { name: name@, width: 0, height: 0, active_workspace: 0 },
                ));
            },
        }
    }

    fn monitor_removed(&mut self, name: &String)
        ensures
            final(self)@ == apply_event_spec(old(self)@, EventModel::MonitorRemoved { name: name@ }),
    {
        let ghost s = old(self)@.monitors;
        let mut kept: Vec<MonitorInfo> = Vec::new();
        let mut i: usize = 0;
        while i < self.monitors.len()
            invariant
                i <= self.monitors@.len(),
                s == monitors_view(self.monitors@),
                monitors_view(kept@) == s.take(i as int).filter(mon_not_named(name@)),
            decreases self.monitors@.len() - i,
        {
            proof {
                lemma_filter_take_step(s, mon_not_named(name@), i as int);
            }
            if self.monitors[i].name != *name {
                let m = self.monitors[i].clone();
                kept.push(m);
                assert(monitors_view(kept@) =~= s.take(i as int + 1).filter(mon_not_named(name@)));
            }
            i += 1;
        }
        assert(s.take(s.len() as int) =~= s);
        self.monitors = kept;
    }

    fn active_monitor(&mut self, name: &String, workspace_id: i32)
        ensures
            final(self)@ == apply_event_spec(
                old(self)@,
                EventModel::ActiveMonitor { name: name@, workspace_id },
            ),
    {
        self.focused_monitor = name.clone();
        self.set_monitor_workspace(name, workspace_id);
        self.active_workspace = workspace_id;
        self.clear_urgent(workspace_id);
    }

    fn fullscreen(&mut self, enter: bool)
        ensures
            final(self)@ == apply_event_spec(old(self)@, EventModel::Fullscreen { enter }),
    {
        let address = match &mut self.active_window {
            Some(active) => {
                active.is_fullscreen = enter;
                active.address.clone()
            },
            None => {
                return;
            },
        };
        if !address.as_str().is_empty() {
            match find_window_at(&self.windows, &address) {
                Some(k) => {
                    self.windows[k].is_fullscreen = enter;
                    assert(windows_view(self.windows@) =~= update_first(
                        old(self)@.windows,
                        win_at(address@),
                        win_set_fullscreen(enter),
                    ));
                },
                None => {},
            }
        }
    }

    fn window_title_v2(&mut self, address: &String, title: &String)
        ensures
            final(self)@ == apply_event_spec(
                old(self)@,
                EventModel::WindowTitleV2 { address: address@, title: title@ },
            ),
    {
        let normalized = normalize_address(address.as_str());
        match find_window_at(&self.windows, &normalized) {
            Some(k) => {
                self.windows[k].title = title.clone();
                assert(windows_view(self.windows@) =~= update_first(
                    old(self)@.windows,
                    win_at(normalized@),
                    win_set_title(title@),
                ));
            },
            None => {},
        }
        match &mut self.active_window {
            Some(active) => {
                if active.address == normalized {
                    active.title = title.clone();
                }
            },
            None => {},
        }
    }

    /// Apply a single event, mutating state in place.
    ///
    /// Unknown addresses, workspaces, or monitors are skipped; this method
    /// never panics.
    pub fn apply_event(&mut self, event: &HyprEvent)
        ensures
            final(self)@ == apply_event_spec(old(self)@, event@),
    {
        match event {
            HyprEvent::WorkspaceChanged { id } => self.workspace_changed(*id),
            HyprEvent::WorkspaceAdded { id } => self.workspace_added(*id),
            HyprEvent::WorkspaceDestroyed { id } => self.workspace_destroyed(*id),
            HyprEvent::WorkspaceMoved { id, monitor } => self.workspace_moved(*id, monitor),
            HyprEvent::ActiveWindow { class, title } => self.active_window_changed(class, title),
            HyprEvent::ActiveWindowV2 { address } => self.active_window_v2(address),
            HyprEvent::WindowOpened { address, workspace_name, class, title } => self.window_opened(
                address,
                workspace_name,
                class,
                title,
            ),
            HyprEvent::WindowClosed { address } => self.window_closed(address),
            HyprEvent::WindowMoved { address, workspace_name } => self.window_moved(
                address,
                workspace_name,
            ),
            HyprEvent::Urgent { address } => self.urgent(address),
            HyprEvent::MonitorAdded { id, name, description } => self.monitor_added(
                name,
                *id,
                description,
            ),
            HyprEvent::MonitorRemoved { name } => self.monitor_removed(name),
            HyprEvent::ActiveMonitor { name, workspace_id } => self.active_monitor(
                name,
                *workspace_id,
            ),
            HyprEvent::Fullscreen { enter } => self.fullscreen(*enter),
            HyprEvent::WindowTitleV2 { address, title } => self.window_title_v2(address, title),
            HyprEvent::WindowTitle { .. } => {},
            HyprEvent::LayoutChanged { .. } => {},
            HyprEvent::SubMap { .. } => {},
            HyprEvent::FloatingMode { .. } => {},
        }
    }
}

impl Default for HyprState {
    fn default() -> (r: Self)
        ensures
            r@.workspaces.len() == 0,
            r@.active_workspace == 0,
            r@.active_window is None,
            r@.monitors.len() == 0,
            r@.windows.len() == 0,
            r@.focused_monitor.len() == 0,
    {
        HyprState {
            workspaces: Vec::new(),
            active_workspace: 0,
            active_window: None,
            monitors: Vec::new(),
            windows: Vec::new(),
            focused_monitor: String::new(),
        }
    }
}

// ── Laws ──────────────────────────────────────────────────────────────────────

/// Announcing a workspace twice has the effect of announcing it once, and
/// afterwards the workspace is known.
pub proof fn law_workspace_added_idempotent(s: StateModel, id: i32)
    ensures
        apply_event_spec(
            apply_event_spec(s, EventModel::WorkspaceAdded { id }),
            EventModel::WorkspaceAdded { id },
        ) == apply_event_spec(s, EventModel::WorkspaceAdded { id }),
        any_match(apply_event_spec(s, EventModel::WorkspaceAdded { id }).workspaces, ws_with_id(id)),
{
    let t = apply_event_spec(s, EventModel::WorkspaceAdded { id });
    if !any_match(s.workspaces, ws_with_id(id)) {
        let n = s.workspaces.len() as int;
        assert(ws_with_id(id)(t.workspaces[n]));
    }
}

/// Moving workspace `id` to `monitor` gives the first workspace with that ID
/// the new monitor and keeps its ID, name and urgency; every other
/// workspace, and everything else the state holds, is unchanged. With no
/// such workspace nothing changes.
pub proof fn law_workspace_moved_to_monitor(s: StateModel, id: i32, monitor: Seq<char>)
    ensures
        ({
            let t = apply_event_spec(s, EventModel::WorkspaceMoved { id, monitor });
            &&& t.workspaces.len() == s.workspaces.len()
            &&& t.active_workspace == s.active_workspace
            &&& t.active_window == s.active_window
            &&& t.monitors == s.monitors
            &&& t.windows == s.windows
            &&& t.focused_monitor == s.focused_monitor
            &&& forall|i: int|
                0 <= i < s.workspaces.len() && s.workspaces[i].id == id && (forall|j: int|
                    0 <= j < i ==> s.workspaces[j].id != id) ==> {
                    &&& t.workspaces[i].monitor == monitor
                    &&& t.workspaces[i].id == id
                    &&& t.workspaces[i].name == s.workspaces[i].name
                    &&& t.workspaces[i].has_urgent == s.workspaces[i].has_urgent
                    &&& forall|j: int|
                        0 <= j < s.workspaces.len() && j != i ==> #[trigger] t.workspaces[j]
                            == s.workspaces[j]
                }
            &&& (forall|i: int| 0 <= i < s.workspaces.len() ==> s.workspaces[i].id != id) ==> t == s
        }),
{
    let t = apply_event_spec(s, EventModel::WorkspaceMoved { id, monitor });
    assert forall|i: int|
        0 <= i < s.workspaces.len() && s.workspaces[i].id == id && (forall|j: int|
            0 <= j < i ==> s.workspaces[j].id != id) implies {
            &&& t.workspaces[i].monitor == monitor
            &&& t.workspaces[i].id == id
            &&& t.workspaces[i].name == s.workspaces[i].name
            &&& t.workspaces[i].has_urgent == s.workspaces[i].has_urgent
            &&& forall|j: int|
                0 <= j < s.workspaces.len() && j != i ==> #[trigger] t.workspaces[j] == s.workspaces[j]
        } by {
        assert(is_first_match(s.workspaces, ws_with_id(id), i));
        lemma_first_match_is(s.workspaces, ws_with_id(id), i);
    }
    if forall|i: int| 0 <= i < s.workspaces.len() ==> s.workspaces[i].id != id {
        assert forall|j: int| 0 <= j < s.workspaces.len() implies !ws_with_id(id)(
            #[trigger] s.workspaces[j],
        ) by {}
        lemma_first_match_none(s.workspaces, ws_with_id(id));
    }
}

/// A window is moved to the workspace named in the event: to the first
/// workspace with that name, or, when no workspace has it, to the workspace
/// whose number the name spells.
pub proof fn law_workspace_id_for_name(name: Seq<char>, workspaces: Seq<WorkspaceModel>, k: int, v: i32)
    ensures
        0 <= k < workspaces.len() && workspaces[k].name == name && (forall|j: int|
            0 <= j < k ==> workspaces[j].name != name) ==> workspace_id_for_name(name, workspaces)
            == workspaces[k].id,
        (forall|j: int| 0 <= j < workspaces.len() ==> workspaces[j].name != name) && name
            == int_to_decimal(v as int) ==> workspace_id_for_name(name, workspaces) == v,
{
    if 0 <= k < workspaces.len() && workspaces[k].name == name && (forall|j: int|
        0 <= j < k ==> workspaces[j].name != name) {
        assert(is_first_match(workspaces, ws_named(name), k));
        lemma_first_match_is(workspaces, ws_named(name), k);
    }
    if (forall|j: int| 0 <= j < workspaces.len() ==> workspaces[j].name != name) {
        assert forall|j: int| 0 <= j < workspaces.len() implies !ws_named(name)(
            #[trigger] workspaces[j],
        ) by {}
        lemma_first_match_none(workspaces, ws_named(name));
        lemma_i32_decimal_round_trip(v);
    }
}

/// Moving a window changes the workspace of the first window at its
/// (normalised) address, and nothing else.
pub proof fn law_window_moved(s: StateModel, address: Seq<char>, workspace_name: Seq<char>, i: int)
    requires
        0 <= i < s.windows.len(),
        s.windows[i].address == normalize_address_spec(address),
        forall|j: int| 0 <= j < i ==> s.windows[j].address != normalize_address_spec(address),
    ensures
        apply_event_spec(s, EventModel::WindowMoved { address, workspace_name }) == (StateModel {
            windows: s.windows.update(
                i,
                WindowModel {
                    workspace_id: workspace_id_for_name(workspace_name, s.workspaces),
                    ..s.windows[i]
                },
            ),
            ..s
        }),
{
    let n = normalize_address_spec(address);
    assert(is_first_match(s.windows, win_at(n), i));
    lemma_update_first_at(
        s.windows,
        win_at(n),
        win_set_workspace(workspace_id_for_name(workspace_name, s.workspaces)),
        i,
    );
}

/// A window opening at a known address takes the new class, title and
/// workspace and keeps its focus and fullscreen state; at a new address it
/// is added last, unfocused and not fullscreen. Nothing else changes.
pub proof fn law_window_opened(s: StateModel, address: Seq<char>, workspace_name: Seq<char>, class: Seq<char>, title: Seq<char>)
    ensures
        ({
            let t = apply_event_spec(s, EventModel::WindowOpened { address, workspace_name, class, title });
            let n = normalize_address_spec(address);
            let id = workspace_id_for_name(workspace_name, s.workspaces);
            &&& t == (StateModel { windows: t.windows, ..s })
            &&& (forall|j: int| 0 <= j < s.windows.len() ==> s.windows[j].address != n) ==> t.windows
                == s.windows.push(
                WindowModel {
                    address: n,
                    title,
                    class,
                    workspace_id: id,
                    is_focused: false,
                    is_fullscreen: false,
                },
            )
            &&& forall|i: int|
                0 <= i < s.windows.len() && s.windows[i].address == n && (forall|j: int|
                    0 <= j < i ==> s.windows[j].address != n) ==> t.windows == s.windows.update(
                    i,
                    WindowModel { title, class, workspace_id: id, ..s.windows[i] },
                )
        }),
{
    let n = normalize_address_spec(address);
    assert forall|i: int|
        0 <= i < s.windows.len() && s.windows[i].address == n && (forall|j: int|
            0 <= j < i ==> s.windows[j].address != n) implies apply_event_spec(
        s,
        EventModel::WindowOpened { address, workspace_name, class, title },
    ).windows == s.windows.update(
        i,
        WindowModel {
            title,
            class,
            workspace_id: workspace_id_for_name(workspace_name, s.workspaces),
            ..s.windows[i]
        },
    ) by {
        assert(is_first_match(s.windows, win_at(n), i));
        lemma_first_match_is(s.windows, win_at(n), i);
    }
    if forall|j: int| 0 <= j < s.windows.len() ==> s.windows[j].address != n {
        assert forall|j: int| 0 <= j < s.windows.len() implies !win_at(n)(#[trigger] s.windows[j]) by {}
        lemma_first_match_none(s.windows, win_at(n));
    }
}

/// A new title reaches the first window at the event's (normalised)
/// address, and the focused window too when it is that window; nothing else
/// changes.
pub proof fn law_window_retitled(s: StateModel, address: Seq<char>, title: Seq<char>, i: int)
    requires
        0 <= i < s.windows.len(),
        s.windows[i].address == normalize_address_spec(address),
        forall|j: int| 0 <= j < i ==> s.windows[j].address != normalize_address_spec(address),
    ensures
        ({
            let t = apply_event_spec(s, EventModel::WindowTitleV2 { address, title });
            let n = normalize_address_spec(address);
            &&& t.windows == s.windows.update(i, WindowModel { title, ..s.windows[i] })
            &&& t.active_window == (match s.active_window {
                Some(a) => Some(if a.address == n { WindowModel { title, ..a } } else { a }),
                None => None,
            })
            &&& t == (StateModel { windows: t.windows, active_window: t.active_window, ..s })
        }),
{
    let n = normalize_address_spec(address);
    assert(is_first_match(s.windows, win_at(n), i));
    lemma_update_first_at(s.windows, win_at(n), win_set_title(title), i);
}

/// Focusing a monitor makes it the focused one and shows the workspace on
/// it: the active workspace is that workspace, the first monitor with the
/// name shows it, and the first workspace with that ID is no longer urgent.
/// Windows are untouched.
pub proof fn law_active_monitor(s: StateModel, name: Seq<char>, workspace_id: i32)
    ensures
        ({
            let t = apply_event_spec(s, EventModel::ActiveMonitor { name, workspace_id });
            &&& t.focused_monitor == name
            &&& t.active_workspace == workspace_id
            &&& t.windows == s.windows && t.active_window == s.active_window
            &&& t.monitors.len() == s.monitors.len() && t.workspaces.len() == s.workspaces.len()
            &&& forall|k: int|
                0 <= k < s.monitors.len() && s.monitors[k].name == name && (forall|j: int|
                    0 <= j < k ==> s.monitors[j].name != name) ==> t.monitors == s.monitors.update(
                    k,
                    MonitorModel { active_workspace: workspace_id, ..s.monitors[k] },
                )
            &&& forall|k: int|
                0 <= k < s.workspaces.len() && s.workspaces[k].id == workspace_id && (forall|j: int|
                    0 <= j < k ==> s.workspaces[j].id != workspace_id) ==> t.workspaces
                    == s.workspaces.update(k, WorkspaceModel { has_urgent: false, ..s.workspaces[k] })
        }),
{
    assert forall|k: int|
        0 <= k < s.monitors.len() && s.monitors[k].name == name && (forall|j: int|
            0 <= j < k ==> s.monitors[j].name != name) implies apply_event_spec(
        s,
        EventModel::ActiveMonitor { name, workspace_id },
    ).monitors == s.monitors.update(k, MonitorModel { active_workspace: workspace_id, ..s.monitors[k] }) by {
        assert(is_first_match(s.monitors, mon_named(name), k));
        lemma_update_first_at(s.monitors, mon_named(name), mon_set_active(workspace_id), k);
    }
    assert forall|k: int|
        0 <= k < s.workspaces.len() && s.workspaces[k].id == workspace_id && (forall|j: int|
            0 <= j < k ==> s.workspaces[j].id != workspace_id) implies apply_event_spec(
        s,
        EventModel::ActiveMonitor { name, workspace_id },
    ).workspaces == s.workspaces.update(k, WorkspaceModel { has_urgent: false, ..s.workspaces[k] }) by {
        assert(is_first_match(s.workspaces, ws_with_id(workspace_id), k));
        lemma_update_first_at(s.workspaces, ws_with_id(workspace_id), set_urgent(false), k);
    }
}

/// Switching workspace shows it on the focused monitor: the first monitor
/// with the focused monitor's name now shows that workspace.
pub proof fn law_workspace_changed_on_focused_monitor(s: StateModel, id: i32, k: int)
    requires
        0 <= k < s.monitors.len(),
        s.monitors[k].name == s.focused_monitor,
        forall|j: int| 0 <= j < k ==> s.monitors[j].name != s.focused_monitor,
    ensures
        apply_event_spec(s, EventModel::WorkspaceChanged { id }).monitors == s.monitors.update(
            k,
            MonitorModel { active_workspace: id, ..s.monitors[k] },
        ),
{
    assert(is_first_match(s.monitors, mon_named(s.focused_monitor), k));
    lemma_update_first_at(s.monitors, mon_named(s.focused_monitor), mon_set_active(id), k);
}

/// Entering or leaving fullscreen applies to the focused window: it, and
/// the first listed window at its address (when it has one), take the new
/// state; without a focused window nothing changes.
pub proof fn law_fullscreen_focused_window(s: StateModel, enter: bool)
    ensures
        ({
            let t = apply_event_spec(s, EventModel::Fullscreen { enter });
            &&& s.active_window is None ==> t == s
            &&& s.active_window matches Some(a) ==> {
                &&& t.active_window == Some(WindowModel { is_fullscreen: enter, ..a })
                &&& t == (StateModel { windows: t.windows, active_window: t.active_window, ..s })
                &&& a.address.len() == 0 ==> t.windows == s.windows
                &&& forall|i: int|
                    0 <= i < s.windows.len() && a.address.len() > 0 && s.windows[i].address == a.address
                        && (forall|j: int| 0 <= j < i ==> s.windows[j].address != a.address)
                        ==> t.windows == s.windows.update(
                        i,
                        WindowModel { is_fullscreen: enter, ..s.windows[i] },
                    )
            }
        }),
{
    if let Some(a) = s.active_window {
        assert forall|i: int|
            0 <= i < s.windows.len() && a.address.len() > 0 && s.windows[i].address == a.address && (
            forall|j: int| 0 <= j < i ==> s.windows[j].address != a.address) implies apply_event_spec(
            s,
            EventModel::Fullscreen { enter },
        ).windows == s.windows.update(i, WindowModel { is_fullscreen: enter, ..s.windows[i] }) by {
            assert(is_first_match(s.windows, win_at(a.address), i));
            lemma_update_first_at(s.windows, win_at(a.address), win_set_fullscreen(enter), i);
        }
    }
}

/// Focusing a window by class and title: afterwards the focused window has
/// that class and title and is marked focused; at most the first listed
/// window with that class and title is focused, every other window loses
/// focus and nothing else about the windows changes.
pub proof fn law_active_window(s: StateModel, class: Seq<char>, title: Seq<char>)
    ensures
        ({
            let t = apply_event_spec(s, EventModel::ActiveWindow { class, title });
            &&& t.active_window matches Some(a) && a.class == class && a.title == title && a.is_focused
            &&& t.windows.len() == s.windows.len()
            &&& forall|j: int|
                0 <= j < s.windows.len() ==> (#[trigger] t.windows[j]) == (WindowModel {
                    is_focused: t.windows[j].is_focused,
                    ..s.windows[j]
                })
            &&& forall|j: int|
                0 <= j < s.windows.len() && t.windows[j].is_focused ==> s.windows[j].class == class
                    && s.windows[j].title == title && forall|k: int|
                    0 <= k < j ==> !(s.windows[k].class == class && s.windows[k].title == title)
            &&& t == (StateModel { windows: t.windows, active_window: t.active_window, ..s })
        }),
{
    let cleared = s.windows.map_values(win_set_focused(false));
    let t = apply_event_spec(s, EventModel::ActiveWindow { class, title });
    match first_match(cleared, win_titled(class, title)) {
        Some(i) => {
            assert(is_first_match(cleared, win_titled(class, title), i)) by {
                let k = choose|k: int| is_first_match(cleared, win_titled(class, title), k);
                assert(is_first_match(cleared, win_titled(class, title), k));
            }
            assert forall|j: int|
                0 <= j < s.windows.len() && t.windows[j].is_focused implies s.windows[j].class == class
                && s.windows[j].title == title && forall|k: int|
                0 <= k < j ==> !(s.windows[k].class == class && s.windows[k].title == title) by {
                assert(j == i);
                assert forall|k: int| 0 <= k < j implies !(s.windows[k].class == class
                    && s.windows[k].title == title) by {
                    assert(!win_titled(class, title)(cleared[k]));
                }
            }
        },
        None => {},
    }
}

/// Removal events remove only what they name: destroying a workspace keeps
/// every workspace with another ID, closing a window keeps every window at
/// another address, removing a monitor keeps every monitor with another
/// name; nothing is added, and the rest of the state is unchanged.
pub proof fn law_removals_keep_the_rest(s: StateModel, id: i32, address: Seq<char>, name: Seq<char>)
    ensures
        ({
            let t = apply_event_spec(s, EventModel::WorkspaceDestroyed { id });
            &&& t == (StateModel { workspaces: t.workspaces, ..s })
            &&& forall|j: int| 0 <= j < s.workspaces.len() && s.workspaces[j].id != id
                ==> t.workspaces.contains(#[trigger] s.workspaces[j])
            &&& forall|w: WorkspaceModel| #[trigger] t.workspaces.contains(w) ==> s.workspaces.contains(w)
        }),
        ({
            let t = apply_event_spec(s, EventModel::WindowClosed { address });
            let n = normalize_address_spec(address);
            &&& t == (StateModel { windows: t.windows, active_window: t.active_window, ..s })
            &&& forall|j: int| 0 <= j < s.windows.len() && s.windows[j].address != n
                ==> t.windows.contains(#[trigger] s.windows[j])
            &&& forall|w: WindowModel| #[trigger] t.windows.contains(w) ==> s.windows.contains(w)
            &&& (s.active_window matches Some(a) && a.address != n) ==> t.active_window == s.active_window
        }),
        ({
            let t = apply_event_spec(s, EventModel::MonitorRemoved { name });
            &&& t == (StateModel { monitors: t.monitors, ..s })
            &&& forall|j: int| 0 <= j < s.monitors.len() && s.monitors[j].name != name
                ==> t.monitors.contains(#[trigger] s.monitors[j])
            &&& forall|m: MonitorModel| #[trigger] t.monitors.contains(m) ==> s.monitors.contains(m)
        }),
{
    broadcast use vstd::seq_lib::group_filter_ensures;
    let n = normalize_address_spec(address);
    assert forall|j: int| 0 <= j < s.workspaces.len() && s.workspaces[j].id != id implies s.workspaces.filter(
        ws_without_id(id),
    ).contains(#[trigger] s.workspaces[j]) by {
        s.workspaces.lemma_filter_contains(ws_without_id(id), j);
    }
    assert forall|j: int| 0 <= j < s.windows.len() && s.windows[j].address != n implies s.windows.filter(
        win_not_at(n),
    ).contains(#[trigger] s.windows[j]) by {
        s.windows.lemma_filter_contains(win_not_at(n), j);
    }
    assert forall|j: int| 0 <= j < s.monitors.len() && s.monitors[j].name != name implies s.monitors.filter(
        mon_not_named(name),
    ).contains(#[trigger] s.monitors[j]) by {
        s.monitors.lemma_filter_contains(mon_not_named(name), j);
    }
    assert forall|w: WorkspaceModel| #[trigger] s.workspaces.filter(ws_without_id(id)).contains(w) implies s.workspaces.contains(w) by {
        s.workspaces.lemma_filter_contains_rev(ws_without_id(id), w);
    }
    assert forall|w: WindowModel| #[trigger] s.windows.filter(win_not_at(n)).contains(w) implies s.windows.contains(w) by {
        s.windows.lemma_filter_contains_rev(win_not_at(n), w);
    }
    assert forall|m: MonitorModel| #[trigger] s.monitors.filter(mon_not_named(name)).contains(m) implies s.monitors.contains(m) by {
        s.monitors.lemma_filter_contains_rev(mon_not_named(name), m);
    }
}

/// An urgency hint from a window on a workspace that no monitor shows
/// flags the first workspace with that ID, and changes nothing else.
pub proof fn law_urgent_flags_hidden_workspace(s: StateModel, address: Seq<char>, i: int, k: int)
    requires
        0 <= i < s.windows.len(),
        s.windows[i].address == normalize_address_spec(address),
        forall|j: int| 0 <= j < i ==> s.windows[j].address != normalize_address_spec(address),
        forall|m: int| 0 <= m < s.monitors.len() ==> s.monitors[m].active_workspace != s.windows[i].workspace_id,
        0 <= k < s.workspaces.len(),
        s.workspaces[k].id == s.windows[i].workspace_id,
        forall|j: int| 0 <= j < k ==> s.workspaces[j].id != s.windows[i].workspace_id,
    ensures
        apply_event_spec(s, EventModel::Urgent { address }) == (StateModel {
            workspaces: s.workspaces.update(k, WorkspaceModel { has_urgent: true, ..s.workspaces[k] }),
            ..s
        }),
{
    let n = normalize_address_spec(address);
    let ws = s.windows[i].workspace_id;
    assert(is_first_match(s.windows, win_at(n), i));
    lemma_first_match_is(s.windows, win_at(n), i);
    assert forall|m: int| 0 <= m < s.monitors.len() implies !mon_showing(ws)(#[trigger] s.monitors[m]) by {}
    lemma_first_match_none(s.monitors, mon_showing(ws));
    assert(is_first_match(s.workspaces, ws_with_id(ws), k));
    lemma_update_first_at(s.workspaces, ws_with_id(ws), set_urgent(true), k);
}

/// A workspace announced for the first time is added last, named by its
/// number, on no monitor yet and not urgent; nothing else changes.
pub proof fn law_workspace_added_shape(s: StateModel, id: i32)
    requires
        forall|j: int| 0 <= j < s.workspaces.len() ==> s.workspaces[j].id != id,
    ensures
        apply_event_spec(s, EventModel::WorkspaceAdded { id }) == (StateModel {
            workspaces: s.workspaces.push(
                WorkspaceModel {
                    id,
                    name: int_to_decimal(id as int),
                    monitor: Seq::empty(),
                    has_urgent: false,
                },
            ),
            ..s
        }),
{
    assert forall|j: int| 0 <= j < s.workspaces.len() implies !ws_with_id(id)(#[trigger] s.workspaces[j]) by {}
    lemma_first_match_none(s.workspaces, ws_with_id(id));
}

/// After a workspace is destroyed no workspace with its ID remains.
pub proof fn law_workspace_destroyed_is_gone(s: StateModel, id: i32)
    ensures
        !any_match(apply_event_spec(s, EventModel::WorkspaceDestroyed { id }).workspaces, ws_with_id(id)),
{
    lemma_filter_all(s.workspaces, ws_without_id(id));
}

/// After a window is closed no window, and not the focused window, has its
/// (normalised) address.
pub proof fn law_window_closed_is_gone(s: StateModel, address: Seq<char>)
    ensures
        ({
            let t = apply_event_spec(s, EventModel::WindowClosed { address });
            let n = normalize_address_spec(address);
            &&& !any_match(t.windows, win_at(n))
            &&& (t.active_window matches Some(a) ==> a.address != n)
        }),
{
    lemma_filter_all(s.windows, win_not_at(normalize_address_spec(address)));
}

/// A plugged-in monitor is known afterwards, and announcing it again
/// changes nothing; an unplugged monitor is forgotten.
pub proof fn law_monitor_added_and_removed(s: StateModel, name: Seq<char>, id: Option<i32>, description: Option<Seq<char>>)
    ensures
        ({
            let added = apply_event_spec(s, EventModel::MonitorAdded { id, name, description });
            &&& any_match(added.monitors, mon_named(name))
            &&& apply_event_spec(added, EventModel::MonitorAdded { id, name, description }) == added
            &&& !any_match(apply_event_spec(s, EventModel::MonitorRemoved { name }).monitors, mon_named(name))
        }),
{
    let t = apply_event_spec(s, EventModel::MonitorAdded { id, name, description });
    if !any_match(s.monitors, mon_named(name)) {
        assert(mon_named(name)(t.monitors[s.monitors.len() as int]));
    }
    lemma_filter_all(s.monitors, mon_not_named(name));
}

/// Events whose data is not tracked leave the state unchanged.
pub proof fn law_untracked_events_keep_state(s: StateModel, e: EventModel)
    requires
        e is WindowTitle || e is LayoutChanged || e is SubMap || e is FloatingMode,
    ensures
        apply_event_spec(s, e) == s,
{
}

/// An urgency hint never flags a workspace that some monitor is showing,
/// and it only ever sets flags.
pub proof fn law_urgent_skips_visible_workspaces(s: StateModel, address: Seq<char>, i: int)
    requires
        0 <= i < s.workspaces.len(),
    ensures
        ({
            let t = apply_event_spec(s, EventModel::Urgent { address });
            &&& t.workspaces.len() == s.workspaces.len()
            &&& (t.workspaces[i].has_urgent && !s.workspaces[i].has_urgent) ==> !any_match(
                s.monitors,
                mon_showing(s.workspaces[i].id),
            )
            &&& s.workspaces[i].has_urgent ==> t.workspaces[i].has_urgent
        }),
{
}

/// Switching to a workspace makes it active and acknowledges its alert.
pub proof fn law_workspace_changed_acknowledges(s: StateModel, id: i32)
    ensures
        ({
            let t = apply_event_spec(s, EventModel::WorkspaceChanged { id });
            &&& t.active_workspace == id
            &&& t.workspaces.len() == s.workspaces.len()
            &&& (first_match(s.workspaces, ws_with_id(id)) matches Some(k) ==> !t.workspaces[k].has_urgent)
            &&& !any_match(s.workspaces, ws_with_id(id)) ==> t.workspaces == s.workspaces
        }),
{
    if !any_match(s.workspaces, ws_with_id(id)) {
        if first_match(s.workspaces, ws_with_id(id)) is Some {
            let k = first_match(s.workspaces, ws_with_id(id))->0;
            assert(is_first_match(s.workspaces, ws_with_id(id), k));
        }
    }
}

/// Focusing a window by address marks exactly the windows at that address
/// as focused, and makes such a window the active one.
pub proof fn law_active_window_v2_focus(s: StateModel, address: Seq<char>)
    ensures
        ({
            let t = apply_event_spec(s, EventModel::ActiveWindowV2 { address });
            let n = normalize_address_spec(address);
            &&& t.windows.len() == s.windows.len()
            &&& forall|j: int| 0 <= j < t.windows.len() ==> (#[trigger] t.windows[j]).is_focused == (t.windows[j].address == n)
            &&& any_match(s.windows, win_at(n)) ==> (t.active_window matches Some(a) && a.address == n && a.is_focused)
        }),
{
    let n = normalize_address_spec(address);
    let marked = s.windows.map_values(win_focus_if_at(n));
    if any_match(s.windows, win_at(n)) {
        let k = choose|k: int| 0 <= k < s.windows.len() && win_at(n)(#[trigger] s.windows[k]);
        assert(win_at(n)(marked[k]));
        assert(any_match(marked, win_at(n)));
        lemma_any_match_has_first(marked, win_at(n));
    }
}

} // verus!
