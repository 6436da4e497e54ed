//! Workspace switcher module: which workspaces the bar shows and which one
//! is highlighted.

use vstd::prelude::*;
use crate::action::Action;
use crate::find::{any_match, first_match, lemma_first_match_is, lemma_first_match_none};
use crate::module::{EventResult, MouseButton};
use crate::text::{i32_to_string, int_to_decimal};
use crate::state::{
    mon_named, monitors_view, windows_view, workspaces_view, HyprState, StateModel, WindowModel,
    Workspace, WorkspaceModel,
};

verus! {

/// Configuration for the workspace switcher module.
#[derive(Debug, Default, Clone, PartialEq, Eq)]
pub struct WorkspacesConfig {
    /// Display workspace names instead of numeric IDs.
    pub show_names: bool,
    /// Hide workspaces that contain no windows (only show occupied ones).
    pub hide_empty: bool,
    /// Highlight workspaces with urgent windows using the urgent colour.
    pub highlight_urgent: bool,
}

/// Runtime state for the workspace switcher.
#[derive(Debug)]
pub struct WorkspacesModule {
    pub config: WorkspacesConfig,
    /// Workspaces shown, as of the last update.
    pub workspaces: Vec<Workspace>,
    /// Workspace highlighted as active on this bar's output.
    pub active_id: i32,
}

impl WorkspacesModule {
    /// A switcher that shows nothing yet and highlights workspace 1.
    pub fn new(config: WorkspacesConfig) -> (r: Self)
        ensures
            r.config == config,
            r.workspaces@.len() == 0,
            r.active_id == 1,
    {
        WorkspacesModule { config, workspaces: Vec::new(), active_id: 1 }
    }

    /// Stable module identifier.
    pub fn id(&self) -> (r: &'static str)
        ensures
            r@ == "workspaces"@,
    {
        "workspaces"
    }
}


/// Ids never decrease along `s`.
pub open spec fn sorted_by_id(s: Seq<WorkspaceModel>) -> bool {
    forall|i: int, j: int| 0 <= i <= j < s.len() ==> s[i].id <= s[j].id
}

/// `w` placed into `sorted` after every workspace whose id is not larger.
pub open spec fn insert_by_id(sorted: Seq<WorkspaceModel>, w: WorkspaceModel) -> Seq<WorkspaceModel>
    decreases sorted.len(),
{
    if sorted.len() == 0 {
        seq![w]
    } else if sorted.last().id <= w.id {
        sorted.push(w)
    } else {
        insert_by_id(sorted.drop_last(), w).push(sorted.last())
    }
}

/// `s` stably sorted by id: equal ids keep their order (`sort_by_key`).
pub open spec fn sort_by_id(s: Seq<WorkspaceModel>) -> Seq<WorkspaceModel>
    decreases s.len(),
{
    if s.len() == 0 {
        s
    } else {
        insert_by_id(sort_by_id(s.drop_last()), s.last())
    }
}

/// Inserting after every smaller-or-equal id is inserting at the boundary
/// position `k` of a sorted sequence.
proof fn lemma_insert_at(s: Seq<WorkspaceModel>, w: WorkspaceModel, k: int)
    requires
        0 <= k <= s.len(),
        forall|i: int| 0 <= i < k ==> (#[trigger] s[i]).id <= w.id,
        forall|i: int| k <= i < s.len() ==> (#[trigger] s[i]).id > w.id,
    ensures
        insert_by_id(s, w) == s.insert(k, w),
    decreases s.len(),
{
    if s.len() == 0 {
        assert(s.insert(k, w) =~= seq![w]);
    } else if s.last().id <= w.id {
        assert(k == s.len()) by {
            if k < s.len() {
                assert(s[s.len() - 1].id > w.id);
            }
        }
        assert(s.insert(k, w) =~= s.push(w));
    } else {
        let t = s.drop_last();
        assert forall|i: int| 0 <= i < k implies (#[trigger] t[i]).id <= w.id by {
            assert(t[i] == s[i]);
        }
        assert forall|i: int| k <= i < t.len() implies (#[trigger] t[i]).id > w.id by {
            assert(t[i] == s[i]);
        }
        assert(k < s.len());
        lemma_insert_at(t, w, k);
        assert(t.insert(k, w).push(s.last()) =~= s.insert(k, w));
    }
}

/// Insertion keeps a sequence sorted and adds exactly the one workspace.
proof fn lemma_insert_sorted(s: Seq<WorkspaceModel>, w: WorkspaceModel)
    requires
        sorted_by_id(s),
    ensures
        sorted_by_id(insert_by_id(s, w)),
        insert_by_id(s, w).to_multiset() == s.to_multiset().insert(w),
    decreases s.len(),
{
    broadcast use vstd::seq_lib::group_to_multiset_ensures;
    if s.len() == 0 {
        assert(seq![w] =~= Seq::<WorkspaceModel>::empty().push(w));
    } else if s.last().id <= w.id {
    } else {
        let t = s.drop_last();
        assert(sorted_by_id(t));
        lemma_insert_sorted(t, w);
        let u = insert_by_id(t, w);
        assert(s =~= t.push(s.last()));
        assert forall|i: int, j: int| 0 <= i <= j < u.push(s.last()).len() implies u.push(
            s.last(),
        )[i].id <= u.push(s.last())[j].id by {
            if j == u.len() && i < u.len() {
                assert(u.to_multiset().count(u[i]) > 0);
                assert(u.contains(u[i]));
                if u[i] == w {
                } else {
                    assert(t.to_multiset().count(u[i]) > 0);
                    assert(t.contains(u[i]));
                    let m = choose|m: int| 0 <= m < t.len() && t[m] == u[i];
                    assert(s[m] == t[m]);
                }
            }
        }
    }
}

/// A stable sort by id yields a sorted sequence with the same elements.
pub proof fn lemma_sort_by_id(s: Seq<WorkspaceModel>)
    ensures
        sorted_by_id(sort_by_id(s)),
        sort_by_id(s).to_multiset() == s.to_multiset(),
    decreases s.len(),
{
    broadcast use vstd::seq_lib::group_to_multiset_ensures;
    if s.len() > 0 {
        lemma_sort_by_id(s.drop_last());
        lemma_insert_sorted(sort_by_id(s.drop_last()), s.last());
        assert(s =~= s.drop_last().push(s.last()));
    }
}

/// Predicate "is a window on workspace `id`".
pub open spec fn win_on(id: i32) -> spec_fn(WindowModel) -> bool {
    |w: WindowModel| w.workspace_id == id
}

/// The workspace highlighted on output `output`: the active workspace of the
/// monitor of that name, else the globally active one.
pub open spec fn active_for_output(s: StateModel, output: Seq<char>) -> i32 {
    match first_match(s.monitors, mon_named(output)) {
        Some(i) => s.monitors[i].active_workspace,
        None => s.active_workspace,
    }
}

/// Which workspaces the switcher shows: never special ones (negative ids);
/// with `hide_empty`, only those holding a window, plus the active one.
pub open spec fn shown_workspace(hide_empty: bool, windows: Seq<WindowModel>, active: i32) -> spec_fn(
    WorkspaceModel,
) -> bool {
    |w: WorkspaceModel| w.id >= 0 && (!hide_empty || any_match(windows, win_on(w.id)) || w.id == active)
}

/// The workspaces the switcher shows, sorted by id.
pub open spec fn shown_workspaces(cfg: WorkspacesConfig, s: StateModel, output: Seq<char>) -> Seq<WorkspaceModel> {
    sort_by_id(s.workspaces.filter(shown_workspace(cfg.hide_empty, s.windows, active_for_output(s, output))))
}

pub(crate) fn active_workspace_for(state: &HyprState, output_name: &str) -> (r: i32)
    ensures
        r == active_for_output(state@, output_name@),
{
    let ghost ms = monitors_view(state.monitors@);
    let target = output_name.to_owned();
    let mut i: usize = 0;
    while i < state.monitors.len()
        invariant
            i <= state.monitors@.len(),
            target@ == output_name@,
            ms == monitors_view(state.monitors@),
            ms == state@.monitors,
            forall|j: int| 0 <= j < i ==> !mon_named(output_name@)(#[trigger] ms[j]),
        decreases state.monitors@.len() - i,
    {
        if state.monitors[i].name == target {
            proof {
                lemma_first_match_is(ms, mon_named(output_name@), i as int);
            }
            return state.monitors[i].active_workspace;
        }
        i += 1;
    }
    proof {
        lemma_first_match_none(ms, mon_named(output_name@));
    }
    state.active_workspace
}

fn has_window_on(state: &HyprState, id: i32) -> (r: bool)
    ensures
        r == any_match(state@.windows, win_on(id)),
{
    let ghost ws = windows_view(state.windows@);
    let mut i: usize = 0;
    while i < state.windows.len()
        invariant
            i <= state.windows@.len(),
            ws == windows_view(state.windows@),
            ws == state@.windows,
            forall|j: int| 0 <= j < i ==> !win_on(id)(#[trigger] ws[j]),
        decreases state.windows@.len() - i,
    {
        if state.windows[i].workspace_id == id {
            assert(win_on(id)(ws[i as int]));
            return true;
        }
        i += 1;
    }
    false
}

/// Do two workspace lists hold the same workspaces in the same order?
pub fn same_workspaces(a: &Vec<Workspace>, b: &Vec<Workspace>) -> (r: bool)
    ensures
        r == (workspaces_view(a@) == workspaces_view(b@)),
{
    if a.len() != b.len() {
        assert(workspaces_view(a@).len() != workspaces_view(b@).len());
        return false;
    }
    let mut i: usize = 0;
    while i < a.len()
        invariant
            a@.len() == b@.len(),
            i <= a@.len(),
            forall|j: int| 0 <= j < i ==> a@[j]@ == #[trigger] b@[j]@,
        decreases a@.len() - i,
    {
        let x = &a[i];
        let y = &b[i];
        if !(x.id == y.id && x.name == y.name && x.monitor == y.monitor && x.has_urgent
            == y.has_urgent) {
            assert(workspaces_view(a@)[i as int] != workspaces_view(b@)[i as int]);
            return false;
        }
        i += 1;
    }
    assert(workspaces_view(a@) =~= workspaces_view(b@));
    true
}

/// Insert `w` into the id-sorted list `out` after every workspace whose id
/// is not larger.
fn insert_sorted(out: &mut Vec<Workspace>, w: Workspace)
    requires
        sorted_by_id(workspaces_view(old(out)@)),
    ensures
        workspaces_view(final(out)@) == insert_by_id(workspaces_view(old(out)@), w@),
        sorted_by_id(workspaces_view(final(out)@)),
{
    let ghost s = workspaces_view(out@);
    let mut j = out.len();
    while j > 0 && out[j - 1].id > w.id
        invariant
            j <= out@.len(),
            s == workspaces_view(out@),
            sorted_by_id(s),
            forall|i: int| j <= i < s.len() ==> (#[trigger] s[i]).id > w.id,
        decreases j,
    {
        j -= 1;
    }
    assert forall|i: int| 0 <= i < j implies (#[trigger] s[i]).id <= w.id by {
        assert(s[i].id <= s[j - 1].id);
    }
    proof {
        lemma_insert_at(s, w@, j as int);
        lemma_insert_sorted(s, w@);
    }
    let ghost wv = w@;
    out.insert(j, w);
    assert(workspaces_view(out@) =~= s.insert(j as int, wv));
}

impl WorkspacesModule {
    /// Refresh from the compositor state as seen on output `output_name`:
    /// the shown workspaces are those of [`shown_workspaces`], the
    /// highlighted one is [`active_for_output`]. True when either changed.
    pub fn update(&mut self, state: &HyprState, output_name: &str) -> (r: bool)
        ensures
            ({
                let shown = shown_workspaces(old(self).config, state@, output_name@);
                let active = active_for_output(state@, output_name@);
                &&& r == (shown != workspaces_view(old(self).workspaces@) || active != old(
                    self,
                ).active_id)
                &&& r ==> workspaces_view(final(self).workspaces@) == shown && final(self).active_id
                    == active
                &&& !r ==> workspaces_view(final(self).workspaces@) == workspaces_view(
                    old(self).workspaces@,
                ) && final(self).active_id == old(self).active_id
            }),
            final(self).config == old(self).config,
    {
        let new_active = active_workspace_for(state, output_name);
        let ghost all = state@.workspaces;
        let ghost keep = shown_workspace(self.config.hide_empty, state@.windows, new_active);
        let mut out: Vec<Workspace> = Vec::new();
        let mut i: usize = 0;
        while i < state.workspaces.len()
            invariant
                i <= state.workspaces@.len(),
                all == state@.workspaces,
                all == workspaces_view(state.workspaces@),
                keep == shown_workspace(self.config.hide_empty, state@.windows, new_active),
                workspaces_view(out@) == sort_by_id(all.take(i as int).filter(keep)),
                sorted_by_id(workspaces_view(out@)),
            decreases state.workspaces@.len() - i,
        {
            proof {
                crate::find::lemma_filter_take_step(all, keep, i as int);
            }
            let w = &state.workspaces[i];
            let shown = w.id >= 0 && (!self.config.hide_empty || has_window_on(state, w.id) || w.id
                == new_active);
            assert(shown == keep(all[i as int]));
            if shown {
                let c = w.clone();
                let ghost before = all.take(i as int).filter(keep);
                insert_sorted(&mut out, c);
                assert(before.push(all[i as int]).drop_last() =~= before);
            }
            i += 1;
        }
        assert(all.take(all.len() as int) =~= all);
        let changed = !same_workspaces(&out, &self.workspaces) || new_active != self.active_id;
        if changed {
            self.workspaces = out;
            self.active_id = new_active;
        }
        changed
    }
}

/// The switcher shows its workspaces sorted by id, never a special
/// (negative) one, and each exactly as often as the compositor lists it
/// among the shown ones.
pub proof fn law_shown_workspaces_sorted(cfg: WorkspacesConfig, s: StateModel, output: Seq<char>)
    ensures
        sorted_by_id(shown_workspaces(cfg, s, output)),
        forall|i: int| 0 <= i < shown_workspaces(cfg, s, output).len() ==> (#[trigger] shown_workspaces(cfg, s, output)[i]).id >= 0,
        shown_workspaces(cfg, s, output).to_multiset() == s.workspaces.filter(
            shown_workspace(cfg.hide_empty, s.windows, active_for_output(s, output)),
        ).to_multiset(),
{
    let f = s.workspaces.filter(shown_workspace(cfg.hide_empty, s.windows, active_for_output(s, output)));
    lemma_sort_by_id(f);
    let r = sort_by_id(f);
    assert forall|i: int| 0 <= i < r.len() implies (#[trigger] r[i]).id >= 0 by {
        broadcast use vstd::seq_lib::group_to_multiset_ensures;
        assert(r.to_multiset().count(r[i]) > 0);
        assert(f.contains(r[i]));
        crate::find::lemma_filter_all(s.workspaces, shown_workspace(cfg.hide_empty, s.windows, active_for_output(s, output)));
    }
}


/// What a click on the slot of workspace `id` does: left switches to it,
/// middle moves the focused window there, right does nothing.
pub fn workspace_click(id: i32, button: MouseButton) -> (r: EventResult)
    ensures
        match button {
            MouseButton::Left => r matches EventResult::Action(Action::HyprDispatch { dispatch })
                && dispatch@ == "workspace "@ + int_to_decimal(id as int),
            MouseButton::Middle => r matches EventResult::Action(Action::HyprDispatch { dispatch })
                && dispatch@ == "movetoworkspace "@ + int_to_decimal(id as int),
            MouseButton::Right => r matches EventResult::Ignored,
        },
{
    match button {
        MouseButton::Left => {
            let mut d = "workspace ".to_owned();
            d.append(i32_to_string(id).as_str());
            EventResult::Action(Action::HyprDispatch { dispatch: d })
        },
        MouseButton::Middle => {
            let mut d = "movetoworkspace ".to_owned();
            d.append(i32_to_string(id).as_str());
            EventResult::Action(Action::HyprDispatch { dispatch: d })
        },
        MouseButton::Right => EventResult::Ignored,
    }
}

} // verus!
