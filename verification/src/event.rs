//! Hyprland event types and state aggregation.
//!
//! [`parse_event`] turns one line of Hyprland's `.socket2.sock` stream into a
//! typed [`HyprEvent`]; [`HyprState::apply_event`] folds an event into the
//! aggregated compositor state. Both are total: unknown or malformed input
//! yields `None` or leaves the state alone.

use vstd::prelude::*;
use crate::find::{first_match, is_first_match, lemma_first_match_is, lemma_first_match_none};
use crate::text::{
    chars_of, find_char, int_to_decimal, is_char, is_digit, lemma_decimal_untrimmed,
    lemma_i32_decimal_round_trip, lemma_nat_digits, matches_literal, parse_i32, parse_i32_spec,
    split_at_first, split_first, substring, trim, trim_bounds, trim_end, trim_line_end,
    trim_line_end_bound, trim_start, is_unicode_ws,
};

verus! {

/// Typed events received from Hyprland's `.socket2.sock` event stream.
#[derive(Debug, Clone, PartialEq, Eq)]
pub enum HyprEvent {
    /// Active workspace changed to the given workspace ID.
    WorkspaceChanged { id: i32 },
    /// A workspace was created (`createworkspace`).
    WorkspaceAdded { id: i32 },
    /// A workspace was destroyed (`destroyworkspace`).
    WorkspaceDestroyed { id: i32 },
    /// A workspace was moved to a different monitor.
    WorkspaceMoved { id: i32, monitor: String },
    /// The active window changed (`activewindow`).
    ActiveWindow { class: String, title: String },
    /// The active window address (`activewindowv2`).
    ActiveWindowV2 { address: String },
    /// The focused monitor changed (`focusedmon`).
    ActiveMonitor { name: String, workspace_id: i32 },
    /// Fullscreen state of the focused window toggled.
    Fullscreen { enter: bool },
    /// A monitor was hot-plugged.
    MonitorAdded { id: Option<i32>, name: String, description: Option<String> },
    /// A monitor was unplugged.
    MonitorRemoved { name: String },
    /// A window wants attention (urgency hint).
    Urgent { address: String },
    /// A new window was opened.
    WindowOpened { address: String, workspace_name: String, class: String, title: String },
    /// An existing window was closed.
    WindowClosed { address: String },
    /// A window moved to a different workspace.
    WindowMoved { address: String, workspace_name: String },
    /// The keyboard layout changed for a device.
    LayoutChanged { keyboard: String, layout: String },
    /// A submap (keybinding mode) was entered or exited.
    SubMap { name: String },
    /// Floating state of a window toggled.
    FloatingMode { address: String, floating: bool },
    /// A window's title changed (`windowtitle`, address only).
    WindowTitle { address: String },
    /// A window's title changed (`windowtitlev2`, address + new title).
    WindowTitleV2 { address: String, title: String },
}

/// Mathematical content of a [`HyprEvent`]: every text field as characters.
pub enum EventModel {
    WorkspaceChanged { id: i32 },
    WorkspaceAdded { id: i32 },
    WorkspaceDestroyed { id: i32 },
    WorkspaceMoved { id: i32, monitor: Seq<char> },
    ActiveWindow { class: Seq<char>, title: Seq<char> },
    ActiveWindowV2 { address: Seq<char> },
    ActiveMonitor { name: Seq<char>, workspace_id: i32 },
    Fullscreen { enter: bool },
    MonitorAdded { id: Option<i32>, name: Seq<char>, description: Option<Seq<char>> },
    MonitorRemoved { name: Seq<char> },
    Urgent { address: Seq<char> },
    WindowOpened {
        address: Seq<char>,
        workspace_name: Seq<char>,
        class: Seq<char>,
        title: Seq<char>,
    },
    WindowClosed { address: Seq<char> },
    WindowMoved { address: Seq<char>, workspace_name: Seq<char> },
    LayoutChanged { keyboard: Seq<char>, layout: Seq<char> },
    SubMap { name: Seq<char> },
    FloatingMode { address: Seq<char>, floating: bool },
    WindowTitle { address: Seq<char> },
    WindowTitleV2 { address: Seq<char>, title: Seq<char> },
}

/// Characters of an optional string.
pub open spec fn opt_chars(o: Option<String>) -> Option<Seq<char>> {
    match o {
        Some(s) => Some(s@),
        None => None,
    }
}

impl View for HyprEvent {
    type V = EventModel;

    open spec fn view(&self) -> EventModel {
        match self {
            HyprEvent::WorkspaceChanged { id } => EventModel::WorkspaceChanged { id: *id },
            HyprEvent::WorkspaceAdded { id } => EventModel::WorkspaceAdded { id: *id },
            HyprEvent::WorkspaceDestroyed { id } => EventModel::WorkspaceDestroyed { id: *id },
            HyprEvent::WorkspaceMoved { id, monitor } => EventModel::WorkspaceMoved {
                id: *id,
                monitor: monitor@,
            },
            HyprEvent::ActiveWindow { class, title } => EventModel::ActiveWindow {
                class: class@,
                title: title@,
            },
            HyprEvent::ActiveWindowV2 { address } => EventModel::ActiveWindowV2 {
                address: address@,
            },
            HyprEvent::ActiveMonitor { name, workspace_id } => EventModel::ActiveMonitor {
                name: name@,
                workspace_id: *workspace_id,
            },
            HyprEvent::Fullscreen { enter } => EventModel::Fullscreen { enter: *enter },
            HyprEvent::MonitorAdded { id, name, description } => EventModel::MonitorAdded {
                id: *id,
                name: name@,
                description: opt_chars(*description),
            },
            HyprEvent::MonitorRemoved { name } => EventModel::MonitorRemoved { name: name@ },
            HyprEvent::Urgent { address } => EventModel::Urgent { address: address@ },
            HyprEvent::WindowOpened { address, workspace_name, class, title } =>
                EventModel::WindowOpened {
                address: address@,
                workspace_name: workspace_name@,
                class: class@,
                title: title@,
            },
            HyprEvent::WindowClosed { address } => EventModel::WindowClosed { address: address@ },
            HyprEvent::WindowMoved { address, workspace_name } => EventModel::WindowMoved {
                address: address@,
                workspace_name: workspace_name@,
            },
            HyprEvent::LayoutChanged { keyboard, layout } => EventModel::LayoutChanged {
                keyboard: keyboard@,
                layout: layout@,
            },
            HyprEvent::SubMap { name } => EventModel::SubMap { name: name@ },
            HyprEvent::FloatingMode { address, floating } => EventModel::FloatingMode {
                address: address@,
                floating: *floating,
            },
            HyprEvent::WindowTitle { address } => EventModel::WindowTitle { address: address@ },
            HyprEvent::WindowTitleV2 { address, title } => EventModel::WindowTitleV2 {
                address: address@,
                title: title@,
            },
        }
    }
}

/// Content of an optional event.
pub open spec fn opt_event(o: Option<HyprEvent>) -> Option<EventModel> {
    match o {
        Some(e) => Some(e@),
        None => None,
    }
}

// ── Parsing rules ─────────────────────────────────────────────────────────────

/// `s[i..i+2]` is the event/payload separator `>>`.
pub open spec fn is_separator_at(s: Seq<char>, i: int) -> bool {
    0 <= i && i + 1 < s.len() && s[i] == '>' && s[i + 1] == '>'
}

/// `i` is the first position of `>>` in `s`.
pub open spec fn is_first_separator(s: Seq<char>, i: int) -> bool {
    is_separator_at(s, i) && forall|j: int| 0 <= j < i ==> !is_separator_at(s, j)
}

/// Name and payload of an event line: the text before and after the first `>>`.
pub open spec fn split_event_line(s: Seq<char>) -> Option<(Seq<char>, Seq<char>)> {
    if exists|i: int| is_first_separator(s, i) {
        let i = choose|i: int| is_first_separator(s, i);
        Some((s.subrange(0, i), s.subrange(i + 2, s.len() as int)))
    } else {
        None
    }
}

/// A workspace ID field: trimmed, then parsed as an `i32`.
pub open spec fn parse_workspace_id_spec(s: Seq<char>) -> Option<i32> {
    parse_i32_spec(trim(s))
}

/// `Some` of the built event when the ID parses, else `None`.
pub open spec fn with_id(id: Option<i32>, build: spec_fn(i32) -> EventModel) -> Option<EventModel> {
    match id {
        Some(i) => Some(build(i)),
        None => None,
    }
}

/// The event carried by the payload `data` of an event called `name`.
pub open spec fn event_from_parts(name: Seq<char>, data: Seq<char>) -> Option<EventModel> {
    let (first, rest) = split_first(data, ',');
    if name == "workspace"@ || name == "workspacev2"@ {
        with_id(parse_workspace_id_spec(first), |id: i32| EventModel::WorkspaceChanged { id })
    } else if name == "createworkspace"@ || name == "createworkspacev2"@ {
        with_id(parse_workspace_id_spec(first), |id: i32| EventModel::WorkspaceAdded { id })
    } else if name == "destroyworkspace"@ || name == "destroyworkspacev2"@ {
        with_id(parse_workspace_id_spec(first), |id: i32| EventModel::WorkspaceDestroyed { id })
    } else if name == "moveworkspace"@ || name == "moveworkspacev2"@ {
        match (parse_workspace_id_spec(first), rest) {
            (Some(id), Some(monitor)) => Some(EventModel::WorkspaceMoved { id, monitor }),
            _ => None,
        }
    } else if name == "focusedmon"@ {
        match rest {
            Some(ws) => with_id(
                parse_workspace_id_spec(ws),
                |id: i32| EventModel::ActiveMonitor { name: first, workspace_id: id },
            ),
            None => None,
        }
    } else if name == "fullscreen"@ {
        if trim(data) == "1"@ {
            Some(EventModel::Fullscreen { enter: true })
        } else if trim(data) == "0"@ {
            Some(EventModel::Fullscreen { enter: false })
        } else {
            None
        }
    } else if name == "monitoradded"@ {
        Some(EventModel::MonitorAdded { id: None, name: data, description: None })
    } else if name == "monitoraddedv2"@ {
        match rest {
            Some(r) => Some(
                EventModel::MonitorAdded {
                    id: parse_i32_spec(first),
                    name: split_first(r, ',').0,
                    description: split_first(r, ',').1,
                },
            ),
            None => None,
        }
    } else if name == "monitorremoved"@ {
        Some(EventModel::MonitorRemoved { name: data })
    } else if name == "activewindow"@ {
        Some(
            EventModel::ActiveWindow {
                class: first,
                title: match rest {
                    Some(t) => t,
                    None => Seq::empty(),
                },
            },
        )
    } else if name == "activewindowv2"@ {
        Some(EventModel::ActiveWindowV2 { address: data })
    } else if name == "openwindow"@ {
        match rest {
            Some(r1) => match split_first(r1, ',').1 {
                Some(r2) => Some(
                    EventModel::WindowOpened {
                        address: first,
                        workspace_name: split_first(r1, ',').0,
                        class: split_first(r2, ',').0,
                        title: match split_first(r2, ',').1 {
                            Some(t) => t,
                            None => Seq::empty(),
                        },
                    },
                ),
                None => None,
            },
            None => None,
        }
    } else if name == "closewindow"@ {
        Some(EventModel::WindowClosed { address: data })
    } else if name == "movewindow"@ || name == "movewindowv2"@ {
        Some(
            EventModel::WindowMoved {
                address: first,
                workspace_name: match rest {
                    Some(w) => w,
                    None => Seq::empty(),
                },
            },
        )
    } else if name == "urgent"@ {
        Some(EventModel::Urgent { address: data })
    } else if name == "submap"@ {
        Some(EventModel::SubMap { name: data })
    } else if name == "activelayout"@ {
        match rest {
            Some(layout) => Some(EventModel::LayoutChanged { keyboard: first, layout }),
            None => None,
        }
    } else if name == "changefloatingmode"@ {
        match rest {
            Some(flag) => Some(
                EventModel::FloatingMode { address: first, floating: trim(flag) == "1"@ },
            ),
            None => None,
        }
    } else if name == "windowtitle"@ {
        Some(EventModel::WindowTitle { address: data })
    } else if name == "windowtitlev2"@ {
        Some(
            EventModel::WindowTitleV2 {
                address: first,
                title: match rest {
                    Some(t) => t,
                    None => Seq::empty(),
                },
            },
        )
    } else {
        None
    }
}

/// The event a raw line of the event stream stands for: trailing line breaks
/// are dropped, the line is split at its first `>>` into name and payload,
/// and unknown names or malformed payloads give `None`.
pub open spec fn parse_event_spec(line: Seq<char>) -> Option<EventModel> {
    match split_event_line(trim_line_end(line)) {
        Some((name, data)) => event_from_parts(name, data),
        None => None,
    }
}

// ── Parsing ───────────────────────────────────────────────────────────────────

/// Position of the first `>>` in `v[lo..hi]`.
fn find_separator(v: &Vec<char>, lo: usize, hi: usize) -> (r: Option<usize>)
    requires
        lo <= hi <= v@.len(),
    ensures
        match r {
            Some(i) => lo <= i && i + 2 <= hi && is_first_separator(
                v@.subrange(lo as int, hi as int),
                i - lo,
            ),
            None => forall|j: int| !is_separator_at(v@.subrange(lo as int, hi as int), j),
        },
{
    let ghost s = v@.subrange(lo as int, hi as int);
    let mut i = lo;
    while hi - i > 1
        invariant
            lo <= i <= hi <= v@.len(),
            s == v@.subrange(lo as int, hi as int),
            forall|j: int| 0 <= j < i - lo ==> !is_separator_at(s, j),
        decreases hi - i,
    {
        if v[i] == '>' && v[i + 1] == '>' {
            return Some(i);
        }
        i += 1;
    }
    None
}

/// The text between the first `>>` and the end, as name/payload bounds.
proof fn lemma_split_event_line(s: Seq<char>, i: int)
    requires
        is_first_separator(s, i),
    ensures
        split_event_line(s) == Some((s.subrange(0, i), s.subrange(i + 2, s.len() as int))),
{
    let k = choose|k: int| is_first_separator(s, k);
    assert(is_first_separator(s, k));
    if k < i {
        assert(!is_separator_at(s, k));
    } else if i < k {
        assert(!is_separator_at(s, i));
    }
}

/// A workspace ID field: trimmed, then parsed as an `i32`.
pub fn parse_workspace_id(v: &Vec<char>, lo: usize, hi: usize) -> (r: Option<i32>)
    requires
        lo <= hi <= v@.len(),
    ensures
        r == parse_workspace_id_spec(v@.subrange(lo as int, hi as int)),
{
    let (a, b) = trim_bounds(v, lo, hi);
    parse_i32(v, a, b)
}

/// Is `v[lo..hi]`, once trimmed, exactly `lit`?
fn trimmed_is(v: &Vec<char>, lo: usize, hi: usize, lit: &str) -> (r: bool)
    requires
        lo <= hi <= v@.len(),
    ensures
        r == (trim(v@.subrange(lo as int, hi as int)) == lit@),
{
    let (a, b) = trim_bounds(v, lo, hi);
    matches_literal(v, a, b, lit)
}

/// Owned copy of an optional rest `v[b..hi]`, or the empty string.
fn rest_or_empty(line: &str, b: Option<usize>, hi: usize) -> (r: String)
    requires
        hi <= line@.len(),
        b matches Some(x) ==> x <= hi,
    ensures
        r@ == match b {
            Some(x) => line@.subrange(x as int, hi as int),
            None => Seq::<char>::empty(),
        },
{
    match b {
        Some(x) => substring(line, x, hi),
        None => {
            let e = String::new();
            e
        },
    }
}

/// Events whose payload is a workspace ID or starts with one.
fn parse_workspace_event(line: &str, v: &Vec<char>, nlo: usize, nhi: usize, dlo: usize, dhi: usize)
    -> (r: Option<HyprEvent>)
    requires
        line@ == v@,
        nlo <= nhi <= v@.len(),
        dlo <= dhi <= v@.len(),
        ({
            let name = v@.subrange(nlo as int, nhi as int);
            name == "workspace"@ || name == "workspacev2"@ || name == "createworkspace"@ || name
                == "createworkspacev2"@ || name == "destroyworkspace"@ || name
                == "destroyworkspacev2"@ || name == "moveworkspace"@ || name
                == "moveworkspacev2"@
        }),
    ensures
        opt_event(r) == event_from_parts(
            v@.subrange(nlo as int, nhi as int),
            v@.subrange(dlo as int, dhi as int),
        ),
{
    let (first_end, rest) = split_at_first(v, dlo, dhi, ',');
    let id = parse_workspace_id(v, dlo, first_end);
    if matches_literal(v, nlo, nhi, "workspace") || matches_literal(v, nlo, nhi, "workspacev2") {
        match id {
            Some(id) => Some(HyprEvent::WorkspaceChanged { id }),
            None => None,
        }
    } else if matches_literal(v, nlo, nhi, "createworkspace") || matches_literal(
        v,
        nlo,
        nhi,
        "createworkspacev2",
    ) {
        match id {
            Some(id) => Some(HyprEvent::WorkspaceAdded { id }),
            None => None,
        }
    } else if matches_literal(v, nlo, nhi, "destroyworkspace") || matches_literal(
        v,
        nlo,
        nhi,
        "destroyworkspacev2",
    ) {
        match id {
            Some(id) => Some(HyprEvent::WorkspaceDestroyed { id }),
            None => None,
        }
    } else {
        match (id, rest) {
            (Some(id), Some(b)) => Some(
                HyprEvent::WorkspaceMoved { id, monitor: substring(line, b, dhi) },
            ),
            _ => None,
        }
    }
}

/// Events about windows and their titles.
fn parse_window_event(line: &str, v: &Vec<char>, nlo: usize, nhi: usize, dlo: usize, dhi: usize)
    -> (r: Option<HyprEvent>)
    requires
        line@ == v@,
        nlo <= nhi <= v@.len(),
        dlo <= dhi <= v@.len(),
        ({
            let name = v@.subrange(nlo as int, nhi as int);
            !(name == "workspace"@ || name == "workspacev2"@ || name == "createworkspace"@ || name
                == "createworkspacev2"@ || name == "destroyworkspace"@ || name
                == "destroyworkspacev2"@ || name == "moveworkspace"@ || name
                == "moveworkspacev2"@ || name == "focusedmon"@ || name == "fullscreen"@ || name
                == "monitoradded"@ || name == "monitoraddedv2"@ || name == "monitorremoved"@)
        }),
    ensures
        opt_event(r) == event_from_parts(
            v@.subrange(nlo as int, nhi as int),
            v@.subrange(dlo as int, dhi as int),
        ),
{
    let (first_end, rest) = split_at_first(v, dlo, dhi, ',');
    if matches_literal(v, nlo, nhi, "activewindow") {
        Some(
            HyprEvent::ActiveWindow {
                class: substring(line, dlo, first_end),
                title: rest_or_empty(line, rest, dhi),
            },
        )
    } else if matches_literal(v, nlo, nhi, "activewindowv2") {
        Some(HyprEvent::ActiveWindowV2 { address: substring(line, dlo, dhi) })
    } else if matches_literal(v, nlo, nhi, "openwindow") {
        match rest {
            Some(b1) => {
                let (second_end, rest2) = split_at_first(v, b1, dhi, ',');
                match rest2 {
                    Some(b2) => {
                        let (third_end, rest3) = split_at_first(v, b2, dhi, ',');
                        Some(
                            HyprEvent::WindowOpened {
                                address: substring(line, dlo, first_end),
                                workspace_name: substring(line, b1, second_end),
                                class: substring(line, b2, third_end),
                                title: rest_or_empty(line, rest3, dhi),
                            },
                        )
                    },
                    None => None,
                }
            },
            None => None,
        }
    } else if matches_literal(v, nlo, nhi, "closewindow") {
        Some(HyprEvent::WindowClosed { address: substring(line, dlo, dhi) })
    } else if matches_literal(v, nlo, nhi, "movewindow") || matches_literal(
        v,
        nlo,
        nhi,
        "movewindowv2",
    ) {
        Some(
            HyprEvent::WindowMoved {
                address: substring(line, dlo, first_end),
                workspace_name: rest_or_empty(line, rest, dhi),
            },
        )
    } else if matches_literal(v, nlo, nhi, "urgent") {
        Some(HyprEvent::Urgent { address: substring(line, dlo, dhi) })
    } else if matches_literal(v, nlo, nhi, "submap") {
        Some(HyprEvent::SubMap { name: substring(line, dlo, dhi) })
    } else if matches_literal(v, nlo, nhi, "activelayout") {
        match rest {
            Some(b) => Some(
                HyprEvent::LayoutChanged {
                    keyboard: substring(line, dlo, first_end),
                    layout: substring(line, b, dhi),
                },
            ),
            None => None,
        }
    } else if matches_literal(v, nlo, nhi, "changefloatingmode") {
        match rest {
            Some(b) => {
                let floating = trimmed_is(v, b, dhi, "1");
                Some(
                    HyprEvent::FloatingMode {
                        address: substring(line, dlo, first_end),
                        floating,
                    },
                )
            },
            None => None,
        }
    } else if matches_literal(v, nlo, nhi, "windowtitle") {
        Some(HyprEvent::WindowTitle { address: substring(line, dlo, dhi) })
    } else if matches_literal(v, nlo, nhi, "windowtitlev2") {
        Some(
            HyprEvent::WindowTitleV2 {
                address: substring(line, dlo, first_end),
                title: rest_or_empty(line, rest, dhi),
            },
        )
    } else {
        None
    }
}

/// Events about monitors and fullscreen state.
fn parse_monitor_event(line: &str, v: &Vec<char>, nlo: usize, nhi: usize, dlo: usize, dhi: usize)
    -> (r: Option<HyprEvent>)
    requires
        line@ == v@,
        nlo <= nhi <= v@.len(),
        dlo <= dhi <= v@.len(),
        ({
            let name = v@.subrange(nlo as int, nhi as int);
            &&& (name == "focusedmon"@ || name == "fullscreen"@ || name == "monitoradded"@
                || name == "monitoraddedv2"@ || name == "monitorremoved"@)
            &&& !(name == "workspace"@ || name == "workspacev2"@ || name == "createworkspace"@
                || name == "createworkspacev2"@ || name == "destroyworkspace"@ || name
                == "destroyworkspacev2"@ || name == "moveworkspace"@ || name
                == "moveworkspacev2"@)
        }),
    ensures
        opt_event(r) == event_from_parts(
            v@.subrange(nlo as int, nhi as int),
            v@.subrange(dlo as int, dhi as int),
        ),
{
    let (first_end, rest) = split_at_first(v, dlo, dhi, ',');
    if matches_literal(v, nlo, nhi, "focusedmon") {
        match rest {
            Some(b) => match parse_workspace_id(v, b, dhi) {
                Some(id) => Some(
                    HyprEvent::ActiveMonitor {
                        name: substring(line, dlo, first_end),
                        workspace_id: id,
                    },
                ),
                None => None,
            },
            None => None,
        }
    } else if matches_literal(v, nlo, nhi, "fullscreen") {
        if trimmed_is(v, dlo, dhi, "1") {
            Some(HyprEvent::Fullscreen { enter: true })
        } else if trimmed_is(v, dlo, dhi, "0") {
            Some(HyprEvent::Fullscreen { enter: false })
        } else {
            None
        }
    } else if matches_literal(v, nlo, nhi, "monitoradded") {
        Some(
            HyprEvent::MonitorAdded {
                id: None,
                name: substring(line, dlo, dhi),
                description: None,
            },
        )
    } else if matches_literal(v, nlo, nhi, "monitoraddedv2") {
        match rest {
            Some(b) => {
                let (second_end, rest2) = split_at_first(v, b, dhi, ',');
                let description = match rest2 {
                    Some(c) => Some(substring(line, c, dhi)),
                    None => None,
                };
                Some(
                    HyprEvent::MonitorAdded {
                        id: parse_i32(v, dlo, first_end),
                        name: substring(line, b, second_end),
                        description,
                    },
                )
            },
            None => None,
        }
    } else {
        Some(HyprEvent::MonitorRemoved { name: substring(line, dlo, dhi) })
    }
}

/// Parse a single raw event line from Hyprland's `.socket2.sock`.
///
/// Returns `None` for unrecognised or malformed events.
pub fn parse_event(line: &str) -> (r: Option<HyprEvent>)
    ensures
        opt_event(r) == parse_event_spec(line@),
{
    let v = chars_of(line);
    let end = trim_line_end_bound(&v, 0, v.len());
    assert(v@.subrange(0, v@.len() as int) =~= line@);
    let ghost s = v@.subrange(0, end as int);
    let sep = match find_separator(&v, 0, end) {
        Some(i) => i,
        None => {
            assert(!exists|i: int| is_first_separator(s, i));
            return None;
        },
    };
    proof {
        lemma_split_event_line(s, sep as int);
        assert(s.subrange(0, sep as int) =~= v@.subrange(0, sep as int));
        assert(s.subrange(sep + 2, s.len() as int) =~= v@.subrange(sep + 2, end as int));
    }
    let nlo: usize = 0;
    let nhi = sep;
    let dlo = sep + 2;
    let dhi = end;
    if matches_literal(&v, nlo, nhi, "workspace") || matches_literal(&v, nlo, nhi, "workspacev2")
        || matches_literal(&v, nlo, nhi, "createworkspace") || matches_literal(
        &v,
        nlo,
        nhi,
        "createworkspacev2",
    ) || matches_literal(&v, nlo, nhi, "destroyworkspace") || matches_literal(
        &v,
        nlo,
        nhi,
        "destroyworkspacev2",
    ) || matches_literal(&v, nlo, nhi, "moveworkspace") || matches_literal(
        &v,
        nlo,
        nhi,
        "moveworkspacev2",
    ) {
        parse_workspace_event(line, &v, nlo, nhi, dlo, dhi)
    } else if matches_literal(&v, nlo, nhi, "focusedmon") || matches_literal(
        &v,
        nlo,
        nhi,
        "fullscreen",
    ) || matches_literal(&v, nlo, nhi, "monitoradded") || matches_literal(
        &v,
        nlo,
        nhi,
        "monitoraddedv2",
    ) || matches_literal(&v, nlo, nhi, "monitorremoved") {
        parse_monitor_event(line, &v, nlo, nhi, dlo, dhi)
    } else {
        parse_window_event(line, &v, nlo, nhi, dlo, dhi)
    }
}

/// A trailing line break (`\n` or `\r`) does not change what a line means.
pub proof fn law_line_break_ignored(line: Seq<char>, c: char)
    requires
        c == '\n' || c == '\r',
    ensures
        parse_event_spec(line.push(c)) == parse_event_spec(line),
{
    assert(line.push(c).drop_last() =~= line);
}

/// A line without `>>` is never an event.
pub proof fn law_no_separator_no_event(line: Seq<char>)
    requires
        forall|j: int| !is_separator_at(trim_line_end(line), j),
    ensures
        parse_event_spec(line) is None,
{
}

/// Dropping trailing line breaks from `p + t` only touches `t` when `p` does
/// not itself end in one.
proof fn lemma_trim_line_end_append(p: Seq<char>, t: Seq<char>)
    requires
        p.len() > 0 ==> (p.last() != '\r' && p.last() != '\n'),
    ensures
        trim_line_end(p + t) == p + trim_line_end(t),
    decreases t.len(),
{
    if t.len() == 0 {
        assert(p + t =~= p);
    } else {
        let s = p + t;
        assert(s.last() == t.last());
        if t.last() == '\r' || t.last() == '\n' {
            assert(s.drop_last() =~= p + t.drop_last());
            lemma_trim_line_end_append(p, t.drop_last());
        }
    }
}

/// A line `<name>>><data>` whose name holds no `>` splits into that name and
/// that payload.
proof fn lemma_split_after_name(name: Seq<char>, data: Seq<char>)
    requires
        forall|j: int| 0 <= j < name.len() ==> name[j] != '>',
    ensures
        split_event_line(name + ">>"@ + data) == Some((name, data)),
{
    reveal_strlit(">>");
    let line = name + ">>"@ + data;
    let k = name.len() as int;
    assert(line[k] == '>' && line[k + 1] == '>');
    assert(is_separator_at(line, k));
    assert forall|j: int| 0 <= j < k implies !is_separator_at(line, j) by {
        assert(line[j] == name[j]);
    }
    assert(is_first_separator(line, k));
    let i = choose|i: int| is_first_separator(line, i);
    assert(i == k) by {
        if i < k {
            assert(line[i] == name[i]);
        } else if i > k {
            assert(is_separator_at(line, k));
        }
    }
    assert(line.subrange(0, k) =~= name);
    assert(line.subrange(k + 2, line.len() as int) =~= data);
}

/// The payload a line `<name>>><id>` (or `<name>>><id>,<w>`) is read with,
/// after trailing line breaks are dropped.
spec fn id_payload(id: i32, extra: Option<Seq<char>>) -> Seq<char> {
    match extra {
        Some(w) => int_to_decimal(id as int) + seq![','] + trim_line_end(w),
        None => int_to_decimal(id as int),
    }
}

/// A line naming an event and carrying a decimal id first in its payload is
/// read as that event with that id in the payload's first field.
proof fn lemma_id_line(name: Seq<char>, id: i32, extra: Option<Seq<char>>)
    requires
        forall|j: int| 0 <= j < name.len() ==> name[j] != '>',
    ensures
        parse_event_spec(
            match extra {
                Some(w) => name + ">>"@ + (int_to_decimal(id as int) + seq![','] + w),
                None => name + ">>"@ + int_to_decimal(id as int),
            },
        ) == event_from_parts(name, id_payload(id, extra)),
        split_first(id_payload(id, extra), ',').0 == int_to_decimal(id as int),
        parse_workspace_id_spec(int_to_decimal(id as int)) == Some(id),
{
    reveal_strlit(">>");
    let d = int_to_decimal(id as int);
    lemma_decimal_untrimmed(id as int);
    lemma_i32_decimal_round_trip(id);
    assert(d.len() >= 1) by {
        if id < 0 {
            lemma_nat_digits((-id) as nat);
        } else {
            lemma_nat_digits(id as nat);
        }
    }
    let last = d[d.len() - 1];
    assert(last == '-' || is_digit(last));
    assert forall|j: int| 0 <= j < d.len() implies !is_char(',')(#[trigger] d[j]) by {
        let c = d[j];
        assert(c == '-' || is_digit(c));
    }
    let head = name + ">>"@ + d;
    assert(head.last() == last);
    match extra {
        Some(w) => {
            let p = head + seq![','];
            assert(p.last() == ',');
            lemma_trim_line_end_append(p, w);
            assert(name + ">>"@ + (d + seq![','] + w) =~= p + w);
            assert(p + trim_line_end(w) =~= name + ">>"@ + id_payload(id, extra));
            lemma_split_after_name(name, id_payload(id, extra));
            let data = id_payload(id, extra);
            let k = d.len() as int;
            assert(data[k] == ',');
            assert forall|j: int| 0 <= j < k implies !is_char(',')(#[trigger] data[j]) by {
                assert(data[j] == d[j]);
            }
            assert(is_first_match(data, is_char(','), k));
            lemma_first_match_is(data, is_char(','), k);
            assert(data.subrange(0, k) =~= d);
        },
        None => {
            lemma_trim_line_end_append(head, Seq::<char>::empty());
            assert(head + Seq::<char>::empty() =~= head);
            assert(trim_line_end(Seq::<char>::empty()) =~= Seq::<char>::empty());
            lemma_split_after_name(name, d);
            lemma_first_match_none(d, is_char(','));
        },
    }
}

/// What the workspace events make of a payload whose first field is the id.
proof fn lemma_workspace_parts(name: Seq<char>, data: Seq<char>, id: i32)
    requires
        parse_workspace_id_spec(split_first(data, ',').0) == Some(id),
    ensures
        name == "workspace"@ || name == "workspacev2"@ ==> event_from_parts(name, data) == Some(
            EventModel::WorkspaceChanged { id },
        ),
        name != "workspace"@ && name != "workspacev2"@ && (name == "createworkspace"@ || name
            == "createworkspacev2"@) ==> event_from_parts(name, data) == Some(
            EventModel::WorkspaceAdded { id },
        ),
        name != "workspace"@ && name != "workspacev2"@ && name != "createworkspace"@ && name
            != "createworkspacev2"@ && (name == "destroyworkspace"@ || name
            == "destroyworkspacev2"@) ==> event_from_parts(name, data) == Some(
            EventModel::WorkspaceDestroyed { id },
        ),
{
}

/// `workspace>><id>` and `workspacev2>><id>,<w>` change to workspace `<id>`.
proof fn lemma_changed_lines(id: i32, ws_name: Seq<char>)
    ensures
        parse_event_spec("workspace>>"@ + int_to_decimal(id as int)) == Some(
            EventModel::WorkspaceChanged { id },
        ),
        parse_event_spec("workspacev2>>"@ + int_to_decimal(id as int) + seq![','] + ws_name)
            == Some(EventModel::WorkspaceChanged { id }),
{
    reveal_strlit(">>");
    reveal_strlit("workspace>>");
    reveal_strlit("workspace");
    reveal_strlit("workspacev2>>");
    reveal_strlit("workspacev2");
    let d = int_to_decimal(id as int);
    lemma_id_line("workspace"@, id, None);
    lemma_workspace_parts("workspace"@, id_payload(id, None), id);
    assert("workspace>>"@ + d =~= "workspace"@ + ">>"@ + d);
    lemma_id_line("workspacev2"@, id, Some(ws_name));
    lemma_workspace_parts("workspacev2"@, id_payload(id, Some(ws_name)), id);
    assert("workspacev2>>"@ + d + seq![','] + ws_name =~= "workspacev2"@ + ">>"@ + (d + seq![',']
        + ws_name));
}

/// `createworkspace>><id>` and `createworkspacev2>><id>,<w>` announce
/// workspace `<id>`.
proof fn lemma_added_lines(id: i32, ws_name: Seq<char>)
    ensures
        parse_event_spec("createworkspace>>"@ + int_to_decimal(id as int)) == Some(
            EventModel::WorkspaceAdded { id },
        ),
        parse_event_spec(
            "createworkspacev2>>"@ + int_to_decimal(id as int) + seq![','] + ws_name,
        ) == Some(EventModel::WorkspaceAdded { id }),
{
    reveal_strlit(">>");
    reveal_strlit("workspace");
    reveal_strlit("workspacev2");
    reveal_strlit("createworkspace>>");
    reveal_strlit("createworkspace");
    reveal_strlit("createworkspacev2>>");
    reveal_strlit("createworkspacev2");
    let d = int_to_decimal(id as int);
    lemma_id_line("createworkspace"@, id, None);
    lemma_workspace_parts("createworkspace"@, id_payload(id, None), id);
    assert("createworkspace>>"@ + d =~= "createworkspace"@ + ">>"@ + d);
    lemma_id_line("createworkspacev2"@, id, Some(ws_name));
    lemma_workspace_parts("createworkspacev2"@, id_payload(id, Some(ws_name)), id);
    assert("createworkspacev2>>"@ + d + seq![','] + ws_name =~= "createworkspacev2"@ + ">>"@ + (d
        + seq![','] + ws_name));
}

/// `destroyworkspace>><id>` and `destroyworkspacev2>><id>,<w>` remove
/// workspace `<id>`.
proof fn lemma_destroyed_lines(id: i32, ws_name: Seq<char>)
    ensures
        parse_event_spec("destroyworkspace>>"@ + int_to_decimal(id as int)) == Some(
            EventModel::WorkspaceDestroyed { id },
        ),
        parse_event_spec(
            "destroyworkspacev2>>"@ + int_to_decimal(id as int) + seq![','] + ws_name,
        ) == Some(EventModel::WorkspaceDestroyed { id }),
{
    reveal_strlit(">>");
    reveal_strlit("workspace");
    reveal_strlit("workspacev2");
    reveal_strlit("createworkspace");
    reveal_strlit("createworkspacev2");
    reveal_strlit("destroyworkspace>>");
    reveal_strlit("destroyworkspace");
    reveal_strlit("destroyworkspacev2>>");
    reveal_strlit("destroyworkspacev2");
    let d = int_to_decimal(id as int);
    lemma_id_line("destroyworkspace"@, id, None);
    lemma_workspace_parts("destroyworkspace"@, id_payload(id, None), id);
    assert("destroyworkspace>>"@ + d =~= "destroyworkspace"@ + ">>"@ + d);
    lemma_id_line("destroyworkspacev2"@, id, Some(ws_name));
    lemma_workspace_parts("destroyworkspacev2"@, id_payload(id, Some(ws_name)), id);
    assert("destroyworkspacev2>>"@ + d + seq![','] + ws_name =~= "destroyworkspacev2"@ + ">>"@ + (d
        + seq![','] + ws_name));
}

/// No character of `s` is `c`.
pub open spec fn lacks(s: Seq<char>, c: char) -> bool {
    forall|j: int| 0 <= j < s.len() ==> s[j] != c
}

/// `s` does not end in a line break (which the reader would drop).
pub open spec fn ends_clean(s: Seq<char>) -> bool {
    s.len() == 0 || (s.last() != '\n' && s.last() != '\r')
}

/// A line `<name>>><data>` is read as event `name` with payload `data`.
proof fn lemma_line_parts(name: Seq<char>, data: Seq<char>)
    requires
        lacks(name, '>'),
        ends_clean(data),
    ensures
        parse_event_spec(name + ">>"@ + data) == event_from_parts(name, data),
{
    reveal_strlit(">>");
    let line = name + ">>"@ + data;
    lemma_trim_line_end_append(line, Seq::<char>::empty());
    assert(line + Seq::<char>::empty() =~= line);
    assert(trim_line_end(Seq::<char>::empty()) =~= Seq::<char>::empty());
    if data.len() > 0 {
        assert(line.last() == data.last());
    } else {
        assert(line.last() == '>');
    }
    lemma_split_after_name(name, data);
}

/// Splitting `<a>,<rest>` at its first comma, when `a` has none.
proof fn lemma_comma_split(a: Seq<char>, rest: Seq<char>)
    requires
        lacks(a, ','),
    ensures
        split_first(a + seq![','] + rest, ',') == (a, Some(rest)),
{
    let data = a + seq![','] + rest;
    let k = a.len() as int;
    assert(data[k] == ',');
    assert forall|j: int| 0 <= j < k implies !is_char(',')(#[trigger] data[j]) by {
        assert(data[j] == a[j]);
    }
    assert(is_first_match(data, is_char(','), k));
    lemma_first_match_is(data, is_char(','), k);
    assert(data.subrange(0, k) =~= a);
    assert(data.subrange(k + 1, data.len() as int) =~= rest);
}

/// A decimal id holds no comma, ends in a digit and reads back as the id.
proof fn lemma_decimal_field(id: i32)
    ensures
        lacks(int_to_decimal(id as int), ','),
        int_to_decimal(id as int).len() > 0,
        ends_clean(int_to_decimal(id as int)),
        parse_workspace_id_spec(int_to_decimal(id as int)) == Some(id),
{
    let d = int_to_decimal(id as int);
    lemma_decimal_untrimmed(id as int);
    lemma_i32_decimal_round_trip(id);
    assert(d.len() >= 1) by {
        if id < 0 {
            lemma_nat_digits((-id) as nat);
        } else {
            lemma_nat_digits(id as nat);
        }
    }
    let last = d[d.len() - 1];
    assert(last == '-' || is_digit(last));
    assert forall|j: int| 0 <= j < d.len() implies d[j] != ',' by {
        let c = d[j];
        assert(c == '-' || is_digit(c));
    }
}

/// `fullscreen` is none of the event names tested before it.
proof fn lemma_name_fullscreen()
    ensures
        "fullscreen"@ != "workspace"@,
        "fullscreen"@ != "workspacev2"@,
        "fullscreen"@ != "createworkspace"@,
        "fullscreen"@ != "createworkspacev2"@,
        "fullscreen"@ != "destroyworkspace"@,
        "fullscreen"@ != "destroyworkspacev2"@,
        "fullscreen"@ != "moveworkspace"@,
        "fullscreen"@ != "moveworkspacev2"@,
        "fullscreen"@ != "focusedmon"@,
{
    reveal_strlit("fullscreen");
    assert("fullscreen"@ != "workspace"@) by {
        reveal_strlit("workspace");
        assert("workspace"@.len() == 9);
    }
    assert("fullscreen"@ != "workspacev2"@) by {
        reveal_strlit("workspacev2");
        assert("workspacev2"@.len() == 11);
    }
    assert("fullscreen"@ != "createworkspace"@) by {
        reveal_strlit("createworkspace");
        assert("createworkspace"@.len() == 15);
    }
    assert("fullscreen"@ != "createworkspacev2"@) by {
        reveal_strlit("createworkspacev2");
        assert("createworkspacev2"@.len() == 17);
    }
    assert("fullscreen"@ != "destroyworkspace"@) by {
        reveal_strlit("destroyworkspace");
        assert("destroyworkspace"@.len() == 16);
    }
    assert("fullscreen"@ != "destroyworkspacev2"@) by {
        reveal_strlit("destroyworkspacev2");
        assert("destroyworkspacev2"@.len() == 18);
    }
    assert("fullscreen"@ != "moveworkspace"@) by {
        reveal_strlit("moveworkspace");
        assert("moveworkspace"@.len() == 13);
    }
    assert("fullscreen"@ != "moveworkspacev2"@) by {
        reveal_strlit("moveworkspacev2");
        assert("moveworkspacev2"@.len() == 15);
    }
    assert("fullscreen"@ != "focusedmon"@) by {
        reveal_strlit("focusedmon");
        assert("focusedmon"@[1] == 'o' && "fullscreen"@[1] == 'u');
    }
}

/// `moveworkspace` is none of the event names tested before it.
proof fn lemma_name_moveworkspace()
    ensures
        "moveworkspace"@ != "workspace"@,
        "moveworkspace"@ != "workspacev2"@,
        "moveworkspace"@ != "createworkspace"@,
        "moveworkspace"@ != "createworkspacev2"@,
        "moveworkspace"@ != "destroyworkspace"@,
        "moveworkspace"@ != "destroyworkspacev2"@,
{
    reveal_strlit("moveworkspace");
    assert("moveworkspace"@ != "workspace"@) by {
        reveal_strlit("workspace");
        assert("workspace"@.len() == 9);
    }
    assert("moveworkspace"@ != "workspacev2"@) by {
        reveal_strlit("workspacev2");
        assert("workspacev2"@.len() == 11);
    }
    assert("moveworkspace"@ != "createworkspace"@) by {
        reveal_strlit("createworkspace");
        assert("createworkspace"@.len() == 15);
    }
    assert("moveworkspace"@ != "createworkspacev2"@) by {
        reveal_strlit("createworkspacev2");
        assert("createworkspacev2"@.len() == 17);
    }
    assert("moveworkspace"@ != "destroyworkspace"@) by {
        reveal_strlit("destroyworkspace");
        assert("destroyworkspace"@.len() == 16);
    }
    assert("moveworkspace"@ != "destroyworkspacev2"@) by {
        reveal_strlit("destroyworkspacev2");
        assert("destroyworkspacev2"@.len() == 18);
    }
}

/// `moveworkspacev2` is none of the event names tested before it.
proof fn lemma_name_moveworkspacev2()
    ensures
        "moveworkspacev2"@ != "workspace"@,
        "moveworkspacev2"@ != "workspacev2"@,
        "moveworkspacev2"@ != "createworkspace"@,
        "moveworkspacev2"@ != "createworkspacev2"@,
        "moveworkspacev2"@ != "destroyworkspace"@,
        "moveworkspacev2"@ != "destroyworkspacev2"@,
        "moveworkspacev2"@ != "moveworkspace"@,
{
    reveal_strlit("moveworkspacev2");
    assert("moveworkspacev2"@ != "workspace"@) by {
        reveal_strlit("workspace");
        assert("workspace"@.len() == 9);
    }
    assert("moveworkspacev2"@ != "workspacev2"@) by {
        reveal_strlit("workspacev2");
        assert("workspacev2"@.len() == 11);
    }
    assert("moveworkspacev2"@ != "createworkspace"@) by {
        reveal_strlit("createworkspace");
        assert("createworkspace"@[0] == 'c' && "moveworkspacev2"@[0] == 'm');
    }
    assert("moveworkspacev2"@ != "createworkspacev2"@) by {
        reveal_strlit("createworkspacev2");
        assert("createworkspacev2"@.len() == 17);
    }
    assert("moveworkspacev2"@ != "destroyworkspace"@) by {
        reveal_strlit("destroyworkspace");
        assert("destroyworkspace"@.len() == 16);
    }
    assert("moveworkspacev2"@ != "destroyworkspacev2"@) by {
        reveal_strlit("destroyworkspacev2");
        assert("destroyworkspacev2"@.len() == 18);
    }
    assert("moveworkspacev2"@ != "moveworkspace"@) by {
        reveal_strlit("moveworkspace");
        assert("moveworkspace"@.len() == 13);
    }
}

/// `focusedmon` is none of the event names tested before it.
proof fn lemma_name_focusedmon()
    ensures
        "focusedmon"@ != "workspace"@,
        "focusedmon"@ != "workspacev2"@,
        "focusedmon"@ != "createworkspace"@,
        "focusedmon"@ != "createworkspacev2"@,
        "focusedmon"@ != "destroyworkspace"@,
        "focusedmon"@ != "destroyworkspacev2"@,
        "focusedmon"@ != "moveworkspace"@,
        "focusedmon"@ != "moveworkspacev2"@,
{
    reveal_strlit("focusedmon");
    assert("focusedmon"@ != "workspace"@) by {
        reveal_strlit("workspace");
        assert("workspace"@.len() == 9);
    }
    assert("focusedmon"@ != "workspacev2"@) by {
        reveal_strlit("workspacev2");
        assert("workspacev2"@.len() == 11);
    }
    assert("focusedmon"@ != "createworkspace"@) by {
        reveal_strlit("createworkspace");
        assert("createworkspace"@.len() == 15);
    }
    assert("focusedmon"@ != "createworkspacev2"@) by {
        reveal_strlit("createworkspacev2");
        assert("createworkspacev2"@.len() == 17);
    }
    assert("focusedmon"@ != "destroyworkspace"@) by {
        reveal_strlit("destroyworkspace");
        assert("destroyworkspace"@.len() == 16);
    }
    assert("focusedmon"@ != "destroyworkspacev2"@) by {
        reveal_strlit("destroyworkspacev2");
        assert("destroyworkspacev2"@.len() == 18);
    }
    assert("focusedmon"@ != "moveworkspace"@) by {
        reveal_strlit("moveworkspace");
        assert("moveworkspace"@.len() == 13);
    }
    assert("focusedmon"@ != "moveworkspacev2"@) by {
        reveal_strlit("moveworkspacev2");
        assert("moveworkspacev2"@.len() == 15);
    }
}


/// `fullscreen>><flag>`: `1` enters fullscreen, `0` leaves it, and any
/// other flag is not an event; the flag is read trimmed.
pub proof fn law_fullscreen_flag(flag: Seq<char>)
    requires
        ends_clean(flag),
    ensures
        parse_event_spec("fullscreen>>"@ + flag) == (if trim(flag) == "1"@ {
            Some(EventModel::Fullscreen { enter: true })
        } else if trim(flag) == "0"@ {
            Some(EventModel::Fullscreen { enter: false })
        } else {
            None
        }),
        parse_event_spec("fullscreen>>"@ + seq!['1']) == Some(EventModel::Fullscreen { enter: true }),
        parse_event_spec("fullscreen>>"@ + seq!['0']) == Some(EventModel::Fullscreen { enter: false }),
{
    lemma_fullscreen_line(flag);
    lemma_fullscreen_line(seq!['1']);
    lemma_fullscreen_line(seq!['0']);
    lemma_trim_one_char('1');
    lemma_trim_one_char('0');
    reveal_strlit("1");
    reveal_strlit("0");
    assert(seq!['1'] =~= "1"@);
    assert(seq!['0'] =~= "0"@);
    assert(seq!['0'] != "1"@) by {
        assert("1"@[0] == '1');
    }
}

proof fn lemma_fullscreen_line(flag: Seq<char>)
    requires
        ends_clean(flag),
    ensures
        parse_event_spec("fullscreen>>"@ + flag) == (if trim(flag) == "1"@ {
            Some(EventModel::Fullscreen { enter: true })
        } else if trim(flag) == "0"@ {
            Some(EventModel::Fullscreen { enter: false })
        } else {
            None
        }),
{
    reveal_strlit("fullscreen>>");
    reveal_strlit("fullscreen");
    reveal_strlit(">>");
    let name = "fullscreen"@;
    assert("fullscreen>>"@ + flag =~= name + ">>"@ + flag);
    lemma_line_parts(name, flag);
    lemma_name_fullscreen();
}

/// `moveworkspace>><id>,<monitor>` (and its `v2` form) moves workspace
/// `<id>` to the monitor named by the rest of the line.
pub proof fn law_move_workspace_line(id: i32, monitor: Seq<char>)
    requires
        ends_clean(monitor),
    ensures
        parse_event_spec("moveworkspace>>"@ + int_to_decimal(id as int) + seq![','] + monitor) == Some(
            EventModel::WorkspaceMoved { id, monitor },
        ),
        parse_event_spec("moveworkspacev2>>"@ + int_to_decimal(id as int) + seq![','] + monitor)
            == Some(EventModel::WorkspaceMoved { id, monitor }),
{
    lemma_move_payload(id, monitor);
    lemma_move_v1(id, monitor);
    lemma_move_v2(id, monitor);
}

/// The payload `<id>,<monitor>` splits into the id and the monitor.
proof fn lemma_move_payload(id: i32, monitor: Seq<char>)
    requires
        ends_clean(monitor),
    ensures
        ({
            let d = int_to_decimal(id as int);
            let data = d + seq![','] + monitor;
            &&& ends_clean(data)
            &&& split_first(data, ',') == (d, Some(monitor))
            &&& parse_workspace_id_spec(d) == Some(id)
        }),
{
    let d = int_to_decimal(id as int);
    let data = d + seq![','] + monitor;
    lemma_decimal_field(id);
    lemma_comma_split(d, monitor);
    if monitor.len() > 0 {
        assert(data.last() == monitor.last());
    } else {
        assert(data.last() == ',');
    }
}

proof fn lemma_move_v1(id: i32, monitor: Seq<char>)
    requires
        ends_clean(int_to_decimal(id as int) + seq![','] + monitor),
        split_first(int_to_decimal(id as int) + seq![','] + monitor, ',') == (
            int_to_decimal(id as int),
            Some(monitor),
        ),
        parse_workspace_id_spec(int_to_decimal(id as int)) == Some(id),
    ensures
        parse_event_spec("moveworkspace>>"@ + int_to_decimal(id as int) + seq![','] + monitor) == Some(
            EventModel::WorkspaceMoved { id, monitor },
        ),
{
    let d = int_to_decimal(id as int);
    let data = d + seq![','] + monitor;
    reveal_strlit(">>");
    reveal_strlit("moveworkspace>>");
    reveal_strlit("moveworkspace");
    assert("moveworkspace>>"@ + d + seq![','] + monitor =~= "moveworkspace"@ + ">>"@ + data);
    lemma_line_parts("moveworkspace"@, data);
    lemma_name_moveworkspace();
}

proof fn lemma_move_v2(id: i32, monitor: Seq<char>)
    requires
        ends_clean(int_to_decimal(id as int) + seq![','] + monitor),
        split_first(int_to_decimal(id as int) + seq![','] + monitor, ',') == (
            int_to_decimal(id as int),
            Some(monitor),
        ),
        parse_workspace_id_spec(int_to_decimal(id as int)) == Some(id),
    ensures
        parse_event_spec("moveworkspacev2>>"@ + int_to_decimal(id as int) + seq![','] + monitor)
            == Some(EventModel::WorkspaceMoved { id, monitor }),
{
    let d = int_to_decimal(id as int);
    let data = d + seq![','] + monitor;
    reveal_strlit(">>");
    reveal_strlit("moveworkspacev2>>");
    reveal_strlit("moveworkspacev2");
    assert("moveworkspacev2>>"@ + d + seq![','] + monitor =~= "moveworkspacev2"@ + ">>"@ + data);
    lemma_line_parts("moveworkspacev2"@, data);
    lemma_name_moveworkspacev2();
}

/// `focusedmon>><name>,<id>` focuses monitor `<name>` showing workspace
/// `<id>`.
pub proof fn law_focused_monitor_line(name: Seq<char>, id: i32)
    requires
        lacks(name, ','),
    ensures
        parse_event_spec("focusedmon>>"@ + name + seq![','] + int_to_decimal(id as int)) == Some(
            EventModel::ActiveMonitor { name, workspace_id: id },
        ),
{
    let d = int_to_decimal(id as int);
    let data = name + seq![','] + d;
    lemma_decimal_field(id);
    lemma_comma_split(name, d);
    assert(data.last() == d.last());
    reveal_strlit(">>");
    reveal_strlit("focusedmon>>");
    reveal_strlit("focusedmon");
    assert("focusedmon>>"@ + name + seq![','] + d =~= "focusedmon"@ + ">>"@ + data);
    lemma_line_parts("focusedmon"@, data);
    lemma_name_focusedmon();
}

/// `monitoradded` is none of the event names tested before it.
proof fn lemma_name_monitoradded()
    ensures
        "monitoradded"@ != "workspace"@,
        "monitoradded"@ != "workspacev2"@,
        "monitoradded"@ != "createworkspace"@,
        "monitoradded"@ != "createworkspacev2"@,
        "monitoradded"@ != "destroyworkspace"@,
        "monitoradded"@ != "destroyworkspacev2"@,
        "monitoradded"@ != "moveworkspace"@,
        "monitoradded"@ != "moveworkspacev2"@,
        "monitoradded"@ != "focusedmon"@,
        "monitoradded"@ != "fullscreen"@,
{
    reveal_strlit("monitoradded");
    assert("monitoradded"@ != "workspace"@) by {
        reveal_strlit("workspace");
        assert("workspace"@.len() == 9);
    }
    assert("monitoradded"@ != "workspacev2"@) by {
        reveal_strlit("workspacev2");
        assert("workspacev2"@.len() == 11);
    }
    assert("monitoradded"@ != "createworkspace"@) by {
        reveal_strlit("createworkspace");
        assert("createworkspace"@.len() == 15);
    }
    assert("monitoradded"@ != "createworkspacev2"@) by {
        reveal_strlit("createworkspacev2");
        assert("createworkspacev2"@.len() == 17);
    }
    assert("monitoradded"@ != "destroyworkspace"@) by {
        reveal_strlit("destroyworkspace");
        assert("destroyworkspace"@.len() == 16);
    }
    assert("monitoradded"@ != "destroyworkspacev2"@) by {
        reveal_strlit("destroyworkspacev2");
        assert("destroyworkspacev2"@.len() == 18);
    }
    assert("monitoradded"@ != "moveworkspace"@) by {
        reveal_strlit("moveworkspace");
        assert("moveworkspace"@.len() == 13);
    }
    assert("monitoradded"@ != "moveworkspacev2"@) by {
        reveal_strlit("moveworkspacev2");
        assert("moveworkspacev2"@.len() == 15);
    }
    assert("monitoradded"@ != "focusedmon"@) by {
        reveal_strlit("focusedmon");
        assert("focusedmon"@.len() == 10);
    }
    assert("monitoradded"@ != "fullscreen"@) by {
        reveal_strlit("fullscreen");
        assert("fullscreen"@.len() == 10);
    }
}

/// `monitorremoved` is none of the event names tested before it.
proof fn lemma_name_monitorremoved()
    ensures
        "monitorremoved"@ != "workspace"@,
        "monitorremoved"@ != "workspacev2"@,
        "monitorremoved"@ != "createworkspace"@,
        "monitorremoved"@ != "createworkspacev2"@,
        "monitorremoved"@ != "destroyworkspace"@,
        "monitorremoved"@ != "destroyworkspacev2"@,
        "monitorremoved"@ != "moveworkspace"@,
        "monitorremoved"@ != "moveworkspacev2"@,
        "monitorremoved"@ != "focusedmon"@,
        "monitorremoved"@ != "fullscreen"@,
        "monitorremoved"@ != "monitoradded"@,
        "monitorremoved"@ != "monitoraddedv2"@,
{
    reveal_strlit("monitorremoved");
    assert("monitorremoved"@ != "workspace"@) by {
        reveal_strlit("workspace");
        assert("workspace"@.len() == 9);
    }
    assert("monitorremoved"@ != "workspacev2"@) by {
        reveal_strlit("workspacev2");
        assert("workspacev2"@.len() == 11);
    }
    assert("monitorremoved"@ != "createworkspace"@) by {
        reveal_strlit("createworkspace");
        assert("createworkspace"@.len() == 15);
    }
    assert("monitorremoved"@ != "createworkspacev2"@) by {
        reveal_strlit("createworkspacev2");
        assert("createworkspacev2"@.len() == 17);
    }
    assert("monitorremoved"@ != "destroyworkspace"@) by {
        reveal_strlit("destroyworkspace");
        assert("destroyworkspace"@.len() == 16);
    }
    assert("monitorremoved"@ != "destroyworkspacev2"@) by {
        reveal_strlit("destroyworkspacev2");
        assert("destroyworkspacev2"@.len() == 18);
    }
    assert("monitorremoved"@ != "moveworkspace"@) by {
        reveal_strlit("moveworkspace");
        assert("moveworkspace"@.len() == 13);
    }
    assert("monitorremoved"@ != "moveworkspacev2"@) by {
        reveal_strlit("moveworkspacev2");
        assert("moveworkspacev2"@.len() == 15);
    }
    assert("monitorremoved"@ != "focusedmon"@) by {
        reveal_strlit("focusedmon");
        assert("focusedmon"@.len() == 10);
    }
    assert("monitorremoved"@ != "fullscreen"@) by {
        reveal_strlit("fullscreen");
        assert("fullscreen"@.len() == 10);
    }
    assert("monitorremoved"@ != "monitoradded"@) by {
        reveal_strlit("monitoradded");
        assert("monitoradded"@.len() == 12);
    }
    assert("monitorremoved"@ != "monitoraddedv2"@) by {
        reveal_strlit("monitoraddedv2");
        assert("monitoraddedv2"@[7] == 'a' && "monitorremoved"@[7] == 'r');
    }
}

/// `activewindowv2` is none of the event names tested before it.
proof fn lemma_name_activewindowv2()
    ensures
        "activewindowv2"@ != "workspace"@,
        "activewindowv2"@ != "workspacev2"@,
        "activewindowv2"@ != "createworkspace"@,
        "activewindowv2"@ != "createworkspacev2"@,
        "activewindowv2"@ != "destroyworkspace"@,
        "activewindowv2"@ != "destroyworkspacev2"@,
        "activewindowv2"@ != "moveworkspace"@,
        "activewindowv2"@ != "moveworkspacev2"@,
        "activewindowv2"@ != "focusedmon"@,
        "activewindowv2"@ != "fullscreen"@,
        "activewindowv2"@ != "monitoradded"@,
        "activewindowv2"@ != "monitoraddedv2"@,
        "activewindowv2"@ != "monitorremoved"@,
        "activewindowv2"@ != "activewindow"@,
{
    reveal_strlit("activewindowv2");
    assert("activewindowv2"@ != "workspace"@) by {
        reveal_strlit("workspace");
        assert("workspace"@.len() == 9);
    }
    assert("activewindowv2"@ != "workspacev2"@) by {
        reveal_strlit("workspacev2");
        assert("workspacev2"@.len() == 11);
    }
    assert("activewindowv2"@ != "createworkspace"@) by {
        reveal_strlit("createworkspace");
        assert("createworkspace"@.len() == 15);
    }
    assert("activewindowv2"@ != "createworkspacev2"@) by {
        reveal_strlit("createworkspacev2");
        assert("createworkspacev2"@.len() == 17);
    }
    assert("activewindowv2"@ != "destroyworkspace"@) by {
        reveal_strlit("destroyworkspace");
        assert("destroyworkspace"@.len() == 16);
    }
    assert("activewindowv2"@ != "destroyworkspacev2"@) by {
        reveal_strlit("destroyworkspacev2");
        assert("destroyworkspacev2"@.len() == 18);
    }
    assert("activewindowv2"@ != "moveworkspace"@) by {
        reveal_strlit("moveworkspace");
        assert("moveworkspace"@.len() == 13);
    }
    assert("activewindowv2"@ != "moveworkspacev2"@) by {
        reveal_strlit("moveworkspacev2");
        assert("moveworkspacev2"@.len() == 15);
    }
    assert("activewindowv2"@ != "focusedmon"@) by {
        reveal_strlit("focusedmon");
        assert("focusedmon"@.len() == 10);
    }
    assert("activewindowv2"@ != "fullscreen"@) by {
        reveal_strlit("fullscreen");
        assert("fullscreen"@.len() == 10);
    }
    assert("activewindowv2"@ != "monitoradded"@) by {
        reveal_strlit("monitoradded");
        assert("monitoradded"@.len() == 12);
    }
    assert("activewindowv2"@ != "monitoraddedv2"@) by {
        reveal_strlit("monitoraddedv2");
        assert("monitoraddedv2"@[0] == 'm' && "activewindowv2"@[0] == 'a');
    }
    assert("activewindowv2"@ != "monitorremoved"@) by {
        reveal_strlit("monitorremoved");
        assert("monitorremoved"@[0] == 'm' && "activewindowv2"@[0] == 'a');
    }
    assert("activewindowv2"@ != "activewindow"@) by {
        reveal_strlit("activewindow");
        assert("activewindow"@.len() == 12);
    }
}

/// `closewindow` is none of the event names tested before it.
proof fn lemma_name_closewindow()
    ensures
        "closewindow"@ != "workspace"@,
        "closewindow"@ != "workspacev2"@,
        "closewindow"@ != "createworkspace"@,
        "closewindow"@ != "createworkspacev2"@,
        "closewindow"@ != "destroyworkspace"@,
        "closewindow"@ != "destroyworkspacev2"@,
        "closewindow"@ != "moveworkspace"@,
        "closewindow"@ != "moveworkspacev2"@,
        "closewindow"@ != "focusedmon"@,
        "closewindow"@ != "fullscreen"@,
        "closewindow"@ != "monitoradded"@,
        "closewindow"@ != "monitoraddedv2"@,
        "closewindow"@ != "monitorremoved"@,
        "closewindow"@ != "activewindow"@,
        "closewindow"@ != "activewindowv2"@,
        "closewindow"@ != "openwindow"@,
{
    reveal_strlit("closewindow");
    assert("closewindow"@ != "workspace"@) by {
        reveal_strlit("workspace");
        assert("workspace"@.len() == 9);
    }
    assert("closewindow"@ != "workspacev2"@) by {
        reveal_strlit("workspacev2");
        assert("workspacev2"@[0] == 'w' && "closewindow"@[0] == 'c');
    }
    assert("closewindow"@ != "createworkspace"@) by {
        reveal_strlit("createworkspace");
        assert("createworkspace"@.len() == 15);
    }
    assert("closewindow"@ != "createworkspacev2"@) by {
        reveal_strlit("createworkspacev2");
        assert("createworkspacev2"@.len() == 17);
    }
    assert("closewindow"@ != "destroyworkspace"@) by {
        reveal_strlit("destroyworkspace");
        assert("destroyworkspace"@.len() == 16);
    }
    assert("closewindow"@ != "destroyworkspacev2"@) by {
        reveal_strlit("destroyworkspacev2");
        assert("destroyworkspacev2"@.len() == 18);
    }
    assert("closewindow"@ != "moveworkspace"@) by {
        reveal_strlit("moveworkspace");
        assert("moveworkspace"@.len() == 13);
    }
    assert("closewindow"@ != "moveworkspacev2"@) by {
        reveal_strlit("moveworkspacev2");
        assert("moveworkspacev2"@.len() == 15);
    }
    assert("closewindow"@ != "focusedmon"@) by {
        reveal_strlit("focusedmon");
        assert("focusedmon"@.len() == 10);
    }
    assert("closewindow"@ != "fullscreen"@) by {
        reveal_strlit("fullscreen");
        assert("fullscreen"@.len() == 10);
    }
    assert("closewindow"@ != "monitoradded"@) by {
        reveal_strlit("monitoradded");
        assert("monitoradded"@.len() == 12);
    }
    assert("closewindow"@ != "monitoraddedv2"@) by {
        reveal_strlit("monitoraddedv2");
        assert("monitoraddedv2"@.len() == 14);
    }
    assert("closewindow"@ != "monitorremoved"@) by {
        reveal_strlit("monitorremoved");
        assert("monitorremoved"@.len() == 14);
    }
    assert("closewindow"@ != "activewindow"@) by {
        reveal_strlit("activewindow");
        assert("activewindow"@.len() == 12);
    }
    assert("closewindow"@ != "activewindowv2"@) by {
        reveal_strlit("activewindowv2");
        assert("activewindowv2"@.len() == 14);
    }
    assert("closewindow"@ != "openwindow"@) by {
        reveal_strlit("openwindow");
        assert("openwindow"@.len() == 10);
    }
}

/// `urgent` is none of the event names tested before it.
proof fn lemma_name_urgent()
    ensures
        "urgent"@ != "workspace"@,
        "urgent"@ != "workspacev2"@,
        "urgent"@ != "createworkspace"@,
        "urgent"@ != "createworkspacev2"@,
        "urgent"@ != "destroyworkspace"@,
        "urgent"@ != "destroyworkspacev2"@,
        "urgent"@ != "moveworkspace"@,
        "urgent"@ != "moveworkspacev2"@,
        "urgent"@ != "focusedmon"@,
        "urgent"@ != "fullscreen"@,
        "urgent"@ != "monitoradded"@,
        "urgent"@ != "monitoraddedv2"@,
        "urgent"@ != "monitorremoved"@,
        "urgent"@ != "activewindow"@,
        "urgent"@ != "activewindowv2"@,
        "urgent"@ != "openwindow"@,
        "urgent"@ != "closewindow"@,
        "urgent"@ != "movewindow"@,
        "urgent"@ != "movewindowv2"@,
{
    reveal_strlit("urgent");
    assert("urgent"@ != "workspace"@) by {
        reveal_strlit("workspace");
        assert("workspace"@.len() == 9);
    }
    assert("urgent"@ != "workspacev2"@) by {
        reveal_strlit("workspacev2");
        assert("workspacev2"@.len() == 11);
    }
    assert("urgent"@ != "createworkspace"@) by {
        reveal_strlit("createworkspace");
        assert("createworkspace"@.len() == 15);
    }
    assert("urgent"@ != "createworkspacev2"@) by {
        reveal_strlit("createworkspacev2");
        assert("createworkspacev2"@.len() == 17);
    }
    assert("urgent"@ != "destroyworkspace"@) by {
        reveal_strlit("destroyworkspace");
        assert("destroyworkspace"@.len() == 16);
    }
    assert("urgent"@ != "destroyworkspacev2"@) by {
        reveal_strlit("destroyworkspacev2");
        assert("destroyworkspacev2"@.len() == 18);
    }
    assert("urgent"@ != "moveworkspace"@) by {
        reveal_strlit("moveworkspace");
        assert("moveworkspace"@.len() == 13);
    }
    assert("urgent"@ != "moveworkspacev2"@) by {
        reveal_strlit("moveworkspacev2");
        assert("moveworkspacev2"@.len() == 15);
    }
    assert("urgent"@ != "focusedmon"@) by {
        reveal_strlit("focusedmon");
        assert("focusedmon"@.len() == 10);
    }
    assert("urgent"@ != "fullscreen"@) by {
        reveal_strlit("fullscreen");
        assert("fullscreen"@.len() == 10);
    }
    assert("urgent"@ != "monitoradded"@) by {
        reveal_strlit("monitoradded");
        assert("monitoradded"@.len() == 12);
    }
    assert("urgent"@ != "monitoraddedv2"@) by {
        reveal_strlit("monitoraddedv2");
        assert("monitoraddedv2"@.len() == 14);
    }
    assert("urgent"@ != "monitorremoved"@) by {
        reveal_strlit("monitorremoved");
        assert("monitorremoved"@.len() == 14);
    }
    assert("urgent"@ != "activewindow"@) by {
        reveal_strlit("activewindow");
        assert("activewindow"@.len() == 12);
    }
    assert("urgent"@ != "activewindowv2"@) by {
        reveal_strlit("activewindowv2");
        assert("activewindowv2"@.len() == 14);
    }
    assert("urgent"@ != "openwindow"@) by {
        reveal_strlit("openwindow");
        assert("openwindow"@.len() == 10);
    }
    assert("urgent"@ != "closewindow"@) by {
        reveal_strlit("closewindow");
        assert("closewindow"@.len() == 11);
    }
    assert("urgent"@ != "movewindow"@) by {
        reveal_strlit("movewindow");
        assert("movewindow"@.len() == 10);
    }
    assert("urgent"@ != "movewindowv2"@) by {
        reveal_strlit("movewindowv2");
        assert("movewindowv2"@.len() == 12);
    }
}

/// `submap` is none of the event names tested before it.
proof fn lemma_name_submap()
    ensures
        "submap"@ != "workspace"@,
        "submap"@ != "workspacev2"@,
        "submap"@ != "createworkspace"@,
        "submap"@ != "createworkspacev2"@,
        "submap"@ != "destroyworkspace"@,
        "submap"@ != "destroyworkspacev2"@,
        "submap"@ != "moveworkspace"@,
        "submap"@ != "moveworkspacev2"@,
        "submap"@ != "focusedmon"@,
        "submap"@ != "fullscreen"@,
        "submap"@ != "monitoradded"@,
        "submap"@ != "monitoraddedv2"@,
        "submap"@ != "monitorremoved"@,
        "submap"@ != "activewindow"@,
        "submap"@ != "activewindowv2"@,
        "submap"@ != "openwindow"@,
        "submap"@ != "closewindow"@,
        "submap"@ != "movewindow"@,
        "submap"@ != "movewindowv2"@,
        "submap"@ != "urgent"@,
{
    reveal_strlit("submap");
    assert("submap"@ != "workspace"@) by {
        reveal_strlit("workspace");
        assert("workspace"@.len() == 9);
    }
    assert("submap"@ != "workspacev2"@) by {
        reveal_strlit("workspacev2");
        assert("workspacev2"@.len() == 11);
    }
    assert("submap"@ != "createworkspace"@) by {
        reveal_strlit("createworkspace");
        assert("createworkspace"@.len() == 15);
    }
    assert("submap"@ != "createworkspacev2"@) by {
        reveal_strlit("createworkspacev2");
        assert("createworkspacev2"@.len() == 17);
    }
    assert("submap"@ != "destroyworkspace"@) by {
        reveal_strlit("destroyworkspace");
        assert("destroyworkspace"@.len() == 16);
    }
    assert("submap"@ != "destroyworkspacev2"@) by {
        reveal_strlit("destroyworkspacev2");
        assert("destroyworkspacev2"@.len() == 18);
    }
    assert("submap"@ != "moveworkspace"@) by {
        reveal_strlit("moveworkspace");
        assert("moveworkspace"@.len() == 13);
    }
    assert("submap"@ != "moveworkspacev2"@) by {
        reveal_strlit("moveworkspacev2");
        assert("moveworkspacev2"@.len() == 15);
    }
    assert("submap"@ != "focusedmon"@) by {
        reveal_strlit("focusedmon");
        assert("focusedmon"@.len() == 10);
    }
    assert("submap"@ != "fullscreen"@) by {
        reveal_strlit("fullscreen");
        assert("fullscreen"@.len() == 10);
    }
    assert("submap"@ != "monitoradded"@) by {
        reveal_strlit("monitoradded");
        assert("monitoradded"@.len() == 12);
    }
    assert("submap"@ != "monitoraddedv2"@) by {
        reveal_strlit("monitoraddedv2");
        assert("monitoraddedv2"@.len() == 14);
    }
    assert("submap"@ != "monitorremoved"@) by {
        reveal_strlit("monitorremoved");
        assert("monitorremoved"@.len() == 14);
    }
    assert("submap"@ != "activewindow"@) by {
        reveal_strlit("activewindow");
        assert("activewindow"@.len() == 12);
    }
    assert("submap"@ != "activewindowv2"@) by {
        reveal_strlit("activewindowv2");
        assert("activewindowv2"@.len() == 14);
    }
    assert("submap"@ != "openwindow"@) by {
        reveal_strlit("openwindow");
        assert("openwindow"@.len() == 10);
    }
    assert("submap"@ != "closewindow"@) by {
        reveal_strlit("closewindow");
        assert("closewindow"@.len() == 11);
    }
    assert("submap"@ != "movewindow"@) by {
        reveal_strlit("movewindow");
        assert("movewindow"@.len() == 10);
    }
    assert("submap"@ != "movewindowv2"@) by {
        reveal_strlit("movewindowv2");
        assert("movewindowv2"@.len() == 12);
    }
    assert("submap"@ != "urgent"@) by {
        reveal_strlit("urgent");
        assert("urgent"@[0] == 'u' && "submap"@[0] == 's');
    }
}

/// `windowtitle` is none of the event names tested before it.
proof fn lemma_name_windowtitle()
    ensures
        "windowtitle"@ != "workspace"@,
        "windowtitle"@ != "workspacev2"@,
        "windowtitle"@ != "createworkspace"@,
        "windowtitle"@ != "createworkspacev2"@,
        "windowtitle"@ != "destroyworkspace"@,
        "windowtitle"@ != "destroyworkspacev2"@,
        "windowtitle"@ != "moveworkspace"@,
        "windowtitle"@ != "moveworkspacev2"@,
        "windowtitle"@ != "focusedmon"@,
        "windowtitle"@ != "fullscreen"@,
        "windowtitle"@ != "monitoradded"@,
        "windowtitle"@ != "monitoraddedv2"@,
        "windowtitle"@ != "monitorremoved"@,
        "windowtitle"@ != "activewindow"@,
        "windowtitle"@ != "activewindowv2"@,
        "windowtitle"@ != "openwindow"@,
        "windowtitle"@ != "closewindow"@,
        "windowtitle"@ != "movewindow"@,
        "windowtitle"@ != "movewindowv2"@,
        "windowtitle"@ != "urgent"@,
        "windowtitle"@ != "submap"@,
        "windowtitle"@ != "activelayout"@,
        "windowtitle"@ != "changefloatingmode"@,
{
    reveal_strlit("windowtitle");
    assert("windowtitle"@ != "workspace"@) by {
        reveal_strlit("workspace");
        assert("workspace"@.len() == 9);
    }
    assert("windowtitle"@ != "workspacev2"@) by {
        reveal_strlit("workspacev2");
        assert("workspacev2"@[1] == 'o' && "windowtitle"@[1] == 'i');
    }
    assert("windowtitle"@ != "createworkspace"@) by {
        reveal_strlit("createworkspace");
        assert("createworkspace"@.len() == 15);
    }
    assert("windowtitle"@ != "createworkspacev2"@) by {
        reveal_strlit("createworkspacev2");
        assert("createworkspacev2"@.len() == 17);
    }
    assert("windowtitle"@ != "destroyworkspace"@) by {
        reveal_strlit("destroyworkspace");
        assert("destroyworkspace"@.len() == 16);
    }
    assert("windowtitle"@ != "destroyworkspacev2"@) by {
        reveal_strlit("destroyworkspacev2");
        assert("destroyworkspacev2"@.len() == 18);
    }
    assert("windowtitle"@ != "moveworkspace"@) by {
        reveal_strlit("moveworkspace");
        assert("moveworkspace"@.len() == 13);
    }
    assert("windowtitle"@ != "moveworkspacev2"@) by {
        reveal_strlit("moveworkspacev2");
        assert("moveworkspacev2"@.len() == 15);
    }
    assert("windowtitle"@ != "focusedmon"@) by {
        reveal_strlit("focusedmon");
        assert("focusedmon"@.len() == 10);
    }
    assert("windowtitle"@ != "fullscreen"@) by {
        reveal_strlit("fullscreen");
        assert("fullscreen"@.len() == 10);
    }
    assert("windowtitle"@ != "monitoradded"@) by {
        reveal_strlit("monitoradded");
        assert("monitoradded"@.len() == 12);
    }
    assert("windowtitle"@ != "monitoraddedv2"@) by {
        reveal_strlit("monitoraddedv2");
        assert("monitoraddedv2"@.len() == 14);
    }
    assert("windowtitle"@ != "monitorremoved"@) by {
        reveal_strlit("monitorremoved");
        assert("monitorremoved"@.len() == 14);
    }
    assert("windowtitle"@ != "activewindow"@) by {
        reveal_strlit("activewindow");
        assert("activewindow"@.len() == 12);
    }
    assert("windowtitle"@ != "activewindowv2"@) by {
        reveal_strlit("activewindowv2");
        assert("activewindowv2"@.len() == 14);
    }
    assert("windowtitle"@ != "openwindow"@) by {
        reveal_strlit("openwindow");
        assert("openwindow"@.len() == 10);
    }
    assert("windowtitle"@ != "closewindow"@) by {
        reveal_strlit("closewindow");
        assert("closewindow"@[0] == 'c' && "windowtitle"@[0] == 'w');
    }
    assert("windowtitle"@ != "movewindow"@) by {
        reveal_strlit("movewindow");
        assert("movewindow"@.len() == 10);
    }
    assert("windowtitle"@ != "movewindowv2"@) by {
        reveal_strlit("movewindowv2");
        assert("movewindowv2"@.len() == 12);
    }
    assert("windowtitle"@ != "urgent"@) by {
        reveal_strlit("urgent");
        assert("urgent"@.len() == 6);
    }
    assert("windowtitle"@ != "submap"@) by {
        reveal_strlit("submap");
        assert("submap"@.len() == 6);
    }
    assert("windowtitle"@ != "activelayout"@) by {
        reveal_strlit("activelayout");
        assert("activelayout"@.len() == 12);
    }
    assert("windowtitle"@ != "changefloatingmode"@) by {
        reveal_strlit("changefloatingmode");
        assert("changefloatingmode"@.len() == 18);
    }
}

/// `activewindow` is none of the event names tested before it.
proof fn lemma_name_activewindow()
    ensures
        "activewindow"@ != "workspace"@,
        "activewindow"@ != "workspacev2"@,
        "activewindow"@ != "createworkspace"@,
        "activewindow"@ != "createworkspacev2"@,
        "activewindow"@ != "destroyworkspace"@,
        "activewindow"@ != "destroyworkspacev2"@,
        "activewindow"@ != "moveworkspace"@,
        "activewindow"@ != "moveworkspacev2"@,
        "activewindow"@ != "focusedmon"@,
        "activewindow"@ != "fullscreen"@,
        "activewindow"@ != "monitoradded"@,
        "activewindow"@ != "monitoraddedv2"@,
        "activewindow"@ != "monitorremoved"@,
{
    reveal_strlit("activewindow");
    assert("activewindow"@ != "workspace"@) by {
        reveal_strlit("workspace");
        assert("workspace"@.len() == 9);
    }
    assert("activewindow"@ != "workspacev2"@) by {
        reveal_strlit("workspacev2");
        assert("workspacev2"@.len() == 11);
    }
    assert("activewindow"@ != "createworkspace"@) by {
        reveal_strlit("createworkspace");
        assert("createworkspace"@.len() == 15);
    }
    assert("activewindow"@ != "createworkspacev2"@) by {
        reveal_strlit("createworkspacev2");
        assert("createworkspacev2"@.len() == 17);
    }
    assert("activewindow"@ != "destroyworkspace"@) by {
        reveal_strlit("destroyworkspace");
        assert("destroyworkspace"@.len() == 16);
    }
    assert("activewindow"@ != "destroyworkspacev2"@) by {
        reveal_strlit("destroyworkspacev2");
        assert("destroyworkspacev2"@.len() == 18);
    }
    assert("activewindow"@ != "moveworkspace"@) by {
        reveal_strlit("moveworkspace");
        assert("moveworkspace"@.len() == 13);
    }
    assert("activewindow"@ != "moveworkspacev2"@) by {
        reveal_strlit("moveworkspacev2");
        assert("moveworkspacev2"@.len() == 15);
    }
    assert("activewindow"@ != "focusedmon"@) by {
        reveal_strlit("focusedmon");
        assert("focusedmon"@.len() == 10);
    }
    assert("activewindow"@ != "fullscreen"@) by {
        reveal_strlit("fullscreen");
        assert("fullscreen"@.len() == 10);
    }
    assert("activewindow"@ != "monitoradded"@) by {
        reveal_strlit("monitoradded");
        assert("monitoradded"@[0] == 'm' && "activewindow"@[0] == 'a');
    }
    assert("activewindow"@ != "monitoraddedv2"@) by {
        reveal_strlit("monitoraddedv2");
        assert("monitoraddedv2"@.len() == 14);
    }
    assert("activewindow"@ != "monitorremoved"@) by {
        reveal_strlit("monitorremoved");
        assert("monitorremoved"@.len() == 14);
    }
}

/// `movewindow` is none of the event names tested before it.
proof fn lemma_name_movewindow()
    ensures
        "movewindow"@ != "workspace"@,
        "movewindow"@ != "workspacev2"@,
        "movewindow"@ != "createworkspace"@,
        "movewindow"@ != "createworkspacev2"@,
        "movewindow"@ != "destroyworkspace"@,
        "movewindow"@ != "destroyworkspacev2"@,
        "movewindow"@ != "moveworkspace"@,
        "movewindow"@ != "moveworkspacev2"@,
        "movewindow"@ != "focusedmon"@,
        "movewindow"@ != "fullscreen"@,
        "movewindow"@ != "monitoradded"@,
        "movewindow"@ != "monitoraddedv2"@,
        "movewindow"@ != "monitorremoved"@,
        "movewindow"@ != "activewindow"@,
        "movewindow"@ != "activewindowv2"@,
        "movewindow"@ != "openwindow"@,
        "movewindow"@ != "closewindow"@,
{
    reveal_strlit("movewindow");
    assert("movewindow"@ != "workspace"@) by {
        reveal_strlit("workspace");
        assert("workspace"@.len() == 9);
    }
    assert("movewindow"@ != "workspacev2"@) by {
        reveal_strlit("workspacev2");
        assert("workspacev2"@.len() == 11);
    }
    assert("movewindow"@ != "createworkspace"@) by {
        reveal_strlit("createworkspace");
        assert("createworkspace"@.len() == 15);
    }
    assert("movewindow"@ != "createworkspacev2"@) by {
        reveal_strlit("createworkspacev2");
        assert("createworkspacev2"@.len() == 17);
    }
    assert("movewindow"@ != "destroyworkspace"@) by {
        reveal_strlit("destroyworkspace");
        assert("destroyworkspace"@.len() == 16);
    }
    assert("movewindow"@ != "destroyworkspacev2"@) by {
        reveal_strlit("destroyworkspacev2");
        assert("destroyworkspacev2"@.len() == 18);
    }
    assert("movewindow"@ != "moveworkspace"@) by {
        reveal_strlit("moveworkspace");
        assert("moveworkspace"@.len() == 13);
    }
    assert("movewindow"@ != "moveworkspacev2"@) by {
        reveal_strlit("moveworkspacev2");
        assert("moveworkspacev2"@.len() == 15);
    }
    assert("movewindow"@ != "focusedmon"@) by {
        reveal_strlit("focusedmon");
        assert("focusedmon"@[0] == 'f' && "movewindow"@[0] == 'm');
    }
    assert("movewindow"@ != "fullscreen"@) by {
        reveal_strlit("fullscreen");
        assert("fullscreen"@[0] == 'f' && "movewindow"@[0] == 'm');
    }
    assert("movewindow"@ != "monitoradded"@) by {
        reveal_strlit("monitoradded");
        assert("monitoradded"@.len() == 12);
    }
    assert("movewindow"@ != "monitoraddedv2"@) by {
        reveal_strlit("monitoraddedv2");
        assert("monitoraddedv2"@.len() == 14);
    }
    assert("movewindow"@ != "monitorremoved"@) by {
        reveal_strlit("monitorremoved");
        assert("monitorremoved"@.len() == 14);
    }
    assert("movewindow"@ != "activewindow"@) by {
        reveal_strlit("activewindow");
        assert("activewindow"@.len() == 12);
    }
    assert("movewindow"@ != "activewindowv2"@) by {
        reveal_strlit("activewindowv2");
        assert("activewindowv2"@.len() == 14);
    }
    assert("movewindow"@ != "openwindow"@) by {
        reveal_strlit("openwindow");
        assert("openwindow"@[0] == 'o' && "movewindow"@[0] == 'm');
    }
    assert("movewindow"@ != "closewindow"@) by {
        reveal_strlit("closewindow");
        assert("closewindow"@.len() == 11);
    }
}

/// `movewindowv2` is none of the event names tested before it.
proof fn lemma_name_movewindowv2()
    ensures
        "movewindowv2"@ != "workspace"@,
        "movewindowv2"@ != "workspacev2"@,
        "movewindowv2"@ != "createworkspace"@,
        "movewindowv2"@ != "createworkspacev2"@,
        "movewindowv2"@ != "destroyworkspace"@,
        "movewindowv2"@ != "destroyworkspacev2"@,
        "movewindowv2"@ != "moveworkspace"@,
        "movewindowv2"@ != "moveworkspacev2"@,
        "movewindowv2"@ != "focusedmon"@,
        "movewindowv2"@ != "fullscreen"@,
        "movewindowv2"@ != "monitoradded"@,
        "movewindowv2"@ != "monitoraddedv2"@,
        "movewindowv2"@ != "monitorremoved"@,
        "movewindowv2"@ != "activewindow"@,
        "movewindowv2"@ != "activewindowv2"@,
        "movewindowv2"@ != "openwindow"@,
        "movewindowv2"@ != "closewindow"@,
        "movewindowv2"@ != "movewindow"@,
{
    reveal_strlit("movewindowv2");
    assert("movewindowv2"@ != "workspace"@) by {
        reveal_strlit("workspace");
        assert("workspace"@.len() == 9);
    }
    assert("movewindowv2"@ != "workspacev2"@) by {
        reveal_strlit("workspacev2");
        assert("workspacev2"@.len() == 11);
    }
    assert("movewindowv2"@ != "createworkspace"@) by {
        reveal_strlit("createworkspace");
        assert("createworkspace"@.len() == 15);
    }
    assert("movewindowv2"@ != "createworkspacev2"@) by {
        reveal_strlit("createworkspacev2");
        assert("createworkspacev2"@.len() == 17);
    }
    assert("movewindowv2"@ != "destroyworkspace"@) by {
        reveal_strlit("destroyworkspace");
        assert("destroyworkspace"@.len() == 16);
    }
    assert("movewindowv2"@ != "destroyworkspacev2"@) by {
        reveal_strlit("destroyworkspacev2");
        assert("destroyworkspacev2"@.len() == 18);
    }
    assert("movewindowv2"@ != "moveworkspace"@) by {
        reveal_strlit("moveworkspace");
        assert("moveworkspace"@.len() == 13);
    }
    assert("movewindowv2"@ != "moveworkspacev2"@) by {
        reveal_strlit("moveworkspacev2");
        assert("moveworkspacev2"@.len() == 15);
    }
    assert("movewindowv2"@ != "focusedmon"@) by {
        reveal_strlit("focusedmon");
        assert("focusedmon"@.len() == 10);
    }
    assert("movewindowv2"@ != "fullscreen"@) by {
        reveal_strlit("fullscreen");
        assert("fullscreen"@.len() == 10);
    }
    assert("movewindowv2"@ != "monitoradded"@) by {
        reveal_strlit("monitoradded");
        assert("monitoradded"@[2] == 'n' && "movewindowv2"@[2] == 'v');
    }
    assert("movewindowv2"@ != "monitoraddedv2"@) by {
        reveal_strlit("monitoraddedv2");
        assert("monitoraddedv2"@.len() == 14);
    }
    assert("movewindowv2"@ != "monitorremoved"@) by {
        reveal_strlit("monitorremoved");
        assert("monitorremoved"@.len() == 14);
    }
    assert("movewindowv2"@ != "activewindow"@) by {
        reveal_strlit("activewindow");
        assert("activewindow"@[0] == 'a' && "movewindowv2"@[0] == 'm');
    }
    assert("movewindowv2"@ != "activewindowv2"@) by {
        reveal_strlit("activewindowv2");
        assert("activewindowv2"@.len() == 14);
    }
    assert("movewindowv2"@ != "openwindow"@) by {
        reveal_strlit("openwindow");
        assert("openwindow"@.len() == 10);
    }
    assert("movewindowv2"@ != "closewindow"@) by {
        reveal_strlit("closewindow");
        assert("closewindow"@.len() == 11);
    }
    assert("movewindowv2"@ != "movewindow"@) by {
        reveal_strlit("movewindow");
        assert("movewindow"@.len() == 10);
    }
}

/// `activelayout` is none of the event names tested before it.
proof fn lemma_name_activelayout()
    ensures
        "activelayout"@ != "workspace"@,
        "activelayout"@ != "workspacev2"@,
        "activelayout"@ != "createworkspace"@,
        "activelayout"@ != "createworkspacev2"@,
        "activelayout"@ != "destroyworkspace"@,
        "activelayout"@ != "destroyworkspacev2"@,
        "activelayout"@ != "moveworkspace"@,
        "activelayout"@ != "moveworkspacev2"@,
        "activelayout"@ != "focusedmon"@,
        "activelayout"@ != "fullscreen"@,
        "activelayout"@ != "monitoradded"@,
        "activelayout"@ != "monitoraddedv2"@,
        "activelayout"@ != "monitorremoved"@,
        "activelayout"@ != "activewindow"@,
        "activelayout"@ != "activewindowv2"@,
        "activelayout"@ != "openwindow"@,
        "activelayout"@ != "closewindow"@,
        "activelayout"@ != "movewindow"@,
        "activelayout"@ != "movewindowv2"@,
        "activelayout"@ != "urgent"@,
        "activelayout"@ != "submap"@,
{
    reveal_strlit("activelayout");
    assert("activelayout"@ != "workspace"@) by {
        reveal_strlit("workspace");
        assert("workspace"@.len() == 9);
    }
    assert("activelayout"@ != "workspacev2"@) by {
        reveal_strlit("workspacev2");
        assert("workspacev2"@.len() == 11);
    }
    assert("activelayout"@ != "createworkspace"@) by {
        reveal_strlit("createworkspace");
        assert("createworkspace"@.len() == 15);
    }
    assert("activelayout"@ != "createworkspacev2"@) by {
        reveal_strlit("createworkspacev2");
        assert("createworkspacev2"@.len() == 17);
    }
    assert("activelayout"@ != "destroyworkspace"@) by {
        reveal_strlit("destroyworkspace");
        assert("destroyworkspace"@.len() == 16);
    }
    assert("activelayout"@ != "destroyworkspacev2"@) by {
        reveal_strlit("destroyworkspacev2");
        assert("destroyworkspacev2"@.len() == 18);
    }
    assert("activelayout"@ != "moveworkspace"@) by {
        reveal_strlit("moveworkspace");
        assert("moveworkspace"@.len() == 13);
    }
    assert("activelayout"@ != "moveworkspacev2"@) by {
        reveal_strlit("moveworkspacev2");
        assert("moveworkspacev2"@.len() == 15);
    }
    assert("activelayout"@ != "focusedmon"@) by {
        reveal_strlit("focusedmon");
        assert("focusedmon"@.len() == 10);
    }
    assert("activelayout"@ != "fullscreen"@) by {
        reveal_strlit("fullscreen");
        assert("fullscreen"@.len() == 10);
    }
    assert("activelayout"@ != "monitoradded"@) by {
        reveal_strlit("monitoradded");
        assert("monitoradded"@[0] == 'm' && "activelayout"@[0] == 'a');
    }
    assert("activelayout"@ != "monitoraddedv2"@) by {
        reveal_strlit("monitoraddedv2");
        assert("monitoraddedv2"@.len() == 14);
    }
    assert("activelayout"@ != "monitorremoved"@) by {
        reveal_strlit("monitorremoved");
        assert("monitorremoved"@.len() == 14);
    }
    assert("activelayout"@ != "activewindow"@) by {
        reveal_strlit("activewindow");
        assert("activewindow"@[6] == 'w' && "activelayout"@[6] == 'l');
    }
    assert("activelayout"@ != "activewindowv2"@) by {
        reveal_strlit("activewindowv2");
        assert("activewindowv2"@.len() == 14);
    }
    assert("activelayout"@ != "openwindow"@) by {
        reveal_strlit("openwindow");
        assert("openwindow"@.len() == 10);
    }
    assert("activelayout"@ != "closewindow"@) by {
        reveal_strlit("closewindow");
        assert("closewindow"@.len() == 11);
    }
    assert("activelayout"@ != "movewindow"@) by {
        reveal_strlit("movewindow");
        assert("movewindow"@.len() == 10);
    }
    assert("activelayout"@ != "movewindowv2"@) by {
        reveal_strlit("movewindowv2");
        assert("movewindowv2"@[0] == 'm' && "activelayout"@[0] == 'a');
    }
    assert("activelayout"@ != "urgent"@) by {
        reveal_strlit("urgent");
        assert("urgent"@.len() == 6);
    }
    assert("activelayout"@ != "submap"@) by {
        reveal_strlit("submap");
        assert("submap"@.len() == 6);
    }
}

/// `windowtitlev2` is none of the event names tested before it.
proof fn lemma_name_windowtitlev2()
    ensures
        "windowtitlev2"@ != "workspace"@,
        "windowtitlev2"@ != "workspacev2"@,
        "windowtitlev2"@ != "createworkspace"@,
        "windowtitlev2"@ != "createworkspacev2"@,
        "windowtitlev2"@ != "destroyworkspace"@,
        "windowtitlev2"@ != "destroyworkspacev2"@,
        "windowtitlev2"@ != "moveworkspace"@,
        "windowtitlev2"@ != "moveworkspacev2"@,
        "windowtitlev2"@ != "focusedmon"@,
        "windowtitlev2"@ != "fullscreen"@,
        "windowtitlev2"@ != "monitoradded"@,
        "windowtitlev2"@ != "monitoraddedv2"@,
        "windowtitlev2"@ != "monitorremoved"@,
        "windowtitlev2"@ != "activewindow"@,
        "windowtitlev2"@ != "activewindowv2"@,
        "windowtitlev2"@ != "openwindow"@,
        "windowtitlev2"@ != "closewindow"@,
        "windowtitlev2"@ != "movewindow"@,
        "windowtitlev2"@ != "movewindowv2"@,
        "windowtitlev2"@ != "urgent"@,
        "windowtitlev2"@ != "submap"@,
        "windowtitlev2"@ != "activelayout"@,
        "windowtitlev2"@ != "changefloatingmode"@,
        "windowtitlev2"@ != "windowtitle"@,
{
    reveal_strlit("windowtitlev2");
    assert("windowtitlev2"@ != "workspace"@) by {
        reveal_strlit("workspace");
        assert("workspace"@.len() == 9);
    }
    assert("windowtitlev2"@ != "workspacev2"@) by {
        reveal_strlit("workspacev2");
        assert("workspacev2"@.len() == 11);
    }
    assert("windowtitlev2"@ != "createworkspace"@) by {
        reveal_strlit("createworkspace");
        assert("createworkspace"@.len() == 15);
    }
    assert("windowtitlev2"@ != "createworkspacev2"@) by {
        reveal_strlit("createworkspacev2");
        assert("createworkspacev2"@.len() == 17);
    }
    assert("windowtitlev2"@ != "destroyworkspace"@) by {
        reveal_strlit("destroyworkspace");
        assert("destroyworkspace"@.len() == 16);
    }
    assert("windowtitlev2"@ != "destroyworkspacev2"@) by {
        reveal_strlit("destroyworkspacev2");
        assert("destroyworkspacev2"@.len() == 18);
    }
    assert("windowtitlev2"@ != "moveworkspace"@) by {
        reveal_strlit("moveworkspace");
        assert("moveworkspace"@[0] == 'm' && "windowtitlev2"@[0] == 'w');
    }
    assert("windowtitlev2"@ != "moveworkspacev2"@) by {
        reveal_strlit("moveworkspacev2");
        assert("moveworkspacev2"@.len() == 15);
    }
    assert("windowtitlev2"@ != "focusedmon"@) by {
        reveal_strlit("focusedmon");
        assert("focusedmon"@.len() == 10);
    }
    assert("windowtitlev2"@ != "fullscreen"@) by {
        reveal_strlit("fullscreen");
        assert("fullscreen"@.len() == 10);
    }
    assert("windowtitlev2"@ != "monitoradded"@) by {
        reveal_strlit("monitoradded");
        assert("monitoradded"@.len() == 12);
    }
    assert("windowtitlev2"@ != "monitoraddedv2"@) by {
        reveal_strlit("monitoraddedv2");
        assert("monitoraddedv2"@.len() == 14);
    }
    assert("windowtitlev2"@ != "monitorremoved"@) by {
        reveal_strlit("monitorremoved");
        assert("monitorremoved"@.len() == 14);
    }
    assert("windowtitlev2"@ != "activewindow"@) by {
        reveal_strlit("activewindow");
        assert("activewindow"@.len() == 12);
    }
    assert("windowtitlev2"@ != "activewindowv2"@) by {
        reveal_strlit("activewindowv2");
        assert("activewindowv2"@.len() == 14);
    }
    assert("windowtitlev2"@ != "openwindow"@) by {
        reveal_strlit("openwindow");
        assert("openwindow"@.len() == 10);
    }
    assert("windowtitlev2"@ != "closewindow"@) by {
        reveal_strlit("closewindow");
        assert("closewindow"@.len() == 11);
    }
    assert("windowtitlev2"@ != "movewindow"@) by {
        reveal_strlit("movewindow");
        assert("movewindow"@.len() == 10);
    }
    assert("windowtitlev2"@ != "movewindowv2"@) by {
        reveal_strlit("movewindowv2");
        assert("movewindowv2"@.len() == 12);
    }
    assert("windowtitlev2"@ != "urgent"@) by {
        reveal_strlit("urgent");
        assert("urgent"@.len() == 6);
    }
    assert("windowtitlev2"@ != "submap"@) by {
        reveal_strlit("submap");
        assert("submap"@.len() == 6);
    }
    assert("windowtitlev2"@ != "activelayout"@) by {
        reveal_strlit("activelayout");
        assert("activelayout"@.len() == 12);
    }
    assert("windowtitlev2"@ != "changefloatingmode"@) by {
        reveal_strlit("changefloatingmode");
        assert("changefloatingmode"@.len() == 18);
    }
    assert("windowtitlev2"@ != "windowtitle"@) by {
        reveal_strlit("windowtitle");
        assert("windowtitle"@.len() == 11);
    }
}

/// `openwindow` is none of the event names tested before it.
proof fn lemma_name_openwindow()
    ensures
        "openwindow"@ != "workspace"@,
        "openwindow"@ != "workspacev2"@,
        "openwindow"@ != "createworkspace"@,
        "openwindow"@ != "createworkspacev2"@,
        "openwindow"@ != "destroyworkspace"@,
        "openwindow"@ != "destroyworkspacev2"@,
        "openwindow"@ != "moveworkspace"@,
        "openwindow"@ != "moveworkspacev2"@,
        "openwindow"@ != "focusedmon"@,
        "openwindow"@ != "fullscreen"@,
        "openwindow"@ != "monitoradded"@,
        "openwindow"@ != "monitoraddedv2"@,
        "openwindow"@ != "monitorremoved"@,
        "openwindow"@ != "activewindow"@,
        "openwindow"@ != "activewindowv2"@,
{
    reveal_strlit("openwindow");
    assert("openwindow"@ != "workspace"@) by {
        reveal_strlit("workspace");
        assert("workspace"@.len() == 9);
    }
    assert("openwindow"@ != "workspacev2"@) by {
        reveal_strlit("workspacev2");
        assert("workspacev2"@.len() == 11);
    }
    assert("openwindow"@ != "createworkspace"@) by {
        reveal_strlit("createworkspace");
        assert("createworkspace"@.len() == 15);
    }
    assert("openwindow"@ != "createworkspacev2"@) by {
        reveal_strlit("createworkspacev2");
        assert("createworkspacev2"@.len() == 17);
    }
    assert("openwindow"@ != "destroyworkspace"@) by {
        reveal_strlit("destroyworkspace");
        assert("destroyworkspace"@.len() == 16);
    }
    assert("openwindow"@ != "destroyworkspacev2"@) by {
        reveal_strlit("destroyworkspacev2");
        assert("destroyworkspacev2"@.len() == 18);
    }
    assert("openwindow"@ != "moveworkspace"@) by {
        reveal_strlit("moveworkspace");
        assert("moveworkspace"@.len() == 13);
    }
    assert("openwindow"@ != "moveworkspacev2"@) by {
        reveal_strlit("moveworkspacev2");
        assert("moveworkspacev2"@.len() == 15);
    }
    assert("openwindow"@ != "focusedmon"@) by {
        reveal_strlit("focusedmon");
        assert("focusedmon"@[0] == 'f' && "openwindow"@[0] == 'o');
    }
    assert("openwindow"@ != "fullscreen"@) by {
        reveal_strlit("fullscreen");
        assert("fullscreen"@[0] == 'f' && "openwindow"@[0] == 'o');
    }
    assert("openwindow"@ != "monitoradded"@) by {
        reveal_strlit("monitoradded");
        assert("monitoradded"@.len() == 12);
    }
    assert("openwindow"@ != "monitoraddedv2"@) by {
        reveal_strlit("monitoraddedv2");
        assert("monitoraddedv2"@.len() == 14);
    }
    assert("openwindow"@ != "monitorremoved"@) by {
        reveal_strlit("monitorremoved");
        assert("monitorremoved"@.len() == 14);
    }
    assert("openwindow"@ != "activewindow"@) by {
        reveal_strlit("activewindow");
        assert("activewindow"@.len() == 12);
    }
    assert("openwindow"@ != "activewindowv2"@) by {
        reveal_strlit("activewindowv2");
        assert("activewindowv2"@.len() == 14);
    }
}


/// `monitoradded>><payload>`: a monitor named by the payload has been added (no id, no description).
pub proof fn law_monitoradded_line(v: Seq<char>)
    requires
        ends_clean(v),
    ensures
        parse_event_spec("monitoradded>>"@ + v) == Some(EventModel::MonitorAdded { id: None, name: v, description: None }),
{
    reveal_strlit(">>");
    reveal_strlit("monitoradded>>");
    reveal_strlit("monitoradded");
    assert("monitoradded>>"@ + v =~= "monitoradded"@ + ">>"@ + v);
    lemma_line_parts("monitoradded"@, v);
    lemma_name_monitoradded();
}

/// `monitorremoved>><payload>`: the monitor named by the payload is gone.
pub proof fn law_monitorremoved_line(v: Seq<char>)
    requires
        ends_clean(v),
    ensures
        parse_event_spec("monitorremoved>>"@ + v) == Some(EventModel::MonitorRemoved { name: v }),
{
    reveal_strlit(">>");
    reveal_strlit("monitorremoved>>");
    reveal_strlit("monitorremoved");
    assert("monitorremoved>>"@ + v =~= "monitorremoved"@ + ">>"@ + v);
    lemma_line_parts("monitorremoved"@, v);
    lemma_name_monitorremoved();
}

/// `activewindowv2>><payload>`: the window at the payload address has focus.
pub proof fn law_activewindowv2_line(v: Seq<char>)
    requires
        ends_clean(v),
    ensures
        parse_event_spec("activewindowv2>>"@ + v) == Some(EventModel::ActiveWindowV2 { address: v }),
{
    reveal_strlit(">>");
    reveal_strlit("activewindowv2>>");
    reveal_strlit("activewindowv2");
    assert("activewindowv2>>"@ + v =~= "activewindowv2"@ + ">>"@ + v);
    lemma_line_parts("activewindowv2"@, v);
    lemma_name_activewindowv2();
}

/// `closewindow>><payload>`: the window at the payload address closed.
pub proof fn law_closewindow_line(v: Seq<char>)
    requires
        ends_clean(v),
    ensures
        parse_event_spec("closewindow>>"@ + v) == Some(EventModel::WindowClosed { address: v }),
{
    reveal_strlit(">>");
    reveal_strlit("closewindow>>");
    reveal_strlit("closewindow");
    assert("closewindow>>"@ + v =~= "closewindow"@ + ">>"@ + v);
    lemma_line_parts("closewindow"@, v);
    lemma_name_closewindow();
}

/// `urgent>><payload>`: the window at the payload address asks for attention.
pub proof fn law_urgent_line(v: Seq<char>)
    requires
        ends_clean(v),
    ensures
        parse_event_spec("urgent>>"@ + v) == Some(EventModel::Urgent { address: v }),
{
    reveal_strlit(">>");
    reveal_strlit("urgent>>");
    reveal_strlit("urgent");
    assert("urgent>>"@ + v =~= "urgent"@ + ">>"@ + v);
    lemma_line_parts("urgent"@, v);
    lemma_name_urgent();
}

/// `submap>><payload>`: the keyboard submap named by the payload is active.
pub proof fn law_submap_line(v: Seq<char>)
    requires
        ends_clean(v),
    ensures
        parse_event_spec("submap>>"@ + v) == Some(EventModel::SubMap { name: v }),
{
    reveal_strlit(">>");
    reveal_strlit("submap>>");
    reveal_strlit("submap");
    assert("submap>>"@ + v =~= "submap"@ + ">>"@ + v);
    lemma_line_parts("submap"@, v);
    lemma_name_submap();
}

/// `windowtitle>><payload>`: the window at the payload address changed its title.
pub proof fn law_windowtitle_line(v: Seq<char>)
    requires
        ends_clean(v),
    ensures
        parse_event_spec("windowtitle>>"@ + v) == Some(EventModel::WindowTitle { address: v }),
{
    reveal_strlit(">>");
    reveal_strlit("windowtitle>>");
    reveal_strlit("windowtitle");
    assert("windowtitle>>"@ + v =~= "windowtitle"@ + ">>"@ + v);
    lemma_line_parts("windowtitle"@, v);
    lemma_name_windowtitle();
}

/// `activewindow>><a>,<b>`: the focused window has class `<a>` and title `<b>` (the title may hold commas).
pub proof fn law_activewindow_line(a: Seq<char>, b: Seq<char>)
    requires
        lacks(a, ','),
        ends_clean(b),
    ensures
        parse_event_spec("activewindow>>"@ + a + seq![','] + b) == Some(EventModel::ActiveWindow { class: a, title: b }),
{
    let data = a + seq![','] + b;
    lemma_comma_split(a, b);
    lemma_comma_payload_clean(a, b);
    reveal_strlit(">>");
    reveal_strlit("activewindow>>");
    reveal_strlit("activewindow");
    assert("activewindow>>"@ + a + seq![','] + b =~= "activewindow"@ + ">>"@ + data);
    lemma_line_parts("activewindow"@, data);
    lemma_name_activewindow();
}

/// `movewindow>><a>,<b>`: the window at `<a>` moved to workspace `<b>`.
pub proof fn law_movewindow_line(a: Seq<char>, b: Seq<char>)
    requires
        lacks(a, ','),
        ends_clean(b),
    ensures
        parse_event_spec("movewindow>>"@ + a + seq![','] + b) == Some(EventModel::WindowMoved { address: a, workspace_name: b }),
{
    let data = a + seq![','] + b;
    lemma_comma_split(a, b);
    lemma_comma_payload_clean(a, b);
    reveal_strlit(">>");
    reveal_strlit("movewindow>>");
    reveal_strlit("movewindow");
    assert("movewindow>>"@ + a + seq![','] + b =~= "movewindow"@ + ">>"@ + data);
    lemma_line_parts("movewindow"@, data);
    lemma_name_movewindow();
}

/// `movewindowv2>><a>,<b>`: the window at `<a>` moved to the workspace described by `<b>`.
pub proof fn law_movewindowv2_line(a: Seq<char>, b: Seq<char>)
    requires
        lacks(a, ','),
        ends_clean(b),
    ensures
        parse_event_spec("movewindowv2>>"@ + a + seq![','] + b) == Some(EventModel::WindowMoved { address: a, workspace_name: b }),
{
    let data = a + seq![','] + b;
    lemma_comma_split(a, b);
    lemma_comma_payload_clean(a, b);
    reveal_strlit(">>");
    reveal_strlit("movewindowv2>>");
    reveal_strlit("movewindowv2");
    assert("movewindowv2>>"@ + a + seq![','] + b =~= "movewindowv2"@ + ">>"@ + data);
    lemma_line_parts("movewindowv2"@, data);
    lemma_name_movewindowv2();
}

/// `activelayout>><a>,<b>`: keyboard `<a>` switched to layout `<b>`.
pub proof fn law_activelayout_line(a: Seq<char>, b: Seq<char>)
    requires
        lacks(a, ','),
        ends_clean(b),
    ensures
        parse_event_spec("activelayout>>"@ + a + seq![','] + b) == Some(EventModel::LayoutChanged { keyboard: a, layout: b }),
{
    let data = a + seq![','] + b;
    lemma_comma_split(a, b);
    lemma_comma_payload_clean(a, b);
    reveal_strlit(">>");
    reveal_strlit("activelayout>>");
    reveal_strlit("activelayout");
    assert("activelayout>>"@ + a + seq![','] + b =~= "activelayout"@ + ">>"@ + data);
    lemma_line_parts("activelayout"@, data);
    lemma_name_activelayout();
}

/// `windowtitlev2>><a>,<b>`: the window at `<a>` is now titled `<b>`.
pub proof fn law_windowtitlev2_line(a: Seq<char>, b: Seq<char>)
    requires
        lacks(a, ','),
        ends_clean(b),
    ensures
        parse_event_spec("windowtitlev2>>"@ + a + seq![','] + b) == Some(EventModel::WindowTitleV2 { address: a, title: b }),
{
    let data = a + seq![','] + b;
    lemma_comma_split(a, b);
    lemma_comma_payload_clean(a, b);
    reveal_strlit(">>");
    reveal_strlit("windowtitlev2>>");
    reveal_strlit("windowtitlev2");
    assert("windowtitlev2>>"@ + a + seq![','] + b =~= "windowtitlev2"@ + ">>"@ + data);
    lemma_line_parts("windowtitlev2"@, data);
    lemma_name_windowtitlev2();
}

/// `<a>,<b>` ends clean when `<b>` does.
proof fn lemma_comma_payload_clean(a: Seq<char>, b: Seq<char>)
    requires
        ends_clean(b),
    ensures
        ends_clean(a + seq![','] + b),
{
    let data = a + seq![','] + b;
    if b.len() > 0 {
        assert(data.last() == b.last());
    } else {
        assert(data.last() == ',');
    }
}

/// `openwindow>><address>,<workspace>,<class>,<title>`: a window opened at
/// that address on that workspace, with that class and title (the title
/// may hold commas).
pub proof fn law_openwindow_line(address: Seq<char>, workspace: Seq<char>, class: Seq<char>, title: Seq<char>)
    requires
        lacks(address, ','),
        lacks(workspace, ','),
        lacks(class, ','),
        ends_clean(title),
    ensures
        parse_event_spec(
            "openwindow>>"@ + address + seq![','] + workspace + seq![','] + class + seq![','] + title,
        ) == Some(EventModel::WindowOpened { address, workspace_name: workspace, class, title }),
{
    let r2 = class + seq![','] + title;
    let r1 = workspace + seq![','] + r2;
    let data = address + seq![','] + r1;
    lemma_comma_split(address, r1);
    lemma_comma_split(workspace, r2);
    lemma_comma_split(class, title);
    lemma_comma_payload_clean(class, title);
    lemma_comma_payload_clean(workspace, r2);
    lemma_comma_payload_clean(address, r1);
    reveal_strlit(">>");
    reveal_strlit("openwindow>>");
    reveal_strlit("openwindow");
    assert("openwindow>>"@ + address + seq![','] + workspace + seq![','] + class + seq![','] + title
        =~= "openwindow"@ + ">>"@ + data);
    lemma_line_parts("openwindow"@, data);
    lemma_name_openwindow();
}


/// What `changefloatingmode` makes of its payload: the flag field, trimmed,
/// decides whether the window floats.
proof fn lemma_floating_parts(data: Seq<char>)
    ensures
        event_from_parts("changefloatingmode"@, data) == (match split_first(data, ',').1 {
            Some(flag) => Some(
                EventModel::FloatingMode {
                    address: split_first(data, ',').0,
                    floating: trim(flag) == "1"@,
                },
            ),
            None => None,
        }),
{
    reveal_strlit("changefloatingmode");
    let name = "changefloatingmode"@;
    assert(name.len() == 18 && name[0] == 'c');
    assert(name != "workspace"@) by {
        reveal_strlit("workspace");
        assert("workspace"@.len() != 18 || "workspace"@[0] != 'c');
    }
    assert(name != "workspacev2"@) by {
        reveal_strlit("workspacev2");
        assert("workspacev2"@.len() != 18 || "workspacev2"@[0] != 'c');
    }
    assert(name != "createworkspace"@) by {
        reveal_strlit("createworkspace");
        assert("createworkspace"@.len() != 18 || "createworkspace"@[0] != 'c');
    }
    assert(name != "createworkspacev2"@) by {
        reveal_strlit("createworkspacev2");
        assert("createworkspacev2"@.len() != 18 || "createworkspacev2"@[0] != 'c');
    }
    assert(name != "destroyworkspace"@) by {
        reveal_strlit("destroyworkspace");
        assert("destroyworkspace"@.len() != 18 || "destroyworkspace"@[0] != 'c');
    }
    assert(name != "destroyworkspacev2"@) by {
        reveal_strlit("destroyworkspacev2");
        assert("destroyworkspacev2"@.len() != 18 || "destroyworkspacev2"@[0] != 'c');
    }
    assert(name != "moveworkspace"@) by {
        reveal_strlit("moveworkspace");
        assert("moveworkspace"@.len() != 18 || "moveworkspace"@[0] != 'c');
    }
    assert(name != "moveworkspacev2"@) by {
        reveal_strlit("moveworkspacev2");
        assert("moveworkspacev2"@.len() != 18 || "moveworkspacev2"@[0] != 'c');
    }
    assert(name != "focusedmon"@) by {
        reveal_strlit("focusedmon");
        assert("focusedmon"@.len() != 18 || "focusedmon"@[0] != 'c');
    }
    assert(name != "fullscreen"@) by {
        reveal_strlit("fullscreen");
        assert("fullscreen"@.len() != 18 || "fullscreen"@[0] != 'c');
    }
    assert(name != "monitoradded"@) by {
        reveal_strlit("monitoradded");
        assert("monitoradded"@.len() != 18 || "monitoradded"@[0] != 'c');
    }
    assert(name != "monitoraddedv2"@) by {
        reveal_strlit("monitoraddedv2");
        assert("monitoraddedv2"@.len() != 18 || "monitoraddedv2"@[0] != 'c');
    }
    assert(name != "monitorremoved"@) by {
        reveal_strlit("monitorremoved");
        assert("monitorremoved"@.len() != 18 || "monitorremoved"@[0] != 'c');
    }
    assert(name != "activewindow"@) by {
        reveal_strlit("activewindow");
        assert("activewindow"@.len() != 18 || "activewindow"@[0] != 'c');
    }
    assert(name != "activewindowv2"@) by {
        reveal_strlit("activewindowv2");
        assert("activewindowv2"@.len() != 18 || "activewindowv2"@[0] != 'c');
    }
    assert(name != "openwindow"@) by {
        reveal_strlit("openwindow");
        assert("openwindow"@.len() != 18 || "openwindow"@[0] != 'c');
    }
    assert(name != "closewindow"@) by {
        reveal_strlit("closewindow");
        assert("closewindow"@.len() != 18 || "closewindow"@[0] != 'c');
    }
    assert(name != "movewindow"@) by {
        reveal_strlit("movewindow");
        assert("movewindow"@.len() != 18 || "movewindow"@[0] != 'c');
    }
    assert(name != "movewindowv2"@) by {
        reveal_strlit("movewindowv2");
        assert("movewindowv2"@.len() != 18 || "movewindowv2"@[0] != 'c');
    }
    assert(name != "urgent"@) by {
        reveal_strlit("urgent");
        assert("urgent"@.len() != 18 || "urgent"@[0] != 'c');
    }
    assert(name != "submap"@) by {
        reveal_strlit("submap");
        assert("submap"@.len() != 18 || "submap"@[0] != 'c');
    }
    assert(name != "activelayout"@) by {
        reveal_strlit("activelayout");
        assert("activelayout"@.len() != 18 || "activelayout"@[0] != 'c');
    }
}

/// `changefloatingmode>><address>,<flag>` reports the window at that
/// address, floating exactly when the flag (trimmed) is `1`: `1` makes it
/// float, `0` (or anything else) makes it tiled.
pub proof fn law_floating_mode_flag(address: Seq<char>, flag: Seq<char>)
    requires
        forall|j: int| 0 <= j < address.len() ==> address[j] != ',',
    ensures
        flag.len() == 0 || (flag.last() != '\n' && flag.last() != '\r') ==> parse_event_spec(
            "changefloatingmode>>"@ + address + seq![','] + flag,
        ) == Some(EventModel::FloatingMode { address, floating: trim(flag) == "1"@ }),
        parse_event_spec("changefloatingmode>>"@ + address + seq![','] + seq!['1']) == Some(
            EventModel::FloatingMode { address, floating: true },
        ),
        parse_event_spec("changefloatingmode>>"@ + address + seq![','] + seq!['0']) == Some(
            EventModel::FloatingMode { address, floating: false },
        ),
{
    lemma_floating_line(address, flag);
    lemma_floating_line(address, seq!['1']);
    lemma_floating_line(address, seq!['0']);
    lemma_trim_one_char('1');
    lemma_trim_one_char('0');
    assert(seq!['1'] == "1"@) by {
        reveal_strlit("1");
        assert(seq!['1'] =~= "1"@);
    }
    assert(seq!['0'] != "1"@) by {
        reveal_strlit("1");
        assert("1"@[0] == '1');
    }
}

/// A single non-blank character is its own trimmed text.
proof fn lemma_trim_one_char(c: char)
    requires
        !is_unicode_ws(c),
    ensures
        trim(seq![c]) == seq![c],
{
    assert(trim_start(seq![c]) == seq![c]);
    assert(trim_end(seq![c]) == seq![c]);
}

/// The floating-mode line with address `address` and flag `flag`.
proof fn lemma_floating_line(address: Seq<char>, flag: Seq<char>)
    requires
        forall|j: int| 0 <= j < address.len() ==> address[j] != ',',
    ensures
        flag.len() == 0 || (flag.last() != '\n' && flag.last() != '\r') ==> parse_event_spec(
            "changefloatingmode>>"@ + address + seq![','] + flag,
        ) == Some(EventModel::FloatingMode { address, floating: trim(flag) == "1"@ }),
{
    reveal_strlit("changefloatingmode>>");
    reveal_strlit("changefloatingmode");
    reveal_strlit(">>");
    if flag.len() == 0 || (flag.last() != '\n' && flag.last() != '\r') {
        let name = "changefloatingmode"@;
        let data = address + seq![','] + flag;
        let line = "changefloatingmode>>"@ + address + seq![','] + flag;
        assert(line =~= name + ">>"@ + data);
        lemma_trim_line_end_append(line, Seq::<char>::empty());
        assert(line + Seq::<char>::empty() =~= line);
        assert(trim_line_end(Seq::<char>::empty()) =~= Seq::<char>::empty());
        assert(trim_line_end(line) == line) by {
            if flag.len() > 0 {
                assert(line.last() == flag.last());
            } else {
                assert(line.last() == ',');
            }
        }
        lemma_split_after_name(name, data);
        let k = address.len() as int;
        assert(data[k] == ',');
        assert forall|j: int| 0 <= j < k implies !is_char(',')(#[trigger] data[j]) by {
            assert(data[j] == address[j]);
        }
        assert(is_first_match(data, is_char(','), k));
        lemma_first_match_is(data, is_char(','), k);
        assert(data.subrange(0, k) =~= address);
        assert(data.subrange(k + 1, data.len() as int) =~= flag);
        lemma_floating_parts(data);
    }
}

/// Every workspace id announced by Hyprland comes out of the parser as it
/// went in: `workspace>><id>` and `workspacev2>><id>,<name>` are a change to
/// workspace `<id>`, `createworkspace>><id>` and `createworkspacev2>><id>,<name>`
/// announce it, and `destroyworkspace>><id>` and
/// `destroyworkspacev2>><id>,<name>` remove it, for negative ids too and
/// whatever the workspace's name.
pub proof fn law_workspace_event_round_trip(id: i32, ws_name: Seq<char>)
    ensures
        parse_event_spec("workspace>>"@ + int_to_decimal(id as int)) == Some(
            EventModel::WorkspaceChanged { id },
        ),
        parse_event_spec("workspacev2>>"@ + int_to_decimal(id as int) + seq![','] + ws_name)
            == Some(EventModel::WorkspaceChanged { id }),
        parse_event_spec("createworkspace>>"@ + int_to_decimal(id as int)) == Some(
            EventModel::WorkspaceAdded { id },
        ),
        parse_event_spec(
            "createworkspacev2>>"@ + int_to_decimal(id as int) + seq![','] + ws_name,
        ) == Some(EventModel::WorkspaceAdded { id }),
        parse_event_spec("destroyworkspace>>"@ + int_to_decimal(id as int)) == Some(
            EventModel::WorkspaceDestroyed { id },
        ),
        parse_event_spec(
            "destroyworkspacev2>>"@ + int_to_decimal(id as int) + seq![','] + ws_name,
        ) == Some(EventModel::WorkspaceDestroyed { id }),
{
    lemma_changed_lines(id, ws_name);
    lemma_added_lines(id, ws_name);
    lemma_destroyed_lines(id, ws_name);
}

} // verus!
