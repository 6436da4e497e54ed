use hyprdeck::event::{parse_event, HyprEvent};
use hyprdeck::state::{normalize_address, HyprState, MonitorInfo, WindowInfo, Workspace};


fn ws(id: i32, name: &str) -> Workspace {
    Workspace {
        id,
        name: name.to_owned(),
        monitor: String::new(),
        has_urgent: false,
    }
}

fn win(addr: &str, class: &str, title: &str, ws_id: i32) -> WindowInfo {
    WindowInfo {
        address: addr.to_owned(),
        title: title.to_owned(),
        class: class.to_owned(),
        workspace_id: ws_id,
        is_focused: false,
        is_fullscreen: false,
    }
}

// --- parse_event ---

#[test]
fn parses_workspace_changed() {
    assert_eq!(
        parse_event("workspace>>3"),
        Some(HyprEvent::WorkspaceChanged { id: 3 }),
    );
}

#[test]
fn parses_workspacev2_uses_id_field() {
    assert_eq!(
        parse_event("workspacev2>>5,five"),
        Some(HyprEvent::WorkspaceChanged { id: 5 }),
    );
}

#[test]
fn parses_negative_workspace_id() {
    assert_eq!(
        parse_event("workspace>>-99"),
        Some(HyprEvent::WorkspaceChanged { id: -99 }),
    );
}

#[test]
fn parses_create_and_destroy_workspace() {
    assert_eq!(
        parse_event("createworkspace>>7"),
        Some(HyprEvent::WorkspaceAdded { id: 7 }),
    );
    assert_eq!(
        parse_event("destroyworkspace>>7"),
        Some(HyprEvent::WorkspaceDestroyed { id: 7 }),
    );
}

#[test]
fn parses_moveworkspace() {
    assert_eq!(
        parse_event("moveworkspace>>4,DP-1"),
        Some(HyprEvent::WorkspaceMoved {
            id: 4,
            monitor: "DP-1".to_owned(),
        }),
    );
}

#[test]
fn parses_focusedmon() {
    assert_eq!(
        parse_event("focusedmon>>DP-1,2"),
        Some(HyprEvent::ActiveMonitor {
            name: "DP-1".to_owned(),
            workspace_id: 2,
        }),
    );
}

#[test]
fn parses_activewindow_with_comma_in_title() {
    assert_eq!(
        parse_event("activewindow>>kitty,~/my project, the cool one"),
        Some(HyprEvent::ActiveWindow {
            class: "kitty".to_owned(),
            title: "~/my project, the cool one".to_owned(),
        }),
    );
}

#[test]
fn parses_activewindow_empty_title() {
    assert_eq!(
        parse_event("activewindow>>firefox,"),
        Some(HyprEvent::ActiveWindow {
            class: "firefox".to_owned(),
            title: String::new(),
        }),
    );
}

#[test]
fn parses_activewindowv2_address() {
    assert_eq!(
        parse_event("activewindowv2>>5649f0a1e030"),
        Some(HyprEvent::ActiveWindowV2 {
            address: "5649f0a1e030".to_owned(),
        }),
    );
}

#[test]
fn parses_fullscreen_enter_and_exit() {
    assert_eq!(
        parse_event("fullscreen>>1"),
        Some(HyprEvent::Fullscreen { enter: true }),
    );
    assert_eq!(
        parse_event("fullscreen>>0"),
        Some(HyprEvent::Fullscreen { enter: false }),
    );
}

#[test]
fn parses_monitor_added_and_removed() {
    assert_eq!(
        parse_event("monitoradded>>DP-2"),
        Some(HyprEvent::MonitorAdded {
            id: None,
            name: "DP-2".to_owned(),
            description: None,
        }),
    );
    assert_eq!(
        parse_event("monitorremoved>>DP-2"),
        Some(HyprEvent::MonitorRemoved {
            name: "DP-2".to_owned(),
        }),
    );
}

#[test]
fn parses_monitoraddedv2() {
    assert_eq!(
        parse_event("monitoraddedv2>>1,DP-2,Dell U2720Q"),
        Some(HyprEvent::MonitorAdded {
            id: Some(1),
            name: "DP-2".to_owned(),
            description: Some("Dell U2720Q".to_owned()),
        }),
    );
}

#[test]
fn parses_openwindow_all_fields() {
    assert_eq!(
        parse_event("openwindow>>5649f0a1e030,1,kitty,~/code/hyprdeck"),
        Some(HyprEvent::WindowOpened {
            address: "5649f0a1e030".to_owned(),
            workspace_name: "1".to_owned(),
            class: "kitty".to_owned(),
            title: "~/code/hyprdeck".to_owned(),
        }),
    );
}

#[test]
fn parses_openwindow_title_with_commas() {
    assert_eq!(
        parse_event("openwindow>>aabb,2,firefox,GitHub, Inc., Mozilla Firefox"),
        Some(HyprEvent::WindowOpened {
            address: "aabb".to_owned(),
            workspace_name: "2".to_owned(),
            class: "firefox".to_owned(),
            title: "GitHub, Inc., Mozilla Firefox".to_owned(),
        }),
    );
}

#[test]
fn parses_closewindow() {
    assert_eq!(
        parse_event("closewindow>>5649f0a1e030"),
        Some(HyprEvent::WindowClosed {
            address: "5649f0a1e030".to_owned(),
        }),
    );
}

#[test]
fn parses_movewindow() {
    assert_eq!(
        parse_event("movewindow>>aabb,3"),
        Some(HyprEvent::WindowMoved {
            address: "aabb".to_owned(),
            workspace_name: "3".to_owned(),
        }),
    );
}

#[test]
fn parses_urgent() {
    assert_eq!(
        parse_event("urgent>>aabb"),
        Some(HyprEvent::Urgent {
            address: "aabb".to_owned(),
        }),
    );
}

#[test]
fn parses_submap() {
    assert_eq!(
        parse_event("submap>>resize"),
        Some(HyprEvent::SubMap {
            name: "resize".to_owned(),
        }),
    );
}

#[test]
fn parses_activelayout() {
    assert_eq!(
        parse_event("activelayout>>AT Translated Set 2 keyboard,English (US)"),
        Some(HyprEvent::LayoutChanged {
            keyboard: "AT Translated Set 2 keyboard".to_owned(),
            layout: "English (US)".to_owned(),
        }),
    );
}

#[test]
fn parses_changefloatingmode() {
    assert_eq!(
        parse_event("changefloatingmode>>aabb,1"),
        Some(HyprEvent::FloatingMode {
            address: "aabb".to_owned(),
            floating: true,
        }),
    );
}

#[test]
fn parses_windowtitle_and_v2() {
    assert_eq!(
        parse_event("windowtitle>>aabb"),
        Some(HyprEvent::WindowTitle {
            address: "aabb".to_owned(),
        }),
    );
    assert_eq!(
        parse_event("windowtitlev2>>aabb,New, title"),
        Some(HyprEvent::WindowTitleV2 {
            address: "aabb".to_owned(),
            title: "New, title".to_owned(),
        }),
    );
}

#[test]
fn empty_workspace_payload_fails() {
    assert_eq!(parse_event("workspace>>"), None);
}

#[test]
fn unknown_event_returns_none() {
    assert_eq!(parse_event("somefutureevent>>data"), None);
}

#[test]
fn line_without_separator_returns_none() {
    assert_eq!(parse_event("no separator here"), None);
}

#[test]
fn trims_trailing_newline() {
    assert_eq!(
        parse_event("workspace>>2\n"),
        Some(HyprEvent::WorkspaceChanged { id: 2 }),
    );
}

// --- apply_event ---

fn base_state() -> HyprState {
    HyprState {
        workspaces: vec![ws(1, "1"), ws(2, "2")],
        active_workspace: 1,
        active_window: None,
        monitors: vec![MonitorInfo {
            name: "DP-1".to_owned(),
            width: 1920,
            height: 1080,
            active_workspace: 1,
        }],
        windows: vec![
            win("aabb", "kitty", "shell", 1),
            win("ccdd", "firefox", "GitHub", 2),
        ],
        focused_monitor: "DP-1".to_owned(),
    }
}

#[test]
fn apply_workspace_changed_updates_active() {
    let mut s = base_state();
    s.apply_event(&HyprEvent::WorkspaceChanged { id: 2 });
    assert_eq!(s.active_workspace, 2);
}

#[test]
fn apply_workspace_added_and_destroyed() {
    let mut s = base_state();
    s.apply_event(&HyprEvent::WorkspaceAdded { id: 9 });
    assert!(s.workspaces.iter().any(|w| w.id == 9));
    s.apply_event(&HyprEvent::WorkspaceDestroyed { id: 9 });
    assert!(!s.workspaces.iter().any(|w| w.id == 9));
}

#[test]
fn apply_workspace_added_is_idempotent() {
    let mut s = base_state();
    let before = s.workspaces.len();
    s.apply_event(&HyprEvent::WorkspaceAdded { id: 1 });
    assert_eq!(s.workspaces.len(), before);
}

#[test]
fn apply_window_opened_adds_to_list() {
    let mut s = base_state();
    s.apply_event(&HyprEvent::WindowOpened {
        address: "eeff".to_owned(),
        workspace_name: "1".to_owned(),
        class: "alacritty".to_owned(),
        title: "bash".to_owned(),
    });
    assert!(s.windows.iter().any(|w| w.address == "eeff"));
}

#[test]
fn apply_window_opened_strips_address_prefix() {
    let mut s = base_state();
    s.apply_event(&HyprEvent::WindowOpened {
        address: "0xeeff".to_owned(),
        workspace_name: "1".to_owned(),
        class: "alacritty".to_owned(),
        title: "bash".to_owned(),
    });
    assert!(s.windows.iter().any(|w| w.address == "eeff"));
}

#[test]
fn apply_window_closed_removes_from_list() {
    let mut s = base_state();
    s.apply_event(&HyprEvent::WindowClosed {
        address: "aabb".to_owned(),
    });
    assert!(!s.windows.iter().any(|w| w.address == "aabb"));
}

#[test]
fn apply_window_moved_updates_workspace() {
    let mut s = base_state();
    s.apply_event(&HyprEvent::WindowMoved {
        address: "aabb".to_owned(),
        workspace_name: "2".to_owned(),
    });
    let w = s.windows.iter().find(|w| w.address == "aabb").unwrap();
    assert_eq!(w.workspace_id, 2);
}

#[test]
fn apply_window_moved_unknown_address_is_ignored() {
    let mut s = base_state();
    s.apply_event(&HyprEvent::WindowMoved {
        address: "zzzz".to_owned(),
        workspace_name: "2".to_owned(),
    });
    // Base state unchanged
    assert_eq!(s.windows.len(), 2);
}

#[test]
fn apply_urgent_flags_correct_workspace() {
    let mut s = base_state();
    s.apply_event(&HyprEvent::Urgent {
        address: "ccdd".to_owned(),
    });
    let ws2 = s.workspaces.iter().find(|w| w.id == 2).unwrap();
    assert!(ws2.has_urgent);
    let ws1 = s.workspaces.iter().find(|w| w.id == 1).unwrap();
    assert!(!ws1.has_urgent);
}

#[test]
fn apply_urgent_unknown_window_is_ignored() {
    let mut s = base_state();
    s.apply_event(&HyprEvent::Urgent {
        address: "zzzz".to_owned(),
    });
    assert!(s.workspaces.iter().all(|w| !w.has_urgent));
}

#[test]
fn apply_urgent_skips_active_workspace() {
    // The window "aabb" lives on workspace 1, which is active on DP-1.
    // The user is already viewing it, so no alert should be raised.
    let mut s = base_state();
    s.apply_event(&HyprEvent::Urgent {
        address: "aabb".to_owned(),
    });
    let ws1 = s.workspaces.iter().find(|w| w.id == 1).unwrap();
    assert!(!ws1.has_urgent);
}

#[test]
fn workspace_changed_clears_urgent() {
    let mut s = base_state();
    s.apply_event(&HyprEvent::Urgent {
        address: "ccdd".to_owned(),
    });
    assert!(s.workspaces.iter().find(|w| w.id == 2).unwrap().has_urgent);
    s.apply_event(&HyprEvent::WorkspaceChanged { id: 2 });
    assert!(!s.workspaces.iter().find(|w| w.id == 2).unwrap().has_urgent);
}

#[test]
fn focused_mon_clears_urgent_on_target_workspace() {
    let mut s = base_state();
    s.workspaces
        .iter_mut()
        .find(|w| w.id == 2)
        .unwrap()
        .has_urgent = true;
    s.monitors.push(MonitorInfo {
        name: "DP-2".to_owned(),
        width: 1920,
        height: 1080,
        active_workspace: 1,
    });
    s.apply_event(&HyprEvent::ActiveMonitor {
        name: "DP-2".to_owned(),
        workspace_id: 2,
    });
    assert!(!s.workspaces.iter().find(|w| w.id == 2).unwrap().has_urgent);
}

#[test]
fn apply_active_window_v2_sets_focus() {
    let mut s = base_state();
    s.apply_event(&HyprEvent::ActiveWindowV2 {
        address: "ccdd".to_owned(),
    });
    assert_eq!(s.active_window.as_ref().unwrap().address, "ccdd");
    assert!(
        s.windows
            .iter()
            .find(|w| w.address == "ccdd")
            .unwrap()
            .is_focused
    );
    assert!(
        !s.windows
            .iter()
            .find(|w| w.address == "aabb")
            .unwrap()
            .is_focused
    );
}

#[test]
fn apply_monitor_added_and_removed() {
    let mut s = base_state();
    s.apply_event(&HyprEvent::MonitorAdded {
        id: Some(1),
        name: "DP-2".to_owned(),
        description: None,
    });
    assert!(s.monitors.iter().any(|m| m.name == "DP-2"));
    s.apply_event(&HyprEvent::MonitorRemoved {
        name: "DP-2".to_owned(),
    });
    assert!(!s.monitors.iter().any(|m| m.name == "DP-2"));
}

#[test]
fn apply_active_monitor_updates_workspace() {
    let mut s = base_state();
    s.apply_event(&HyprEvent::ActiveMonitor {
        name: "DP-1".to_owned(),
        workspace_id: 2,
    });
    assert_eq!(s.active_workspace, 2);
    assert_eq!(s.monitors[0].active_workspace, 2);
}

#[test]
fn apply_fullscreen_flags_active_window() {
    let mut s = base_state();
    s.apply_event(&HyprEvent::ActiveWindowV2 {
        address: "aabb".to_owned(),
    });
    s.apply_event(&HyprEvent::Fullscreen { enter: true });
    assert!(s.active_window.as_ref().unwrap().is_fullscreen);
    let w = s.windows.iter().find(|w| w.address == "aabb").unwrap();
    assert!(w.is_fullscreen);
}

#[test]
fn apply_windowtitlev2_updates_title() {
    let mut s = base_state();
    s.apply_event(&HyprEvent::WindowTitleV2 {
        address: "aabb".to_owned(),
        title: "new title".to_owned(),
    });
    let w = s.windows.iter().find(|w| w.address == "aabb").unwrap();
    assert_eq!(w.title, "new title");
}

#[test]
fn normalize_address_strips_prefix() {
    assert_eq!(normalize_address("0xdeadbeef"), "deadbeef");
    assert_eq!(normalize_address("deadbeef"), "deadbeef");
}


#[test]
fn workspace_ids_round_trip_through_every_workspace_form() {
    for id in [-2147483648i32, -99, -1, 0, 7, 2147483647] {
        assert_eq!(parse_event(&format!("workspace>>{id}")), Some(HyprEvent::WorkspaceChanged { id }));
        assert_eq!(parse_event(&format!("workspacev2>>{id},x")), Some(HyprEvent::WorkspaceChanged { id }));
        assert_eq!(parse_event(&format!("createworkspace>>{id}")), Some(HyprEvent::WorkspaceAdded { id }));
        assert_eq!(
            parse_event(&format!("createworkspacev2>>{id},scratch\n")),
            Some(HyprEvent::WorkspaceAdded { id })
        );
        assert_eq!(parse_event(&format!("destroyworkspace>>{id}")), Some(HyprEvent::WorkspaceDestroyed { id }));
        assert_eq!(
            parse_event(&format!("destroyworkspacev2>>{id},a>>b")),
            Some(HyprEvent::WorkspaceDestroyed { id })
        );
    }
}
