use hyprdeck::ipc::{
    assemble_state, command_socket_path, event_socket_path, window_from_client,
    workspace_from_query, CommandClient, IpcError, ReconnectBackoff, INITIAL_BACKOFF_MS,
    MAX_BACKOFF_MS,
};
use hyprdeck::state::MonitorInfo;

#[test]
fn assemble_state_picks_active_workspace_and_focused_window() {
    let workspaces = vec![
        workspace_from_query(1, "1".into(), "DP-1".into()),
        workspace_from_query(2, "2".into(), "DP-1".into()),
    ];
    let windows = vec![
        window_from_client("0x5649f0a1e030", "~/code".into(), "kitty".into(), 1, 0, false),
        window_from_client("0x5649f0a1e200", "GitHub, Inc.".into(), "firefox".into(), 2, 1, true),
    ];
    let monitors = vec![MonitorInfo {
        name: "DP-1".into(),
        width: 3840,
        height: 2160,
        active_workspace: 1,
    }];
    let active_ws = workspace_from_query(2, "2".into(), "DP-1".into());

    let state = assemble_state(workspaces, windows, monitors, active_ws);
    assert_eq!(state.active_workspace, 2);
    assert_eq!(state.windows.len(), 2);
    assert_eq!(state.monitors.len(), 1);
    let aw = state.active_window.expect("active window present");
    assert_eq!(aw.address, "5649f0a1e030");
}

#[test]
fn clients_normalise_address_and_focus() {
    let w = window_from_client("0x5649f0a1e200", "GitHub, Inc.".into(), "firefox".into(), 2, 1, true);
    assert_eq!(w.address, "5649f0a1e200");
    assert!(!w.is_focused);
    assert!(w.is_fullscreen);
    let focused = window_from_client("abc", "t".into(), "c".into(), 1, 0, false);
    assert_eq!(focused.address, "abc");
    assert!(focused.is_focused);
}

#[test]
fn no_focused_window_means_no_active_window() {
    let windows = vec![window_from_client("0x1", "a".into(), "c".into(), 1, 3, false)];
    let state = assemble_state(Vec::new(), windows, Vec::new(), workspace_from_query(1, "1".into(), String::new()));
    assert!(state.active_window.is_none());
}

#[test]
fn socket_paths_need_both_environment_values() {
    assert_eq!(
        command_socket_path(None, Some("sig".into())).unwrap_err(),
        IpcError::NoXdgRuntime
    );
    assert_eq!(
        event_socket_path(Some("/run/user/1000".into()), None).unwrap_err(),
        IpcError::NoHyprland
    );
    let path = event_socket_path(Some("/run/user/1000".into()), Some("abc".into())).unwrap();
    assert_eq!(path.to_str(), Some("/run/user/1000/hypr/abc/.socket2.sock"));
    let client = CommandClient::new(command_socket_path(Some("/tmp".into()), Some("x".into())).unwrap());
    assert_eq!(client.socket_path().to_str(), Some("/tmp/hypr/x/.socket.sock"));
}

#[test]
fn reconnect_backoff_doubles_up_to_thirty_seconds() {
    let mut backoff = ReconnectBackoff::new();
    assert_eq!(backoff.delay_ms, INITIAL_BACKOFF_MS);
    let mut seen = Vec::new();
    for _ in 0..7 {
        backoff.attempt_failed();
        seen.push(backoff.delay_ms);
    }
    assert_eq!(seen, vec![2000, 4000, 8000, 16000, 30000, 30000, 30000]);
    assert_eq!(backoff.delay_ms, MAX_BACKOFF_MS);
    backoff.reset();
    assert_eq!(backoff.delay_ms, 1000);
}

#[test]
fn command_and_event_sockets_share_directory() {
    let command = command_socket_path(Some("/run/user/1000".into()), Some("abc".into())).unwrap();
    let event = event_socket_path(Some("/run/user/1000".into()), Some("abc".into())).unwrap();
    assert_eq!(command.to_str(), Some("/run/user/1000/hypr/abc/.socket.sock"));
    assert_eq!(command.parent(), event.parent());
    assert_eq!(command.file_name().and_then(|n| n.to_str()), Some(".socket.sock"));
    assert_eq!(event.file_name().and_then(|n| n.to_str()), Some(".socket2.sock"));
    assert_eq!(
        event_socket_path(None, None).unwrap_err(),
        command_socket_path(None, None).unwrap_err()
    );
}

#[test]
fn socket_path_no_env_returns_error() {
    assert!(matches!(command_socket_path(None, None), Err(IpcError::NoXdgRuntime)));
}
