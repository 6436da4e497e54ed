use hyprdeck::module::DisplayMode;
use hyprdeck::modules::clock::default_format;
use hyprdeck::modules::lunar::{resolve_body, Body, PhaseName};
use hyprdeck::modules::network::{
    pick_primary, signal_bars, whole_link_speed, wifi_first, NetworkConfig, NetworkModule,
    NetworkPopup, NetworkSnapshot, PrimaryPick,
};
use hyprdeck::modules::power::{PowerCommands, PowerConfig, PowerModule, PowerPopup};
use hyprdeck::modules::render::speaker_wave_count;
use hyprdeck::modules::shell::{command_output_text, truncate_chars, ShellConfig, ShellModule};
use hyprdeck::modules::sound::{
    assemble_pactl_state, detect_backend, mutation_command, next_output_name, scroll_volume,
    volume_readout, AudioApplication, AudioBackend, AudioDevice, AudioMutation, DetectedBackend,
    SharedSoundState, SoundConfig, SoundModule, SoundState,
};
use hyprdeck::modules::sound::{applications_from_entries, devices_from_entries, PactlEntry};
use hyprdeck::modules::weather::{wmo_icon, WeatherConfig, WeatherModule};
use hyprdeck::modules::workspaces::{WorkspacesConfig, WorkspacesModule};
use hyprdeck::state::{HyprState, MonitorInfo, WindowInfo, Workspace};

#[test]
fn display_mode_default_is_icon() {
    assert_eq!(DisplayMode::default(), DisplayMode::Icon);
}

#[test]
fn default_format_is_hhmm() {
    assert_eq!(default_format(), "%H:%M");
}

// --- network ---

fn snapshot(name: &str, wireless: bool) -> NetworkSnapshot {
    NetworkSnapshot {
        is_connected: true,
        is_wireless: wireless,
        interface_name: name.to_owned(),
        ..NetworkSnapshot::default()
    }
}

#[test]
fn default_snapshot_is_disconnected() {
    let snap = NetworkSnapshot::default();
    assert!(!snap.is_connected);
    assert!(snap.ip_address.is_none());
}

#[test]
fn should_poll_true_initially() {
    let m = NetworkModule::new(NetworkConfig::default());
    assert!(m.should_poll(0));
}

#[test]
fn poll_waits_for_the_interval() {
    let mut m = NetworkModule::new(NetworkConfig {
        poll_secs: 5,
        ..NetworkConfig::default()
    });
    assert!(m.begin_poll(10_000));
    assert!(!m.begin_poll(14_999));
    assert!(m.begin_poll(15_000));
}

#[test]
fn finish_poll_reports_changes_only() {
    let mut m = NetworkModule::new(NetworkConfig::default());
    assert!(m.finish_poll(snapshot("eth0", false), vec![snapshot("eth0", false)]));
    assert!(!m.finish_poll(snapshot("eth0", false), vec![snapshot("eth0", false)]));
    assert!(m.finish_poll(snapshot("eth0", false), vec![]));
}

#[test]
fn whole_link_speeds() {
    assert_eq!(whole_link_speed(10).as_deref(), Some("10Mb"));
    assert_eq!(whole_link_speed(999).as_deref(), Some("999Mb"));
    assert_eq!(whole_link_speed(1000).as_deref(), Some("1Gb"));
    assert_eq!(whole_link_speed(25_000).as_deref(), Some("25Gb"));
    assert_eq!(whole_link_speed(2_500), None);
}

#[test]
fn wifi_interfaces_sort_first_and_keep_order() {
    let all = vec![
        snapshot("eth0", false),
        snapshot("wlan0", true),
        snapshot("eth1", false),
        snapshot("wlan1", true),
    ];
    let names: Vec<String> = wifi_first(&all)
        .into_iter()
        .map(|s| s.interface_name)
        .collect();
    assert_eq!(names, vec!["wlan0", "wlan1", "eth0", "eth1"]);
}

#[test]
fn primary_prefers_configured_then_wifi_then_first() {
    let all = vec![snapshot("eth0", false), snapshot("wlan0", true)];
    assert_eq!(pick_primary(&Some("eth0".to_owned()), &all), PrimaryPick::Listed(0));
    assert_eq!(pick_primary(&Some("usb0".to_owned()), &all), PrimaryPick::PollConfigured);
    assert_eq!(pick_primary(&None, &all), PrimaryPick::Listed(1));
    assert_eq!(pick_primary(&None, &vec![snapshot("eth0", false)]), PrimaryPick::Listed(0));
    assert_eq!(pick_primary(&None, &vec![]), PrimaryPick::Empty);
}

#[test]
fn signal_bars_follow_dbm_thresholds() {
    assert_eq!(signal_bars(None), 3);
    assert_eq!(signal_bars(Some(-50)), 4);
    assert_eq!(signal_bars(Some(-55)), 4);
    assert_eq!(signal_bars(Some(-60)), 3);
    assert_eq!(signal_bars(Some(-80)), 2);
    assert_eq!(signal_bars(Some(-81)), 1);
}

#[test]
fn popup_rows_describe_each_interface() {
    let empty = NetworkPopup::new(&vec![]);
    assert_eq!(empty.rows.len(), 1);
    assert!(empty.rows[0].interface.is_empty());
    let mut wired = snapshot("eth0", false);
    wired.link_speed_mbps = Some(2_500);
    wired.ip_address = Some("10.0.0.2".to_owned());
    let mut slow = snapshot("eth1", false);
    slow.link_speed_mbps = Some(100);
    let popup = NetworkPopup::new(&vec![wired, slow, snapshot("wlan0", true)]);
    assert_eq!(popup.rows.len(), 3);
    assert_eq!(popup.rows[0].speed_label, "2 Gbps");
    assert_eq!(popup.rows[0].ip_address, "10.0.0.2");
    assert_eq!(popup.rows[1].speed_label, "100 Mbps");
    assert_eq!(popup.rows[2].speed_label, "");
    assert!(popup.rows[2].is_wifi);
}

// --- power ---

#[test]
fn module_id_is_power() {
    let m = PowerModule::new(PowerConfig::default());
    assert_eq!(m.id(), "power");
}

#[test]
fn power_has_popup_is_true() {
    let m = PowerModule::new(PowerConfig::default());
    assert!(m.has_popup());
}

#[test]
fn power_popup_has_five_items() {
    let popup = PowerPopup::new(&PowerCommands::default());
    assert_eq!(popup.items.len(), 5);
}

#[test]
fn default_commands_are_reasonable() {
    let cmds = PowerCommands::default();
    assert!(cmds.shutdown.contains("poweroff") || cmds.shutdown.contains("shutdown"));
    assert!(cmds.reboot.contains("reboot"));
    assert!(cmds.logout.contains("exit") || cmds.logout.contains("logout"));
    assert!(!cmds.lock.is_empty());
    assert!(!cmds.suspend.is_empty());
}

// --- render ---

#[test]
fn speaker_wave_count_is_stable_at_volume_boundaries() {
    assert_eq!(speaker_wave_count(1), 1);
    assert_eq!(speaker_wave_count(32), 1);
    assert_eq!(speaker_wave_count(33), 2);
    assert_eq!(speaker_wave_count(150), 2);
}

// --- shell ---

#[test]
fn output_truncated_to_max_chars() {
    let long = "a".repeat(200);
    let truncated: String = truncate_chars(&long, 64);
    assert_eq!(truncated.len(), 64);
}

#[test]
fn empty_command_does_not_spawn() {
    let mut m = ShellModule::new(ShellConfig::default());
    let tick = m.tick(None, 0);
    assert!(!tick.changed);
    assert!(!tick.spawn);
    assert!(!m.running);
}

#[test]
fn shell_runs_then_waits_for_interval() {
    let mut m = ShellModule::new(ShellConfig {
        command: "date".to_owned(),
        ..ShellConfig::default()
    });
    let first = m.tick(None, 1_000);
    assert!(first.spawn);
    assert!(m.running);
    assert!(!m.tick(None, 2_000).spawn);
    let done = m.tick(Some("hello".to_owned()), 3_000);
    assert!(done.changed);
    assert_eq!(m.output, "hello");
    assert!(!m.running);
    assert!(!m.tick(None, 7_999).spawn);
    assert!(m.tick(None, 8_000).spawn);
}

#[test]
fn command_output_is_trimmed_and_cut() {
    assert_eq!(command_output_text(true, "  hello world \n", 5), "hello");
    assert_eq!(command_output_text(true, " hi ", 64), "hi");
    assert_eq!(command_output_text(false, "anything", 64), "err");
}

// --- sound ---

fn device(index: u32, name: &str, description: &str, volume: u32) -> AudioDevice {
    AudioDevice {
        index,
        name: name.to_owned(),
        description: description.to_owned(),
        volume_percent: volume,
        muted: false,
    }
}

#[test]
fn mutation_updates_shared_state_optimistically() {
    let mut shared = SharedSoundState::default();
    shared.enqueue(AudioMutation::SetOutputVolume(85), 0);
    assert_eq!(shared.state.volume_percent, 85);
    shared.enqueue(AudioMutation::ToggleOutputMute, 0);
    assert!(shared.state.muted);
}

#[test]
fn default_config_values() {
    let cfg = SoundConfig::default();
    assert_eq!(cfg.poll_interval_ms, 500);
    assert_eq!(cfg.volume_step, 5);
    assert_eq!(cfg.backend, AudioBackend::Auto);
    assert!(!cfg.show_mixer);
    assert!(cfg.show_input);
    assert!(cfg.show_applications);
    assert_eq!(cfg.max_applications, 6);
}

#[test]
fn module_id_is_sound() {
    let m = SoundModule::new(SoundConfig::default());
    assert_eq!(m.id(), "sound");
}

#[test]
fn sound_has_popup_is_true() {
    let m = SoundModule::new(SoundConfig::default());
    assert!(m.has_popup());
}

#[test]
fn pending_mutation_waits_for_debounce() {
    let mut shared = SharedSoundState::default();
    shared.enqueue(AudioMutation::SetOutputVolume(40), 1_000);
    assert!(shared.take_due_mutation(1_074).is_none());
    assert_eq!(shared.take_due_mutation(1_075), Some(AudioMutation::SetOutputVolume(40)));
    assert!(shared.mutation_running);
    shared.enqueue(AudioMutation::SetOutputVolume(50), 1_100);
    assert!(shared.take_due_mutation(5_000).is_none());
    shared.finish_mutation(Err("boom".to_owned()));
    assert_eq!(shared.last_error.as_deref(), Some("boom"));
    assert_eq!(shared.take_due_mutation(5_000), Some(AudioMutation::SetOutputVolume(50)));
}

#[test]
fn replace_state_bumps_revision_only_on_change() {
    let mut shared = SharedSoundState::default();
    assert!(!shared.replace_state(SoundState::default()));
    assert_eq!(shared.revision, 0);
    let mut s = SoundState::default();
    s.volume_percent = 42;
    assert!(shared.replace_state(s));
    assert_eq!(shared.revision, 1);
    assert_eq!(shared.state.volume_percent, 42);
}

#[test]
fn application_mutations_touch_matching_stream() {
    let mut shared = SharedSoundState::default();
    shared.state.applications = vec![AudioApplication {
        index: 7,
        name: "Firefox".to_owned(),
        volume_percent: 42,
        muted: false,
    }];
    shared.enqueue(AudioMutation::SetApplicationVolume(7, 80), 0);
    shared.enqueue(AudioMutation::ToggleApplicationMute(7), 0);
    shared.enqueue(AudioMutation::SetApplicationVolume(8, 10), 0);
    assert_eq!(shared.state.applications[0].volume_percent, 80);
    assert!(shared.state.applications[0].muted);
    shared.enqueue(AudioMutation::SetInputVolume(30), 0);
    assert!(shared.state.default_input.is_none());
    assert_eq!(shared.revision, 4);
}

#[test]
fn pactl_state_uses_default_sink_and_drops_monitors() {
    let outputs = vec![
        device(1, "alsa_output", "Desk speakers", 75),
        device(4, "hdmi", "Monitor speakers", 10),
    ];
    let inputs = vec![
        device(2, "alsa_input", "USB microphone", 50),
        device(3, "alsa_output.monitor", "Monitor", 100),
    ];
    let apps = vec![AudioApplication {
        index: 7,
        name: "Firefox".to_owned(),
        volume_percent: 42,
        muted: false,
    }];
    let state = assemble_pactl_state(
        outputs,
        inputs,
        apps,
        &"hdmi".to_owned(),
        &"missing".to_owned(),
    )
    .unwrap();
    assert_eq!(state.volume_percent, 10);
    assert_eq!(state.sink_name, "Monitor speakers");
    assert_eq!(state.backend_name, "PulseAudio");
    assert_eq!(state.inputs.len(), 1);
    assert_eq!(state.default_input.as_ref().unwrap().name, "alsa_input");
    assert_eq!(state.applications[0].name, "Firefox");
    let err = assemble_pactl_state(vec![], vec![], vec![], &String::new(), &String::new());
    assert_eq!(err, Err("pactl reported no output sinks".to_owned()));
}

#[test]
fn backend_detection_prefers_pactl() {
    assert_eq!(detect_backend(AudioBackend::Auto, true, true, true), DetectedBackend::Pulseaudio);
    assert_eq!(detect_backend(AudioBackend::Auto, false, true, true), DetectedBackend::Pipewire);
    assert_eq!(detect_backend(AudioBackend::Auto, false, false, true), DetectedBackend::Alsa);
    assert_eq!(detect_backend(AudioBackend::Auto, false, false, false), DetectedBackend::NotFound);
    assert_eq!(detect_backend(AudioBackend::Alsa, true, true, true), DetectedBackend::Alsa);
}

#[test]
fn mutation_commands_per_backend() {
    let c = mutation_command(DetectedBackend::Pipewire, &AudioMutation::SetOutputVolume(200)).unwrap();
    assert_eq!(c.program, "wpctl");
    assert_eq!(c.args, vec!["set-volume", "-l", "1.5", "@DEFAULT_AUDIO_SINK@", "150%"]);
    let c = mutation_command(DetectedBackend::Alsa, &AudioMutation::SetOutputVolume(120)).unwrap();
    assert_eq!(c.args, vec!["sset", "Master", "100%"]);
    assert_eq!(c.label, "amixer sset Master");
    let c = mutation_command(
        DetectedBackend::Pulseaudio,
        &AudioMutation::SetApplicationVolume(12, 30),
    )
    .unwrap();
    assert_eq!(c.args, vec!["set-sink-input-volume", "12", "30%"]);
    assert_eq!(
        mutation_command(DetectedBackend::Alsa, &AudioMutation::ToggleInputMute).unwrap_err(),
        "expanded mixer controls require a pactl-compatible audio server"
    );
    assert_eq!(
        mutation_command(DetectedBackend::NotFound, &AudioMutation::ToggleOutputMute).unwrap_err(),
        "no supported audio backend is available"
    );
}

#[test]
fn scroll_volume_is_clamped() {
    assert_eq!(scroll_volume(50, 5, true), 55);
    assert_eq!(scroll_volume(2, 5, false), 0);
    assert_eq!(scroll_volume(148, 5, true), 150);
}

#[test]
fn output_cycle_wraps_around() {
    let mut state = SoundState::default();
    state.outputs = vec![device(1, "a", "A", 0), device(2, "b", "B", 0)];
    state.sink_name = "B".to_owned();
    assert_eq!(next_output_name(&state).as_deref(), Some("a"));
    state.sink_name = "unknown".to_owned();
    assert_eq!(next_output_name(&state), None);
}

#[test]
fn volume_readout_caps_at_hundred() {
    let mut state = SoundState::default();
    assert_eq!(volume_readout(&state), "--");
    state.backend_name = "ALSA".to_owned();
    state.volume_percent = 130;
    assert_eq!(volume_readout(&state), "100%");
}

#[test]
fn sound_polls_only_with_a_backend() {
    let mut m = SoundModule::new(SoundConfig::default());
    assert!(!m.should_poll(0));
    assert!(m.start_detection());
    assert!(!m.start_detection());
    m.finish_detection(DetectedBackend::Pulseaudio);
    assert!(m.begin_query(1_000, 0));
    assert!(!m.begin_query(1_000, 1));
    m.finish_query(1_200, None);
    assert!(m.begin_query(1_300, 1));
    assert!(m.start_subscription(1_300));
    assert!(!m.start_subscription(1_300));
    m.subscription_ended(2_000);
    assert!(!m.start_subscription(3_999));
    assert!(m.start_subscription(4_000));
}

// --- weather ---

#[test]
fn wmo_icon_covers_all_ranges() {
    assert_eq!(wmo_icon(0), "☀");
    assert_eq!(wmo_icon(2), "⛅");
    assert_eq!(wmo_icon(45), "🌫");
    assert_eq!(wmo_icon(55), "🌧");
    assert_eq!(wmo_icon(73), "❄");
    assert_eq!(wmo_icon(80), "🌧");
    assert_eq!(wmo_icon(85), "❄");
    assert_eq!(wmo_icon(95), "⛈");
    assert_eq!(wmo_icon(200), "☁");
}

#[test]
fn no_location_logs_warning_and_returns_dash() {
    let m = WeatherModule::new(WeatherConfig::default());
    assert_eq!(m.display_text, "—");
}

// --- lunar ---

#[test]
fn resolve_unknown_body_falls_back_to_luna() {
    let body = resolve_body("unknown_planet");
    assert_eq!(body, Body::Luna);
}

#[test]
fn body_names_ignore_case() {
    assert_eq!(Body::parse("MOON"), Some(Body::Luna));
    assert_eq!(Body::parse("Triton"), Some(Body::Triton));
    assert_eq!(Body::parse("io"), Some(Body::Io));
    assert_eq!(Body::parse("i0"), None);
    assert!(Body::Triton.retrograde());
    assert!(!Body::Io.retrograde());
    assert_eq!(PhaseName::FullMoon.emoji(), "🌕");
    assert_eq!(PhaseName::WaningGibbous.label(), "Waning Gibbous");
}

// --- workspaces ---

fn ws(id: i32, name: &str) -> Workspace {
    Workspace {
        id,
        name: name.into(),
        monitor: "HDMI-1".into(),
        has_urgent: false,
    }
}

fn state_with(workspaces: Vec<Workspace>, active: i32) -> HyprState {
    HyprState {
        workspaces,
        active_workspace: active,
        windows: Vec::new(),
        ..HyprState::default()
    }
}

#[test]
fn update_detects_workspace_change() {
    let mut m = WorkspacesModule::new(WorkspacesConfig::default());
    let state = state_with(vec![ws(1, "1"), ws(2, "2")], 1);
    assert!(m.update(&state, ""), "first update should return true");
    assert!(!m.update(&state, ""), "same state should return false");
}

#[test]
fn update_hides_special_workspaces() {
    let mut m = WorkspacesModule::new(WorkspacesConfig::default());
    let state = state_with(vec![ws(-1, "special"), ws(1, "1")], 1);
    m.update(&state, "");
    assert_eq!(m.workspaces.len(), 1);
    assert_eq!(m.workspaces[0].id, 1);
}

#[test]
fn hide_empty_keeps_active_workspace() {
    let mut m = WorkspacesModule::new(WorkspacesConfig {
        hide_empty: true,
        ..WorkspacesConfig::default()
    });
    let mut state = state_with(vec![ws(1, "1"), ws(2, "2")], 1);
    state.windows = vec![WindowInfo {
        address: "0x1".into(),
        title: "app".into(),
        class: "App".into(),
        workspace_id: 2,
        is_focused: false,
        is_fullscreen: false,
    }];
    m.update(&state, "");
    assert!(m.workspaces.iter().any(|w| w.id == 1));
}

#[test]
fn workspaces_are_sorted_stably_and_follow_the_output() {
    let mut m = WorkspacesModule::new(WorkspacesConfig::default());
    let mut state = state_with(vec![ws(3, "c"), ws(1, "a"), ws(3, "d"), ws(2, "b")], 1);
    state.monitors = vec![MonitorInfo {
        name: "DP-2".into(),
        width: 1920,
        height: 1080,
        active_workspace: 3,
    }];
    assert!(m.update(&state, "DP-2"));
    let names: Vec<&str> = m.workspaces.iter().map(|w| w.name.as_str()).collect();
    assert_eq!(names, vec!["a", "b", "c", "d"]);
    assert_eq!(m.active_id, 3);
    assert!(m.update(&state, "HDMI-1"));
    assert_eq!(m.active_id, 1);
}

// --- window list ---

use hyprdeck::action::Action;
use hyprdeck::module::{EventResult, MouseButton};
use hyprdeck::modules::window_list::{window_click, window_list_changed, windows_for_output};
use hyprdeck::modules::workspaces::workspace_click;

fn window(ws: i32, addr: &str, title: &str, class: &str, focused: bool) -> WindowInfo {
    WindowInfo {
        address: addr.to_owned(),
        title: title.to_owned(),
        class: class.to_owned(),
        workspace_id: ws,
        is_focused: focused,
        is_fullscreen: false,
    }
}

#[test]
fn update_detects_new_windows() {
    let state = HyprState {
        active_workspace: 1,
        windows: vec![window(1, "0x1", "Firefox", "firefox", true)],
        ..Default::default()
    };
    let buttons: Vec<WindowInfo> = Vec::new();
    let shown = windows_for_output(&state, "", false);
    assert!(window_list_changed(&buttons, &shown), "first update should return true");
    let again = windows_for_output(&state, "", false);
    assert!(!window_list_changed(&shown, &again), "same state should return false");
}

#[test]
fn active_workspace_filter_works() {
    let state = HyprState {
        active_workspace: 1,
        windows: vec![
            window(1, "0x1", "A", "app", false),
            window(2, "0x2", "B", "app2", false),
        ],
        ..Default::default()
    };
    let shown = windows_for_output(&state, "", true);
    assert_eq!(shown.len(), 1);
    assert_eq!(shown[0].address, "0x1");
}

#[test]
fn title_or_focus_changes_rebuild_buttons() {
    let old = vec![window(1, "0x1", "A", "app", false)];
    assert!(window_list_changed(&old, &vec![window(1, "0x1", "B", "app", false)]));
    assert!(window_list_changed(&old, &vec![window(1, "0x1", "A", "app", true)]));
    assert!(!window_list_changed(&old, &vec![window(1, "0x1", "A", "other", false)]));
}

#[test]
fn left_click_returns_focus_action() {
    let result = window_click(&"0xABCD".to_owned(), MouseButton::Left);
    assert!(
        matches!(result, EventResult::Action(Action::HyprDispatch { dispatch }) if dispatch.contains("0xABCD"))
    );
    assert_eq!(window_click(&"0x1".to_owned(), MouseButton::Right), EventResult::Ignored);
}

#[test]
fn left_click_returns_dispatch_action() {
    let result = workspace_click(3, MouseButton::Left);
    assert!(
        matches!(result, EventResult::Action(Action::HyprDispatch { dispatch }) if dispatch == "workspace 3")
    );
    let moved = workspace_click(-2, MouseButton::Middle);
    assert!(
        matches!(moved, EventResult::Action(Action::HyprDispatch { dispatch }) if dispatch == "movetoworkspace -2")
    );
}

// --- registry ---

use hyprdeck::modules::registry::{builtin_module_ids, ModuleKind};

#[test]
fn every_known_id_creates_a_module() {
    for id in builtin_module_ids() {
        let kind = ModuleKind::from_id(id);
        assert!(kind.is_some(), "from_id('{}') returned None", id);
        assert_eq!(kind.unwrap().id(), id, "module id() mismatch for '{}'", id);
    }
}

#[test]
fn unknown_id_returns_none() {
    assert!(ModuleKind::from_id("nonexistent_module").is_none());
    assert!(ModuleKind::from_id("Clock").is_none());
}

#[test]
fn available_modules_matches_registry() {
    let ids = builtin_module_ids();
    assert_eq!(ids.len(), 13);
    for id in ids {
        assert!(
            ModuleKind::from_id(id).is_some(),
            "builtin_module_ids contains '{}' but registry doesn't handle it",
            id,
        );
    }
}

// --- clock and weather ticks ---

use hyprdeck::modules::clock::{ClockConfig, ClockModule};

#[test]
fn update_returns_true_when_text_changes() {
    let mut m = ClockModule::new(
        ClockConfig {
            format: "%S".to_owned(),
            secondary_timezone: None,
        },
        "00".to_owned(),
    );
    assert!(m.update("00".to_owned()), "first update should always return true");
    assert!(!m.update("00".to_owned()), "same second should return false");
}

#[test]
fn update_returns_false_when_minute_unchanged_without_seconds() {
    let mut m = ClockModule::new(ClockConfig::default(), "20:30".to_owned());
    // 12:30:00 and 12:30:45 both read "12:30" in the default "%H:%M".
    assert!(m.update("12:30".to_owned()));
    assert!(!m.update("12:30".to_owned()), "same H:M should not trigger redraw");
    assert!(m.update("12:31".to_owned()));
}

#[test]
fn update_does_not_block_without_location() {
    let mut m = WeatherModule::new(WeatherConfig::default());
    let tick = m.tick(None, 0);
    assert!(!tick.changed);
    assert!(!tick.fetch);
    assert!(!m.fetch_in_flight);
}

#[test]
fn weather_fetches_on_schedule() {
    let mut m = WeatherModule::new(WeatherConfig {
        location: Some("51.5,-0.1".to_owned()),
        ..WeatherConfig::default()
    });
    assert!(m.tick(None, 0).fetch);
    assert!(!m.tick(None, 1_000).fetch, "one fetch at a time");
    let done = m.tick(Some("☀ 21°C".to_owned()), 2_000);
    assert!(done.changed);
    assert_eq!(m.display_text, "☀ 21°C");
    assert!(!m.tick(None, 2_000 + 30 * 60_000 - 1).fetch);
    assert!(m.tick(None, 2_000 + 30 * 60_000).fetch);
}

// --- system text readers ---

use hyprdeck::modules::network::parse_wifi_signal;
use hyprdeck::modules::sound::alsa_state;

#[test]
fn wifi_signal_is_read_from_proc_net_wireless() {
    let text = "Inter-| sta-|   Quality        |   Discarded packets\n face | tus | link level noise |  nwid  crypt\n wlan0: 0000   54.  -58.  -256.   0      0      0      0      0      0\n";
    assert_eq!(parse_wifi_signal(text, "wlan0"), Some(-58));
    assert_eq!(parse_wifi_signal(text, "wlan1"), None);
    assert_eq!(parse_wifi_signal("wlan0 no colon here\nwlan0: 1 2 -40.", "wlan0"), None);
    assert_eq!(parse_wifi_signal("wlan0: 1 2 x.\r\nwlan0: 1 2 -40.", "wlan0"), Some(-40));
    assert_eq!(parse_wifi_signal("wlan0: 1 2", "wlan0"), None);
}

#[test]
fn amixer_output_gives_volume_and_mute() {
    let out = "Simple mixer control 'Master',0\n  Mono: Playback 65536 [75%] [on]\n";
    let state = alsa_state(out);
    assert_eq!(state.volume_percent, 75);
    assert!(!state.muted);
    assert_eq!(state.backend_name, "ALSA");
    let muted = alsa_state("  Front Left: Playback [ 40 %] [off]");
    assert_eq!(muted.volume_percent, 40);
    assert!(muted.muted);
    assert_eq!(alsa_state("no volume here").volume_percent, 0);
}

#[test]
fn link_speed_megabit_values() {
    assert_eq!(whole_link_speed(10).as_deref(), Some("10Mb"));
    assert_eq!(whole_link_speed(100).as_deref(), Some("100Mb"));
    assert_eq!(whole_link_speed(999).as_deref(), Some("999Mb"));
}

#[test]
fn link_speed_gigabit_integer() {
    assert_eq!(whole_link_speed(1000).as_deref(), Some("1Gb"));
    assert_eq!(whole_link_speed(10_000).as_deref(), Some("10Gb"));
    assert_eq!(whole_link_speed(25_000).as_deref(), Some("25Gb"));
    assert_eq!(whole_link_speed(40_000).as_deref(), Some("40Gb"));
    assert_eq!(whole_link_speed(100_000).as_deref(), Some("100Gb"));
}

#[test]
fn link_speed_boundary() {
    assert_eq!(whole_link_speed(999).as_deref(), Some("999Mb"));
    assert_eq!(whole_link_speed(1000).as_deref(), Some("1Gb"));
}

#[test]
fn body_names_ignore_case_and_need_ascii_letters() {
    for name in ["luna", "moon", "phobos", "deimos", "io", "europa", "ganymede", "titan", "triton"] {
        assert_eq!(Body::parse(&name.to_uppercase()), Body::parse(name));
        assert!(Body::parse(name).is_some());
    }
    assert_eq!(Body::parse("GaNyMeDe"), Some(Body::Ganymede));
    assert_eq!(Body::parse("ＬＵＮＡ"), None);
    assert_eq!(Body::parse("unknown_planet"), None);
}

#[test]
fn update_returns_false_before_poll_interval() {
    let mut m = NetworkModule::new(NetworkConfig { poll_secs: 999, ..NetworkConfig::default() });
    let now = 1_700_000_000_000u64;
    // The first update polls; the second, at once, is too early.
    assert!(m.begin_poll(now));
    assert!(!m.begin_poll(now));
    assert!(!m.should_poll(now + 998_999));
    assert!(m.should_poll(now + 999_000));
}

fn entry(index: Option<u64>, name: Option<&str>) -> PactlEntry {
    PactlEntry { index, name: name.map(str::to_owned), volume_percent: 40, ..PactlEntry::default() }
}

#[test]
fn pactl_entries_become_devices_and_streams() {
    let mut described = entry(Some(1), Some("alsa_output.pci"));
    described.description = Some("Built-in Audio".into());
    described.mute = Some(true);
    let plain = entry(Some(2), Some("bluez_sink"));
    let nameless = entry(Some(3), None);
    let unindexed = entry(None, Some("ghost"));
    let big = entry(Some((1u64 << 32) + 5), Some("wrapped"));
    let devices = devices_from_entries(&vec![described, nameless, plain, unindexed, big]);
    assert_eq!(devices.len(), 3);
    assert_eq!(
        devices[0],
        AudioDevice {
            index: 1,
            name: "alsa_output.pci".into(),
            description: "Built-in Audio".into(),
            volume_percent: 40,
            muted: true,
        }
    );
    assert_eq!(devices[1].description, "bluez_sink");
    assert!(!devices[1].muted);
    assert_eq!(devices[2].index, 5);

    let mut firefox = entry(Some(7), None);
    firefox.application_name = Some("Firefox".into());
    firefox.media_name = Some("Video".into());
    let mut media = entry(Some(8), None);
    media.media_name = Some("Music".into());
    let anonymous = entry(Some(9), None);
    let apps = applications_from_entries(&vec![firefox, entry(None, None), media, anonymous]);
    let names: Vec<(u32, &str)> = apps.iter().map(|a| (a.index, a.name.as_str())).collect();
    assert_eq!(names, vec![(7, "Firefox"), (8, "Music"), (9, "Application")]);
}
