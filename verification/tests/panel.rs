use hyprdeck::action::Action;
use hyprdeck::event::HyprEvent;
use hyprdeck::geometry::Edge;
use hyprdeck::module::{EventResult, MouseButton, PointerEvent};
use hyprdeck::modules::favorites::{FavoriteEntry, FavoritesModule};
use hyprdeck::modules::hyprcube::{HyprcubeConfig, HyprcubeModule};
use hyprdeck::modules::power::{PowerCommands, PowerConfig, PowerModule, PowerPopup};
use hyprdeck::layout::ModuleGroups;
use hyprdeck::panel::{
    auto_hide_margins, bar_thickness, copy_to_argb8888, event_needs_redraw, exclusive_zone,
    panel_module_ids, panel_surface_size, InputResult, Panel, PointerStep,
};
use hyprdeck::popup::PopupEventResult;

fn test_panel() -> Panel {
    let mut panel = Panel::new(Edge::Top, 1920, 32);
    panel.modules_replaced();
    panel
}

#[test]
fn panel_starts_dirty() {
    let panel = test_panel();
    assert!(panel.dirty);
}

#[test]
fn key_press_routes_to_hovered_module() {
    let mut panel = test_panel();
    // The pointer moved over module "a".
    panel.pointer_moved(Some("a".into()));
    assert_eq!(panel.hovered_module.as_deref(), Some("a"));
    assert_eq!(panel.key_target().as_deref(), Some("a"));
}

#[test]
fn key_press_without_hover_or_popup_is_dropped() {
    let panel = test_panel();
    assert_eq!(panel.key_target(), None);
}

#[test]
fn key_press_prefers_open_popup_over_hover() {
    let mut panel = test_panel();
    panel.pointer_moved(Some("a".into()));
    panel.popup.active_module = Some("b".into());
    assert_eq!(panel.key_target().as_deref(), Some("b"));
}

#[test]
fn cursor_leave_clears_hovered_module() {
    let mut panel = test_panel();
    panel.pointer_moved(Some("a".into()));
    assert!(panel.hovered_module.is_some());
    panel.cursor_left(false);
    assert!(panel.hovered_module.is_none());
}

#[test]
fn handle_hypr_event_marks_dirty_for_workspace_change() {
    let mut panel = test_panel();
    panel.dirty = false;
    let needs_redraw = panel.handle_hypr_event(&HyprEvent::WorkspaceChanged { id: 2 });
    assert!(needs_redraw);
    assert!(panel.dirty);
}

#[test]
fn handle_hypr_event_ignores_layout_changed() {
    let mut panel = test_panel();
    panel.dirty = false;
    let event = HyprEvent::LayoutChanged { keyboard: "kb".into(), layout: "us".into() };
    let needs_redraw = panel.handle_hypr_event(&event);
    assert!(!needs_redraw);
    assert!(!panel.dirty);
}

#[test]
fn panel_frame_clears_dirty_flag() {
    let mut panel = test_panel();
    assert!(panel.dirty);
    assert!(panel.begin_frame(false));
    assert!(!panel.dirty);
}

#[test]
fn panel_frame_returns_false_when_not_dirty() {
    let mut panel = test_panel();
    panel.begin_frame(false);
    assert!(!panel.dirty);
    assert!(!panel.begin_frame(false));
}

#[test]
fn set_modules_marks_dirty() {
    let mut panel = Panel::new(Edge::Bottom, 1920, 32);
    panel.dirty = false;
    panel.modules_replaced();
    assert!(panel.dirty);
}

#[test]
fn unacknowledged_surface_is_not_drawn() {
    let mut panel = test_panel();
    panel.has_surface = true;
    assert!(!panel.begin_frame(true));
    assert!(panel.dirty);
    panel.surface_configured = true;
    assert!(panel.begin_frame(false));
    panel.dirty = false;
    // A running dock animation draws a clean panel too.
    assert!(panel.begin_frame(true));
}

#[test]
fn only_some_events_skip_the_redraw() {
    assert!(event_needs_redraw(&HyprEvent::WindowClosed { address: "0x1".into() }));
    assert!(event_needs_redraw(&HyprEvent::Fullscreen { enter: true }));
    assert!(!event_needs_redraw(&HyprEvent::SubMap { name: "resize".into() }));
    assert!(!event_needs_redraw(&HyprEvent::FloatingMode { address: "0x1".into(), floating: true }));
}

#[test]
fn clicking_a_module_toggles_its_popup() {
    let mut panel = test_panel();
    panel.dirty = false;
    let opened = panel.toggle_popup("sound");
    assert!(matches!(opened, InputResult::OpenPopup { ref module_id } if module_id == "sound"));
    assert!(panel.dirty);
    assert_eq!(panel.popup.active_module.as_deref(), Some("sound"));
    let switched = panel.toggle_popup("power");
    assert!(matches!(switched, InputResult::OpenPopup { ref module_id } if module_id == "power"));
    let closed = panel.toggle_popup("power");
    assert!(matches!(closed, InputResult::ClosePopup));
    assert!(!panel.popup.is_open());
}

#[test]
fn module_results_map_to_panel_results() {
    let mut panel = test_panel();
    panel.dirty = false;
    assert!(panel.module_result(EventResult::Ignored).is_none());
    assert!(!panel.dirty);
    assert!(matches!(panel.module_result(EventResult::Handled), Some(InputResult::Nothing)));
    assert!(panel.dirty);
    let action = Action::HyprDispatch { dispatch: "workspace 2".into() };
    assert!(matches!(
        panel.module_result(EventResult::Action(action)),
        Some(InputResult::Action(Action::HyprDispatch { ref dispatch })) if dispatch == "workspace 2"
    ));
}

#[test]
fn resizing_only_marks_a_changed_size() {
    let mut panel = test_panel();
    assert!(!panel.fit_surface(1920, 32));
    assert!(!panel.needs_resize);
    assert!(panel.fit_surface(400, 64));
    assert!(panel.needs_resize);
    assert_eq!((panel.surface_width, panel.surface_height), (400, 64));
}

#[test]
fn auto_hide_slides_along_the_panel_edge() {
    assert_eq!(auto_hide_margins(Edge::Top, -32), (-32, 0, 0, 0));
    assert_eq!(auto_hide_margins(Edge::Right, -48), (0, -48, 0, 0));
    assert_eq!(auto_hide_margins(Edge::Bottom, -10), (0, 0, -10, 0));
    assert_eq!(auto_hide_margins(Edge::Left, -5), (0, 0, 0, -5));
    assert_eq!(exclusive_zone(Edge::Top, true, 1920, 32), -1);
    assert_eq!(exclusive_zone(Edge::Bottom, false, 1920, 32), 32);
    assert_eq!(exclusive_zone(Edge::Left, false, 48, 1080), 48);
}

#[test]
fn canvas_pixels_are_handed_over_as_bgra() {
    let src = vec![1, 2, 3, 4, 5, 6, 7, 8, 9];
    let mut dst = vec![0u8; 10];
    copy_to_argb8888(&mut dst, &src);
    // Two whole pixels fit in both buffers; the rest of `dst` is untouched.
    assert_eq!(dst, vec![3, 2, 1, 4, 7, 6, 5, 8, 0, 0]);
    let mut short = vec![9u8; 6];
    copy_to_argb8888(&mut short, &src);
    assert_eq!(short, vec![3, 2, 1, 4, 9, 9]);
}

#[test]
fn session_menu_hover_and_click() {
    let mut popup = PowerPopup::new(&PowerCommands::default());
    assert_eq!(popup.hover(Some(1)), PopupEventResult::Handled);
    assert_eq!(popup.hovered_index, Some(1));
    assert_eq!(popup.hover(Some(1)), PopupEventResult::Ignored);
    assert_eq!(popup.hover(Some(7)), PopupEventResult::Handled);
    assert_eq!(popup.hovered_index, None);
    match popup.click(Some(4)) {
        PopupEventResult::Action(Action::Exec { command, args }) => {
            assert_eq!(command, "systemctl");
            assert_eq!(args, vec!["poweroff".to_owned()]);
        }
        other => panic!("unexpected {other:?}"),
    }
    match popup.click(Some(0)) {
        PopupEventResult::Action(Action::Exec { command, args }) => {
            assert_eq!(command, "hyprlock");
            assert!(args.is_empty());
        }
        other => panic!("unexpected {other:?}"),
    }
    assert_eq!(popup.click(None), PopupEventResult::Ignored);
    let mut blank = PowerCommands::default();
    blank.lock = "   ".into();
    assert_eq!(PowerPopup::new(&blank).click(Some(0)), PopupEventResult::Ignored);
}

#[test]
fn power_icon_highlights_on_first_motion() {
    let mut module = PowerModule::new(PowerConfig::default());
    assert_eq!(module.handle_event(&PointerEvent::Move), EventResult::Handled);
    assert!(module.hovered);
    assert_eq!(module.handle_event(&PointerEvent::Move), EventResult::Ignored);
    assert_eq!(module.handle_event(&PointerEvent::Press(MouseButton::Left)), EventResult::Ignored);
}

#[test]
fn hyprcube_launches_on_release() {
    let mut module = HyprcubeModule::new(HyprcubeConfig::default());
    assert_eq!(module.id(), "hyprcube");
    assert_eq!(module.handle_event(&PointerEvent::Move), EventResult::Handled);
    assert_eq!(module.handle_event(&PointerEvent::Press(MouseButton::Left)), EventResult::Handled);
    assert!(module.pressed);
    let released = module.handle_event(&PointerEvent::Release(MouseButton::Left));
    assert_eq!(
        released,
        EventResult::Action(Action::Exec { command: "hyprcube".into(), args: Vec::new() })
    );
    assert!(!module.pressed);
    assert_eq!(module.handle_event(&PointerEvent::Scroll), EventResult::Ignored);
}

#[test]
fn favorites_hover_and_click() {
    let entries = vec![
        FavoriteEntry {
            label: "Terminal".into(),
            icon: "kitty".into(),
            action: Action::Exec { command: "kitty".into(), args: Vec::new() },
        },
        FavoriteEntry {
            label: "Files".into(),
            icon: "nautilus".into(),
            action: Action::HyprDispatch { dispatch: "exec nautilus".into() },
        },
    ];
    let mut module = FavoritesModule::new(entries, true);
    assert_eq!(module.id(), "favorites");
    assert_eq!(module.hover(Some(1)), EventResult::Handled);
    assert_eq!(module.hovered_index, Some(1));
    assert_eq!(module.hover(Some(5)), EventResult::Handled);
    assert_eq!(module.hovered_index, None);
    assert_eq!(
        module.clicked_action(Some(1)),
        Some(&Action::HyprDispatch { dispatch: "exec nautilus".into() })
    );
    assert_eq!(module.clicked_action(Some(2)), None);
    assert_eq!(module.clicked_action(None), None);
}

#[test]
fn panel_size_follows_its_edge_and_definition() {

    assert_eq!(bar_thickness(None, None, 32), 32);
    assert_eq!(bar_thickness(Some(40), None, 32), 40);
    assert_eq!(bar_thickness(Some(40), Some(64), 32), 64);
    assert_eq!(panel_surface_size(Edge::Top, 1920, 1080, Some(40), None, 40), (1920, 40));
    assert_eq!(panel_surface_size(Edge::Bottom, 1920, 1080, None, None, 32), (1920, 32));
    assert_eq!(panel_surface_size(Edge::Left, 1920, 1080, None, None, 32), (48, 1080));
    assert_eq!(panel_surface_size(Edge::Right, 2560, 1440, None, Some(72), 72), (72, 1440));
}

#[test]
fn modules_are_placed_start_center_end() {


    let groups = ModuleGroups {
        start: vec!["menu_button".into(), "workspaces".into()],
        center: vec!["clock".into()],
        end: vec!["sound".into(), "power".into()],
    };
    assert_eq!(panel_module_ids(&groups), vec!["menu_button", "workspaces", "clock", "sound", "power"]);
    assert!(panel_module_ids(&ModuleGroups::default()).is_empty());
}

#[test]
fn launcher_has_no_popup_and_executes_hyprcube() {
    let mut module = HyprcubeModule::new(HyprcubeConfig::default());
    assert!(!module.has_popup());
    let result = module.handle_event(&PointerEvent::Release(MouseButton::Left));
    assert!(matches!(
        result,
        EventResult::Action(Action::Exec { command, args })
            if command == "hyprcube" && args.is_empty()
    ));
}

#[test]
fn click_returns_correct_action() {
    let entries = vec![
        FavoriteEntry {
            label: "A".into(),
            icon: "a".into(),
            action: Action::Exec { command: "cmdA".into(), args: vec![] },
        },
        FavoriteEntry {
            label: "B".into(),
            icon: "b".into(),
            action: Action::Exec { command: "cmdB".into(), args: vec![] },
        },
    ];
    let module = FavoritesModule::new(entries, true);
    // x = 12 on 24 px icons lies in the first slot.
    let result = module.clicked_action(Some(0));
    assert!(
        matches!(result, Some(Action::Exec { command, .. }) if command == "cmdA"),
        "expected cmdA action"
    );
}

#[test]
fn pointer_routing_steps() {
    let mut panel = Panel::new(Edge::Top, 1920, 32);
    let left = PointerEvent::Press(MouseButton::Left);
    assert_eq!(panel.route_to_module("clock", false, PointerEvent::Move, false), PointerStep::Skip);
    assert!(panel.hovered_module.is_none());
    assert_eq!(panel.route_to_module("clock", true, PointerEvent::Move, true), PointerStep::Deliver);
    assert_eq!(panel.hovered_module.as_deref(), Some("clock"));
    assert_eq!(panel.route_to_module("power", true, left, true), PointerStep::TogglePopup);
    assert_eq!(panel.route_to_module("power", true, left, false), PointerStep::Deliver);
    assert_eq!(panel.route_to_module("power", true, PointerEvent::Press(MouseButton::Right), true), PointerStep::Deliver);
    assert_eq!(panel.hovered_module.as_deref(), Some("clock"));
    panel.finish_pointer_route(true, PointerEvent::Move);
    assert_eq!(panel.hovered_module.as_deref(), Some("clock"));
    panel.finish_pointer_route(false, left);
    assert_eq!(panel.hovered_module.as_deref(), Some("clock"));
    panel.finish_pointer_route(false, PointerEvent::Move);
    assert!(panel.hovered_module.is_none());
}
