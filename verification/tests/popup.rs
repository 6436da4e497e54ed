use hyprdeck::popup::{PopupEventResult, PopupState};

#[test]
fn popup_state_starts_closed() {
    let state = PopupState::new();
    assert!(!state.is_open());
    assert!(state.active_module.is_none());
}

#[test]
fn open_sets_active_module() {
    let mut state = PopupState::new();
    state.open("clock".into());
    assert!(state.is_open());
    assert_eq!(state.active_module.as_deref(), Some("clock"));
    assert!(state.dirty);
}

#[test]
fn close_clears_state() {
    let mut state = PopupState::new();
    state.open("clock".into());
    state.close();
    assert!(!state.is_open());
    assert!(state.active_module.is_none());
    assert!(!state.dirty);
}

#[test]
fn toggle_opens_when_closed() {
    let mut state = PopupState::new();
    assert!(state.toggle("clock"));
    assert!(state.is_open());
    assert_eq!(state.active_module.as_deref(), Some("clock"));
}

#[test]
fn toggle_closes_when_same_module_open() {
    let mut state = PopupState::new();
    state.toggle("clock");
    assert!(!state.toggle("clock"));
    assert!(!state.is_open());
}

#[test]
fn toggle_switches_to_different_module() {
    let mut state = PopupState::new();
    state.toggle("clock");
    assert!(state.toggle("network"));
    assert!(state.is_open());
    assert_eq!(state.active_module.as_deref(), Some("network"));
}

#[test]
fn frames_need_a_surface_and_a_change() {
    let mut state = PopupState::new();
    state.open("sound".into());
    assert!(!state.begin_frame(), "no surface yet");
    state.attach_surface(220, 180);
    assert!(state.begin_frame());
    assert!(!state.begin_frame(), "nothing changed since");
    assert!(state.content_updated(true));
    assert!(state.begin_frame());
    state.event_handled(&PopupEventResult::Handled);
    assert!(state.dirty);
    state.event_handled(&PopupEventResult::Close);
    assert!(!state.is_open());
    assert_eq!(state.width, 0);
}

#[test]
fn toggling_twice_returns_to_the_start() {
    let mut state = PopupState::new();
    assert!(state.toggle("clock"));
    assert!(!state.toggle("clock"));
    assert!(!state.is_open());
    state.open("sound".into());
    state.attach_surface(100, 50);
    assert!(!state.toggle("sound"));
    assert!(state.toggle("sound"));
    assert_eq!(state.active_module.as_deref(), Some("sound"));
    assert!(state.dirty);
    assert!(!state.surface_attached);
}
