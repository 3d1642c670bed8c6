use camera_rig::capture::{grab_mouse_system, info_panel, AppMode, CaptureMachine, GrabMode, InfoPanel, PlatformLock};

fn assert_consistent(m: &CaptureMachine) {
    if m.mode == AppMode::InGame {
        assert!(!m.cursor.visible);
        assert!(m.cursor.grab != GrabMode::Free);
    } else {
        assert!(m.cursor.visible);
        assert_eq!(m.cursor.grab, GrabMode::Free);
    }
}

#[test]
fn startup_is_released() {
    let m = CaptureMachine::startup();
    assert_eq!(m.mode, AppMode::Start);
    assert!(m.cursor.visible);
    assert_eq!(m.cursor.grab, GrabMode::Free);
}

#[test]
fn first_click_captures_once() {
    let mut m = CaptureMachine::startup();
    grab_mouse_system(&mut m, false, true, PlatformLock::Confines);
    assert_eq!(m.mode, AppMode::InGame);
    assert!(!m.cursor.visible);
    assert_eq!(m.cursor.grab, GrabMode::Confined);
    assert_consistent(&m);
}

#[test]
fn toggle_key_does_nothing_before_the_first_click() {
    let mut m = CaptureMachine::startup();
    let before = m;
    grab_mouse_system(&mut m, true, false, PlatformLock::Confines);
    assert_eq!(m, before);
}

#[test]
fn toggle_flips_between_game_and_menu() {
    let mut m = CaptureMachine::startup();
    grab_mouse_system(&mut m, false, true, PlatformLock::Confines);
    grab_mouse_system(&mut m, true, false, PlatformLock::Confines);
    assert_eq!(m.mode, AppMode::Menu);
    assert!(m.cursor.visible);
    assert_eq!(m.cursor.grab, GrabMode::Free);
    assert_consistent(&m);
    grab_mouse_system(&mut m, true, false, PlatformLock::Confines);
    assert_eq!(m.mode, AppMode::InGame);
    assert_consistent(&m);
}

#[test]
fn capture_and_visibility_always_agree() {
    // Every transition along a mixed input sequence lands on consistent
    // cursor flags — no observable intermediate pair.
    let mut m = CaptureMachine::startup();
    let inputs: [(bool, bool); 8] = [
        (false, false),
        (true, false),
        (false, true),
        (true, true),
        (true, false),
        (false, true),
        (true, false),
        (true, false),
    ];
    for (toggle, click) in inputs {
        grab_mouse_system(&mut m, toggle, click, PlatformLock::Confines);
        assert_consistent(&m);
    }
}

#[test]
fn locking_platform_pins_the_cursor() {
    let mut m = CaptureMachine::startup();
    grab_mouse_system(&mut m, false, true, PlatformLock::Locks);
    assert_eq!(m.cursor.grab, GrabMode::Locked);
    assert_consistent(&m);
}

#[test]
fn controllers_run_only_while_captured() {
    let mut m = CaptureMachine::startup();
    assert!(!m.controllers_live());
    grab_mouse_system(&mut m, false, true, PlatformLock::Confines);
    assert!(m.controllers_live());
    grab_mouse_system(&mut m, true, false, PlatformLock::Confines);
    assert!(!m.controllers_live());
}

#[test]
fn no_event_tick_leaves_the_machine_alone() {
    let mut m = CaptureMachine::startup();
    grab_mouse_system(&mut m, false, true, PlatformLock::Locks);
    let before = m;
    grab_mouse_system(&mut m, false, false, PlatformLock::Locks);
    assert_eq!(m, before);
}

#[test]
fn instructions_follow_the_mode() {
    let mut m = CaptureMachine::startup();
    assert_eq!(info_panel(m.mode), InfoPanel::ClickToStart);
    grab_mouse_system(&mut m, false, true, PlatformLock::Confines);
    assert_eq!(info_panel(m.mode), InfoPanel::GameControls);
    grab_mouse_system(&mut m, true, false, PlatformLock::Confines);
    assert_eq!(info_panel(m.mode), InfoPanel::MenuHelp);
}
