use thirdeye::hotkeys::{handle_global_hotkeys, Key, KeyEvent};

fn event(key: Key, pressed: bool, repeat: bool) -> KeyEvent {
    KeyEvent {
        key,
        pressed,
        repeat,
    }
}

#[test]
fn no_events_change_nothing() {
    assert!(!handle_global_hotkeys(&vec![], false));
    assert!(handle_global_hotkeys(&vec![], true));
}

#[test]
fn fresh_f12_press_toggles_debugging() {
    let events = vec![event(Key::F12, true, false)];
    assert!(handle_global_hotkeys(&events, false));
    assert!(!handle_global_hotkeys(&events, true));
}

#[test]
fn f12_release_and_repeat_do_not_toggle() {
    let events = vec![event(Key::F12, false, false), event(Key::F12, true, true)];
    assert!(!handle_global_hotkeys(&events, false));
    assert!(handle_global_hotkeys(&events, true));
}

#[test]
fn other_keys_do_not_toggle() {
    let events = vec![event(Key::Other, true, false)];
    assert!(!handle_global_hotkeys(&events, false));
}

#[test]
fn two_presses_in_one_frame_toggle_once() {
    let events = vec![
        event(Key::Other, true, false),
        event(Key::F12, true, false),
        event(Key::F12, false, false),
        event(Key::F12, true, false),
    ];
    assert!(handle_global_hotkeys(&events, false));
    assert!(!handle_global_hotkeys(&events, true));
}
