use evdev::{AttributeSet, KeyCode};
use rpi_hub::input::{device_name, discover, is_keyboard, InputNode, KeyEvent, EV_KEY};

fn keyboard_keys() -> AttributeSet<KeyCode> {
    [KeyCode::KEY_A, KeyCode::KEY_Z, KeyCode::KEY_ENTER, KeyCode::KEY_SPACE].iter().collect()
}

#[test]
fn a_device_with_letters_and_enter_is_a_keyboard() {
    let keys = keyboard_keys();
    assert!(is_keyboard(Some(&keys)));
}

#[test]
fn devices_that_lack_one_of_the_keys_are_not_keyboards() {
    for missing in [KeyCode::KEY_A, KeyCode::KEY_Z, KeyCode::KEY_ENTER] {
        let mut keys = keyboard_keys();
        keys.remove(missing);
        assert!(!is_keyboard(Some(&keys)));
    }
    let mouse: AttributeSet<KeyCode> = [KeyCode::BTN_LEFT, KeyCode::BTN_RIGHT].iter().collect();
    assert!(!is_keyboard(Some(&mouse)));
    assert!(!is_keyboard(None));
}

#[test]
fn key_presses_and_releases_are_key_events() {
    assert_eq!(EV_KEY, evdev::EventType::KEY.0);
    assert_eq!(
        KeyEvent::from_evdev(EV_KEY, 30, 1),
        Some(KeyEvent { code: 30, pressed: true })
    );
    assert_eq!(
        KeyEvent::from_evdev(EV_KEY, 0xFFFF, 0),
        Some(KeyEvent { code: 0xFFFF, pressed: false })
    );
}

#[test]
fn autorepeat_is_dropped() {
    assert_eq!(KeyEvent::from_evdev(EV_KEY, 30, 2), None);
    assert_eq!(KeyEvent::from_evdev(EV_KEY, 30, -1), None);
}

#[test]
fn other_types_of_events_are_dropped() {
    for other in (0u16..=0x20).filter(|&t| t != EV_KEY) {
        assert_eq!(KeyEvent::from_evdev(other, 30, 1), None);
    }
}

#[test]
fn nameless_devices_get_a_stand_in() {
    assert_eq!(device_name(Some("Ducky One")), "Ducky One");
    assert_eq!(device_name(Some("")), "");
    assert_eq!(device_name(None), "<unnamed>");
}

#[test]
fn discovery_lists_the_keyboards_in_order() {
    let keys = keyboard_keys();
    let mouse: AttributeSet<KeyCode> = [KeyCode::BTN_LEFT].iter().collect();
    let nodes = vec![
        InputNode { path: "event0", name: Some("Power Button"), keys: None },
        InputNode { path: "event1", name: Some("Ducky One"), keys: Some(&keys) },
        InputNode { path: "event2", name: Some("Mouse"), keys: Some(&mouse) },
        InputNode { path: "event3", name: None, keys: Some(&keys) },
    ];
    assert_eq!(
        discover(nodes),
        vec![("event1", "Ducky One".to_string()), ("event3", "<unnamed>".to_string())]
    );
    let none: Vec<InputNode<&str>> = vec![];
    assert!(discover(none).is_empty());
}
