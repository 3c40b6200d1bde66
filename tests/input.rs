use loded::input::{
    keyboard_input_events, mouse_input_events, InputDevice, InputManagerError, InputManagerEvent,
    KeyDirection, KeyEvent, MouseButtonEvent, MouseMoveEvent, RawInputEvent, BTN_LEFT, EV_KEY,
    EV_REL, KEY_A, KEY_ENTER,
};

#[test]
fn browser_key_names_map_to_kernel_codes() {
    let k = KeyEvent::from_js_key_name_with_direction("KeyA", KeyDirection::Down).unwrap();
    assert_eq!(k.key, 30);
    assert_eq!(k.key, KEY_A);
    let k = KeyEvent::from_js_key_name_with_direction("Enter", KeyDirection::Up).unwrap();
    assert_eq!(k.key, KEY_ENTER);
    let k = KeyEvent::from_js_key_name_with_direction("KEY0", KeyDirection::Up).unwrap();
    assert_eq!(k.key, 11);
    let k = KeyEvent::from_js_key_name_with_direction("AltRight", KeyDirection::Up).unwrap();
    assert_eq!(k.key, 100);
    assert_eq!(
        KeyEvent::from_js_key_name_with_direction("F13", KeyDirection::Up),
        Err(InputManagerError::UnknownKey("F13".to_string()))
    );
}

#[test]
fn key_events_become_kernel_events() {
    let keys = [
        KeyEvent { key: 30, direction: KeyDirection::Down },
        KeyEvent { key: 30, direction: KeyDirection::RepeatingDown },
    ];
    let evs = keyboard_input_events(&keys);
    assert_eq!(
        evs,
        vec![
            RawInputEvent { event_type: EV_KEY, code: 30, value: 1 },
            RawInputEvent { event_type: EV_KEY, code: 30, value: 2 },
        ]
    );
}

#[test]
fn only_changed_axes_produce_events() {
    let m = MouseMoveEvent::new(5, 0, -2);
    assert_eq!(
        m.get_input_events(),
        vec![
            RawInputEvent { event_type: EV_REL, code: 0, value: 5 },
            RawInputEvent { event_type: EV_REL, code: 12, value: -2 },
        ]
    );
    assert!(MouseMoveEvent::new(0, 0, 0).get_input_events().is_empty());
}

#[test]
fn mouse_batches_put_moves_before_buttons() {
    let moves = [MouseMoveEvent::new(0, 3, 0), MouseMoveEvent::new(1, 0, 0)];
    let buttons = [MouseButtonEvent { key: BTN_LEFT, direction: KeyDirection::Up }];
    let evs = mouse_input_events(&moves, &buttons);
    assert_eq!(
        evs,
        vec![
            RawInputEvent { event_type: EV_REL, code: 1, value: 3 },
            RawInputEvent { event_type: EV_REL, code: 0, value: 1 },
            RawInputEvent { event_type: EV_KEY, code: 272, value: 0 },
        ]
    );
}

#[test]
fn batches_are_routed_to_their_device() {
    let e = InputManagerEvent::Mouse(None, Some(vec![MouseButtonEvent {
        key: BTN_LEFT,
        direction: KeyDirection::Down,
    }]));
    let (dev, evs) = e.route();
    assert_eq!(dev, InputDevice::Mouse);
    assert_eq!(evs, vec![RawInputEvent { event_type: EV_KEY, code: 272, value: 1 }]);
    let e = InputManagerEvent::Keyboard(vec![]);
    let (dev, evs) = e.route();
    assert_eq!(dev, InputDevice::Keyboard);
    assert!(evs.is_empty());
}

#[test]
fn devices_offer_every_mapped_key() {
    let keys = loded::input::keyboard_keys();
    assert_eq!(keys.len(), 54);
    for name in ["KeyA", "KeyZ", "KEY0", "Escape", "Enter", "ShiftRight", "Backquote"] {
        let k = KeyEvent::from_js_key_name_with_direction(name, KeyDirection::Down).unwrap();
        assert!(keys.contains(&k.key), "{name}");
    }
    assert_eq!(loded::input::mouse_buttons(), vec![272, 273, 274]);
    assert_eq!(loded::input::mouse_axes(), vec![0, 1, 8]);
}
