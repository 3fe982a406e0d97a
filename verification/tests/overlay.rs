use scape::geometry::{Point, Rectangle, Size};
use scape::overlay::{
    convert_button_code, EguiState, ModifiersState, MouseButton, OverlayEvent, PressedKey,
    OVERLAY_ZINDEX,
};

fn area() -> Rectangle {
    Rectangle::from_xywh(10, 10, 300, 200)
}

fn shift() -> ModifiersState {
    ModifiersState { shift: true, ..ModifiersState::none() }
}

#[test]
fn a_new_overlay_knows_nothing() {
    let e = EguiState::new(area());
    assert_eq!(e.pointers, 0);
    assert_eq!(e.z_index(), OVERLAY_ZINDEX);
    assert_eq!(e.z_index(), 60);
    assert_eq!(e.bbox(), area());
    assert!(e.events.is_empty());
    assert!(e.pressed.is_empty());
    assert!(!e.focused);
    assert_eq!(e.last_modifiers, ModifiersState::none());
    assert!(e.is_in_input_region(Point::new(10, 10)));
    assert!(!e.is_in_input_region(Point::new(310, 10)));
}

#[test]
fn pointer_devices_are_counted() {
    let mut e = EguiState::new(area());
    e.handle_device_added(true);
    e.handle_device_added(false);
    e.handle_device_added(true);
    assert_eq!(e.pointers, 2);
    e.handle_device_removed(true);
    assert!(e.events.is_empty());
    e.handle_device_removed(false);
    assert_eq!(e.pointers, 1);
    e.handle_device_removed(true);
    assert_eq!(e.events, vec![OverlayEvent::PointerGone]);
    // with no pointer left there is none to take away
    e.handle_device_removed(true);
    assert_eq!(e.pointers, 0);
    assert_eq!(e.events, vec![OverlayEvent::PointerGone, OverlayEvent::PointerGone]);
}

#[test]
fn keys_are_noted_and_passed_on() {
    let mut e = EguiState::new(area());
    e.handle_keyboard(Some(5), 38, true, shift(), Some("A".to_string()));
    e.handle_keyboard(None, 50, true, shift(), None);
    e.handle_keyboard(Some(6), 39, true, shift(), Some(String::new()));
    assert_eq!(
        e.pressed,
        vec![
            PressedKey { key: Some(5), code: 38 },
            PressedKey { key: None, code: 50 },
            PressedKey { key: Some(6), code: 39 },
        ]
    );
    e.handle_keyboard(Some(5), 38, false, ModifiersState::none(), Some("ignored".to_string()));
    assert_eq!(
        e.pressed,
        vec![PressedKey { key: None, code: 50 }, PressedKey { key: Some(6), code: 39 }]
    );
    assert_eq!(e.last_modifiers, ModifiersState::none());
    assert_eq!(
        e.events,
        vec![
            OverlayEvent::Key { key: 5, pressed: true, modifiers: shift() },
            OverlayEvent::Text("A".to_string()),
            OverlayEvent::Key { key: 6, pressed: true, modifiers: shift() },
            OverlayEvent::Text(String::new()),
            OverlayEvent::Key { key: 5, pressed: false, modifiers: ModifiersState::none() },
        ]
    );
}

#[test]
fn pointer_events_carry_position_and_modifiers() {
    let mut e = EguiState::new(area());
    e.modifiers(shift());
    e.handle_pointer_motion(Point::new(3, 4));
    e.handle_pointer_button(MouseButton::Middle, true);
    e.button(0x110, false);
    e.button(0x113, true);
    assert_eq!(
        e.events,
        vec![
            OverlayEvent::PointerMoved(Point::new(3, 4)),
            OverlayEvent::PointerButton {
                pos: Point::new(3, 4),
                button: MouseButton::Middle,
                pressed: true,
                modifiers: shift()
            },
            OverlayEvent::PointerButton {
                pos: Point::new(3, 4),
                button: MouseButton::Left,
                pressed: false,
                modifiers: shift()
            },
        ]
    );
    assert_eq!(convert_button_code(0x111), Some(MouseButton::Right));
    assert_eq!(convert_button_code(0x112), Some(MouseButton::Middle));
    assert_eq!(convert_button_code(0x115), Some(MouseButton::Forward));
    assert_eq!(convert_button_code(0x116), Some(MouseButton::Back));
    assert_eq!(convert_button_code(0x114), None);
}

#[test]
fn focus_comes_and_goes_with_the_held_keys() {
    let mut e = EguiState::new(area());
    let keys = vec![PressedKey { key: Some(1), code: 10 }, PressedKey { key: None, code: 11 }];
    e.enter(&keys);
    assert!(e.focused);
    assert_eq!(e.pressed, keys);
    assert_eq!(
        e.events,
        vec![OverlayEvent::Key { key: 1, pressed: true, modifiers: ModifiersState::none() }]
    );
    e.leave();
    assert!(!e.focused);
    assert!(e.pressed.is_empty());
    assert_eq!(
        e.events,
        vec![
            OverlayEvent::Key { key: 1, pressed: true, modifiers: ModifiersState::none() },
            OverlayEvent::Key { key: 1, pressed: false, modifiers: ModifiersState::none() },
        ]
    );
    e.set_focused(true);
    assert!(e.focused);
}

#[test]
fn a_frame_takes_the_events_and_the_new_size() {
    let mut e = EguiState::new(area());
    e.handle_pointer_motion(Point::new(1, 1));
    e.set_size(Size::new(640, 480));
    e.set_zindex(7);
    assert_eq!(e.area, area());
    let (events, recreate) = e.begin_frame();
    assert_eq!(events, vec![OverlayEvent::PointerMoved(Point::new(1, 1))]);
    assert!(recreate);
    assert!(e.events.is_empty());
    assert_eq!(e.area, Rectangle::from_xywh(10, 10, 640, 480));
    assert_eq!(e.z_index(), 7);
    let (events, recreate) = e.begin_frame();
    assert!(events.is_empty());
    assert!(!recreate);
}
