use scape::focus::{
    EguiWindow, KeyboardEventKind, KeyboardFocusTarget, NotAWindow, PointerEventKind,
    PointerFocusTarget, PopupHandle, Route, SurfaceHandle, TouchEventKind, WindowHandle,
    WindowSurface, WorkspaceWindow, X11Handle, SSD,
};
use scape::geometry::{Point, Rectangle, Size};
use scape::state::{CursorImageStatus, DndIcon, State};
use scape::window::{OldGeometry, ResizeState, SurfaceData, Window, WindowKind};

fn surface(id: u64, alive: bool) -> SurfaceHandle {
    SurfaceHandle { id, client: 3, alive }
}

fn x11(window: u64, alive: bool) -> X11Handle {
    X11Handle { window, surface: Some(surface(window + 100, alive)), alive }
}

fn keyboard_targets(alive: bool) -> Vec<KeyboardFocusTarget> {
    vec![
        KeyboardFocusTarget::Window(WindowHandle {
            id: 1,
            surface: WindowSurface::Wayland(surface(10, alive)),
        }),
        KeyboardFocusTarget::Window(WindowHandle {
            id: 2,
            surface: WindowSurface::X11(x11(2, alive)),
        }),
        KeyboardFocusTarget::LayerSurface(surface(11, alive)),
        KeyboardFocusTarget::Popup(PopupHandle::Xdg(surface(12, alive))),
        KeyboardFocusTarget::Popup(PopupHandle::InputMethod(surface(13, alive))),
        KeyboardFocusTarget::LockScreen(surface(14, alive)),
    ]
}

const KEYBOARD_KINDS: [KeyboardEventKind; 4] = [
    KeyboardEventKind::Enter,
    KeyboardEventKind::Leave,
    KeyboardEventKind::Key,
    KeyboardEventKind::Modifiers,
];

const POINTER_KINDS: [PointerEventKind; 15] = [
    PointerEventKind::Enter,
    PointerEventKind::Motion,
    PointerEventKind::RelativeMotion,
    PointerEventKind::Button,
    PointerEventKind::Axis,
    PointerEventKind::Frame,
    PointerEventKind::Leave,
    PointerEventKind::GestureSwipeBegin,
    PointerEventKind::GestureSwipeUpdate,
    PointerEventKind::GestureSwipeEnd,
    PointerEventKind::GesturePinchBegin,
    PointerEventKind::GesturePinchUpdate,
    PointerEventKind::GesturePinchEnd,
    PointerEventKind::GestureHoldBegin,
    PointerEventKind::GestureHoldEnd,
];

const TOUCH_KINDS: [TouchEventKind; 7] = [
    TouchEventKind::Down,
    TouchEventKind::Up,
    TouchEventKind::Motion,
    TouchEventKind::Frame,
    TouchEventKind::Cancel,
    TouchEventKind::Shape,
    TouchEventKind::Orientation,
];

#[test]
fn dead_targets_receive_nothing() {
    for t in keyboard_targets(false) {
        assert!(!t.alive());
        for k in KEYBOARD_KINDS {
            assert_eq!(t.dispatch(k), Route::Nowhere);
        }
        let p = t.into_pointer_target();
        assert!(!p.alive());
        for k in POINTER_KINDS {
            assert_eq!(p.dispatch(k), Route::Nowhere);
        }
        for k in TOUCH_KINDS {
            assert_eq!(p.dispatch_touch(k), Route::Nowhere);
        }
    }
    let ssd = PointerFocusTarget::SSD(SSD {
        window: WindowHandle { id: 1, surface: WindowSurface::Wayland(surface(10, false)) },
    });
    assert!(!ssd.alive());
    assert_eq!(ssd.dispatch(PointerEventKind::Button), Route::Nowhere);
    assert_eq!(ssd.dispatch_touch(TouchEventKind::Down), Route::Nowhere);
}

#[test]
fn live_targets_route_to_their_receiver() {
    let expected = [
        Route::Surface(10),
        Route::X11(2),
        Route::Surface(11),
        Route::Surface(12),
        Route::Surface(13),
        Route::Surface(14),
    ];
    for (t, r) in keyboard_targets(true).into_iter().zip(expected) {
        assert!(t.alive());
        for k in KEYBOARD_KINDS {
            assert_eq!(t.dispatch(k), r);
        }
        let p = t.into_pointer_target();
        for k in POINTER_KINDS {
            assert_eq!(p.dispatch(k), r);
        }
        for k in TOUCH_KINDS {
            assert_eq!(p.dispatch_touch(k), r);
        }
    }
}

#[test]
fn overlay_takes_keys_and_pointer_but_no_touch() {
    let k = KeyboardFocusTarget::Egui(EguiWindow { id: 4 });
    assert!(k.alive());
    assert_eq!(k.mark_dead(), k);
    assert_eq!(k.dispatch(KeyboardEventKind::Key), Route::Overlay(4));
    let p = k.into_pointer_target();
    assert_eq!(p, PointerFocusTarget::Egui(EguiWindow { id: 4 }));
    assert_eq!(p.dispatch(PointerEventKind::Axis), Route::Overlay(4));
    for kind in TOUCH_KINDS {
        assert_eq!(p.dispatch_touch(kind), Route::Nowhere);
    }
    assert_eq!(p.wl_surface(), None);
    assert!(!p.same_client_as(3));
}

#[test]
fn decorations_route_to_the_window() {
    let ssd = PointerFocusTarget::SSD(SSD {
        window: WindowHandle { id: 9, surface: WindowSurface::X11(x11(9, true)) },
    });
    assert_eq!(ssd.dispatch(PointerEventKind::Motion), Route::Decoration(9));
    assert_eq!(ssd.dispatch_touch(TouchEventKind::Up), Route::Decoration(9));
    assert_eq!(ssd.wl_surface(), None);
    assert!(ssd.same_client_as(3));
    assert!(!ssd.same_client_as(4));
}

#[test]
fn only_windows_come_back_from_a_target() {
    let app = WorkspaceWindow::ApplicationWindow(WindowHandle {
        id: 1,
        surface: WindowSurface::Wayland(surface(10, true)),
    });
    let egui = WorkspaceWindow::EguiWindow(EguiWindow { id: 2 });
    assert_eq!(KeyboardFocusTarget::from_window(app).try_into_window(), Ok(app));
    // the overlay can hold the focus but is not to be had back as a window
    assert_eq!(KeyboardFocusTarget::from_window(egui).try_into_window(), Err(NotAWindow));
    assert_eq!(
        WorkspaceWindow::try_from(KeyboardFocusTarget::Egui(EguiWindow { id: 2 })),
        Err(NotAWindow)
    );
    for t in keyboard_targets(true).into_iter().skip(2) {
        assert_eq!(t.try_into_window(), Err(NotAWindow));
    }
}

#[test]
fn surfaces_and_clients_of_targets() {
    let ts = keyboard_targets(true);
    assert_eq!(ts[0].wl_surface(), Some(surface(10, true)));
    assert_eq!(ts[1].wl_surface(), Some(surface(102, true)));
    assert_eq!(ts[3].wl_surface(), Some(surface(12, true)));
    assert!(ts[0].same_client_as(3));
    assert!(!ts[0].same_client_as(4));
    let bare = PointerFocusTarget::from_x11(X11Handle { window: 5, surface: None, alive: true });
    assert_eq!(bare.wl_surface(), None);
    assert!(!bare.same_client_as(3));
    assert_eq!(
        PointerFocusTarget::from_popup(PopupHandle::Xdg(surface(12, true))),
        PointerFocusTarget::from_surface(surface(12, true))
    );
    assert_eq!(State::focus_changed(Some(ts[1])), Some(3));
    assert_eq!(State::focus_changed(Some(KeyboardFocusTarget::Egui(EguiWindow { id: 1 }))), None);
    assert_eq!(State::focus_changed(None), None);
}

#[test]
fn a_dead_focus_holder_loses_the_focus() {
    let mut s = State::new("main".to_string());
    assert_eq!(s.keyboard_event(KeyboardEventKind::Key), Route::Nowhere);
    let live = keyboard_targets(true)[0];
    s.seat.keyboard_focus = Some(live);
    assert_eq!(s.keyboard_event(KeyboardEventKind::Key), Route::Surface(10));
    assert_eq!(s.seat.keyboard_focus, Some(live));
    s.seat.keyboard_focus = Some(live.mark_dead());
    assert_eq!(s.keyboard_event(KeyboardEventKind::Key), Route::Nowhere);
    assert_eq!(s.seat.keyboard_focus, None);
    assert_eq!(s.keyboard_event(KeyboardEventKind::Leave), Route::Nowhere);

    s.seat.pointer_focus = Some(PointerFocusTarget::X11Surface(x11(2, true)));
    assert_eq!(s.pointer_event(PointerEventKind::Motion), Route::X11(2));
    assert_eq!(s.touch_event(TouchEventKind::Down), Route::X11(2));
    s.seat.pointer_focus = Some(PointerFocusTarget::X11Surface(x11(2, false)));
    assert_eq!(s.touch_event(TouchEventKind::Down), Route::Nowhere);
    assert_eq!(s.seat.pointer_focus, None);
    s.seat.pointer_focus = Some(PointerFocusTarget::WlSurface(surface(1, false)));
    assert_eq!(s.pointer_event(PointerEventKind::Enter), Route::Nowhere);
    assert_eq!(s.seat.pointer_focus, None);
}

#[test]
fn destroying_a_window_kills_the_focus_it_held() {
    let mut s = State::new("main".to_string());
    s.add_window(Window::new(
        1,
        WindowKind::Native { surface: 10 },
        3,
        "a".to_string(),
        Size::new(1, 1),
    ));
    s.add_window(Window::new(2, WindowKind::Overlay, 0, "b".to_string(), Size::new(1, 1)));
    assert!(s.focus_window(1));
    assert_eq!(s.windows[1].id, 1);
    assert!(!s.focus_window(3));
    let gone = s.destroyed_window(1).unwrap();
    assert_eq!(gone.id, 1);
    assert_eq!(s.windows.len(), 1);
    assert_eq!(s.keyboard_event(KeyboardEventKind::Key), Route::Nowhere);
    assert_eq!(s.seat.keyboard_focus, None);
    assert!(s.destroyed_window(1).is_none());
    assert!(s.focus_window(2));
    assert_eq!(s.seat.keyboard_focus, Some(KeyboardFocusTarget::Egui(EguiWindow { id: 2 })));
}

#[test]
fn seat_keeps_cursor_and_drag_icon() {
    let mut s = State::new("main".to_string());
    s.dnd_started(Some(5));
    assert_eq!(s.seat.dnd_icon, Some(DndIcon { surface: 5, offset: Point::new(0, 0) }));
    s.cursor_image(CursorImageStatus::Surface { surface: 6, hotspot: Point::new(3, i32::MIN) });
    s.dnd_started(Some(5));
    assert_eq!(s.seat.dnd_icon, Some(DndIcon { surface: 5, offset: Point::new(-3, i32::MAX) }));
    s.dnd_dropped();
    assert_eq!(s.seat.dnd_icon, None);
    s.dnd_started(None);
    assert_eq!(s.seat.dnd_icon, None);
    s.cursor_image(CursorImageStatus::Hidden);
    assert_eq!(s.seat.cursor, CursorImageStatus::Hidden);
}

#[test]
fn constraint_activates_under_the_pointer_only() {
    let mut s = State::new("main".to_string());
    assert!(!s.new_constraint(10));
    s.seat.pointer_focus = Some(PointerFocusTarget::WlSurface(surface(10, true)));
    assert!(s.new_constraint(10));
    assert!(!s.new_constraint(11));
    s.seat.pointer_focus = Some(PointerFocusTarget::Egui(EguiWindow { id: 10 }));
    assert!(!s.new_constraint(10));
}

#[test]
fn parent_geometry_of_input_method_popup() {
    let mut s = State::new("main".to_string());
    let mut w = Window::new(
        1,
        WindowKind::Native { surface: 10 },
        3,
        "a".to_string(),
        Size::new(300, 200),
    );
    w.space = Some(0);
    w.geometry.loc = Point::new(5, 6);
    s.add_window(w);
    assert_eq!(s.parent_geometry(10), Rectangle::from_xywh(5, 6, 300, 200));
    assert_eq!(s.parent_geometry(11), Rectangle::from_xywh(0, 0, 0, 0));
}

#[test]
fn conversions_go_by_the_usual_traits() {
    let app = WorkspaceWindow::ApplicationWindow(WindowHandle {
        id: 1,
        surface: WindowSurface::X11(x11(1, true)),
    });
    let target: KeyboardFocusTarget = app.into();
    assert_eq!(target, KeyboardFocusTarget::from_window(app));
    assert_eq!(WorkspaceWindow::try_from(target), Ok(app));
    let pointer: PointerFocusTarget = target.into();
    assert_eq!(pointer, PointerFocusTarget::X11Surface(x11(1, true)));
    let layer = KeyboardFocusTarget::LayerSurface(surface(3, true));
    assert_eq!(WorkspaceWindow::try_from(layer), Err(NotAWindow));
    assert_eq!(PointerFocusTarget::from(layer), PointerFocusTarget::WlSurface(surface(3, true)));
}

#[test]
fn defaults_are_at_rest() {
    assert_eq!(ResizeState::default(), ResizeState::NotResizing);
    assert_eq!(SurfaceData::default(), SurfaceData::new());
    assert_eq!(OldGeometry::default(), OldGeometry(None));
    let mut kept = OldGeometry::default();
    kept.save(Rectangle::from_xywh(1, 2, 3, 4));
    kept.save(Rectangle::from_xywh(5, 6, 7, 8));
    assert_eq!(kept.restore(), Some(Rectangle::from_xywh(5, 6, 7, 8)));
    assert_eq!(kept.restore(), None);
}

#[test]
fn a_client_takes_its_surfaces_and_windows_along() {
    let mut s = State::new("main".to_string());
    s.new_surface(1, 7, None);
    s.new_surface(2, 8, None);
    s.new_surface(3, 7, Some(1));
    s.new_surface(4, 9, None);
    s.add_window(Window::new(
        10,
        WindowKind::Native { surface: 1 },
        7,
        "a".to_string(),
        Size::new(1, 1),
    ));
    s.add_window(Window::new(
        11,
        WindowKind::Native { surface: 2 },
        8,
        "b".to_string(),
        Size::new(1, 1),
    ));
    s.add_window(Window::new(12, WindowKind::Overlay, 7, "c".to_string(), Size::new(1, 1)));
    assert_eq!(s.client_disconnected(7), 2);
    assert_eq!(s.surfaces.iter().map(|x| x.id).collect::<Vec<_>>(), vec![2, 4]);
    assert!(!s.windows[0].alive);
    assert!(s.windows[1].alive);
    assert!(s.windows[2].alive);
    assert!(s.well_formed());
    assert_eq!(s.client_disconnected(7), 0);
    assert_eq!(s.window_by_name("a"), None);
}

#[test]
fn each_capability_routes_as_the_others_do() {
    for alive in [true, false] {
        for t in keyboard_targets(alive) {
            let expected = t.dispatch(KeyboardEventKind::Key);
            assert_eq!(expected == Route::Nowhere, !alive);
            for r in [t.enter(), t.leave(), t.key(), t.modifiers()] {
                assert_eq!(r, expected);
            }
            let p = t.into_pointer_target();
            for r in [
                p.enter(),
                p.motion(),
                p.relative_motion(),
                p.button(),
                p.axis(),
                p.frame(),
                p.leave(),
                p.gesture_swipe_begin(),
                p.gesture_swipe_update(),
                p.gesture_swipe_end(),
                p.gesture_pinch_begin(),
                p.gesture_pinch_update(),
                p.gesture_pinch_end(),
                p.gesture_hold_begin(),
                p.gesture_hold_end(),
                p.down(),
                p.up(),
                p.touch_motion(),
                p.touch_frame(),
                p.cancel(),
                p.shape(),
                p.orientation(),
            ] {
                assert_eq!(r, expected);
            }
        }
    }
    let overlay = PointerFocusTarget::Egui(EguiWindow { id: 4 });
    assert_eq!(overlay.motion(), Route::Overlay(4));
    assert_eq!(overlay.gesture_hold_end(), Route::Overlay(4));
    for r in [
        overlay.down(),
        overlay.up(),
        overlay.touch_motion(),
        overlay.touch_frame(),
        overlay.cancel(),
        overlay.shape(),
        overlay.orientation(),
    ] {
        assert_eq!(r, Route::Nowhere);
    }
    let keys = KeyboardFocusTarget::Egui(EguiWindow { id: 4 });
    assert_eq!(keys.key(), Route::Overlay(4));
}
