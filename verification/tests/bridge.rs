use scape::focus::{KeyboardFocusTarget, WindowHandle, WindowSurface, X11Handle, SurfaceHandle};
use scape::geometry::{Point, Rectangle, Size};
use scape::grabs::{
    Grab, GrabOutcome, GrabStartData, PointerMoveSurfaceGrab, PointerResizeSurfaceGrab,
};
use scape::selection::{SelectionBridge, SelectionOwnership, SelectionTarget, Side, Transfer};
use scape::state::{Output, State};
use scape::window::{
    OldGeometry, ResizeData, ResizeEdge, ResizeState, Window, WindowKind, WindowStage,
};

fn legacy(id: u64, w: i32, h: i32) -> Window {
    Window::new(
        id,
        WindowKind::Legacy { surface: Some(id + 100) },
        9,
        format!("x{}", id),
        Size::new(w, h),
    )
}

fn state() -> State {
    let mut s = State::new("main".to_string());
    let mut a = Output::new(1, "A".to_string(), Size::new(1920, 1080));
    a.space = Some(0);
    a.zone = Rectangle::from_xywh(0, 30, 1920, 1050);
    s.add_output(a);
    let mut b = Output::new(2, "B".to_string(), Size::new(1080, 1920));
    b.space = Some(0);
    b.location = Point::new(1920, 0);
    s.add_output(b);
    s
}

fn mapped(id: u64, x: i32, y: i32, w: i32, h: i32) -> Window {
    let mut win = legacy(id, w, h);
    win.space = Some(0);
    win.geometry.loc = Point::new(x, y);
    win
}

const RIGHT: ResizeEdge = ResizeEdge { top: false, bottom: false, left: false, right: true };
const TOP_LEFT: ResizeEdge = ResizeEdge { top: true, bottom: false, left: true, right: false };

#[test]
fn override_redirect_with_implausible_location_goes_to_origin() {
    let mut s = state();
    let mut w = legacy(1, 50, 20);
    w.override_redirect = true;
    s.add_window(w);
    assert_eq!(s.mapped_override_redirect_window(1, Point::new(100000, 5)), Some(0));
    assert_eq!(s.windows[0].geometry, Rectangle::from_xywh(0, 0, 50, 20));
    assert_eq!(s.windows[0].space, Some(0));
}

#[test]
fn override_redirect_with_plausible_location_stays() {
    let mut s = state();
    s.add_window(legacy(1, 50, 20));
    s.add_window(legacy(2, 50, 20));
    assert_eq!(s.mapped_override_redirect_window(1, Point::new(10000, 5)), Some(1));
    // mapped on top
    assert_eq!(s.windows[1].id, 1);
    assert_eq!(s.windows[1].geometry.loc, Point::new(10000, 5));
    assert_eq!(s.mapped_override_redirect_window(2, Point::new(5, 10001)), Some(1));
    assert_eq!(s.windows[1].geometry.loc, Point::new(0, 0));
    assert_eq!(s.mapped_override_redirect_window(3, Point::new(5, 5)), None);
}

#[test]
fn map_request_places_decorates_and_focuses() {
    let mut s = state();
    s.add_window(mapped(5, 0, 0, 10, 10));
    s.add_window(legacy(1, 800, 600));
    s.add_window(legacy(2, 100, 100));
    let rect = s.map_window_request(1).unwrap();
    // one window is there already: one step of the cascade from the free corner
    assert_eq!(rect, Rectangle::from_xywh(32, 62, 800, 600));
    let top = s.windows.last().unwrap();
    assert_eq!(top.id, 1);
    assert_eq!(top.geometry, rect);
    assert_eq!(top.space, Some(0));
    assert!(top.ssd);
    assert_eq!(
        s.seat.keyboard_focus,
        Some(KeyboardFocusTarget::Window(WindowHandle {
            id: 1,
            surface: WindowSurface::X11(X11Handle {
                window: 1,
                surface: Some(SurfaceHandle { id: 101, client: 9, alive: true }),
                alive: true,
            }),
        }))
    );
}

#[test]
fn map_request_leaves_override_redirect_and_unknown_alone() {
    let mut s = state();
    let mut w = legacy(1, 800, 600);
    w.override_redirect = true;
    s.add_window(w);
    let before = s.clone();
    assert_eq!(s.map_window_request(1), None);
    assert_eq!(s.map_window_request(2), None);
    assert_eq!(s, before);
}

#[test]
fn map_request_of_self_decorated_window_has_no_ssd() {
    let mut s = state();
    let mut w = legacy(1, 800, 600);
    w.decorated = true;
    s.add_window(w);
    s.map_window_request(1).unwrap();
    assert!(!s.windows[0].ssd);
}

#[test]
fn unmap_focuses_the_top_window_left() {
    let mut s = state();
    s.add_window(mapped(1, 0, 0, 10, 10));
    s.add_window(mapped(2, 0, 0, 10, 10));
    s.add_window(mapped(3, 0, 0, 10, 10));
    assert_eq!(s.unmapped_window(3), Some(2));
    assert_eq!(s.windows.iter().map(|w| w.id).collect::<Vec<_>>(), vec![1, 3, 2]);
    assert_eq!(s.windows[1].space, None);
    assert_eq!(s.unmapped_window(3), None);
    assert_eq!(s.unmapped_window(2), Some(1));
    assert_eq!(s.unmapped_window(1), None);
    assert!(s.windows.iter().all(|w| w.space.is_none()));
    assert_eq!(s.unmapped_window(42), None);
    assert!(s.well_formed());
}

#[test]
fn configure_request_takes_size_not_position() {
    let mut s = state();
    s.add_window(mapped(1, 40, 50, 800, 600));
    assert_eq!(
        s.configure_request(1, Some(1024), None),
        Some(Rectangle::from_xywh(40, 50, 1024, 600))
    );
    assert_eq!(
        s.configure_request(1, None, Some(u32::MAX)),
        Some(Rectangle::from_xywh(40, 50, 1024, i32::MAX))
    );
    assert_eq!(s.windows[0].geometry, Rectangle::from_xywh(40, 50, 1024, i32::MAX));
    assert_eq!(s.configure_request(2, Some(1), Some(1)), None);
}

#[test]
fn configure_notify_moves_mapped_windows_only() {
    let mut s = state();
    s.add_window(mapped(1, 40, 50, 800, 600));
    s.add_window(legacy(2, 10, 10));
    assert!(s.configure_notify(1, Rectangle::from_xywh(7, 8, 1, 1)));
    assert_eq!(s.windows[0].geometry, Rectangle::from_xywh(7, 8, 800, 600));
    assert!(!s.configure_notify(2, Rectangle::from_xywh(7, 8, 1, 1)));
    assert!(!s.configure_notify(3, Rectangle::from_xywh(7, 8, 1, 1)));
    assert_eq!(s.windows[1].geometry.loc, Point::new(0, 0));
}

#[test]
fn maximize_then_unmaximize_round_trips() {
    let mut s = state();
    s.add_window(mapped(1, 2000, 50, 800, 600));
    let before = s.clone();
    // the window lies on the second output: its free area is all of it
    assert_eq!(s.maximize_request_x11(1), Some(Rectangle::from_xywh(1920, 0, 1080, 1920)));
    assert!(s.windows[0].maximized);
    assert_eq!(
        s.windows[0].old_geometry,
        OldGeometry(Some(Rectangle::from_xywh(2000, 50, 800, 600)))
    );
    assert_eq!(s.unmaximize_request(1), Some(Rectangle::from_xywh(2000, 50, 800, 600)));
    assert_eq!(s, before);
}

#[test]
fn maximize_uses_the_usable_area_of_the_first_output_as_fallback() {
    let mut s = state();
    s.add_window(mapped(1, -5000, 50, 800, 600));
    assert_eq!(s.maximize_request(1), Some(Rectangle::from_xywh(0, 30, 1920, 1050)));
}

#[test]
fn maximize_needs_a_mapped_window_and_an_output() {
    let mut s = state();
    s.add_window(legacy(1, 800, 600));
    let before = s.clone();
    assert_eq!(s.maximize_request_x11(1), None);
    assert_eq!(s.maximize_request_x11(2), None);
    assert_eq!(s, before);
    let mut bare = State::new("main".to_string());
    bare.add_window(mapped(1, 0, 0, 10, 10));
    assert_eq!(bare.maximize_request_x11(1), None);
    assert_eq!(bare.fullscreen_request(1), None);
}

#[test]
fn unmaximize_without_snapshot_only_clears_the_flag() {
    let mut s = state();
    let mut w = mapped(1, 40, 50, 800, 600);
    w.maximized = true;
    s.add_window(w);
    assert_eq!(s.unmaximize_request(1), None);
    assert!(!s.windows[0].maximized);
    assert_eq!(s.windows[0].geometry, Rectangle::from_xywh(40, 50, 800, 600));
}

#[test]
fn fullscreen_covers_the_whole_output_without_decorations() {
    let mut s = state();
    let mut w = mapped(1, 40, 50, 800, 600);
    w.ssd = true;
    s.add_window(w);
    assert_eq!(s.fullscreen_request(1), Some(Rectangle::from_xywh(0, 0, 1920, 1080)));
    assert!(s.windows[0].fullscreen);
    assert!(!s.windows[0].ssd);
    assert_eq!(s.windows[0].geometry, Rectangle::from_xywh(0, 0, 1920, 1080));
}

#[test]
fn unfullscreen_restores_decorations_and_recentres() {
    let mut s = state();
    let mut w = mapped(1, 1500, 900, 800, 600);
    w.fullscreen = true;
    s.add_window(w);
    // the first output is 380 + 420 away, the second 420: into the second
    assert_eq!(s.unfullscreen_request(1), Some(Rectangle::from_xywh(1920, 900, 800, 600)));
    assert!(!s.windows[0].fullscreen);
    assert!(s.windows[0].ssd);
    assert_eq!(s.unfullscreen_request(2), None);
}

#[test]
fn resize_grab_on_right_edge() {
    let mut s = state();
    s.add_window(mapped(1, 100, 100, 800, 600));
    assert_eq!(s.windows[0].data.resize_state, ResizeState::NotResizing);
    s.pointer_motion(Point::new(900, 400));
    s.button_pressed(0x110);
    assert!(s.resize_request(1, RIGHT));
    let data = ResizeData {
        edges: RIGHT,
        initial_window_location: Point::new(100, 100),
        initial_window_size: Size::new(800, 600),
    };
    assert_eq!(s.windows[0].data.resize_state, ResizeState::Resizing(data));
    assert_eq!(s.seat.pointer_focus, None);
    let out = s.pointer_motion(Point::new(950, 400));
    assert_eq!(
        out,
        GrabOutcome::Resized { window: 1, geometry: Rectangle::from_xywh(100, 100, 850, 600) }
    );
    assert_eq!(s.windows[0].data.resize_state, ResizeState::WaitingForCommit(data));
    assert_eq!(s.windows[0].geometry.size, Size::new(850, 600));
    s.new_surface(101, 9, None);
    s.commit(101, None);
    assert_eq!(s.windows[0].data.resize_state, ResizeState::NotResizing);
    s.button_released();
    assert_eq!(s.seat.grab, None);
    assert_eq!(s.seat.grab_start, None);
    assert_eq!(s.windows[0].data.resize_state, ResizeState::NotResizing);
}

#[test]
fn resize_released_before_commit_waits_then_ends() {
    let mut s = state();
    s.add_window(mapped(1, 100, 100, 800, 600));
    s.button_pressed(0x110);
    assert!(s.resize_request(1, RIGHT));
    s.button_released();
    assert!(matches!(s.windows[0].data.resize_state, ResizeState::WaitingForCommit(_)));
    s.new_surface(101, 9, None);
    s.commit(101, None);
    assert_eq!(s.windows[0].data.resize_state, ResizeState::NotResizing);
}

#[test]
fn resize_on_top_left_keeps_the_far_corner_and_the_minimum() {
    let grab = PointerResizeSurfaceGrab {
        start_data: GrabStartData { location: Point::new(100, 100), button: 0x110 },
        window: 1,
        edges: TOP_LEFT,
        initial_window_location: Point::new(100, 100),
        initial_window_size: Size::new(800, 600),
        last_window_size: Size::new(800, 600),
    };
    assert_eq!(grab.geometry_for(Point::new(90, 130)), Rectangle::from_xywh(90, 130, 810, 570));
    // dragged past the far corner: the size stops at the minimum
    assert_eq!(grab.geometry_for(Point::new(2000, 2000)), Rectangle::from_xywh(899, 699, 1, 1));
}

#[test]
fn grab_needs_a_held_button_and_a_mapped_window() {
    let mut s = state();
    s.add_window(mapped(1, 100, 100, 800, 600));
    s.add_window(legacy(2, 10, 10));
    let before = s.clone();
    assert!(!s.resize_request(1, RIGHT));
    assert!(!s.move_request_x11(1));
    assert_eq!(s, before);
    s.button_pressed(0x110);
    assert!(!s.resize_request(2, RIGHT));
    assert!(!s.move_request(3));
    assert_eq!(s.seat.grab, None);
}

#[test]
fn move_grab_follows_the_pointer() {
    let mut s = state();
    s.add_window(mapped(1, 100, 100, 800, 600));
    s.pointer_motion(Point::new(500, 500));
    s.button_pressed(0x110);
    assert_eq!(
        s.seat.grab_start,
        Some(GrabStartData { location: Point::new(500, 500), button: 0x110 })
    );
    assert!(s.move_request_x11(1));
    assert_eq!(
        s.seat.grab,
        Some(Grab::Move(PointerMoveSurfaceGrab {
            start_data: GrabStartData { location: Point::new(500, 500), button: 0x110 },
            window: 1,
            initial_window_location: Point::new(100, 100),
        }))
    );
    assert_eq!(
        s.pointer_motion(Point::new(520, 470)),
        GrabOutcome::Moved { window: 1, location: Point::new(120, 70) }
    );
    assert_eq!(s.windows[0].geometry, Rectangle::from_xywh(120, 70, 800, 600));
    s.button_released();
    assert_eq!(s.pointer_motion(Point::new(0, 0)), GrabOutcome::NoGrab);
    assert_eq!(s.windows[0].geometry, Rectangle::from_xywh(120, 70, 800, 600));
}

#[test]
fn move_grab_picks_up_a_maximized_window_at_the_pointer() {
    let mut s = state();
    let mut w = mapped(1, 0, 30, 1920, 1050);
    w.maximized = true;
    w.old_geometry = OldGeometry(Some(Rectangle::from_xywh(100, 100, 800, 600)));
    s.add_window(w);
    s.pointer_motion(Point::new(500, 40));
    s.button_pressed(0x110);
    assert!(s.move_request(1));
    assert!(!s.windows[0].maximized);
    assert_eq!(s.windows[0].old_geometry, OldGeometry(None));
    assert_eq!(s.windows[0].geometry, Rectangle::from_xywh(500, 40, 800, 600));
    assert_eq!(
        s.pointer_motion(Point::new(510, 45)),
        GrabOutcome::Moved { window: 1, location: Point::new(510, 45) }
    );
}

#[test]
fn grab_ends_when_the_window_dies() {
    let mut s = state();
    s.add_window(mapped(1, 100, 100, 800, 600));
    s.button_pressed(0x110);
    assert!(s.move_request_x11(1));
    s.windows[0].alive = false;
    assert_eq!(s.pointer_motion(Point::new(5, 5)), GrabOutcome::Ended);
    assert_eq!(s.seat.grab, None);
    assert_eq!(s.windows[0].geometry.loc, Point::new(100, 100));
    s.windows[0].alive = true;
    assert!(s.resize_request(1, RIGHT));
    s.destroyed_window(1);
    assert_eq!(s.pointer_motion(Point::new(6, 6)), GrabOutcome::Ended);
    assert_eq!(s.seat.pointer_location, Point::new(6, 6));
}

#[test]
fn legacy_clipboard_is_mirrored_and_cleared_by_its_owner() {
    let mut b = SelectionBridge::new();
    let mimes = vec!["text/plain".to_string(), "UTF8_STRING".to_string()];
    b.new_selection(SelectionTarget::Clipboard, Side::Legacy, 7, mimes.clone());
    assert_eq!(
        b.clipboard,
        Some(SelectionOwnership { side: Side::Legacy, marker: 7, mime_types: mimes.clone() })
    );
    assert_eq!(b.primary, None);
    assert!(b.cleared_selection(SelectionTarget::Clipboard, Side::Legacy, 7));
    assert_eq!(b.clipboard, None);
    assert!(!b.cleared_selection(SelectionTarget::Clipboard, Side::Legacy, 7));
}

#[test]
fn stale_clear_leaves_a_newer_ownership() {
    let mut b = SelectionBridge::new();
    b.new_selection(SelectionTarget::Primary, Side::Legacy, 7, vec!["a".to_string()]);
    b.new_selection(SelectionTarget::Primary, Side::Native, 8, vec!["b".to_string()]);
    assert!(!b.cleared_selection(SelectionTarget::Primary, Side::Legacy, 7));
    assert!(!b.cleared_selection(SelectionTarget::Primary, Side::Legacy, 8));
    assert!(!b.cleared_selection(SelectionTarget::Clipboard, Side::Native, 8));
    assert_eq!(
        b.primary,
        Some(SelectionOwnership {
            side: Side::Native,
            marker: 8,
            mime_types: vec!["b".to_string()]
        })
    );
    assert!(b.cleared_selection(SelectionTarget::Primary, Side::Native, 8));
}

#[test]
fn transfer_goes_from_the_owner_to_the_other_side() {
    let mut b = SelectionBridge::new();
    let plain = || "text/plain".to_string();
    assert_eq!(b.send_selection(SelectionTarget::Clipboard, Side::Native, plain()), None);
    b.new_selection(SelectionTarget::Clipboard, Side::Legacy, 1, vec!["text/plain".to_string()]);
    assert_eq!(
        b.send_selection(SelectionTarget::Clipboard, Side::Native, plain()),
        Some(Transfer { from: Side::Legacy, to: Side::Native, mime_type: plain() })
    );
    assert_eq!(b.send_selection(SelectionTarget::Clipboard, Side::Legacy, plain()), None);
    assert_eq!(b.send_selection(SelectionTarget::Primary, Side::Native, plain()), None);
    assert_eq!(Side::Native.opposite(), Side::Legacy);
    assert_eq!(Side::Legacy.opposite(), Side::Native);
}

#[test]
fn selection_access_needs_a_focused_legacy_window() {
    let mut s = state();
    assert!(!s.allow_selection_access());
    s.add_window(legacy(1, 10, 10));
    s.map_window_request(1);
    assert!(s.allow_selection_access());
    s.seat.keyboard_focus = Some(KeyboardFocusTarget::Window(WindowHandle {
        id: 2,
        surface: WindowSurface::Wayland(SurfaceHandle { id: 5, client: 1, alive: true }),
    }));
    assert!(!s.allow_selection_access());
    s.seat.keyboard_focus = Some(KeyboardFocusTarget::LayerSurface(SurfaceHandle {
        id: 5,
        client: 1,
        alive: true,
    }));
    assert!(!s.allow_selection_access());
}

#[test]
fn unmap_leaves_the_window_plain() {
    let mut s = state();
    s.add_window(mapped(1, 2000, 50, 800, 600));
    assert_eq!(s.windows[0].state(), WindowStage::Mapped);
    s.maximize_request_x11(1);
    assert_eq!(s.windows[0].state(), WindowStage::Maximized);
    s.fullscreen_request(1);
    assert_eq!(s.windows[0].state(), WindowStage::Fullscreen);
    assert_eq!(s.unmap_window(1), Some(0));
    assert_eq!(s.windows[0].state(), WindowStage::Unmapped);
    assert!(!s.windows[0].maximized);
    assert!(!s.windows[0].fullscreen);
    assert_eq!(s.windows[0].old_geometry, OldGeometry(None));
    assert_eq!(s.unmap_window(1), None);
    s.map_window_request(1);
    assert_eq!(s.windows[0].state(), WindowStage::Mapped);
}

#[test]
fn output_changes_fix_up_the_space() {
    let mut s = state();
    s.add_window(mapped(1, 2500, 50, 800, 600));
    let mut c = Output::new(3, "C".to_string(), Size::new(800, 600));
    c.space = Some(0);
    assert!(s.output_added(c.clone()));
    assert!(!s.output_added(c));
    assert_eq!(s.outputs[2].location, Point::new(3000, 0));
    // the first output goes: the others move up, and the window is brought back
    let gone = s.output_removed(1).unwrap();
    assert_eq!(gone.name, "A");
    assert_eq!(s.outputs[0].location, Point::new(0, 0));
    assert_eq!(s.outputs[1].location, Point::new(1080, 0));
    assert_eq!(s.windows[0].geometry, Rectangle::from_xywh(1080, 0, 800, 600));
    assert!(s.output_removed(1).is_none());
    assert!(s.output_mode_changed(2, Size::new(640, 480), Rectangle::from_xywh(0, 20, 640, 460)));
    assert_eq!(s.outputs[1].location, Point::new(640, 0));
    // the window's corner still lies on the third output: it stays
    assert_eq!(s.windows[0].geometry, Rectangle::from_xywh(1080, 0, 800, 600));
    assert!(!s.output_mode_changed(9, Size::new(1, 1), Rectangle::from_xywh(0, 0, 1, 1)));
}

fn bare(id: u64) -> Window {
    let mut w = Window::new(
        id,
        WindowKind::Legacy { surface: None },
        9,
        format!("x{}", id),
        Size::new(800, 600),
    );
    w.space = Some(0);
    w.geometry.loc = Point::new(40, 50);
    w
}

#[test]
fn requests_for_a_window_without_its_surface_are_ignored() {
    let mut s = state();
    let mut w = bare(1);
    w.maximized = true;
    w.fullscreen = true;
    w.old_geometry = OldGeometry(Some(Rectangle::from_xywh(1, 2, 3, 4)));
    s.add_window(w);
    s.add_window(bare(2));
    s.button_pressed(0x110);
    let before = s.clone();
    assert_eq!(s.maximize_request_x11(2), None);
    assert_eq!(s.maximize_request(2), None);
    assert_eq!(s.fullscreen_request(2), None);
    assert_eq!(s.unmaximize_request(1), None);
    assert_eq!(s.unfullscreen_request(1), None);
    assert!(!s.configure_notify(2, Rectangle::from_xywh(7, 8, 9, 10)));
    assert!(!s.resize_request(2, RIGHT));
    assert!(!s.move_request_x11(2));
    assert!(!s.move_request(2));
    assert_eq!(s, before);
    assert_eq!(s.shown_window(2), None);
    assert_eq!(s.grabbable_window(2), None);

    // once the surface is there the same requests are taken
    s.windows[1].kind = WindowKind::Legacy { surface: Some(102) };
    assert_eq!(s.shown_window(2), Some(1));
    assert_eq!(s.grabbable_window(2), Some(1));
    assert!(s.configure_notify(2, Rectangle::from_xywh(7, 8, 9, 10)));
    assert_eq!(s.maximize_request_x11(2), Some(Rectangle::from_xywh(0, 30, 1920, 1050)));
    assert!(s.resize_request(2, RIGHT));
}

#[test]
fn a_grab_starts_on_a_window_at_rest_only() {
    let mut s = state();
    s.add_window(mapped(1, 100, 100, 800, 600));
    s.pointer_motion(Point::new(900, 400));
    s.button_pressed(0x110);
    assert!(s.resize_request(1, RIGHT));
    // a second request while the first resize is under way is out of turn
    let during = s.clone();
    assert!(!s.resize_request(1, TOP_LEFT));
    assert!(!s.move_request_x11(1));
    assert_eq!(s, during);
    s.pointer_motion(Point::new(950, 400));
    s.button_released();
    assert!(matches!(s.windows[0].data.resize_state, ResizeState::WaitingForCommit(_)));
    // and so is one that comes before the client has committed
    s.button_pressed(0x110);
    let waiting = s.clone();
    assert!(!s.resize_request(1, RIGHT));
    assert!(!s.move_request(1));
    assert_eq!(s, waiting);
    s.new_surface(101, 9, None);
    s.commit(101, None);
    assert_eq!(s.windows[0].data.resize_state, ResizeState::NotResizing);
    assert!(s.resize_request(1, RIGHT));
}
