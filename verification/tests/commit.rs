use scape::commit::{
    CommitOutcome, ConfigureAction, PendingBuffer, PopupKind, SurfaceRole, SyncAction,
    SyncBlocker, SyncKind,
};
use scape::geometry::{Point, Rectangle, Size};
use scape::state::{CursorImageStatus, DndIcon, Output, State};
use scape::window::{ResizeData, ResizeEdge, ResizeState, Window, WindowKind};

fn state_with_window() -> State {
    let mut s = State::new("main".to_string());
    assert!(s.new_surface(10, 1, None));
    assert!(s.new_surface(11, 1, Some(10)));
    assert!(s.new_surface(12, 1, Some(11)));
    let mut w = Window::new(
        1,
        WindowKind::Native { surface: 10 },
        1,
        "term".to_string(),
        Size::new(800, 600),
    );
    w.space = Some(0);
    w.geometry.loc = Point::new(100, 200);
    assert!(s.add_window(w));
    s
}

#[test]
fn commit_moves_window_by_buffer_offset() {
    let mut s = state_with_window();
    let out = s.commit(10, Some(Point::new(7, -3)));
    assert_eq!(s.windows[0].geometry, Rectangle::from_xywh(107, 197, 800, 600));
    assert_eq!(out.window, Some(0));
    assert!(out.redraw);
}

#[test]
fn commit_offset_saturates() {
    let mut s = state_with_window();
    s.windows[0].geometry.loc = Point::new(i32::MAX - 1, i32::MIN + 1);
    s.commit(10, Some(Point::new(5, -5)));
    assert_eq!(s.windows[0].geometry.loc, Point::new(i32::MAX, i32::MIN));
}

#[test]
fn commit_without_offset_leaves_window() {
    let mut s = state_with_window();
    let out = s.commit(10, None);
    assert_eq!(s.windows[0].geometry, Rectangle::from_xywh(100, 200, 800, 600));
    assert_eq!(out.window, Some(0));
}

#[test]
fn commit_on_subsurface_does_not_move_window() {
    let mut s = state_with_window();
    let out = s.commit(12, Some(Point::new(7, -3)));
    assert_eq!(s.windows[0].geometry.loc, Point::new(100, 200));
    // the commit belongs to the window's tree all the same
    assert_eq!(out.window, Some(0));
    assert_eq!(s.root_surface(12), 10);
    assert_eq!(s.root_surface(10), 10);
    assert_eq!(s.root_surface(99), 99);
}

#[test]
fn commit_on_sync_subsurface_has_no_window() {
    let mut s = state_with_window();
    s.surfaces[1].sync = true;
    let out = s.commit(11, Some(Point::new(1, 1)));
    assert_eq!(out.window, None);
    assert_eq!(s.windows[0].geometry.loc, Point::new(100, 200));
}

#[test]
fn commit_on_unknown_surface_changes_nothing() {
    let mut s = state_with_window();
    let before = s.clone();
    let out = s.commit(77, Some(Point::new(1, 1)));
    assert_eq!(
        out,
        CommitOutcome { window: None, configure: ConfigureAction::Nothing, redraw: true }
    );
    assert_eq!(s, before);
}

#[test]
fn commit_sends_initial_configure_once() {
    let mut s = state_with_window();
    let first = s.commit(10, None);
    assert_eq!(first.configure, ConfigureAction::Toplevel(1));
    assert!(s.surfaces[0].configure_sent);
    let second = s.commit(10, None);
    assert_eq!(second.configure, ConfigureAction::Nothing);
}

#[test]
fn commit_configures_popups_and_layers() {
    let mut s = state_with_window();
    s.new_surface(20, 2, None);
    s.new_surface(21, 2, None);
    s.new_surface(22, 2, None);
    s.new_surface(23, 2, None);
    s.surfaces[3].role = SurfaceRole::Popup(PopupKind::Xdg);
    s.surfaces[4].role = SurfaceRole::Popup(PopupKind::InputMethod);
    s.surfaces[5].role = SurfaceRole::Layer(5);
    s.surfaces[6].role = SurfaceRole::Layer(6);
    let mut o = Output::new(5, "A".to_string(), Size::new(100, 100));
    o.space = Some(0);
    s.add_output(o);
    s.add_output(Output::new(6, "B".to_string(), Size::new(100, 100)));
    assert_eq!(s.commit(20, None).configure, ConfigureAction::Popup(20));
    assert_eq!(s.commit(20, None).configure, ConfigureAction::Nothing);
    assert_eq!(s.commit(21, None).configure, ConfigureAction::Nothing);
    assert_eq!(
        s.commit(22, None).configure,
        ConfigureAction::Layer { surface: 22, output: 5, configure: true }
    );
    assert_eq!(
        s.commit(22, None).configure,
        ConfigureAction::Layer { surface: 22, output: 5, configure: false }
    );
    // an output that is mapped in no space has no layers to configure
    assert_eq!(s.commit(23, None).configure, ConfigureAction::Nothing);
}

#[test]
fn commit_ends_resize_that_waited() {
    let mut s = state_with_window();
    let data = ResizeData {
        edges: ResizeEdge { top: false, bottom: false, left: false, right: true },
        initial_window_location: Point::new(0, 0),
        initial_window_size: Size::new(800, 600),
    };
    s.windows[0].data.resize_state = ResizeState::WaitingForCommit(data);
    s.commit(10, None);
    assert_eq!(s.windows[0].data.resize_state, ResizeState::NotResizing);
    s.windows[0].data.resize_state = ResizeState::Resizing(data);
    s.commit(10, None);
    assert_eq!(s.windows[0].data.resize_state, ResizeState::Resizing(data));
}

#[test]
fn commit_shifts_cursor_hotspot_back() {
    let mut s = state_with_window();
    s.new_surface(30, 1, None);
    s.cursor_image(CursorImageStatus::Surface { surface: 30, hotspot: Point::new(4, 4) });
    s.commit(30, Some(Point::new(1, 2)));
    assert_eq!(
        s.seat.cursor,
        CursorImageStatus::Surface { surface: 30, hotspot: Point::new(3, 2) }
    );
}

#[test]
fn commit_moves_drag_icon() {
    let mut s = state_with_window();
    s.new_surface(40, 1, None);
    s.seat.dnd_icon = Some(DndIcon { surface: 40, offset: Point::new(-4, -4) });
    s.commit(40, Some(Point::new(1, 2)));
    assert_eq!(s.seat.dnd_icon, Some(DndIcon { surface: 40, offset: Point::new(-3, -2) }));
    s.commit(40, None);
    assert_eq!(s.seat.dnd_icon, Some(DndIcon { surface: 40, offset: Point::new(-3, -2) }));
}

#[test]
fn window_takes_the_offset_before_the_cursor() {
    let mut s = state_with_window();
    s.cursor_image(CursorImageStatus::Surface { surface: 10, hotspot: Point::new(4, 4) });
    s.seat.dnd_icon = Some(DndIcon { surface: 10, offset: Point::new(0, 0) });
    s.commit(10, Some(Point::new(1, 2)));
    assert_eq!(s.windows[0].geometry.loc, Point::new(101, 202));
    assert_eq!(
        s.seat.cursor,
        CursorImageStatus::Surface { surface: 10, hotspot: Point::new(4, 4) }
    );
    assert_eq!(s.seat.dnd_icon, Some(DndIcon { surface: 10, offset: Point::new(0, 0) }));
}

#[test]
fn sync_steps_fall_back_and_never_drop() {
    let mut s = state_with_window();
    let plain = PendingBuffer { dmabuf: false, acquire_point: true };
    assert_eq!(s.pre_commit(10, plain), SyncAction::Apply);
    let explicit = PendingBuffer { dmabuf: true, acquire_point: true };
    assert_eq!(s.pre_commit(10, explicit), SyncAction::Attempt(SyncKind::Explicit));
    assert_eq!(
        s.sync_result(10, SyncKind::Explicit, false),
        SyncAction::Attempt(SyncKind::Implicit)
    );
    assert_eq!(s.sync_result(10, SyncKind::Implicit, false), SyncAction::Apply);
    assert_eq!(s.surfaces[0].blocker, None);
    let implicit = PendingBuffer { dmabuf: true, acquire_point: false };
    assert_eq!(s.pre_commit(10, implicit), SyncAction::Attempt(SyncKind::Implicit));
    assert_eq!(s.sync_result(10, SyncKind::Implicit, true), SyncAction::Wait(SyncKind::Implicit));
    assert_eq!(
        s.surfaces[0].blocker,
        Some(SyncBlocker { kind: SyncKind::Implicit, serial: 3 })
    );
    assert_eq!(s.sync_result(99, SyncKind::Implicit, true), SyncAction::Apply);
}

#[test]
fn newer_blocker_supersedes_older() {
    let mut s = state_with_window();
    let buffer = PendingBuffer { dmabuf: true, acquire_point: true };
    s.pre_commit(10, buffer);
    s.sync_result(10, SyncKind::Explicit, true);
    s.pre_commit(10, buffer);
    s.sync_result(10, SyncKind::Explicit, true);
    assert_eq!(
        s.surfaces[0].blocker,
        Some(SyncBlocker { kind: SyncKind::Explicit, serial: 2 })
    );
    assert!(!s.blocker_cleared(10, 1));
    assert!(s.surfaces[0].blocker.is_some());
    assert!(s.blocker_cleared(10, 2));
    assert_eq!(s.surfaces[0].blocker, None);
    assert!(!s.blocker_cleared(10, 2));
}

#[test]
fn new_surface_rejects_taken_identifier() {
    let mut s = state_with_window();
    let before = s.clone();
    assert!(!s.new_surface(10, 5, None));
    assert_eq!(s, before);
    assert_eq!(s.surfaces[2].parent, Some(11));
    assert_eq!(s.surfaces[2].space, 0);
    assert_eq!(s.surface_index(12), Some(2));
    assert_eq!(s.surface_index(13), None);
    let gone = s.surface_destroyed(11).unwrap();
    assert_eq!(gone.id, 11);
    assert_eq!(s.surfaces.len(), 2);
    assert_eq!(s.surface_destroyed(11), None);
}

#[test]
fn root_walk_ends_on_a_cycle() {
    let mut s = State::new("main".to_string());
    s.new_surface(1, 1, Some(2));
    s.new_surface(2, 1, Some(1));
    // two surfaces: two steps, back at the start
    assert_eq!(s.root_surface(1), 1);
}

#[test]
fn surface_is_eligible_for_mapping_after_its_configure() {
    let mut s = state_with_window();
    assert!(!s.eligible_for_mapping(10));
    s.commit(10, None);
    assert!(s.eligible_for_mapping(10));
    assert!(!s.eligible_for_mapping(11));
    assert!(!s.eligible_for_mapping(99));
}
