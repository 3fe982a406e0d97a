use scape::geometry::{Point, Rectangle, Size};
use scape::state::{Output, State, Zone};
use scape::window::{Window, WindowKind};

fn state() -> State {
    State::new("main".to_string())
}

fn output(id: u64, name: &str, w: i32, h: i32) -> Output {
    let mut o = Output::new(id, name.to_string(), Size::new(w, h));
    o.space = Some(0);
    o
}

fn window(id: u64, w: i32, h: i32) -> Window {
    Window::new(
        id,
        WindowKind::Legacy { surface: Some(id + 1000) },
        1,
        format!("app{}", id),
        Size::new(w, h),
    )
}

#[test]
fn fixup_lays_two_outputs_side_by_side() {
    let mut s = state();
    assert!(s.add_output(output(1, "A", 1920, 1080)));
    assert!(s.add_output(output(2, "B", 1080, 1920)));
    s.outputs[0].location = Point::new(300, 40);
    s.outputs[1].location = Point::new(-5, 7);
    s.fixup_positions("main");
    assert_eq!(s.outputs[0].location, Point::new(0, 0));
    assert_eq!(s.outputs[1].location, Point::new(1920, 0));
}

#[test]
fn fixup_twice_changes_nothing_more() {
    let mut s = state();
    s.add_output(output(1, "A", 1920, 1080));
    s.add_output(output(2, "B", 1080, 1920));
    let mut w = window(7, 800, 600);
    w.space = Some(0);
    w.geometry.loc = Point::new(5000, 5000);
    s.add_window(w);
    let mut v = window(8, 4000, 600);
    v.space = Some(0);
    v.geometry.loc = Point::new(-10, -10);
    s.add_window(v);
    s.fixup_positions("main");
    let once = s.clone();
    s.fixup_positions("main");
    assert_eq!(s, once);
    // the first window was brought into the second output, which is nearest
    assert_eq!(s.windows[0].geometry, Rectangle::from_xywh(2200, 1320, 800, 600));
    // the second fits nowhere and stays
    assert_eq!(s.windows[1].geometry, Rectangle::from_xywh(-10, -10, 4000, 600));
    assert!(s.well_formed());
}

#[test]
fn fixup_of_unknown_space_does_nothing() {
    let mut s = state();
    s.add_output(output(1, "A", 1920, 1080));
    s.outputs[0].location = Point::new(3, 4);
    let before = s.clone();
    s.fixup_positions("other");
    assert_eq!(s, before);
}

#[test]
fn fixup_leaves_windows_on_an_output_alone() {
    let mut s = state();
    s.add_output(output(1, "A", 1920, 1080));
    let mut w = window(7, 800, 600);
    w.space = Some(0);
    w.geometry.loc = Point::new(1500, 900);
    s.add_window(w);
    s.fixup_positions("main");
    assert_eq!(s.windows[0].geometry, Rectangle::from_xywh(1500, 900, 800, 600));
}

#[test]
fn place_in_zone_stays_inside() {
    let mut s = state();
    s.spaces[0].zones.push(Zone {
        name: "left".to_string(),
        geometry: Rectangle::from_xywh(100, 50, 640, 480),
        default: false,
    });
    let mut w = window(7, 800, 300);
    w.geometry.loc = Point::new(900, 0);
    s.add_window(w);
    let rect = s.place_window("main", 7, false, Some("left"), false).unwrap();
    assert_eq!(rect, Rectangle::from_xywh(100, 50, 640, 300));
    assert!(Rectangle::from_xywh(100, 50, 640, 480).contains_rect(rect));
    assert_eq!(s.windows[0].geometry, rect);
    assert_eq!(s.windows[0].space, Some(0));
}

#[test]
fn place_in_zone_keeps_a_window_that_fits() {
    let mut s = state();
    s.spaces[0].zones.push(Zone {
        name: "left".to_string(),
        geometry: Rectangle::from_xywh(0, 0, 1000, 1000),
        default: true,
    });
    let mut w = window(7, 200, 300);
    w.geometry.loc = Point::new(900, 10);
    s.add_window(w);
    let rect = s.place_window("main", 7, false, Some("left"), false).unwrap();
    assert_eq!(rect, Rectangle::from_xywh(800, 10, 200, 300));
}

#[test]
fn place_new_window_cascades() {
    let mut s = state();
    let mut o = output(1, "A", 1920, 1080);
    o.zone = Rectangle::from_xywh(0, 30, 1920, 1050);
    s.add_output(o);
    s.add_window(window(1, 800, 600));
    s.add_window(window(2, 640, 480));
    let first = s.place_window("main", 1, true, None, false).unwrap();
    assert_eq!(first, Rectangle::from_xywh(0, 30, 800, 600));
    let second = s.place_window("main", 2, true, None, false).unwrap();
    assert_eq!(second, Rectangle::from_xywh(32, 62, 640, 480));
}

#[test]
fn place_new_window_without_output_starts_at_origin() {
    let mut s = state();
    s.add_window(window(1, 800, 600));
    let rect = s.place_window("main", 1, true, None, false).unwrap();
    assert_eq!(rect, Rectangle::from_xywh(0, 0, 800, 600));
}

#[test]
fn place_unknown_zone_falls_back() {
    let mut s = state();
    s.add_output(output(1, "A", 1920, 1080));
    let mut w = window(1, 800, 600);
    w.geometry.loc = Point::new(-50, 2000);
    s.add_window(w);
    // no zone of that name, not new: recentred into the output
    let rect = s.place_window("main", 1, false, Some("nowhere"), true).unwrap();
    assert_eq!(rect, Rectangle::from_xywh(0, 480, 800, 600));
}

#[test]
fn place_without_any_wish_keeps_the_geometry() {
    let mut s = state();
    let mut w = window(1, 800, 600);
    w.geometry.loc = Point::new(-50, 2000);
    s.add_window(w);
    let rect = s.place_window("main", 1, false, None, false).unwrap();
    assert_eq!(rect, Rectangle::from_xywh(-50, 2000, 800, 600));
}

#[test]
fn place_unknown_space_or_window_is_none() {
    let mut s = state();
    s.add_window(window(1, 800, 600));
    let before = s.clone();
    assert_eq!(s.place_window("other", 1, true, None, false), None);
    assert_eq!(s.place_window("main", 2, true, None, false), None);
    assert_eq!(s, before);
}

#[test]
fn space_of_window_names_the_space() {
    let mut s = state();
    let other = s.add_space("other".to_string());
    assert_eq!(other, 1);
    assert_eq!(s.add_space("main".to_string()), 0);
    let mut w = window(1, 10, 10);
    w.space = Some(1);
    s.add_window(w);
    s.add_window(window(2, 10, 10));
    assert_eq!(s.space_of_window(1), Some("other".to_string()));
    assert_eq!(s.space_of_window(2), None);
    assert_eq!(s.space_of_window(3), None);
    assert_eq!(
        s.window_and_space_for_surface(1001),
        Some((1, "other".to_string()))
    );
    assert_eq!(s.window_and_space_for_surface(1002), None);
}

#[test]
fn saturating_geometry() {
    let p = Point::new(i32::MAX, i32::MIN);
    assert_eq!(p.add(Point::new(1, -1)), Point::new(i32::MAX, i32::MIN));
    assert_eq!(Point::new(1, 2).sub(Point::new(3, 5)), Point::new(-2, -3));
    let r = Rectangle::from_xywh(i32::MAX - 10, 0, 100, 10);
    assert!(r.contains(Point::new(i32::MAX - 1, 5)));
    assert!(!r.contains(Point::new(i32::MAX, 5)));
    assert!(!r.contains(Point::new(i32::MAX - 11, 5)));
    assert!(Rectangle::from_xywh(0, 0, 10, 10).overlaps(Rectangle::from_xywh(9, 9, 5, 5)));
    assert!(!Rectangle::from_xywh(0, 0, 10, 10).overlaps(Rectangle::from_xywh(10, 0, 5, 5)));
}

#[test]
fn consistency_is_checked() {
    let mut s = state();
    assert!(s.well_formed());
    s.add_output(output(1, "A", 10, 10));
    s.add_window(window(1, 10, 10));
    s.new_surface(1, 1, None);
    assert!(s.well_formed());
    // a taken identifier is turned away, so the registries stay consistent
    assert!(!s.add_window(window(1, 20, 20)));
    assert!(!s.add_output(output(1, "B", 10, 10)));
    let mut lost = window(2, 10, 10);
    lost.space = Some(3);
    assert!(!s.add_window(lost));
    assert!(s.well_formed());

    let mut twice = s.clone();
    twice.windows.push(window(1, 20, 20));
    assert!(!twice.well_formed());
    let mut nowhere = s.clone();
    nowhere.outputs[0].space = Some(1);
    assert!(!nowhere.well_formed());
    let mut zones = s.clone();
    for _ in 0..2 {
        zones.spaces[0].zones.push(Zone {
            name: "z".to_string(),
            geometry: Rectangle::from_xywh(0, 0, 1, 1),
            default: false,
        });
    }
    assert!(!zones.well_formed());
    let mut names = s.clone();
    names.spaces.push(names.spaces[0].clone());
    assert!(!names.well_formed());
    let mut surfaces = s.clone();
    surfaces.surfaces.push(surfaces.surfaces[0]);
    assert!(!surfaces.well_formed());
    let mut empty = s.clone();
    empty.spaces.clear();
    assert!(!empty.well_formed());
}

#[test]
fn a_space_has_its_windows_in_stacking_order() {
    let mut s = state();
    s.add_space("other".to_string());
    for (id, space) in [(1, Some(0)), (2, Some(1)), (3, None), (4, Some(0)), (5, Some(1))] {
        let mut w = window(id, 10, 10);
        w.space = space;
        s.add_window(w);
    }
    let mut o = output(7, "A", 10, 10);
    o.space = Some(1);
    s.add_output(o);
    s.add_output(output(8, "B", 10, 10));
    assert_eq!(s.windows_in(0), vec![1, 4]);
    assert_eq!(s.windows_in(1), vec![2, 5]);
    assert_eq!(s.windows_in(2), Vec::<u64>::new());
    assert_eq!(s.outputs_in(0), vec![8]);
    assert_eq!(s.outputs_in(1), vec![7]);
    assert!(s.focus_window(1));
    assert_eq!(s.windows_in(0), vec![4, 1]);
    assert_eq!(s.windows_in(1), vec![2, 5]);
    // by index: the registry now holds 2, 3, 4, 5, 1
    assert_eq!(s.top_window_of(1), Some(3));
    assert_eq!(s.top_window_of(0), Some(4));
    assert_eq!(s.top_window_of(2), None);
    assert_eq!(s.first_output_of(1), Some(0));
    assert_eq!(s.first_output_of(2), None);
}
