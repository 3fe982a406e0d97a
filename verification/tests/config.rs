use scape::action::{Action, Effect};
use scape::args::{CliArgs, CliCommand, Command, GlobalArgs};
use scape::config::{
    Config, ConfigLayout, ConfigMapKey, ConfigOutput, ConfigSpace, ConfigZone, Mods,
};
use scape::focus::{EguiWindow, KeyboardFocusTarget};
use scape::geometry::{Point, Rectangle, Size};
use scape::keys::{
    bind_key, cased, parse_map_key, parse_mods, shifted, KEY_DOWN, KEY_LEFT, KEY_RIGHT, KEY_UP,
};
use scape::state::{Output, State, Zone};
use scape::window::{Window, WindowKind};

const NO_MODS: Mods = Mods { shift: false, logo: false, ctrl: false, alt: false };

fn zone(name: &str, x: i32, y: i32, w: i32, h: i32) -> ConfigZone {
    ConfigZone { name: name.to_string(), x, y, width: w, height: h, default: false }
}

fn made(name: &str, geometry: Rectangle) -> Zone {
    Zone { name: name.to_string(), geometry, default: false }
}

fn config_output(name: &str, x: i32, y: i32, scale: i32) -> ConfigOutput {
    ConfigOutput {
        name: name.to_string(),
        x,
        y,
        width: 0,
        height: 0,
        default: false,
        disabled: false,
        scale,
    }
}

fn overlay(id: u64, app: &str, mapped: bool) -> Window {
    let mut w = Window::new(id, WindowKind::Overlay, 0, app.to_string(), Size::new(10, 10));
    if mapped {
        w.space = Some(0);
    }
    w
}

#[test]
fn mods_are_read_from_a_bar_separated_list() {
    assert_eq!(parse_mods(""), NO_MODS);
    assert_eq!(parse_mods("shift"), Mods { shift: true, ..NO_MODS });
    assert_eq!(
        parse_mods("ctrl|alt"),
        Mods { ctrl: true, alt: true, ..NO_MODS }
    );
    assert_eq!(parse_mods("super"), Mods { logo: true, ..NO_MODS });
    assert_eq!(parse_mods("logo|shift|logo"), Mods { logo: true, shift: true, ..NO_MODS });
    // names that are none of a modifier count for nothing
    assert_eq!(parse_mods("hyper|ctrl|"), Mods { ctrl: true, ..NO_MODS });
    assert_eq!(parse_mods("Shift|ctrlalt| alt"), NO_MODS);
    assert_eq!(parse_mods("|||alt"), Mods { alt: true, ..NO_MODS });
}

#[test]
fn cursor_keys_go_by_name() {
    assert_eq!(KEY_LEFT, xkeysym::Keysym::Left.raw());
    assert_eq!(KEY_RIGHT, xkeysym::Keysym::Right.raw());
    assert_eq!(KEY_UP, xkeysym::Keysym::Up.raw());
    assert_eq!(KEY_DOWN, xkeysym::Keysym::Down.raw());
    let m = Mods { logo: true, ..NO_MODS };
    assert_eq!(
        parse_map_key("logo", "Left", 3),
        Some(ConfigMapKey { key: 0xff51, mods: m, callback: 3 })
    );
    assert_eq!(bind_key(m, "Right", 3).unwrap().key, 0xff53);
    assert_eq!(bind_key(m, "Up", 3).unwrap().key, 0xff52);
    assert_eq!(bind_key(m, "Down", 3).unwrap().key, 0xff54);
}

#[test]
fn character_keys_follow_shift() {
    assert_eq!(
        parse_map_key("ctrl", "a", 1),
        Some(ConfigMapKey { key: 0x61, mods: Mods { ctrl: true, ..NO_MODS }, callback: 1 })
    );
    // with shift the key is taken in upper case
    assert_eq!(
        parse_map_key("ctrl|shift", "a", 1),
        Some(ConfigMapKey {
            key: 0x41,
            mods: Mods { ctrl: true, shift: true, ..NO_MODS },
            callback: 1
        })
    );
    // a key written in upper case asks for shift
    assert_eq!(
        parse_map_key("", "Q", 2),
        Some(ConfigMapKey { key: 0x51, mods: Mods { shift: true, ..NO_MODS }, callback: 2 })
    );
    // only the first character counts
    assert_eq!(bind_key(NO_MODS, "left", 2).unwrap().key, 0x6c);
    // a character outside Latin-1 has a key symbol of its own
    assert_eq!(bind_key(NO_MODS, "\u{3b1}", 2).unwrap().key, 0x7e1);
    assert_eq!(
        bind_key(NO_MODS, "\u{3b1}", 2).unwrap().key,
        xkeysym::Keysym::Greek_alpha.raw()
    );
    assert_eq!(bind_key(NO_MODS, "", 2), None);
    assert_eq!(cased(true, 'a', &vec!['A']), 'A');
    assert_eq!(cased(false, 'a', &vec!['A']), 'a');
    assert_eq!(cased(true, 'a', &vec![]), 'a');
    // a form of more than one character counts by its first
    assert_eq!(cased(true, '\u{df}', &vec!['S', 'S']), 'S');
    assert_eq!(bind_key(Mods { shift: true, ..NO_MODS }, "\u{df}", 2).unwrap().key, 0x53);
    assert_eq!(shifted(NO_MODS, true), Mods { shift: true, ..NO_MODS });
    assert_eq!(shifted(Mods { alt: true, ..NO_MODS }, false), Mods { alt: true, ..NO_MODS });
}

#[test]
fn bindings_are_found_by_key_and_mods() {
    let mut s = State::new("main".to_string());
    let ctrl = Mods { ctrl: true, ..NO_MODS };
    s.map_key(ConfigMapKey { key: 0x61, mods: ctrl, callback: 1 });
    s.map_key(ConfigMapKey { key: 0x61, mods: NO_MODS, callback: 2 });
    s.map_key(ConfigMapKey { key: 0x61, mods: ctrl, callback: 3 });
    assert_eq!(s.binding_for(0x61, ctrl), Some(1));
    assert_eq!(s.binding_for(0x61, NO_MODS), Some(2));
    assert_eq!(s.binding_for(0x62, ctrl), None);
}

#[test]
fn callbacks_are_kept() {
    let c = Config::new();
    assert_eq!(c.on_startup, None);
    assert_eq!(c.on_connector_change, None);
    assert!(c.bindings.is_empty());
    let mut s = State::new("main".to_string());
    assert_eq!(s.on_startup(), None);
    assert_eq!(s.on_connector_change(), None);
    s.set_on_startup(4);
    s.set_on_connector_change(5);
    assert_eq!(s.on_startup(), Some(4));
    let mut o = Output::new(1, "A".to_string(), Size::new(1920, 1080));
    o.location = Point::new(10, 20);
    o.scale = 2;
    s.add_output(o);
    assert_eq!(
        s.on_connector_change(),
        Some((
            5,
            vec![ConfigOutput {
                name: "A".to_string(),
                x: 10,
                y: 20,
                width: 1920,
                height: 1080,
                default: true,
                disabled: false,
                scale: 2,
            }]
        ))
    );
}

#[test]
fn duplicate_zones_are_skipped() {
    let mut s = State::new("main".to_string());
    s.add_space("other".to_string());
    let skipped = s.set_zones(&vec![
        zone("left", 0, 0, 960, 1080),
        zone("right", 960, 0, 960, 1080),
        zone("left", 5, 5, 5, 5),
        zone("top", 0, 0, 1920, 540),
    ]);
    assert_eq!(skipped, 1);
    assert_eq!(
        s.spaces[0].zones,
        vec![
            made("left", Rectangle::from_xywh(0, 0, 960, 1080)),
            made("right", Rectangle::from_xywh(960, 0, 960, 1080)),
            made("top", Rectangle::from_xywh(0, 0, 1920, 540)),
        ]
    );
    assert!(s.spaces[1].zones.is_empty());
    assert_eq!(s.spaces[0].zone_index("right"), Some(1));
    assert_eq!(s.spaces[0].zone_index("bottom"), None);
    // a new list takes the place of the old
    assert_eq!(s.set_zones(&vec![]), 0);
    assert!(s.spaces[0].zones.is_empty());
}

#[test]
fn layout_maps_known_outputs_and_skips_unknown() {
    let mut s = State::new("main".to_string());
    let mut a = Output::new(1, "A".to_string(), Size::new(1920, 1080));
    a.space = Some(0);
    s.add_output(a);
    s.add_output(Output::new(2, "B".to_string(), Size::new(1080, 1920)));
    let mut c = Output::new(3, "C".to_string(), Size::new(800, 600));
    c.space = Some(0);
    s.add_output(c);
    let layout = ConfigLayout {
        spaces: vec![
            ConfigSpace {
                name: "main".to_string(),
                outputs: vec![config_output("B", 500, 7, 2), config_output("X", 1, 1, 1)],
            },
            ConfigSpace {
                name: "side".to_string(),
                outputs: vec![config_output("C", 9, 9, 1)],
            },
        ],
    };
    assert_eq!(s.set_layout(&layout), 1);
    assert_eq!(s.spaces.len(), 2);
    assert_eq!(s.spaces[1].name, "side");
    // A left the first space, B joined it and was then laid out from the left
    assert_eq!(s.outputs[0].space, None);
    assert_eq!(s.outputs[1].space, Some(0));
    assert_eq!(s.outputs[1].scale, 2);
    assert_eq!(s.outputs[1].location, Point::new(0, 0));
    assert_eq!(s.outputs[2].space, Some(1));
    assert_eq!(s.outputs[2].location, Point::new(0, 0));
    assert!(s.well_formed());
}

#[test]
fn space_layout_places_outputs_where_declared() {
    let mut s = State::new("main".to_string());
    s.add_output(Output::new(1, "A".to_string(), Size::new(1920, 1080)));
    s.add_output(Output::new(2, "A".to_string(), Size::new(1, 1)));
    let entry = ConfigSpace {
        name: "main".to_string(),
        outputs: vec![config_output("A", 5, 6, 1), config_output("A", 7, 8, 3)],
    };
    assert_eq!(s.apply_space_layout(&entry), 0);
    // the last declaration of a name wins, for the first output of that name
    assert_eq!(s.outputs[0].location, Point::new(7, 8));
    assert_eq!(s.outputs[0].scale, 3);
    assert_eq!(s.outputs[0].space, Some(0));
    assert_eq!(s.outputs[1].location, Point::new(0, 0));
    assert_eq!(s.outputs[1].space, None);
    // each declaration for an output that is not known counts as skipped
    let strangers = ConfigSpace {
        name: "main".to_string(),
        outputs: vec![
            config_output("X", 1, 1, 1),
            config_output("A", 7, 8, 3),
            config_output("Y", 1, 1, 1),
            config_output("X", 2, 2, 1),
        ],
    };
    assert_eq!(s.apply_space_layout(&strangers), 3);
    let twice = ConfigLayout { spaces: vec![strangers.clone(), strangers] };
    assert_eq!(s.set_layout(&twice), 6);
    assert_eq!(s.set_layout(&ConfigLayout { spaces: vec![] }), 0);
}

#[test]
fn execute_hands_work_out() {
    let mut s = State::new("main".to_string());
    let before = s.clone();
    assert_eq!(s.execute(Action::VtSwitch(3)), Effect::SwitchVt(3));
    assert_eq!(
        s.execute(Action::Spawn { command: "term".to_string() }),
        Effect::Spawn("term".to_string())
    );
    assert_eq!(s.execute(Action::Callback(9)), Effect::RunCallback(9));
    assert_eq!(s.execute(Action::Nothing), Effect::Nothing);
    assert_eq!(s.execute(Action::ChangeScale { percentage_points: 10 }), Effect::Nothing);
    assert_eq!(s.execute(Action::SetScale { percentage: 10 }), Effect::Nothing);
    assert_eq!(s.execute(Action::RotateOutput { output: 0, rotation: 90 }), Effect::Nothing);
    assert_eq!(s, before);
    assert_eq!(s.execute(Action::Quit), Effect::StopLoop);
    assert!(!s.running);
}

#[test]
fn execute_moves_the_top_window_into_a_zone() {
    let mut s = State::new("main".to_string());
    s.set_zones(&vec![zone("left", 0, 0, 960, 1080)]);
    assert_eq!(
        s.execute(Action::MoveWindow { window: None, zone: "left".to_string() }),
        Effect::Nothing
    );
    let mut w = overlay(1, "a", true);
    w.geometry = Rectangle::from_xywh(1000, 20, 1200, 300);
    s.add_window(w);
    s.add_window(overlay(2, "b", false));
    assert_eq!(
        s.execute(Action::MoveWindow { window: None, zone: "left".to_string() }),
        Effect::Configure { window: 1, rect: Rectangle::from_xywh(0, 20, 960, 300) }
    );
    assert_eq!(s.windows[0].geometry, Rectangle::from_xywh(0, 20, 960, 300));
}

#[test]
fn execute_tabs_through_the_windows() {
    let mut s = State::new("main".to_string());
    s.add_window(overlay(1, "a", true));
    s.add_window(overlay(2, "b", false));
    s.add_window(overlay(3, "c", true));
    s.add_window(overlay(4, "d", true));
    assert_eq!(s.window_from_top(0, 0), Some(3));
    assert_eq!(s.window_from_top(0, 1), Some(2));
    assert_eq!(s.window_from_top(0, 2), Some(0));
    assert_eq!(s.window_from_top(0, 3), None);
    assert_eq!(s.execute(Action::Tab { index: 2 }), Effect::Focused(1));
    assert_eq!(s.windows.iter().map(|w| w.id).collect::<Vec<_>>(), vec![2, 3, 4, 1]);
    assert_eq!(s.seat.keyboard_focus, Some(KeyboardFocusTarget::Egui(EguiWindow { id: 1 })));
    assert_eq!(s.execute(Action::Tab { index: 3 }), Effect::Nothing);
}

#[test]
fn execute_focuses_or_spawns() {
    let mut s = State::new("main".to_string());
    s.add_window(overlay(1, "mail", false));
    s.add_window(overlay(2, "mail", true));
    s.add_window(overlay(3, "term", true));
    let action =
        Action::FocusOrSpawn { app_id: "mail".to_string(), command: "run-mail".to_string() };
    assert_eq!(s.execute(action), Effect::Focused(2));
    assert_eq!(s.windows.last().unwrap().id, 2);
    let action =
        Action::FocusOrSpawn { app_id: "web".to_string(), command: "run-web".to_string() };
    assert_eq!(s.execute(action), Effect::Spawn("run-web".to_string()));
}

#[test]
fn command_line_names_a_live_window() {
    let mut s = State::new("main".to_string());
    let mut dead = overlay(1, "mail", true);
    dead.alive = false;
    s.add_window(dead);
    s.add_window(overlay(2, "mail", true));
    let args = GlobalArgs {
        winit_backend: false,
        log_file: None,
        config: None,
        command: Some(Command::Cli(CliArgs {
            cli_command: CliCommand::CloseWindow { window_name: "mail".to_string() },
        })),
    };
    let command = args.cli_command().unwrap();
    assert_eq!(s.window_for_command(command), Some(2));
    assert_eq!(
        s.window_for_command(&CliCommand::CloseWindow { window_name: "web".to_string() }),
        None
    );
    assert_eq!(s.window_by_name("mail"), Some(1));
    let none = GlobalArgs { winit_backend: true, log_file: None, config: None, command: None };
    assert!(none.cli_command().is_none());
}
