//! The input side of the overlay user interface: what it has been told of
//! keys, pointers and focus since it last drew a frame.

use crate::geometry::{Point, Rectangle, Size};
use vstd::prelude::*;

verus! {

/// The z-index of an overlay unless another is set.
pub const OVERLAY_ZINDEX: u8 = 60;

/// The modifier keys that are held.
#[derive(Clone, Copy, Debug, PartialEq, Eq, Structural)]
pub struct ModifiersState {
    pub ctrl: bool,
    pub alt: bool,
    pub shift: bool,
    pub caps_lock: bool,
    pub logo: bool,
    pub num_lock: bool,
}

/// The buttons of a mouse that the overlay knows.
#[derive(Clone, Copy, Debug, PartialEq, Eq, Structural)]
pub enum MouseButton {
    Left,
    Right,
    Middle,
    Forward,
    Back,
}

/// A key that is held: what the overlay calls it, if it knows it, and its
/// code on the keyboard.
#[derive(Clone, Copy, Debug, PartialEq, Eq)]
pub struct PressedKey {
    pub key: Option<u32>,
    pub code: u32,
}

/// What the overlay is told at its next frame.
#[derive(Clone, Debug, PartialEq, Eq)]
pub enum OverlayEvent {
    /// The last pointer device is gone.
    PointerGone,
    Key { key: u32, pressed: bool, modifiers: ModifiersState },
    /// The text that a key press made.
    Text(String),
    PointerMoved(Point),
    PointerButton { pos: Point, button: MouseButton, pressed: bool, modifiers: ModifiersState },
}

/// The input state of one overlay.
#[derive(Clone, Debug, PartialEq, Eq)]
pub struct EguiState {
    pub pointers: usize,
    pub last_pointer_position: Point,
    pub area: Rectangle,
    pub next_area: Rectangle,
    pub last_modifiers: ModifiersState,
    pub pressed: Vec<PressedKey>,
    pub focused: bool,
    pub events: Vec<OverlayEvent>,
    pub z_index: u8,
}

/// The button that the code of a button event stands for.
pub open spec fn button_of(code: u32) -> Option<MouseButton> {
    if code == 0x110 {
        Some(MouseButton::Left)
    } else if code == 0x111 {
        Some(MouseButton::Right)
    } else if code == 0x112 {
        Some(MouseButton::Middle)
    } else if code == 0x115 {
        Some(MouseButton::Forward)
    } else if code == 0x116 {
        Some(MouseButton::Back)
    } else {
        None
    }
}

/// The first `n` of the keys `pressed` without those with the code `code`.
pub open spec fn without_code(pressed: Seq<PressedKey>, code: u32, n: int) -> Seq<PressedKey>
    decreases n,
{
    if n <= 0 {
        Seq::empty()
    } else if pressed[n - 1].code == code {
        without_code(pressed, code, n - 1)
    } else {
        without_code(pressed, code, n - 1).push(pressed[n - 1])
    }
}

/// `events` and then, for each of the first `n` of `keys` that the overlay
/// knows, the event that it went down or up.
pub open spec fn with_key_events(
    events: Seq<OverlayEvent>,
    keys: Seq<PressedKey>,
    pressed: bool,
    modifiers: ModifiersState,
    n: int,
) -> Seq<OverlayEvent>
    decreases n,
{
    if n <= 0 {
        events
    } else {
        let before = with_key_events(events, keys, pressed, modifiers, n - 1);
        match keys[n - 1].key {
            Some(key) => before.push(OverlayEvent::Key { key, pressed, modifiers }),
            None => before,
        }
    }
}

/// The button that the code of a button event stands for.
pub fn convert_button_code(code: u32) -> (b: Option<MouseButton>)
    ensures
        b == button_of(code),
{
    if code == 0x110 {
        Some(MouseButton::Left)
    } else if code == 0x111 {
        Some(MouseButton::Right)
    } else if code == 0x112 {
        Some(MouseButton::Middle)
    } else if code == 0x115 {
        Some(MouseButton::Forward)
    } else if code == 0x116 {
        Some(MouseButton::Back)
    } else {
        None
    }
}

impl ModifiersState {
    /// No modifier held.
    pub fn none() -> (m: ModifiersState)
        ensures
            m == (ModifiersState {
                ctrl: false,
                alt: false,
                shift: false,
                caps_lock: false,
                logo: false,
                num_lock: false,
            }),
    {
        ModifiersState {
            ctrl: false,
            alt: false,
            shift: false,
            caps_lock: false,
            logo: false,
            num_lock: false,
        }
    }
}

impl EguiState {
    /// An overlay over `area` that has been told nothing yet.
    pub fn new(area: Rectangle) -> (e: EguiState)
        ensures
            e.pointers == 0,
            e.last_pointer_position == (Point { x: 0, y: 0 }),
            e.area == area,
            e.next_area == area,
            e.pressed.len() == 0,
            !e.focused,
            e.events.len() == 0,
            e.z_index == OVERLAY_ZINDEX,
            !e.last_modifiers.ctrl && !e.last_modifiers.alt && !e.last_modifiers.shift
                && !e.last_modifiers.caps_lock && !e.last_modifiers.logo
                && !e.last_modifiers.num_lock,
    {
        EguiState {
            pointers: 0,
            last_pointer_position: Point::origin(),
            area,
            next_area: area,
            last_modifiers: ModifiersState::none(),
            pressed: Vec::new(),
            focused: false,
            events: Vec::new(),
            z_index: OVERLAY_ZINDEX,
        }
    }

    /// `post` is `self` but for the fields that are given.
    pub open spec fn becomes(
        self,
        post: EguiState,
        pointers: usize,
        position: Point,
        modifiers: ModifiersState,
        pressed: Seq<PressedKey>,
        focused: bool,
        events: Seq<OverlayEvent>,
    ) -> bool {
        &&& post.pointers == pointers
        &&& post.last_pointer_position == position
        &&& post.last_modifiers == modifiers
        &&& post.pressed@ =~= pressed
        &&& post.focused == focused
        &&& post.events@ =~= events
        &&& post.area == self.area
        &&& post.next_area == self.next_area
        &&& post.z_index == self.z_index
    }

    /// An input device was added: a pointer counts.
    pub fn handle_device_added(&mut self, has_pointer: bool)
        ensures
            old(self).becomes(
                *final(self),
                if has_pointer && old(self).pointers < usize::MAX {
                    (old(self).pointers + 1) as usize
                } else {
                    old(self).pointers
                },
                old(self).last_pointer_position,
                old(self).last_modifiers,
                old(self).pressed@,
                old(self).focused,
                old(self).events@,
            ),
    {
        if has_pointer && self.pointers < usize::MAX {
            self.pointers += 1;
        }
    }

    /// An input device was removed: a pointer counts no longer, and once no
    /// pointer is left the overlay is told that the pointer is gone.
    pub fn handle_device_removed(&mut self, has_pointer: bool)
        ensures
            ({
                let left = if has_pointer && old(self).pointers > 0 {
                    (old(self).pointers - 1) as usize
                } else {
                    old(self).pointers
                };
                old(self).becomes(
                    *final(self),
                    left,
                    old(self).last_pointer_position,
                    old(self).last_modifiers,
                    old(self).pressed@,
                    old(self).focused,
                    if left == 0 {
                        old(self).events@.push(OverlayEvent::PointerGone)
                    } else {
                        old(self).events@
                    },
                )
            }),
    {
        if has_pointer && self.pointers > 0 {
            self.pointers -= 1;
        }
        if self.pointers == 0 {
            self.events.push(OverlayEvent::PointerGone);
        }
    }

    /// The events after a key with the overlay's name `key` went down or up
    /// and, going down, made the text `text`.
    pub open spec fn events_after_key(
        self,
        key: Option<u32>,
        pressed: bool,
        modifiers: ModifiersState,
        text: Option<String>,
    ) -> Seq<OverlayEvent> {
        let keyed = match key {
            Some(k) => self.events@.push(OverlayEvent::Key { key: k, pressed, modifiers }),
            None => self.events@,
        };
        match text {
            Some(t) => if pressed {
                keyed.push(OverlayEvent::Text(t))
            } else {
                keyed
            },
            None => keyed,
        }
    }

    /// A key went down or up while `modifiers` were held: the overlay is told
    /// of a key that it knows, the key is noted as held or as held no longer,
    /// and the text of a key that went down is passed on.
    pub fn handle_keyboard(
        &mut self,
        key: Option<u32>,
        code: u32,
        pressed: bool,
        modifiers: ModifiersState,
        text: Option<String>,
    )
        ensures
            old(self).becomes(
                *final(self),
                old(self).pointers,
                old(self).last_pointer_position,
                modifiers,
                if pressed {
                    old(self).pressed@.push(PressedKey { key, code })
                } else {
                    without_code(old(self).pressed@, code, old(self).pressed.len() as int)
                },
                old(self).focused,
                old(self).events_after_key(key, pressed, modifiers, text),
            ),
    {
        self.last_modifiers = modifiers;
        if let Some(k) = key {
            self.events.push(OverlayEvent::Key { key: k, pressed, modifiers });
        }
        if pressed {
            self.pressed.push(PressedKey { key, code });
        } else {
            let mut kept: Vec<PressedKey> = Vec::new();
            let mut i: usize = 0;
            while i < self.pressed.len()
                invariant
                    i <= self.pressed.len(),
                    self.pressed == old(self).pressed,
                    kept@ == without_code(self.pressed@, code, i as int),
                decreases self.pressed.len() - i,
            {
                if self.pressed[i].code != code {
                    kept.push(self.pressed[i]);
                }
                i += 1;
            }
            self.pressed = kept;
        }
        if pressed {
            if let Some(t) = text {
                self.events.push(OverlayEvent::Text(t));
            }
        }
    }

    /// The pointer moved to `position`.
    pub fn handle_pointer_motion(&mut self, position: Point)
        ensures
            old(self).becomes(
                *final(self),
                old(self).pointers,
                position,
                old(self).last_modifiers,
                old(self).pressed@,
                old(self).focused,
                old(self).events@.push(OverlayEvent::PointerMoved(position)),
            ),
    {
        self.last_pointer_position = position;
        self.events.push(OverlayEvent::PointerMoved(position));
    }

    /// A button went down or up where the pointer was last.
    pub fn handle_pointer_button(&mut self, button: MouseButton, pressed: bool)
        ensures
            old(self).becomes(
                *final(self),
                old(self).pointers,
                old(self).last_pointer_position,
                old(self).last_modifiers,
                old(self).pressed@,
                old(self).focused,
                old(self).events@.push(
                    OverlayEvent::PointerButton {
                        pos: old(self).last_pointer_position,
                        button,
                        pressed,
                        modifiers: old(self).last_modifiers,
                    },
                ),
            ),
    {
        let pos = self.last_pointer_position;
        let modifiers = self.last_modifiers;
        self.events.push(OverlayEvent::PointerButton { pos, button, pressed, modifiers });
    }

    /// The button with the code `code` went down or up: the overlay is told
    /// of a button that it knows and of no other.
    pub fn button(&mut self, code: u32, pressed: bool)
        ensures
            old(self).becomes(
                *final(self),
                old(self).pointers,
                old(self).last_pointer_position,
                old(self).last_modifiers,
                old(self).pressed@,
                old(self).focused,
                match button_of(code) {
                    Some(button) => old(self).events@.push(
                        OverlayEvent::PointerButton {
                            pos: old(self).last_pointer_position,
                            button,
                            pressed,
                            modifiers: old(self).last_modifiers,
                        },
                    ),
                    None => old(self).events@,
                },
            ),
    {
        if let Some(button) = convert_button_code(code) {
            self.handle_pointer_button(button, pressed);
        }
    }

    /// Says whether the overlay is to take itself for focused.
    pub fn set_focused(&mut self, focused: bool)
        ensures
            old(self).becomes(
                *final(self),
                old(self).pointers,
                old(self).last_pointer_position,
                old(self).last_modifiers,
                old(self).pressed@,
                focused,
                old(self).events@,
            ),
    {
        self.focused = focused;
    }

    /// The keyboard focus came with `keys` held: the overlay is focused, is
    /// told of each key that it knows, and notes them all as held.
    pub fn enter(&mut self, keys: &Vec<PressedKey>)
        ensures
            old(self).becomes(
                *final(self),
                old(self).pointers,
                old(self).last_pointer_position,
                old(self).last_modifiers,
                old(self).pressed@ + keys@,
                true,
                with_key_events(
                    old(self).events@,
                    keys@,
                    true,
                    old(self).last_modifiers,
                    keys.len() as int,
                ),
            ),
    {
        self.focused = true;
        let modifiers = self.last_modifiers;
        let mut i: usize = 0;
        while i < keys.len()
            invariant
                i <= keys.len(),
                old(self).becomes(
                    *self,
                    old(self).pointers,
                    old(self).last_pointer_position,
                    old(self).last_modifiers,
                    old(self).pressed@ + keys@.subrange(0, i as int),
                    true,
                    with_key_events(old(self).events@, keys@, true, modifiers, i as int),
                ),
                modifiers == old(self).last_modifiers,
            decreases keys.len() - i,
        {
            if let Some(key) = keys[i].key {
                self.events.push(OverlayEvent::Key { key, pressed: true, modifiers });
            }
            self.pressed.push(keys[i]);
            i += 1;
        }
    }

    /// The keyboard focus went: the overlay is focused no longer, is told
    /// that each held key that it knows went up, and notes none as held.
    pub fn leave(&mut self)
        ensures
            old(self).becomes(
                *final(self),
                old(self).pointers,
                old(self).last_pointer_position,
                old(self).last_modifiers,
                Seq::empty(),
                false,
                with_key_events(
                    old(self).events@,
                    old(self).pressed@,
                    false,
                    old(self).last_modifiers,
                    old(self).pressed.len() as int,
                ),
            ),
    {
        self.focused = false;
        let modifiers = self.last_modifiers;
        let mut i: usize = 0;
        while i < self.pressed.len()
            invariant
                i <= self.pressed.len(),
                self.pressed == old(self).pressed,
                old(self).becomes(
                    *self,
                    old(self).pointers,
                    old(self).last_pointer_position,
                    old(self).last_modifiers,
                    old(self).pressed@,
                    false,
                    with_key_events(
                        old(self).events@,
                        old(self).pressed@,
                        false,
                        modifiers,
                        i as int,
                    ),
                ),
                modifiers == old(self).last_modifiers,
            decreases self.pressed.len() - i,
        {
            if let Some(key) = self.pressed[i].key {
                self.events.push(OverlayEvent::Key { key, pressed: false, modifiers });
            }
            i += 1;
        }
        self.pressed = Vec::new();
    }

    /// Other modifiers are held.
    pub fn modifiers(&mut self, modifiers: ModifiersState)
        ensures
            old(self).becomes(
                *final(self),
                old(self).pointers,
                old(self).last_pointer_position,
                modifiers,
                old(self).pressed@,
                old(self).focused,
                old(self).events@,
            ),
    {
        self.last_modifiers = modifiers;
    }

    /// The size that the overlay has from its next frame on.
    pub fn set_size(&mut self, size: Size)
        ensures
            final(self).next_area == (Rectangle { loc: old(self).next_area.loc, size }),
            final(self).area == old(self).area,
            final(self).z_index == old(self).z_index,
            final(self).pointers == old(self).pointers,
            final(self).last_pointer_position == old(self).last_pointer_position,
            final(self).last_modifiers == old(self).last_modifiers,
            final(self).pressed == old(self).pressed,
            final(self).focused == old(self).focused,
            final(self).events == old(self).events,
    {
        self.next_area.size = size;
    }

    /// Sets the z-index that the overlay reports.
    pub fn set_zindex(&mut self, idx: u8)
        ensures
            final(self).z_index == idx,
            final(self).area == old(self).area,
            final(self).next_area == old(self).next_area,
            final(self).pointers == old(self).pointers,
            final(self).last_pointer_position == old(self).last_pointer_position,
            final(self).last_modifiers == old(self).last_modifiers,
            final(self).pressed == old(self).pressed,
            final(self).focused == old(self).focused,
            final(self).events == old(self).events,
    {
        self.z_index = idx;
    }

    /// The z-index that the overlay reports.
    pub fn z_index(&self) -> (idx: u8)
        ensures
            idx == self.z_index,
    {
        self.z_index
    }

    /// The area that the overlay covers.
    pub fn bbox(&self) -> (r: Rectangle)
        ensures
            r == self.area,
    {
        self.area
    }

    /// Whether `point` lies on the overlay.
    pub fn is_in_input_region(&self, point: Point) -> (b: bool)
        ensures
            b == self.area.has_point(point),
    {
        self.area.contains(point)
    }

    /// A frame is drawn: hands out the events since the last one, and the
    /// overlay covers the area that was set for it. Returns the events and
    /// whether the size changed, so that the buffer has to be made anew.
    pub fn begin_frame(&mut self) -> (r: (Vec<OverlayEvent>, bool))
        ensures
            r.0 == old(self).events,
            r.1 == (old(self).area.size != old(self).next_area.size),
            final(self).events.len() == 0,
            final(self).area == old(self).next_area,
            final(self).next_area == old(self).next_area,
            final(self).z_index == old(self).z_index,
            final(self).pointers == old(self).pointers,
            final(self).last_pointer_position == old(self).last_pointer_position,
            final(self).last_modifiers == old(self).last_modifiers,
            final(self).pressed == old(self).pressed,
            final(self).focused == old(self).focused,
    {
        let mut events: Vec<OverlayEvent> = Vec::new();
        std::mem::swap(&mut events, &mut self.events);
        let recreate = self.area.size.w != self.next_area.size.w || self.area.size.h
            != self.next_area.size.h;
        self.area = self.next_area;
        (events, recreate)
    }
}

} // verus!
