//! What the seat keeps besides the focus: the cursor image, the drag icon,
//! and the small decisions that depend on where the focus is.

use crate::commit::{has_surface, Surface};
use crate::focus::KeyboardFocusTarget;
use crate::geometry::{sat_sub, Point, Rectangle, Size};
use crate::state::{CursorImageStatus, DndIcon, Seat, State};
use crate::window::{Window, WindowKind};
use vstd::prelude::*;

verus! {

/// Where the icon of a drag starts, relative to the pointer: opposite the
/// hotspot of a cursor that shows a surface, else at the pointer.
pub open spec fn icon_offset(cursor: CursorImageStatus) -> Point {
    match cursor {
        CursorImageStatus::Surface { surface, hotspot } => Point { x: 0, y: 0 }.minus(hotspot),
        _ => Point { x: 0, y: 0 },
    }
}

impl State {
    /// A client set the cursor image.
    pub fn cursor_image(&mut self, status: CursorImageStatus)
        ensures
            old(self).changed(
                *final(self),
                old(self).windows@,
                Seat { cursor: status, ..old(self).seat },
            ),
            final(self).windows == old(self).windows,
    {
        self.seat.cursor = status;
    }

    /// A client started to drag, with the surface `icon` as the icon if it
    /// gave one.
    pub fn dnd_started(&mut self, icon: Option<u64>)
        ensures
            old(self).changed(
                *final(self),
                old(self).windows@,
                Seat {
                    dnd_icon: match icon {
                        Some(surface) => Some(
                            DndIcon { surface, offset: icon_offset(old(self).seat.cursor) },
                        ),
                        None => None,
                    },
                    ..old(self).seat
                },
            ),
            final(self).windows == old(self).windows,
    {
        let offset = match self.seat.cursor {
            CursorImageStatus::Surface { surface: _, hotspot } => Point {
                x: sat_sub(0, hotspot.x),
                y: sat_sub(0, hotspot.y),
            },
            _ => Point::origin(),
        };
        self.seat.dnd_icon = match icon {
            Some(surface) => Some(DndIcon { surface, offset }),
            None => None,
        };
    }

    /// What was dragged was dropped: the icon is gone.
    pub fn dnd_dropped(&mut self)
        ensures
            old(self).changed(
                *final(self),
                old(self).windows@,
                Seat { dnd_icon: None, ..old(self).seat },
            ),
            final(self).windows == old(self).windows,
    {
        self.seat.dnd_icon = None;
    }

    /// The client that the selections follow once `target` has the keyboard
    /// focus: the client of the native surface behind the target.
    pub fn focus_changed(target: Option<KeyboardFocusTarget>) -> (client: Option<u64>)
        ensures
            client == match target {
                Some(t) => match t.surface() {
                    Some(s) => Some(s.client),
                    None => None,
                },
                None => None,
            },
    {
        match target {
            Some(t) => match t.wl_surface() {
                Some(s) => Some(s.client),
                None => None,
            },
            None => None,
        }
    }

    /// Whether a pointer constraint on `surface` is to be activated at once:
    /// where that surface is the one behind the pointer focus.
    pub fn new_constraint(&self, surface: u64) -> (activate: bool)
        ensures
            activate == (self.seat.pointer_focus matches Some(t) && t.surface() matches Some(s)
                && s.id == surface),
    {
        match self.seat.pointer_focus {
            Some(t) => match t.wl_surface() {
                Some(s) => s.id == surface,
                None => false,
            },
            None => false,
        }
    }

    /// Window `w` has the native surface `surface` behind it.
    pub open spec fn is_parent(self, w: int, surface: u64) -> bool {
        0 <= w < self.windows.len() && self.windows[w].space == Some(0usize)
            && self.windows[w].kind.root_surface() == Some(surface)
    }

    /// The geometry of the window of the first space that the popup of an
    /// input method belongs to, by the window's surface `parent`; a rectangle
    /// without extent at the origin where no window has that surface.
    pub fn parent_geometry(&self, parent: u64) -> (r: Rectangle)
        ensures
            (exists|w: int|
                #[trigger] self.is_parent(w, parent) && r == self.windows[w].geometry && forall|
                    k: int,
                | 0 <= k < w ==> !self.is_parent(k, parent)) || (r == (Rectangle {
                loc: Point { x: 0, y: 0 },
                size: Size { w: 0, h: 0 },
            }) && forall|k: int| !self.is_parent(k, parent)),
    {
        match self.window_in_space_for_surface(parent, 0) {
            Some(w) => {
                assert(self.is_parent(w as int, parent));
                assert forall|k: int| 0 <= k < w implies !self.is_parent(k, parent) by {
                    assert(!self.shows_in(k, parent, 0));
                }
                self.windows[w].geometry
            },
            None => {
                assert forall|k: int| !self.is_parent(k, parent) by {
                    assert(!self.shows_in(k, parent, 0));
                }
                Rectangle::zero()
            },
        }
    }

    /// The resource behind the window with identifier `window` was destroyed:
    /// the window leaves the registry, and a keyboard focus that it held is
    /// marked as dead. Returns the window.
    pub fn destroyed_window(&mut self, window: u64) -> (r: Option<Window>)
        requires
            old(self).wf(),
        ensures
            final(self).wf(),
            r is Some == old(self).has_window(window),
            r matches Some(gone) ==> {
                let w = old(self).window_pos(window);
                &&& gone == old(self).windows[w]
                &&& old(self).changed(
                    *final(self),
                    old(self).windows@.remove(w),
                    Seat {
                        keyboard_focus: match old(self).seat.keyboard_focus {
                            Some(KeyboardFocusTarget::Window(h)) => if h.id == window {
                                Some(KeyboardFocusTarget::Window(h).killed())
                            } else {
                                old(self).seat.keyboard_focus
                            },
                            other => other,
                        },
                        ..old(self).seat
                    },
                )
            },
            r is None ==> *final(self) == *old(self),
    {
        let w = match self.window_index(window) {
            Some(w) => w,
            None => {
                return None;
            },
        };
        let gone = self.windows.remove(w);
        if let Some(KeyboardFocusTarget::Window(h)) = self.seat.keyboard_focus {
            if h.id == window {
                self.seat.keyboard_focus = Some(KeyboardFocusTarget::Window(h).mark_dead());
            }
        }
        proof {
            let before = old(self).windows@;
            let after = self.windows@;
            assert forall|i: int, j: int| 0 <= i < j < after.len() implies after[i].id
                != after[j].id by {
                let oi = if i < w {
                    i
                } else {
                    i + 1
                };
                let oj = if j < w {
                    j
                } else {
                    j + 1
                };
                assert(after[i] == before[oi]);
                assert(after[j] == before[oj]);
            }
            assert forall|i: int| 0 <= i < after.len() implies (
            #[trigger] after[i].space matches Some(s) ==> s < self.spaces.len()) by {
                let oi = if i < w {
                    i
                } else {
                    i + 1
                };
                assert(after[i] == before[oi]);
            }
        }
        Some(gone)
    }

    /// A client released the surface with identifier `surface`: it leaves
    /// the registry. Returns the surface.
    pub fn surface_destroyed(&mut self, surface: u64) -> (r: Option<Surface>)
        requires
            old(self).wf(),
        ensures
            final(self).wf(),
            r is Some == has_surface(old(self).surfaces@, surface),
            r matches Some(gone) ==> exists|i: int|
                0 <= i < old(self).surfaces.len() && #[trigger] old(self).surfaces[i].id == surface
                    && gone == old(self).surfaces[i] && final(self).surfaces@ == old(
                    self,
                ).surfaces@.remove(i),
            r is None ==> final(self).surfaces == old(self).surfaces,
            final(self).spaces == old(self).spaces,
            final(self).windows == old(self).windows,
            final(self).outputs == old(self).outputs,
            old(self).same_rest(*final(self)),
    {
        let i = match self.surface_index(surface) {
            Some(i) => i,
            None => {
                return None;
            },
        };
        let gone = self.surfaces.remove(i);
        proof {
            let before = old(self).surfaces@;
            let after = self.surfaces@;
            assert forall|a: int, b: int| 0 <= a < b < after.len() implies after[a].id
                != after[b].id by {
                let oa = if a < i {
                    a
                } else {
                    a + 1
                };
                let ob = if b < i {
                    b
                } else {
                    b + 1
                };
                assert(after[a] == before[oa]);
                assert(after[b] == before[ob]);
            }
            assert forall|a: int| 0 <= a < after.len() implies (#[trigger] after[a]).space
                < self.spaces.len() by {
                let oa = if a < i {
                    a
                } else {
                    a + 1
                };
                assert(after[a] == before[oa]);
            }
        }
        Some(gone)
    }
}

/// Those of the first `n` surfaces that do not belong to the client `client`.
pub open spec fn without_client(surfaces: Seq<Surface>, client: u64, n: int) -> Seq<Surface>
    decreases n,
{
    if n <= 0 {
        Seq::empty()
    } else if surfaces[n - 1].client == client {
        without_client(surfaces, client, n - 1)
    } else {
        without_client(surfaces, client, n - 1).push(surfaces[n - 1])
    }
}

/// The window as it is once the client `client` is gone: dead, if it was
/// that client's.
pub open spec fn after_client(window: Window, client: u64) -> Window {
    if window.client == client && !(window.kind is Overlay) {
        Window { alive: false, ..window }
    } else {
        window
    }
}

impl State {
    /// A client went away: no surface of it is left in the registry, and its
    /// windows are dead. Returns how many surfaces went with it.
    pub fn client_disconnected(&mut self, client: u64) -> (released: usize)
        requires
            old(self).wf(),
        ensures
            final(self).wf(),
            final(self).surfaces@ == without_client(
                old(self).surfaces@,
                client,
                old(self).surfaces.len() as int,
            ),
            released == old(self).surfaces.len() - final(self).surfaces.len(),
            final(self).windows.len() == old(self).windows.len(),
            forall|i: int|
                0 <= i < old(self).windows.len() ==> #[trigger] final(self).windows[i]
                    == after_client(old(self).windows[i], client),
            final(self).spaces == old(self).spaces,
            final(self).outputs == old(self).outputs,
            old(self).same_rest(*final(self)),
    {
        let mut kept: Vec<Surface> = Vec::new();
        let ghost mut from: Seq<int> = Seq::empty();
        let mut i: usize = 0;
        while i < self.surfaces.len()
            invariant
                i <= self.surfaces.len(),
                self.wf(),
                *self == *old(self),
                kept@ == without_client(self.surfaces@, client, i as int),
                kept.len() <= i,
                from.len() == kept.len(),
                forall|a: int|
                    0 <= a < kept.len() ==> 0 <= #[trigger] from[a] < i && kept[a]
                        == self.surfaces[from[a]],
                forall|a: int, b: int| 0 <= a < b < kept.len() ==> from[a] < from[b],
            decreases self.surfaces.len() - i,
        {
            if self.surfaces[i].client != client {
                kept.push(self.surfaces[i]);
                proof {
                    from = from.push(i as int);
                }
            }
            i += 1;
        }
        let released = self.surfaces.len() - kept.len();
        proof {
            assert forall|a: int, b: int| 0 <= a < b < kept.len() implies kept[a].id
                != kept[b].id by {
                assert(from[a] < from[b]);
                assert(self.surfaces[from[a]].id != self.surfaces[from[b]].id);
            }
            assert forall|a: int| 0 <= a < kept.len() implies (#[trigger] kept[a]).space
                < self.spaces.len() by {
                assert(kept[a] == self.surfaces[from[a]]);
            }
        }
        self.surfaces = kept;
        let mut w: usize = 0;
        while w < self.windows.len()
            invariant
                w <= self.windows.len(),
                self.windows.len() == old(self).windows.len(),
                forall|k: int|
                    0 <= k < w ==> #[trigger] self.windows[k] == after_client(
                        old(self).windows[k],
                        client,
                    ),
                forall|k: int|
                    w <= k < self.windows.len() ==> self.windows[k] == old(self).windows[k],
                self.surfaces@ == without_client(
                    old(self).surfaces@,
                    client,
                    old(self).surfaces.len() as int,
                ),
                self.spaces == old(self).spaces,
                self.outputs == old(self).outputs,
                old(self).same_rest(*self),
                old(self).wf(),
                forall|a: int, b: int|
                    0 <= a < b < self.surfaces.len() ==> self.surfaces[a].id != self.surfaces[b].id,
                forall|a: int|
                    0 <= a < self.surfaces.len() ==> (#[trigger] self.surfaces[a]).space
                        < self.spaces.len(),
            decreases self.windows.len() - w,
        {
            let overlay = match self.windows[w].kind {
                WindowKind::Overlay => true,
                _ => false,
            };
            if self.windows[w].client == client && !overlay {
                self.windows[w].alive = false;
            }
            w += 1;
        }
        released
    }
}

} // verus!
