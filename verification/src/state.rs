//! The state of the display server: spaces, and the registries of windows,
//! outputs and surfaces that refer to them.
//!
//! A window or an output names its owning space by index, so that it belongs
//! to one space at most by construction. The order of the window registry is
//! the stacking order: the last window of a space is its topmost.

use crate::commit::Surface;
use crate::config::Config;
use crate::focus::{
    KeyboardEventKind, KeyboardFocusTarget, PointerEventKind, PointerFocusTarget, Route,
    TouchEventKind,
};
use crate::geometry::{Point, Rectangle, Size};
use crate::grabs::{Grab, GrabStartData};
use crate::selection::SelectionBridge;
use crate::window::Window;
use vstd::prelude::*;

verus! {

/// A named rectangle of a space, into which windows can be placed.
#[derive(Clone, Debug, PartialEq, Eq)]
pub struct Zone {
    pub name: String,
    pub geometry: Rectangle,
    pub default: bool,
}

/// A named workspace. Its windows and outputs are those of the registries
/// that carry its index.
#[derive(Clone, Debug, PartialEq, Eq)]
pub struct Space {
    pub name: String,
    pub zones: Vec<Zone>,
}

/// A display.
#[derive(Clone, Debug, PartialEq, Eq)]
pub struct Output {
    /// Stable identifier.
    pub id: u64,
    pub name: String,
    /// The size of the current mode, in logical coordinates.
    pub size: Size,
    pub scale: i32,
    /// The top-left corner in the owning space.
    pub location: Point,
    /// What the exclusive zones of the layer surfaces leave free, relative to
    /// the output's own top-left corner.
    pub zone: Rectangle,
    /// The index of the owning space while the output is mapped.
    pub space: Option<usize>,
}

impl Output {
    /// The area that the output covers in its space.
    pub open spec fn geometry(self) -> Rectangle {
        Rectangle { loc: self.location, size: self.size }
    }

    /// The area of the space that is free for windows on this output.
    pub open spec fn usable(self) -> Rectangle {
        Rectangle { loc: self.location.plus(self.zone.loc), size: self.zone.size }
    }

    /// An unmapped output at the origin, all of it free for windows.
    pub fn new(id: u64, name: String, size: Size) -> (o: Output)
        ensures
            o.id == id,
            o.name == name,
            o.size == size,
            o.scale == 1,
            o.location == (Point { x: 0, y: 0 }),
            o.zone == (Rectangle { loc: Point { x: 0, y: 0 }, size }),
            o.space is None,
    {
        Output {
            id,
            name,
            size,
            scale: 1,
            location: Point::origin(),
            zone: Rectangle::new(Point::origin(), size),
            space: None,
        }
    }

    /// The area that the output covers in its space.
    pub fn output_geometry(&self) -> (r: Rectangle)
        ensures
            r == self.geometry(),
    {
        Rectangle::new(self.location, self.size)
    }

    /// The area of the space that is free for windows on this output.
    pub fn usable_geometry(&self) -> (r: Rectangle)
        ensures
            r == self.usable(),
    {
        Rectangle::new(self.location.add(self.zone.loc), self.zone.size)
    }
}

impl Space {
    /// No two zones share a name.
    pub open spec fn zones_distinct(self) -> bool {
        forall|i: int, j: int|
            0 <= i < j < self.zones.len() ==> self.zones[i].name@ != self.zones[j].name@
    }

    /// The index of the zone called `name`.
    pub fn zone_index(&self, name: &str) -> (r: Option<usize>)
        ensures
            match r {
                Some(i) => i < self.zones.len() && self.zones[i as int].name@ == name@ && forall|
                    k: int,
                | 0 <= k < i ==> self.zones[k].name@ != name@,
                None => forall|k: int| 0 <= k < self.zones.len() ==> self.zones[k].name@ != name@,
            },
    {
        let mut i: usize = 0;
        while i < self.zones.len()
            invariant
                i <= self.zones.len(),
                forall|k: int| 0 <= k < i ==> self.zones[k].name@ != name@,
            decreases self.zones.len() - i,
        {
            if text_eq(&self.zones[i].name, name) {
                return Some(i);
            }
            i += 1;
        }
        None
    }
}

/// Whether the two texts are the same.
pub fn text_eq(a: &String, b: &str) -> (r: bool)
    ensures
        r == (a@ == b@),
{
    let owned = b.to_owned();
    *a == owned
}

/// What the cursor shows.
#[derive(Clone, Copy, Debug, PartialEq, Eq, Structural)]
pub enum CursorImageStatus {
    Hidden,
    /// A cursor of the theme.
    Named,
    /// A client's surface, with the point of it that marks the position.
    Surface { surface: u64, hotspot: Point },
}

/// The icon that follows the pointer while something is dragged.
#[derive(Clone, Copy, Debug, PartialEq, Eq, Structural)]
pub struct DndIcon {
    pub surface: u64,
    pub offset: Point,
}

/// The input devices' state.
#[derive(Clone, Copy, Debug, PartialEq, Eq)]
pub struct Seat {
    pub keyboard_focus: Option<KeyboardFocusTarget>,
    pub pointer_focus: Option<PointerFocusTarget>,
    pub pointer_location: Point,
    /// Set while a button is held that could start a grab.
    pub grab_start: Option<GrabStartData>,
    pub grab: Option<Grab>,
    pub cursor: CursorImageStatus,
    pub dnd_icon: Option<DndIcon>,
}

/// Everything the display server keeps.
#[derive(Clone, Debug, PartialEq, Eq)]
pub struct State {
    pub spaces: Vec<Space>,
    /// All windows, lowest first.
    pub windows: Vec<Window>,
    pub outputs: Vec<Output>,
    pub surfaces: Vec<Surface>,
    pub seat: Seat,
    pub selections: SelectionBridge,
    pub config: Config,
    /// The event loop has not been told to stop.
    pub running: bool,
}

impl State {
    /// The registries are consistent: there is a first space; space names,
    /// window, output and surface identifiers and the zone names of each space
    /// occur once; every reference to a space names one that exists.
    pub open spec fn wf(self) -> bool {
        &&& self.spaces.len() >= 1
        &&& forall|i: int, j: int|
            0 <= i < j < self.spaces.len() ==> self.spaces[i].name@ != self.spaces[j].name@
        &&& forall|i: int, j: int|
            0 <= i < j < self.windows.len() ==> self.windows[i].id != self.windows[j].id
        &&& forall|i: int, j: int|
            0 <= i < j < self.outputs.len() ==> self.outputs[i].id != self.outputs[j].id
        &&& forall|i: int, j: int|
            0 <= i < j < self.surfaces.len() ==> self.surfaces[i].id != self.surfaces[j].id
        &&& forall|i: int|
            0 <= i < self.windows.len() ==> (#[trigger] self.windows[i].space matches Some(s)
                ==> s < self.spaces.len())
        &&& forall|i: int|
            0 <= i < self.outputs.len() ==> (#[trigger] self.outputs[i].space matches Some(s)
                ==> s < self.spaces.len())
        &&& forall|i: int|
            0 <= i < self.surfaces.len() ==> (#[trigger] self.surfaces[i]).space
                < self.spaces.len()
        &&& forall|s: int|
            0 <= s < self.spaces.len() ==> (#[trigger] self.spaces[s]).zones_distinct()
    }

    /// Window `w` is mapped in space `s`.
    pub open spec fn in_space(self, w: int, s: int) -> bool {
        0 <= w < self.windows.len() && self.windows[w].space == Some(s as usize)
    }

    /// A state with one space and nothing else.
    pub fn new(space_name: String) -> (state: State)
        ensures
            state.wf(),
            state.spaces.len() == 1,
            state.spaces[0].name == space_name,
            state.spaces[0].zones.len() == 0,
            state.windows.len() == 0,
            state.outputs.len() == 0,
            state.surfaces.len() == 0,
            state.seat.keyboard_focus is None,
            state.seat.pointer_focus is None,
            state.seat.pointer_location == (Point { x: 0, y: 0 }),
            state.seat.grab_start is None,
            state.seat.grab is None,
            state.seat.cursor == CursorImageStatus::Named,
            state.seat.dnd_icon is None,
            state.selections.clipboard is None,
            state.selections.primary is None,
            state.config.on_startup is None,
            state.config.on_connector_change is None,
            state.config.bindings.len() == 0,
            state.running,
    {
        let mut spaces: Vec<Space> = Vec::new();
        spaces.push(Space { name: space_name, zones: Vec::new() });
        State {
            spaces,
            windows: Vec::new(),
            outputs: Vec::new(),
            surfaces: Vec::new(),
            seat: Seat {
                keyboard_focus: None,
                pointer_focus: None,
                pointer_location: Point::origin(),
                grab_start: None,
                grab: None,
                cursor: CursorImageStatus::Named,
                dnd_icon: None,
            },
            selections: SelectionBridge { clipboard: None, primary: None },
            config: Config { on_startup: None, on_connector_change: None, bindings: Vec::new() },
            running: true,
        }
    }

    /// `post` is `self` with the windows `windows` and the seat `seat`.
    pub open spec fn changed(self, post: State, windows: Seq<Window>, seat: Seat) -> bool {
        &&& post.windows@ =~= windows
        &&& post.seat == seat
        &&& post.spaces == self.spaces
        &&& post.outputs == self.outputs
        &&& post.surfaces == self.surfaces
        &&& post.selections == self.selections
        &&& post.config == self.config
        &&& post.running == self.running
    }

    /// `post` differs from `self` in the registries at most: the seat, the
    /// selections, the configuration and the running flag are the same.
    pub open spec fn same_rest(self, post: State) -> bool {
        &&& post.seat == self.seat
        &&& post.selections == self.selections
        &&& post.config == self.config
        &&& post.running == self.running
    }

    /// The index of the space called `name`.
    pub fn space_index(&self, name: &str) -> (r: Option<usize>)
        ensures
            match r {
                Some(i) => i < self.spaces.len() && self.spaces[i as int].name@ == name@ && forall|
                    k: int,
                | 0 <= k < i ==> self.spaces[k].name@ != name@,
                None => forall|k: int| 0 <= k < self.spaces.len() ==> self.spaces[k].name@ != name@,
            },
    {
        let mut i: usize = 0;
        while i < self.spaces.len()
            invariant
                i <= self.spaces.len(),
                forall|k: int| 0 <= k < i ==> self.spaces[k].name@ != name@,
            decreases self.spaces.len() - i,
        {
            if text_eq(&self.spaces[i].name, name) {
                return Some(i);
            }
            i += 1;
        }
        None
    }

    /// Some window has the identifier `id`.
    pub open spec fn has_window(self, id: u64) -> bool {
        exists|i: int| 0 <= i < self.windows.len() && self.windows[i].id == id
    }

    /// The index of the window with identifier `id`.
    pub open spec fn window_pos(self, id: u64) -> int {
        choose|i: int| 0 <= i < self.windows.len() && self.windows[i].id == id
    }

    /// The window with identifier `id` is on show: it is known and mapped,
    /// and a native surface carries it. A legacy window gets that surface
    /// only some time after it was created, and the overlay has none.
    pub open spec fn on_show(self, id: u64) -> bool {
        &&& self.has_window(id)
        &&& self.windows[self.window_pos(id)].space is Some
        &&& self.windows[self.window_pos(id)].kind.root_surface() is Some
    }

    /// The index of the window with identifier `id`, where it is on show.
    pub fn shown_window(&self, id: u64) -> (r: Option<usize>)
        requires
            self.wf(),
        ensures
            r is Some == self.on_show(id),
            r matches Some(w) ==> w == self.window_pos(id) && w < self.windows.len(),
    {
        match self.window_index(id) {
            Some(w) => {
                if self.windows[w].space.is_some() && self.windows[w].wl_surface().is_some() {
                    Some(w)
                } else {
                    None
                }
            },
            None => None,
        }
    }

    /// The index of the window with identifier `id`.
    pub fn window_index(&self, id: u64) -> (r: Option<usize>)
        ensures
            match r {
                Some(i) => i < self.windows.len() && self.windows[i as int].id == id && forall|
                    k: int,
                | 0 <= k < i ==> self.windows[k].id != id,
                None => forall|k: int| 0 <= k < self.windows.len() ==> self.windows[k].id != id,
            },
            r is Some == self.has_window(id),
            self.wf() ==> (r matches Some(i) ==> i == self.window_pos(id)),
    {
        let mut i: usize = 0;
        while i < self.windows.len()
            invariant
                i <= self.windows.len(),
                forall|k: int| 0 <= k < i ==> self.windows[k].id != id,
            decreases self.windows.len() - i,
        {
            if self.windows[i].id == id {
                return Some(i);
            }
            i += 1;
        }
        None
    }

    /// The index of the output with identifier `id`.
    pub fn output_index(&self, id: u64) -> (r: Option<usize>)
        ensures
            match r {
                Some(i) => i < self.outputs.len() && self.outputs[i as int].id == id && forall|
                    k: int,
                | 0 <= k < i ==> self.outputs[k].id != id,
                None => forall|k: int| 0 <= k < self.outputs.len() ==> self.outputs[k].id != id,
            },
    {
        let mut i: usize = 0;
        while i < self.outputs.len()
            invariant
                i <= self.outputs.len(),
                forall|k: int| 0 <= k < i ==> self.outputs[k].id != id,
            decreases self.outputs.len() - i,
        {
            if self.outputs[i].id == id {
                return Some(i);
            }
            i += 1;
        }
        None
    }

    /// The index of the first output called `name`.
    pub fn output_by_name(&self, name: &str) -> (r: Option<usize>)
        ensures
            match r {
                Some(i) => i < self.outputs.len() && self.outputs[i as int].name@ == name@
                    && forall|k: int| 0 <= k < i ==> self.outputs[k].name@ != name@,
                None => forall|k: int|
                    0 <= k < self.outputs.len() ==> self.outputs[k].name@ != name@,
            },
    {
        let mut i: usize = 0;
        while i < self.outputs.len()
            invariant
                i <= self.outputs.len(),
                forall|k: int| 0 <= k < i ==> self.outputs[k].name@ != name@,
            decreases self.outputs.len() - i,
        {
            if text_eq(&self.outputs[i].name, name) {
                return Some(i);
            }
            i += 1;
        }
        None
    }

    /// Window `w` is mapped and `surface` is its root surface.
    pub open spec fn shows_surface(self, w: int, surface: u64) -> bool {
        0 <= w < self.windows.len() && self.windows[w].kind.root_surface() == Some(surface)
            && self.windows[w].space is Some
    }

    /// The index of the lowest mapped window whose root surface is `surface`.
    pub fn window_for_surface(&self, surface: u64) -> (r: Option<usize>)
        ensures
            match r {
                Some(i) => self.shows_surface(i as int, surface) && forall|k: int|
                    0 <= k < i ==> !self.shows_surface(k, surface),
                None => forall|k: int| !self.shows_surface(k, surface),
            },
    {
        let mut i: usize = 0;
        while i < self.windows.len()
            invariant
                i <= self.windows.len(),
                forall|k: int| 0 <= k < i ==> !self.shows_surface(k, surface),
            decreases self.windows.len() - i,
        {
            let w = &self.windows[i];
            if w.space.is_some() {
                if let Some(s) = w.wl_surface() {
                    if s == surface {
                        return Some(i);
                    }
                }
            }
            i += 1;
        }
        None
    }

    /// The mapped window whose root surface is `surface`, by its identifier,
    /// with the name of its space.
    pub fn window_and_space_for_surface(&self, surface: u64) -> (r: Option<(u64, String)>)
        requires
            self.wf(),
        ensures
            match r {
                Some((id, name)) => exists|i: int|
                    {
                        &&& self.shows_surface(i, surface)
                        &&& forall|k: int| 0 <= k < i ==> !self.shows_surface(k, surface)
                        &&& id == self.windows[i].id
                        &&& self.windows[i].space matches Some(s) && name
                            == self.spaces[s as int].name
                    },
                None => forall|k: int| !self.shows_surface(k, surface),
            },
    {
        match self.window_for_surface(surface) {
            Some(i) => {
                match self.windows[i].space {
                    Some(s) => Some((self.windows[i].id, self.spaces[s].name.clone())),
                    None => None,
                }
            },
            None => None,
        }
    }

    /// The name of the space in which the window with identifier `window` is
    /// mapped.
    pub fn space_of_window(&self, window: u64) -> (r: Option<String>)
        requires
            self.wf(),
        ensures
            match r {
                Some(name) => {
                    &&& self.has_window(window)
                    &&& self.windows[self.window_pos(window)].space matches Some(s) && s
                        < self.spaces.len() && name == self.spaces[s as int].name
                },
                None => !self.has_window(window) || self.windows[self.window_pos(
                    window,
                )].space is None,
            },
    {
        match self.window_index(window) {
            Some(i) => {
                match self.windows[i].space {
                    Some(s) => Some(self.spaces[s].name.clone()),
                    None => None,
                }
            },
            None => None,
        }
    }
}

/// A window that is mapped has one owner: whatever is found under its
/// identifier is found at one place of the registry and in one space, and that
/// space exists. The same holds of an output.
pub proof fn lemma_one_owner(state: State, i: int, j: int, s: usize, t: usize)
    requires
        state.wf(),
    ensures
        state.in_space(i, s as int) && state.in_space(j, t as int) && state.windows[i].id
            == state.windows[j].id ==> i == j && s == t && s < state.spaces.len(),
        0 <= i < state.outputs.len() && 0 <= j < state.outputs.len() && state.outputs[i].id
            == state.outputs[j].id ==> i == j && state.outputs[i].space == state.outputs[j].space,
{
    if state.in_space(i, s as int) && state.in_space(j, t as int) && state.windows[i].id
        == state.windows[j].id {
        if i < j {
            assert(state.windows[i].id != state.windows[j].id);
        }
        if j < i {
            assert(state.windows[j].id != state.windows[i].id);
        }
        assert(state.windows[i].space matches Some(x) ==> x < state.spaces.len());
    }
    if 0 <= i < state.outputs.len() && 0 <= j < state.outputs.len() && state.outputs[i].id
        == state.outputs[j].id {
        if i < j {
            assert(state.outputs[i].id != state.outputs[j].id);
        }
        if j < i {
            assert(state.outputs[j].id != state.outputs[i].id);
        }
    }
}

/// No two of the windows share an identifier.
pub open spec fn distinct_ids(windows: Seq<Window>) -> bool {
    forall|i: int, j: int| 0 <= i < j < windows.len() ==> windows[i].id != windows[j].id
}

/// Moving a window to the top keeps the identifiers distinct.
pub proof fn lemma_raise_keeps_ids(windows: Seq<Window>, w: int)
    requires
        distinct_ids(windows),
        0 <= w < windows.len(),
    ensures
        distinct_ids(windows.remove(w).push(windows[w])),
{
    let after = windows.remove(w).push(windows[w]);
    assert forall|i: int, j: int| 0 <= i < j < after.len() implies after[i].id != after[j].id by {
        let oi = if i < w {
            i
        } else {
            i + 1
        };
        assert(after[i] == windows[oi]);
        if j == after.len() - 1 {
            assert(after[j] == windows[w]);
        } else {
            let oj = if j < w {
                j
            } else {
                j + 1
            };
            assert(after[j] == windows[oj]);
        }
    }
}

impl State {
    /// Window `w` is the topmost window of space `s`.
    pub open spec fn is_top(self, s: usize, w: int) -> bool {
        self.in_space(w, s as int) && forall|k: int| w < k < self.windows.len() ==> !self.in_space(
            k,
            s as int,
        )
    }

    /// Space `s` has no window.
    pub open spec fn is_empty_space(self, s: usize) -> bool {
        forall|k: int| !self.in_space(k, s as int)
    }

    /// `spaces` are the spaces of `self` and, where none of them is called
    /// `name`, one more of that name without zones; `s` is the index of the
    /// space of that name.
    pub open spec fn space_added(self, spaces: Seq<Space>, name: Seq<char>, s: int) -> bool {
        ||| {
            &&& 0 <= s < self.spaces.len()
            &&& self.spaces[s].name@ == name
            &&& spaces == self.spaces@
        }
        ||| {
            &&& s == self.spaces.len()
            &&& forall|k: int| 0 <= k < self.spaces.len() ==> self.spaces[k].name@ != name
            &&& spaces.len() == s + 1
            &&& spaces.drop_last() == self.spaces@
            &&& spaces[s].name@ == name
            &&& spaces[s].zones.len() == 0
        }
    }

    /// The index of the space called `name`, which is added, without zones,
    /// where no space has the name.
    pub fn add_space(&mut self, name: String) -> (s: usize)
        requires
            old(self).wf(),
        ensures
            final(self).wf(),
            old(self).space_added(final(self).spaces@, name@, s as int),
            final(self).windows == old(self).windows,
            final(self).outputs == old(self).outputs,
            final(self).surfaces == old(self).surfaces,
            old(self).same_rest(*final(self)),
    {
        if let Some(s) = self.space_index(name.as_str()) {
            return s;
        }
        self.spaces.push(Space { name, zones: Vec::new() });
        assert(self.spaces@.drop_last() =~= old(self).spaces@);
        self.spaces.len() - 1
    }

    /// Registers a window. Returns `false`, and changes nothing, where the
    /// identifier is taken or the window names a space that does not exist.
    pub fn add_window(&mut self, window: Window) -> (added: bool)
        requires
            old(self).wf(),
        ensures
            final(self).wf(),
            added == {
                &&& forall|k: int|
                    0 <= k < old(self).windows.len() ==> old(self).windows[k].id != window.id
                &&& window.space matches Some(s) ==> s < old(self).spaces.len()
            },
            added ==> final(self).windows@ == old(self).windows@.push(window),
            !added ==> final(self).windows == old(self).windows,
            final(self).spaces == old(self).spaces,
            final(self).outputs == old(self).outputs,
            final(self).surfaces == old(self).surfaces,
            old(self).same_rest(*final(self)),
    {
        if self.window_index(window.id).is_some() {
            return false;
        }
        if let Some(s) = window.space {
            if s >= self.spaces.len() {
                return false;
            }
        }
        self.windows.push(window);
        true
    }

    /// Registers an output. Returns `false`, and changes nothing, where the
    /// identifier is taken or the output names a space that does not exist.
    pub fn add_output(&mut self, output: Output) -> (added: bool)
        requires
            old(self).wf(),
        ensures
            final(self).wf(),
            added == {
                &&& forall|k: int|
                    0 <= k < old(self).outputs.len() ==> old(self).outputs[k].id != output.id
                &&& output.space matches Some(s) ==> s < old(self).spaces.len()
            },
            added ==> final(self).outputs@ == old(self).outputs@.push(output),
            !added ==> final(self).outputs == old(self).outputs,
            final(self).spaces == old(self).spaces,
            final(self).windows == old(self).windows,
            final(self).surfaces == old(self).surfaces,
            old(self).same_rest(*final(self)),
    {
        if self.output_index(output.id).is_some() {
            return false;
        }
        if let Some(s) = output.space {
            if s >= self.spaces.len() {
                return false;
            }
        }
        self.outputs.push(output);
        true
    }

    /// Takes the output with identifier `id` out of the registry and returns
    /// it.
    pub fn remove_output(&mut self, id: u64) -> (removed: Option<Output>)
        requires
            old(self).wf(),
        ensures
            final(self).wf(),
            match removed {
                Some(o) => exists|k: int|
                    0 <= k < old(self).outputs.len() && #[trigger] old(self).outputs[k].id == id
                        && o == old(self).outputs[k] && final(self).outputs@ == old(
                        self,
                    ).outputs@.remove(k),
                None => final(self).outputs == old(self).outputs && forall|k: int|
                    0 <= k < old(self).outputs.len() ==> old(self).outputs[k].id != id,
            },
            final(self).spaces == old(self).spaces,
            final(self).windows == old(self).windows,
            final(self).surfaces == old(self).surfaces,
            old(self).same_rest(*final(self)),
    {
        match self.output_index(id) {
            Some(k) => {
                let o = self.outputs.remove(k);
                Some(o)
            },
            None => None,
        }
    }

    /// Moves window `w` to the top of the stack and returns its new index.
    pub(crate) fn raise_window(&mut self, w: usize) -> (top: usize)
        requires
            old(self).wf(),
            w < old(self).windows.len(),
        ensures
            final(self).wf(),
            top == old(self).windows.len() - 1,
            final(self).windows@ == old(self).windows@.remove(w as int).push(
                old(self).windows[w as int],
            ),
            final(self).spaces == old(self).spaces,
            final(self).outputs == old(self).outputs,
            final(self).surfaces == old(self).surfaces,
            old(self).same_rest(*final(self)),
    {
        proof {
            lemma_raise_keeps_ids(self.windows@, w as int);
        }
        let window = self.windows.remove(w);
        self.windows.push(window);
        proof {
            let after = self.windows@;
            let before = old(self).windows@;
            assert forall|i: int| 0 <= i < after.len() implies (
            #[trigger] after[i].space matches Some(s) ==> s < self.spaces.len()) by {
                if i == after.len() - 1 {
                    assert(after[i] == before[w as int]);
                } else if i < w {
                    assert(after[i] == before[i]);
                } else {
                    assert(after[i] == before[i + 1]);
                }
            }
        }
        self.windows.len() - 1
    }

    /// Moves the window with identifier `window` to the top of the stack and
    /// gives it the keyboard focus. Returns whether the window is known.
    pub fn focus_window(&mut self, window: u64) -> (focused: bool)
        requires
            old(self).wf(),
        ensures
            final(self).wf(),
            focused == old(self).has_window(window),
            focused ==> {
                let w = old(self).window_pos(window);
                old(self).changed(
                    *final(self),
                    old(self).windows@.remove(w).push(old(self).windows[w]),
                    Seat {
                        keyboard_focus: Some(
                            KeyboardFocusTarget::of_window(old(self).windows[w].handle_of()),
                        ),
                        ..old(self).seat
                    },
                )
            },
            !focused ==> *final(self) == *old(self),
    {
        match self.window_index(window) {
            Some(w) => {
                self.focus_at(w);
                true
            },
            None => false,
        }
    }

    /// Moves window `w` to the top of the stack, gives it the keyboard focus,
    /// and returns its new index.
    pub(crate) fn focus_at(&mut self, w: usize) -> (top: usize)
        requires
            old(self).wf(),
            w < old(self).windows.len(),
        ensures
            final(self).wf(),
            top == old(self).windows.len() - 1,
            final(self).windows@ == old(self).windows@.remove(w as int).push(
                old(self).windows[w as int],
            ),
            final(self).seat == (Seat {
                keyboard_focus: Some(
                    KeyboardFocusTarget::of_window(old(self).windows[w as int].handle_of()),
                ),
                ..old(self).seat
            }),
            final(self).spaces == old(self).spaces,
            final(self).outputs == old(self).outputs,
            final(self).surfaces == old(self).surfaces,
            final(self).selections == old(self).selections,
            final(self).config == old(self).config,
            final(self).running == old(self).running,
    {
        let target = KeyboardFocusTarget::from_window(self.windows[w].handle());
        let top = self.raise_window(w);
        self.seat.keyboard_focus = Some(target);
        top
    }

    /// The topmost window of space `s`.
    pub fn top_window_of(&self, s: usize) -> (r: Option<usize>)
        ensures
            match r {
                Some(w) => self.is_top(s, w as int),
                None => self.is_empty_space(s),
            },
    {
        let mut i: usize = self.windows.len();
        while i > 0
            invariant
                i <= self.windows.len(),
                forall|k: int| i <= k < self.windows.len() ==> !self.in_space(k, s as int),
            decreases i,
        {
            i -= 1;
            if let Some(t) = self.windows[i].space {
                if t == s {
                    return Some(i);
                }
            }
        }
        None
    }

    /// Where a keyboard event of kind `kind` goes: to the target that holds
    /// the keyboard focus. A holder that is not alive loses the focus and
    /// receives nothing.
    pub fn keyboard_event(&mut self, kind: KeyboardEventKind) -> (r: Route)
        ensures
            match old(self).seat.keyboard_focus {
                Some(t) => r == t.route(kind) && final(self).seat.keyboard_focus
                    == if t.is_alive() {
                    Some(t)
                } else {
                    None
                },
                None => r == Route::Nowhere && final(self).seat.keyboard_focus is None,
            },
            final(self).seat == (Seat {
                keyboard_focus: final(self).seat.keyboard_focus,
                ..old(self).seat
            }),
            final(self).spaces == old(self).spaces,
            final(self).windows == old(self).windows,
            final(self).outputs == old(self).outputs,
            final(self).surfaces == old(self).surfaces,
            final(self).selections == old(self).selections,
            final(self).config == old(self).config,
            final(self).running == old(self).running,
    {
        match self.seat.keyboard_focus {
            Some(t) => {
                if !t.alive() {
                    self.seat.keyboard_focus = None;
                }
                t.dispatch(kind)
            },
            None => Route::Nowhere,
        }
    }

    /// Where a pointer event of kind `kind` goes: to the target under the
    /// pointer. A target that is not alive loses the focus and receives
    /// nothing.
    pub fn pointer_event(&mut self, kind: PointerEventKind) -> (r: Route)
        ensures
            match old(self).seat.pointer_focus {
                Some(t) => r == t.pointer_route(kind) && final(self).seat.pointer_focus
                    == if t.is_alive() {
                    Some(t)
                } else {
                    None
                },
                None => r == Route::Nowhere && final(self).seat.pointer_focus is None,
            },
            final(self).seat == (Seat {
                pointer_focus: final(self).seat.pointer_focus,
                ..old(self).seat
            }),
            final(self).spaces == old(self).spaces,
            final(self).windows == old(self).windows,
            final(self).outputs == old(self).outputs,
            final(self).surfaces == old(self).surfaces,
            final(self).selections == old(self).selections,
            final(self).config == old(self).config,
            final(self).running == old(self).running,
    {
        match self.seat.pointer_focus {
            Some(t) => {
                if !t.alive() {
                    self.seat.pointer_focus = None;
                }
                t.dispatch(kind)
            },
            None => Route::Nowhere,
        }
    }

    /// Where a touch event of kind `kind` goes: to the target under the
    /// pointer, as far as it takes touch input. A target that is not alive
    /// loses the focus and receives nothing.
    pub fn touch_event(&mut self, kind: TouchEventKind) -> (r: Route)
        ensures
            match old(self).seat.pointer_focus {
                Some(t) => r == t.touch_route(kind) && final(self).seat.pointer_focus
                    == if t.is_alive() {
                    Some(t)
                } else {
                    None
                },
                None => r == Route::Nowhere && final(self).seat.pointer_focus is None,
            },
            final(self).seat == (Seat {
                pointer_focus: final(self).seat.pointer_focus,
                ..old(self).seat
            }),
            final(self).spaces == old(self).spaces,
            final(self).windows == old(self).windows,
            final(self).outputs == old(self).outputs,
            final(self).surfaces == old(self).surfaces,
            final(self).selections == old(self).selections,
            final(self).config == old(self).config,
            final(self).running == old(self).running,
    {
        match self.seat.pointer_focus {
            Some(t) => {
                if !t.alive() {
                    self.seat.pointer_focus = None;
                }
                t.dispatch_touch(kind)
            },
            None => Route::Nowhere,
        }
    }
}

/// The identifiers of those of the first `n` windows that are mapped in
/// space `s`, lowest first: the windows of the space in stacking order.
pub open spec fn stacking(windows: Seq<Window>, s: usize, n: int) -> Seq<u64>
    decreases n,
{
    if n <= 0 {
        Seq::empty()
    } else if windows[n - 1].space == Some(s) {
        stacking(windows, s, n - 1).push(windows[n - 1].id)
    } else {
        stacking(windows, s, n - 1)
    }
}

/// The identifiers of those of the first `n` outputs that are mapped in
/// space `s`, in the order of the registry.
pub open spec fn showing(outputs: Seq<Output>, s: usize, n: int) -> Seq<u64>
    decreases n,
{
    if n <= 0 {
        Seq::empty()
    } else if outputs[n - 1].space == Some(s) {
        showing(outputs, s, n - 1).push(outputs[n - 1].id)
    } else {
        showing(outputs, s, n - 1)
    }
}

impl State {
    /// The windows of space `s`, by their identifiers, lowest first.
    pub fn windows_in(&self, s: usize) -> (ids: Vec<u64>)
        ensures
            ids@ == stacking(self.windows@, s, self.windows.len() as int),
    {
        let mut ids: Vec<u64> = Vec::new();
        let mut i: usize = 0;
        while i < self.windows.len()
            invariant
                i <= self.windows.len(),
                ids@ == stacking(self.windows@, s, i as int),
            decreases self.windows.len() - i,
        {
            if let Some(t) = self.windows[i].space {
                if t == s {
                    ids.push(self.windows[i].id);
                }
            }
            i += 1;
        }
        ids
    }

    /// The outputs of space `s`, by their identifiers, in the order of the
    /// registry.
    pub fn outputs_in(&self, s: usize) -> (ids: Vec<u64>)
        ensures
            ids@ == showing(self.outputs@, s, self.outputs.len() as int),
    {
        let mut ids: Vec<u64> = Vec::new();
        let mut i: usize = 0;
        while i < self.outputs.len()
            invariant
                i <= self.outputs.len(),
                ids@ == showing(self.outputs@, s, i as int),
            decreases self.outputs.len() - i,
        {
            if let Some(t) = self.outputs[i].space {
                if t == s {
                    ids.push(self.outputs[i].id);
                }
            }
            i += 1;
        }
        ids
    }
}

impl Space {
    /// Whether no two zones share a name.
    pub fn has_distinct_zones(&self) -> (b: bool)
        ensures
            b == self.zones_distinct(),
    {
        let mut j: usize = 0;
        while j < self.zones.len()
            invariant
                j <= self.zones.len(),
                forall|a: int, b: int|
                    0 <= a < b < j ==> self.zones[a].name@ != self.zones[b].name@,
            decreases self.zones.len() - j,
        {
            let mut i: usize = 0;
            while i < j
                invariant
                    i <= j < self.zones.len(),
                    forall|a: int| 0 <= a < i ==> self.zones[a].name@ != self.zones[j as int].name@,
                decreases j - i,
            {
                if self.zones[i].name == self.zones[j].name {
                    return false;
                }
                i += 1;
            }
            j += 1;
        }
        true
    }
}

impl State {
    /// Whether no two spaces share a name and the zones of each are distinct.
    fn spaces_consistent(&self) -> (b: bool)
        ensures
            b == {
                &&& forall|i: int, j: int|
                    0 <= i < j < self.spaces.len() ==> self.spaces[i].name@ != self.spaces[j].name@
                &&& forall|s: int|
                    0 <= s < self.spaces.len() ==> (#[trigger] self.spaces[s]).zones_distinct()
            },
    {
        let mut j: usize = 0;
        while j < self.spaces.len()
            invariant
                j <= self.spaces.len(),
                forall|a: int, b: int|
                    0 <= a < b < j ==> self.spaces[a].name@ != self.spaces[b].name@,
                forall|s: int| 0 <= s < j ==> (#[trigger] self.spaces[s]).zones_distinct(),
            decreases self.spaces.len() - j,
        {
            if !self.spaces[j].has_distinct_zones() {
                return false;
            }
            let mut i: usize = 0;
            while i < j
                invariant
                    i <= j < self.spaces.len(),
                    forall|a: int|
                        0 <= a < i ==> self.spaces[a].name@ != self.spaces[j as int].name@,
                decreases j - i,
            {
                if self.spaces[i].name == self.spaces[j].name {
                    return false;
                }
                i += 1;
            }
            j += 1;
        }
        true
    }

    /// Whether the windows have distinct identifiers and name spaces that
    /// exist.
    fn windows_consistent(&self) -> (b: bool)
        ensures
            b == {
                &&& forall|i: int, j: int|
                    0 <= i < j < self.windows.len() ==> self.windows[i].id != self.windows[j].id
                &&& forall|i: int|
                    0 <= i < self.windows.len() ==> (#[trigger] self.windows[i].space matches Some(
                        s,
                    ) ==> s < self.spaces.len())
            },
    {
        let mut j: usize = 0;
        while j < self.windows.len()
            invariant
                j <= self.windows.len(),
                forall|a: int, b: int| 0 <= a < b < j ==> self.windows[a].id != self.windows[b].id,
                forall|i: int|
                    0 <= i < j ==> (#[trigger] self.windows[i].space matches Some(s) ==> s
                        < self.spaces.len()),
            decreases self.windows.len() - j,
        {
            if let Some(s) = self.windows[j].space {
                if s >= self.spaces.len() {
                    return false;
                }
            }
            let mut i: usize = 0;
            while i < j
                invariant
                    i <= j < self.windows.len(),
                    forall|a: int| 0 <= a < i ==> self.windows[a].id != self.windows[j as int].id,
                decreases j - i,
            {
                if self.windows[i].id == self.windows[j].id {
                    return false;
                }
                i += 1;
            }
            j += 1;
        }
        true
    }

    /// Whether the outputs have distinct identifiers and name spaces that
    /// exist.
    fn outputs_consistent(&self) -> (b: bool)
        ensures
            b == {
                &&& forall|i: int, j: int|
                    0 <= i < j < self.outputs.len() ==> self.outputs[i].id != self.outputs[j].id
                &&& forall|i: int|
                    0 <= i < self.outputs.len() ==> (#[trigger] self.outputs[i].space matches Some(
                        s,
                    ) ==> s < self.spaces.len())
            },
    {
        let mut j: usize = 0;
        while j < self.outputs.len()
            invariant
                j <= self.outputs.len(),
                forall|a: int, b: int| 0 <= a < b < j ==> self.outputs[a].id != self.outputs[b].id,
                forall|i: int|
                    0 <= i < j ==> (#[trigger] self.outputs[i].space matches Some(s) ==> s
                        < self.spaces.len()),
            decreases self.outputs.len() - j,
        {
            if let Some(s) = self.outputs[j].space {
                if s >= self.spaces.len() {
                    return false;
                }
            }
            let mut i: usize = 0;
            while i < j
                invariant
                    i <= j < self.outputs.len(),
                    forall|a: int| 0 <= a < i ==> self.outputs[a].id != self.outputs[j as int].id,
                decreases j - i,
            {
                if self.outputs[i].id == self.outputs[j].id {
                    return false;
                }
                i += 1;
            }
            j += 1;
        }
        true
    }

    /// Whether the surfaces have distinct identifiers and name spaces that
    /// exist.
    fn surfaces_consistent(&self) -> (b: bool)
        ensures
            b == {
                &&& forall|i: int, j: int|
                    0 <= i < j < self.surfaces.len() ==> self.surfaces[i].id != self.surfaces[j].id
                &&& forall|i: int|
                    0 <= i < self.surfaces.len() ==> (#[trigger] self.surfaces[i]).space
                        < self.spaces.len()
            },
    {
        let mut j: usize = 0;
        while j < self.surfaces.len()
            invariant
                j <= self.surfaces.len(),
                forall|a: int, b: int|
                    0 <= a < b < j ==> self.surfaces[a].id != self.surfaces[b].id,
                forall|i: int|
                    0 <= i < j ==> (#[trigger] self.surfaces[i]).space < self.spaces.len(),
            decreases self.surfaces.len() - j,
        {
            if self.surfaces[j].space >= self.spaces.len() {
                return false;
            }
            let mut i: usize = 0;
            while i < j
                invariant
                    i <= j < self.surfaces.len(),
                    forall|a: int| 0 <= a < i ==> self.surfaces[a].id != self.surfaces[j as int].id,
                decreases j - i,
            {
                if self.surfaces[i].id == self.surfaces[j].id {
                    return false;
                }
                i += 1;
            }
            j += 1;
        }
        true
    }

    /// Whether the registries are consistent.
    pub fn well_formed(&self) -> (b: bool)
        ensures
            b == self.wf(),
    {
        self.spaces.len() >= 1 && self.spaces_consistent() && self.windows_consistent()
            && self.outputs_consistent() && self.surfaces_consistent()
    }
}

} // verus!
