//! Interactive move and resize: what a grab records and what each pointer
//! motion makes of it.

use crate::geometry::{clip, max_int, sat_add, sat_sub, Point, Rectangle, Size};
use crate::state::{Seat, State};
use crate::window::{OldGeometry, ResizeData, ResizeEdge, ResizeState, Window};
use vstd::prelude::*;

verus! {

/// Where the pointer was and which button went down when a grab could start.
#[derive(Clone, Copy, Debug, PartialEq, Eq, Structural)]
pub struct GrabStartData {
    pub location: Point,
    pub button: u32,
}

/// A window being dragged.
#[derive(Clone, Copy, Debug, PartialEq, Eq, Structural)]
pub struct PointerMoveSurfaceGrab {
    pub start_data: GrabStartData,
    /// The identifier of the window.
    pub window: u64,
    pub initial_window_location: Point,
}

/// A window being resized by its edges.
#[derive(Clone, Copy, Debug, PartialEq, Eq, Structural)]
pub struct PointerResizeSurfaceGrab {
    pub start_data: GrabStartData,
    /// The identifier of the window.
    pub window: u64,
    pub edges: ResizeEdge,
    pub initial_window_location: Point,
    pub initial_window_size: Size,
    pub last_window_size: Size,
}

/// The grab that owns the pointer.
#[derive(Clone, Copy, Debug, PartialEq, Eq, Structural)]
pub enum Grab {
    Move(PointerMoveSurfaceGrab),
    Resize(PointerResizeSurfaceGrab),
}

/// No interactive resize makes a window narrower or lower than this.
pub const MIN_WINDOW_SIZE: i32 = 1;

/// What a pointer motion made of the grab.
#[derive(Clone, Copy, Debug, PartialEq, Eq, Structural)]
pub enum GrabOutcome {
    /// No grab owns the pointer.
    NoGrab,
    /// The grabbed window is gone or dead: the grab is over.
    Ended,
    /// The window with this identifier was moved here.
    Moved { window: u64, location: Point },
    /// The window with this identifier is to be configured with this geometry.
    Resized { window: u64, geometry: Rectangle },
}

impl PointerMoveSurfaceGrab {
    /// Where the window is while the pointer is at `pointer`: as far from
    /// where it was as the pointer is from where it was.
    pub open spec fn location_at(self, pointer: Point) -> Point {
        self.initial_window_location.plus(pointer.minus(self.start_data.location))
    }

    /// Where the window is while the pointer is at `pointer`.
    pub fn location_for(&self, pointer: Point) -> (p: Point)
        ensures
            p == self.location_at(pointer),
    {
        self.initial_window_location.add(pointer.sub(self.start_data.location))
    }
}

/// One dimension of a resize: a length that was `initial`, after the pointer
/// went `delta` along it, with the near edge (`near`) or the far edge (`far`)
/// following the pointer. A length that follows is never under the minimum.
pub open spec fn resized_length(initial: i32, delta: i32, near: bool, far: bool) -> i32 {
    if near {
        max_int(MIN_WINDOW_SIZE as int, clip(initial - delta)) as i32
    } else if far {
        max_int(MIN_WINDOW_SIZE as int, clip(initial + delta)) as i32
    } else {
        initial
    }
}

/// One dimension of a resize, computed.
pub fn resize_length(initial: i32, delta: i32, near: bool, far: bool) -> (r: i32)
    ensures
        r == resized_length(initial, delta, near, far),
{
    if near {
        let v = sat_sub(initial, delta);
        if v < MIN_WINDOW_SIZE {
            MIN_WINDOW_SIZE
        } else {
            v
        }
    } else if far {
        let v = sat_add(initial, delta);
        if v < MIN_WINDOW_SIZE {
            MIN_WINDOW_SIZE
        } else {
            v
        }
    } else {
        initial
    }
}

impl PointerResizeSurfaceGrab {
    /// The size that the window is to have while the pointer is at `pointer`.
    pub open spec fn size_at(self, pointer: Point) -> Size {
        let d = pointer.minus(self.start_data.location);
        Size {
            w: resized_length(self.initial_window_size.w, d.x, self.edges.left, self.edges.right),
            h: resized_length(self.initial_window_size.h, d.y, self.edges.top, self.edges.bottom),
        }
    }

    /// The geometry that the window is to have while the pointer is at
    /// `pointer`: the edges that do not follow the pointer stay where they were.
    pub open spec fn geometry_at(self, pointer: Point) -> Rectangle {
        let size = self.size_at(pointer);
        Rectangle {
            loc: Point {
                x: if self.edges.left {
                    clip(
                        self.initial_window_location.x + clip(self.initial_window_size.w - size.w),
                    ) as i32
                } else {
                    self.initial_window_location.x
                },
                y: if self.edges.top {
                    clip(
                        self.initial_window_location.y + clip(self.initial_window_size.h - size.h),
                    ) as i32
                } else {
                    self.initial_window_location.y
                },
            },
            size,
        }
    }

    /// What the grab recorded of the window.
    pub open spec fn data(self) -> ResizeData {
        ResizeData {
            edges: self.edges,
            initial_window_location: self.initial_window_location,
            initial_window_size: self.initial_window_size,
        }
    }

    /// The geometry that the window is to have while the pointer is at
    /// `pointer`.
    pub fn geometry_for(&self, pointer: Point) -> (r: Rectangle)
        ensures
            r == self.geometry_at(pointer),
    {
        let d = pointer.sub(self.start_data.location);
        let w = resize_length(self.initial_window_size.w, d.x, self.edges.left, self.edges.right);
        let h = resize_length(self.initial_window_size.h, d.y, self.edges.top, self.edges.bottom);
        let x = if self.edges.left {
            sat_add(self.initial_window_location.x, sat_sub(self.initial_window_size.w, w))
        } else {
            self.initial_window_location.x
        };
        let y = if self.edges.top {
            sat_add(self.initial_window_location.y, sat_sub(self.initial_window_size.h, h))
        } else {
            self.initial_window_location.y
        };
        Rectangle { loc: Point { x, y }, size: Size { w, h } }
    }
}

impl Window {
    /// This window as a move grab picks it up with the pointer at `pointer`:
    /// a maximized window is maximized no longer and, with the size that was
    /// kept for it, hangs at the pointer.
    pub open spec fn picked_up(self, pointer: Point) -> Window {
        if self.maximized {
            match self.old_geometry.0 {
                Some(geo) => Window {
                    maximized: false,
                    old_geometry: OldGeometry(None),
                    geometry: Rectangle { loc: pointer, size: geo.size },
                    ..self
                },
                None => Window { maximized: false, ..self },
            }
        } else {
            self
        }
    }

    /// Where a move grab takes the window to have been when it began.
    pub open spec fn pick_up_location(self, pointer: Point) -> Point {
        if self.maximized {
            pointer
        } else {
            self.geometry.loc
        }
    }

    /// This window after the grab that resized it was released.
    pub open spec fn released(self) -> Window {
        self.with_resize(self.data.resize_state.after_release())
    }
}

impl State {
    /// A grab on the window with identifier `window` can start: a button is
    /// held, the window is on show, and no resize of it is under way or waits
    /// for the client's commit. A request that comes otherwise is out of turn.
    pub open spec fn can_grab(self, window: u64) -> bool {
        &&& self.seat.grab_start is Some
        &&& self.on_show(window)
        &&& self.windows[self.window_pos(window)].data.resize_state == ResizeState::NotResizing
    }

    /// The index of the window with identifier `window`, where a grab on it
    /// can start.
    pub fn grabbable_window(&self, window: u64) -> (r: Option<usize>)
        requires
            self.wf(),
        ensures
            r is Some == self.can_grab(window),
            r matches Some(w) ==> w == self.window_pos(window) && w < self.windows.len(),
    {
        if self.seat.grab_start.is_none() {
            return None;
        }
        match self.shown_window(window) {
            Some(w) => match self.windows[w].data.resize_state {
                ResizeState::NotResizing => Some(w),
                _ => None,
            },
            None => None,
        }
    }

    /// A button went down with no other held: what a grab needs to start
    /// is recorded.
    pub fn button_pressed(&mut self, button: u32)
        ensures
            old(self).changed(
                *final(self),
                old(self).windows@,
                Seat {
                    grab_start: match old(self).seat.grab_start {
                        Some(start) => Some(start),
                        None => Some(
                            GrabStartData { location: old(self).seat.pointer_location, button },
                        ),
                    },
                    ..old(self).seat
                },
            ),
            final(self).windows == old(self).windows,
    {
        if self.seat.grab_start.is_none() {
            self.seat.grab_start = Some(
                GrabStartData { location: self.seat.pointer_location, button },
            );
        }
    }

    /// A client asks to have the window with identifier `window` resized by
    /// the edges `edges`. Where a grab can start, the resize is under way, the
    /// grab owns the pointer, and no target has the pointer focus. A request
    /// that comes out of turn is ignored. Returns whether the grab started.
    pub fn resize_request(&mut self, window: u64, edges: ResizeEdge) -> (started: bool)
        requires
            old(self).wf(),
        ensures
            final(self).wf(),
            started == old(self).can_grab(window),
            started ==> old(self).windows[old(self).window_pos(window)].data.resize_state
                == ResizeState::NotResizing,
            started ==> {
                let w = old(self).window_pos(window);
                let win = old(self).windows[w];
                let data = ResizeData {
                    edges,
                    initial_window_location: win.geometry.loc,
                    initial_window_size: win.geometry.size,
                };
                old(self).changed(
                    *final(self),
                    old(self).windows@.update(w, win.with_resize(ResizeState::Resizing(data))),
                    Seat {
                        grab: Some(
                            Grab::Resize(
                                PointerResizeSurfaceGrab {
                                    start_data: old(self).seat.grab_start.unwrap(),
                                    window,
                                    edges,
                                    initial_window_location: win.geometry.loc,
                                    initial_window_size: win.geometry.size,
                                    last_window_size: win.geometry.size,
                                },
                            ),
                        ),
                        pointer_focus: None,
                        ..old(self).seat
                    },
                )
            },
            !started ==> *final(self) == *old(self),
    {
        let start_data = match self.seat.grab_start {
            Some(d) => d,
            None => {
                return false;
            },
        };
        let w = match self.grabbable_window(window) {
            Some(w) => w,
            None => {
                return false;
            },
        };
        let geo = self.windows[w].geometry;
        self.windows[w].data.resize_state = ResizeState::Resizing(
            ResizeData {
                edges,
                initial_window_location: geo.loc,
                initial_window_size: geo.size,
            },
        );
        self.seat.grab = Some(
            Grab::Resize(
                PointerResizeSurfaceGrab {
                    start_data,
                    window,
                    edges,
                    initial_window_location: geo.loc,
                    initial_window_size: geo.size,
                    last_window_size: geo.size,
                },
            ),
        );
        self.seat.pointer_focus = None;
        true
    }

    /// A client asks to have the window with identifier `window` moved.
    /// Where a grab can start, the window is picked up, the grab owns the
    /// pointer, and no target has the pointer focus. A request that comes out
    /// of turn is ignored. Returns whether the grab started.
    pub fn move_request_x11(&mut self, window: u64) -> (started: bool)
        requires
            old(self).wf(),
        ensures
            final(self).wf(),
            started == old(self).can_grab(window),
            started ==> old(self).windows[old(self).window_pos(window)].data.resize_state
                == ResizeState::NotResizing,
            started ==> {
                let w = old(self).window_pos(window);
                let win = old(self).windows[w];
                let pointer = old(self).seat.pointer_location;
                old(self).changed(
                    *final(self),
                    old(self).windows@.update(w, win.picked_up(pointer)),
                    Seat {
                        grab: Some(
                            Grab::Move(
                                PointerMoveSurfaceGrab {
                                    start_data: old(self).seat.grab_start.unwrap(),
                                    window,
                                    initial_window_location: win.pick_up_location(pointer),
                                },
                            ),
                        ),
                        pointer_focus: None,
                        ..old(self).seat
                    },
                )
            },
            !started ==> *final(self) == *old(self),
    {
        let start_data = match self.seat.grab_start {
            Some(d) => d,
            None => {
                return false;
            },
        };
        let w = match self.grabbable_window(window) {
            Some(w) => w,
            None => {
                return false;
            },
        };
        let mut initial_window_location = self.windows[w].geometry.loc;
        if self.windows[w].maximized {
            self.windows[w].maximized = false;
            initial_window_location = self.seat.pointer_location;
            if let Some(old_geo) = self.windows[w].old_geometry.restore() {
                self.windows[w].geometry = Rectangle::new(initial_window_location, old_geo.size);
            }
        }
        self.seat.grab = Some(
            Grab::Move(PointerMoveSurfaceGrab { start_data, window, initial_window_location }),
        );
        self.seat.pointer_focus = None;
        proof {
            assert(self.windows[w as int] == old(self).windows[w as int].picked_up(
                old(self).seat.pointer_location,
            ));
        }
        true
    }

    /// A legacy client asks to have its window moved.
    pub fn move_request(&mut self, window: u64) -> (started: bool)
        requires
            old(self).wf(),
        ensures
            final(self).wf(),
            started == old(self).can_grab(window),
            started ==> old(self).windows[old(self).window_pos(window)].data.resize_state
                == ResizeState::NotResizing,
            started ==> {
                let w = old(self).window_pos(window);
                let win = old(self).windows[w];
                let pointer = old(self).seat.pointer_location;
                old(self).changed(
                    *final(self),
                    old(self).windows@.update(w, win.picked_up(pointer)),
                    Seat {
                        grab: Some(
                            Grab::Move(
                                PointerMoveSurfaceGrab {
                                    start_data: old(self).seat.grab_start.unwrap(),
                                    window,
                                    initial_window_location: win.pick_up_location(pointer),
                                },
                            ),
                        ),
                        pointer_focus: None,
                        ..old(self).seat
                    },
                )
            },
            !started ==> *final(self) == *old(self),
    {
        self.move_request_x11(window)
    }

    /// The window with identifier `window` can be held by a grab: it is
    /// known and alive.
    pub open spec fn holds(self, window: u64) -> bool {
        self.has_window(window) && self.windows[self.window_pos(window)].alive
    }

    /// `post` and `out` are what a pointer motion to `pointer` makes of
    /// `self`. Without a grab only the pointer moves. A grab whose window is
    /// gone or dead is over. A move grab moves its window at once. A resize
    /// grab gives its window the geometry that it proposes, and the window
    /// waits for the client's commit.
    pub open spec fn pointer_moved(self, post: State, pointer: Point, out: GrabOutcome) -> bool {
        let seat = Seat { pointer_location: pointer, ..self.seat };
        match self.seat.grab {
            None => out == GrabOutcome::NoGrab && self.changed(post, self.windows@, seat),
            Some(Grab::Move(g)) => if self.holds(g.window) {
                let w = self.window_pos(g.window);
                &&& out == GrabOutcome::Moved { window: g.window, location: g.location_at(pointer) }
                &&& self.changed(
                    post,
                    self.windows@.update(w, self.windows[w].moved_to(g.location_at(pointer))),
                    seat,
                )
            } else {
                out == GrabOutcome::Ended && self.changed(
                    post,
                    self.windows@,
                    Seat { grab: None, ..seat },
                )
            },
            Some(Grab::Resize(g)) => if self.holds(g.window) {
                let w = self.window_pos(g.window);
                &&& out == GrabOutcome::Resized {
                    window: g.window,
                    geometry: g.geometry_at(pointer),
                }
                &&& self.changed(
                    post,
                    self.windows@.update(
                        w,
                        self.windows[w].with_geometry(g.geometry_at(pointer)).with_resize(
                            ResizeState::WaitingForCommit(g.data()),
                        ),
                    ),
                    Seat {
                        grab: Some(
                            Grab::Resize(
                                PointerResizeSurfaceGrab {
                                    last_window_size: g.size_at(pointer),
                                    ..g
                                },
                            ),
                        ),
                        ..seat
                    },
                )
            } else {
                out == GrabOutcome::Ended && self.changed(
                    post,
                    self.windows@,
                    Seat { grab: None, ..seat },
                )
            },
        }
    }

    /// The pointer moved to `pointer`.
    pub fn pointer_motion(&mut self, pointer: Point) -> (out: GrabOutcome)
        requires
            old(self).wf(),
        ensures
            final(self).wf(),
            old(self).pointer_moved(*final(self), pointer, out),
    {
        self.seat.pointer_location = pointer;
        match self.seat.grab {
            None => GrabOutcome::NoGrab,
            Some(Grab::Move(g)) => {
                match self.live_window(g.window) {
                    Some(w) => {
                        let location = g.location_for(pointer);
                        self.windows[w].geometry.loc = location;
                        GrabOutcome::Moved { window: g.window, location }
                    },
                    None => {
                        self.seat.grab = None;
                        GrabOutcome::Ended
                    },
                }
            },
            Some(Grab::Resize(g)) => {
                match self.live_window(g.window) {
                    Some(w) => {
                        let geometry = g.geometry_for(pointer);
                        self.windows[w].geometry = geometry;
                        self.windows[w].data.resize_state = ResizeState::WaitingForCommit(
                            ResizeData {
                                edges: g.edges,
                                initial_window_location: g.initial_window_location,
                                initial_window_size: g.initial_window_size,
                            },
                        );
                        self.seat.grab = Some(
                            Grab::Resize(
                                PointerResizeSurfaceGrab {
                                    start_data: g.start_data,
                                    window: g.window,
                                    edges: g.edges,
                                    initial_window_location: g.initial_window_location,
                                    initial_window_size: g.initial_window_size,
                                    last_window_size: geometry.size,
                                },
                            ),
                        );
                        GrabOutcome::Resized { window: g.window, geometry }
                    },
                    None => {
                        self.seat.grab = None;
                        GrabOutcome::Ended
                    },
                }
            },
        }
    }

    /// The index of the window with identifier `window`, where it is alive.
    pub fn live_window(&self, window: u64) -> (r: Option<usize>)
        requires
            self.wf(),
        ensures
            r is Some == self.holds(window),
            r matches Some(w) ==> w == self.window_pos(window) && w < self.windows.len(),
    {
        match self.window_index(window) {
            Some(w) => {
                if self.windows[w].alive {
                    Some(w)
                } else {
                    None
                }
            },
            None => None,
        }
    }

    /// `post` is `self` after the button that held the grab was released: no
    /// grab owns the pointer, and a window whose resize was under way waits for
    /// the client's commit.
    pub open spec fn grab_released(self, post: State) -> bool {
        let seat = Seat { grab: None, grab_start: None, ..self.seat };
        match self.seat.grab {
            Some(Grab::Resize(g)) => if self.has_window(g.window) {
                let w = self.window_pos(g.window);
                self.changed(post, self.windows@.update(w, self.windows[w].released()), seat)
            } else {
                self.changed(post, self.windows@, seat)
            },
            _ => self.changed(post, self.windows@, seat),
        }
    }

    /// The button that could hold a grab was released.
    pub fn button_released(&mut self)
        requires
            old(self).wf(),
        ensures
            final(self).wf(),
            old(self).grab_released(*final(self)),
    {
        if let Some(Grab::Resize(g)) = self.seat.grab {
            if let Some(w) = self.window_index(g.window) {
                if let ResizeState::Resizing(data) = self.windows[w].data.resize_state {
                    self.windows[w].data.resize_state = ResizeState::WaitingForCommit(data);
                }
            }
        }
        self.seat.grab = None;
        self.seat.grab_start = None;
    }
}

/// No resize of a window is under way, and none waits for a commit, at the
/// moment a grab on it starts.
pub proof fn lemma_grab_starts_at_rest(state: State, window: u64)
    requires
        state.can_grab(window),
    ensures
        state.windows[state.window_pos(window)].data.resize_state == ResizeState::NotResizing,
        state.on_show(window),
        state.seat.grab_start is Some,
{
}

} // verus!
