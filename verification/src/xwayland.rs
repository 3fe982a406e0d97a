//! The bridge to the legacy window-manager protocol: the life of a legacy
//! window from map to unmap, its geometry requests, and maximize and
//! fullscreen.

use crate::commit::as_int;
use crate::focus::KeyboardFocusTarget;
use crate::geometry::{Point, Rectangle, Size};
use crate::placement::{first_output, no_output, shows};
use crate::state::{Output, Seat, State};
use crate::window::{OldGeometry, Window};
use vstd::prelude::*;

verus! {

/// A coordinate beyond this is taken for the staging position that some
/// legacy clients report, not for a place on a screen.
pub const IMPLAUSIBLE_COORDINATE: i32 = 10_000;

/// Where a window that manages its own place is put when it reports
/// `location`: there, or at the origin where the report is implausible.
pub open spec fn plausible(location: Point) -> Point {
    if location.x > IMPLAUSIBLE_COORDINATE || location.y > IMPLAUSIBLE_COORDINATE {
        Point { x: 0, y: 0 }
    } else {
        location
    }
}

/// The size that a client asks for, where it asks, else the size it has. A
/// length beyond the coordinate range counts as the largest in it.
pub open spec fn requested_size(current: Size, w: Option<u32>, h: Option<u32>) -> Size {
    Size {
        w: match w {
            Some(v) => if v > i32::MAX {
                i32::MAX
            } else {
                v as i32
            },
            None => current.w,
        },
        h: match h {
            Some(v) => if v > i32::MAX {
                i32::MAX
            } else {
                v as i32
            },
            None => current.h,
        },
    }
}

/// Output `k` of space `s` shares area with `win`.
pub open spec fn covers(outputs: Seq<Output>, s: int, win: Rectangle, k: int) -> bool {
    shows(outputs, k, s) && outputs[k].geometry().meets(win)
}

/// `k` is the output that a window with geometry `win` in space `s` is
/// maximized or made fullscreen on: the first that it shares area with, else
/// the first of the space; none where the space has no output.
pub open spec fn is_target(outputs: Seq<Output>, s: int, win: Rectangle, k: Option<int>) -> bool {
    match k {
        Some(k) => {
            ||| covers(outputs, s, win, k) && forall|j: int|
                0 <= j < k ==> !covers(outputs, s, win, j)
            ||| first_output(outputs, s, k) && forall|j: int| !covers(outputs, s, win, j)
        },
        None => no_output(outputs, s),
    }
}

/// A number of the legacy protocol as a coordinate.
fn to_coordinate(v: u32) -> (r: i32)
    ensures
        r == if v > i32::MAX {
            i32::MAX
        } else {
            v as i32
        },
{
    if v > i32::MAX as u32 {
        i32::MAX
    } else {
        v as i32
    }
}

impl State {
    /// The output that window `w` is maximized or made fullscreen on.
    pub fn target_output(&self, s: usize, win: Rectangle) -> (r: Option<usize>)
        ensures
            is_target(self.outputs@, s as int, win, as_int(r)),
    {
        let mut first: Option<usize> = None;
        let mut k: usize = 0;
        while k < self.outputs.len()
            invariant
                k <= self.outputs.len(),
                forall|j: int| 0 <= j < k ==> !covers(self.outputs@, s as int, win, j),
                match first {
                    Some(f) => f < k && first_output(self.outputs@, s as int, f as int),
                    None => forall|j: int| 0 <= j < k ==> !shows(self.outputs@, j, s as int),
                },
            decreases self.outputs.len() - k,
        {
            let here = match self.outputs[k].space {
                Some(t) => t == s,
                None => false,
            };
            if here {
                if self.outputs[k].output_geometry().overlaps(win) {
                    return Some(k);
                }
                if first.is_none() {
                    first = Some(k);
                }
            }
            k += 1;
        }
        first
    }

    /// `post` is `self` with window `w` replaced by `window`.
    pub open spec fn window_changed(self, post: State, w: int, window: Window) -> bool {
        &&& post.windows@ =~= self.windows@.update(w, window)
        &&& post.spaces == self.spaces
        &&& post.outputs == self.outputs
        &&& post.surfaces == self.surfaces
        &&& self.same_rest(post)
    }

    /// A legacy window that manages its own place was mapped and reports
    /// `location`: it is mapped in the first space, on top, where it reports to
    /// be, or at the origin where the report is implausible. Returns its new
    /// index; nothing happens where the window is unknown.
    pub fn mapped_override_redirect_window(&mut self, window: u64, location: Point) -> (r: Option<
        usize,
    >)
        requires
            old(self).wf(),
        ensures
            final(self).wf(),
            r is Some == old(self).has_window(window),
            match r {
                Some(top) => {
                    let w = old(self).window_pos(window);
                    &&& top == old(self).windows.len() - 1
                    &&& final(self).windows@ == old(self).windows@.remove(w).push(
                        old(self).windows[w].mapped_at(
                            0,
                            Rectangle {
                                loc: plausible(location),
                                size: old(self).windows[w].geometry.size,
                            },
                        ),
                    )
                },
                None => final(self).windows == old(self).windows,
            },
            final(self).spaces == old(self).spaces,
            final(self).outputs == old(self).outputs,
            final(self).surfaces == old(self).surfaces,
            old(self).same_rest(*final(self)),
    {
        let w = match self.window_index(window) {
            Some(w) => w,
            None => {
                return None;
            },
        };
        let loc = if location.x > IMPLAUSIBLE_COORDINATE || location.y > IMPLAUSIBLE_COORDINATE {
            Point::origin()
        } else {
            location
        };
        self.windows[w].geometry.loc = loc;
        self.windows[w].space = Some(0);
        let top = self.raise_window(w);
        Some(top)
    }

    /// A legacy window asks to be mapped: a window that manages its own place
    /// is left alone; any other is placed in the first space as a new window,
    /// decorated by the server unless it decorates itself, raised and given the
    /// keyboard focus. Returns the rectangle to configure the window with.
    pub fn map_window_request(&mut self, window: u64) -> (r: Option<Rectangle>)
        requires
            old(self).wf(),
        ensures
            final(self).wf(),
            r is Some == (old(self).has_window(window) && !old(self).windows[old(
                self,
            ).window_pos(window)].override_redirect),
            match r {
                Some(rect) => {
                    let w = old(self).window_pos(window);
                    let mapped = Window {
                        ssd: !old(self).windows[w].decorated,
                        ..old(self).windows[w].mapped_at(0, rect)
                    };
                    &&& old(self).placed(0, w, true, None, false, rect)
                    &&& final(self).windows@ == old(self).windows@.remove(w).push(mapped)
                    &&& final(self).seat == (Seat {
                        keyboard_focus: Some(KeyboardFocusTarget::of_window(mapped.handle_of())),
                        ..old(self).seat
                    })
                },
                None => final(self).windows == old(self).windows && final(self).seat == old(
                    self,
                ).seat,
            },
            final(self).spaces == old(self).spaces,
            final(self).outputs == old(self).outputs,
            final(self).surfaces == old(self).surfaces,
            final(self).selections == old(self).selections,
            final(self).config == old(self).config,
            final(self).running == old(self).running,
    {
        let w = match self.window_index(window) {
            Some(w) => w,
            None => {
                return None;
            },
        };
        if self.windows[w].override_redirect {
            return None;
        }
        let rect = self.place_at(0, w, true, None, false);
        let decorated = self.windows[w].decorated;
        self.windows[w].ssd = !decorated;
        self.focus_at(w);
        Some(rect)
    }

    /// Takes the window with identifier `window` out of its space. Returns the
    /// index of the space that it was mapped in.
    pub fn unmap_window(&mut self, window: u64) -> (r: Option<usize>)
        requires
            old(self).wf(),
        ensures
            final(self).wf(),
            r == if old(self).has_window(window) {
                old(self).windows[old(self).window_pos(window)].space
            } else {
                None
            },
            r is Some ==> old(self).window_changed(
                *final(self),
                old(self).window_pos(window),
                old(self).windows[old(self).window_pos(window)].unmapped(),
            ),
            r is None ==> *final(self) == *old(self),
    {
        match self.window_index(window) {
            Some(w) => {
                let space = self.windows[w].space;
                if space.is_some() {
                    self.windows[w].space = None;
                    self.windows[w].maximized = false;
                    self.windows[w].fullscreen = false;
                    self.windows[w].old_geometry = OldGeometry::empty();
                }
                space
            },
            None => None,
        }
    }

    /// Raises the topmost window of space `s` and gives it the keyboard focus.
    /// Returns the window's identifier; nothing happens in a space without
    /// windows.
    pub fn focus_top_window(&mut self, s: usize) -> (r: Option<u64>)
        requires
            old(self).wf(),
        ensures
            final(self).wf(),
            old(self).top_focused(*final(self), s, r),
    {
        match self.top_window_of(s) {
            Some(w) => {
                let id = self.windows[w].id;
                self.focus_at(w);
                Some(id)
            },
            None => None,
        }
    }

    /// `post` is `self` after the topmost window of space `s`, whose
    /// identifier is `focused`, has got the keyboard focus.
    pub open spec fn top_focused(self, post: State, s: usize, focused: Option<u64>) -> bool {
        match focused {
            Some(id) => exists|w: int|
                {
                    &&& #[trigger] self.is_top(s, w)
                    &&& id == self.windows[w].id
                    &&& post.windows@ == self.windows@.remove(w).push(self.windows[w])
                    &&& post.seat == Seat {
                        keyboard_focus: Some(
                            KeyboardFocusTarget::of_window(self.windows[w].handle_of()),
                        ),
                        ..self.seat
                    }
                    &&& post.spaces == self.spaces
                    &&& post.outputs == self.outputs
                    &&& post.surfaces == self.surfaces
                    &&& post.selections == self.selections
                    &&& post.config == self.config
                    &&& post.running == self.running
                },
            None => self.is_empty_space(s) && post == self,
        }
    }

    /// A legacy window was unmapped: it leaves its space, and the topmost
    /// window that is left there gets the keyboard focus. Returns that
    /// window's identifier.
    pub fn unmapped_window(&mut self, window: u64) -> (r: Option<u64>)
        requires
            old(self).wf(),
        ensures
            final(self).wf(),
            old(self).window_unmapped(*final(self), window, r),
    {
        let space = self.unmap_window(window);
        let ghost mid = *self;
        match space {
            Some(s) => {
                let r = self.focus_top_window(s);
                proof {
                    assert(mid.top_focused(*self, s, r));
                }
                r
            },
            None => None,
        }
    }

    /// `post` is `self` after the window with identifier `window` was
    /// unmapped and the window with identifier `focused` got the focus.
    pub open spec fn window_unmapped(self, post: State, window: u64, focused: Option<u64>) -> bool {
        if self.has_window(window) && self.windows[self.window_pos(window)].space is Some {
            let w = self.window_pos(window);
            exists|mid: State|
                {
                    &&& #[trigger] self.window_changed(mid, w, self.windows[w].unmapped())
                    &&& mid.top_focused(post, self.windows[w].space.unwrap(), focused)
                }
        } else {
            focused is None && post == self
        }
    }

    /// A legacy client asks for another geometry: the size that it asks for
    /// is taken, the position is not. Returns the rectangle to configure the
    /// window with: where the window is, as large as asked.
    pub fn configure_request(&mut self, window: u64, w: Option<u32>, h: Option<u32>) -> (r: Option<
        Rectangle,
    >)
        requires
            old(self).wf(),
        ensures
            final(self).wf(),
            r is Some == old(self).has_window(window),
            match r {
                Some(rect) => {
                    let i = old(self).window_pos(window);
                    &&& rect == Rectangle {
                        loc: old(self).windows[i].geometry.loc,
                        size: requested_size(old(self).windows[i].geometry.size, w, h),
                    }
                    &&& old(self).window_changed(
                        *final(self),
                        i,
                        old(self).windows[i].with_geometry(rect),
                    )
                },
                None => *final(self) == *old(self),
            },
    {
        let i = match self.window_index(window) {
            Some(i) => i,
            None => {
                return None;
            },
        };
        let mut geo = self.windows[i].geometry;
        if let Some(w) = w {
            geo.size.w = to_coordinate(w);
        }
        if let Some(h) = h {
            geo.size.h = to_coordinate(h);
        }
        self.windows[i].geometry = geo;
        Some(geo)
    }

    /// A legacy window reports the geometry that it has taken: a window that
    /// is on show is moved to where it reports to be. Returns whether it was;
    /// the report of any other window is ignored.
    pub fn configure_notify(&mut self, window: u64, geometry: Rectangle) -> (moved: bool)
        requires
            old(self).wf(),
        ensures
            final(self).wf(),
            moved == old(self).on_show(window),
            moved ==> old(self).window_changed(
                *final(self),
                old(self).window_pos(window),
                old(self).windows[old(self).window_pos(window)].moved_to(geometry.loc),
            ),
            !moved ==> *final(self) == *old(self),
    {
        match self.shown_window(window) {
            Some(i) => {
                self.windows[i].geometry.loc = geometry.loc;
                true
            },
            None => false,
        }
    }

    /// The window with identifier `window`, where it is on show, and the
    /// output that it is maximized or made fullscreen on.
    pub fn window_and_target(&self, window: u64) -> (r: Option<(usize, usize)>)
        requires
            self.wf(),
        ensures
            self.has_target(window, r),
    {
        let w = match self.shown_window(window) {
            Some(w) => w,
            None => {
                return None;
            },
        };
        let s = match self.windows[w].space {
            Some(s) => s,
            None => {
                return None;
            },
        };
        match self.target_output(s, self.windows[w].geometry) {
            Some(k) => Some((w, k)),
            None => None,
        }
    }

    /// `r` holds the index of the window with identifier `window` and of the
    /// output that it is maximized or made fullscreen on; it holds nothing
    /// where the window is not on show (unknown, unmapped, or without its
    /// native surface) or its space has no output.
    pub open spec fn has_target(self, window: u64, r: Option<(usize, usize)>) -> bool {
        let w = self.window_pos(window);
        match r {
            Some((i, k)) => {
                &&& self.on_show(window)
                &&& i == w
                &&& is_target(
                    self.outputs@,
                    self.windows[w].space.unwrap() as int,
                    self.windows[w].geometry,
                    Some(k as int),
                )
            },
            None => {
                ||| !self.on_show(window)
                ||| no_output(self.outputs@, self.windows[w].space.unwrap() as int)
            },
        }
    }

    /// Output `k` is the output that the window with identifier `window` is
    /// maximized or made fullscreen on.
    pub open spec fn target_of(self, window: u64, k: int) -> bool {
        0 <= k < self.outputs.len() && self.has_target(
            window,
            Some((self.window_pos(window) as usize, k as usize)),
        )
    }

    /// Maximizes the window with identifier `window`: its geometry is kept
    /// for the way back, and it takes the free area of its output. Returns the
    /// rectangle to configure the window with. The request for a window that
    /// is not on show, or whose space has no output, is ignored.
    pub fn maximize_request_x11(&mut self, window: u64) -> (r: Option<Rectangle>)
        requires
            old(self).wf(),
        ensures
            final(self).wf(),
            match r {
                Some(rect) => exists|k: int|
                    {
                        &&& #[trigger] old(self).target_of(window, k)
                        &&& rect == old(self).outputs[k].usable()
                        &&& old(self).window_changed(
                            *final(self),
                            old(self).window_pos(window),
                            old(self).windows[old(self).window_pos(window)].maximized_to(rect),
                        )
                    },
                None => old(self).has_target(window, None) && *final(self) == *old(self),
            },
    {
        match self.window_and_target(window) {
            Some((w, k)) => {
                let area = self.outputs[k].usable_geometry();
                let old_geo = self.windows[w].geometry;
                self.windows[w].old_geometry.save(old_geo);
                self.windows[w].geometry = area;
                self.windows[w].maximized = true;
                proof {
                    assert(old(self).target_of(window, k as int));
                }
                Some(area)
            },
            None => None,
        }
    }

    /// Maximizes a legacy window.
    pub fn maximize_request(&mut self, window: u64) -> (r: Option<Rectangle>)
        requires
            old(self).wf(),
        ensures
            final(self).wf(),
            match r {
                Some(rect) => exists|k: int|
                    {
                        &&& #[trigger] old(self).target_of(window, k)
                        &&& rect == old(self).outputs[k].usable()
                        &&& old(self).window_changed(
                            *final(self),
                            old(self).window_pos(window),
                            old(self).windows[old(self).window_pos(window)].maximized_to(rect),
                        )
                    },
                None => old(self).has_target(window, None) && *final(self) == *old(self),
            },
    {
        self.maximize_request_x11(window)
    }

    /// Takes the maximizing of the window with identifier `window` back:
    /// the geometry that was kept, if one was, is the window's again. Returns
    /// the rectangle to configure the window with. The request for a window
    /// that is not on show is ignored.
    pub fn unmaximize_request(&mut self, window: u64) -> (r: Option<Rectangle>)
        requires
            old(self).wf(),
        ensures
            final(self).wf(),
            if old(self).on_show(window) {
                let w = old(self).window_pos(window);
                &&& r == old(self).windows[w].old_geometry.0
                &&& old(self).window_changed(*final(self), w, old(self).windows[w].unmaximized())
            } else {
                r is None && *final(self) == *old(self)
            },
    {
        let w = match self.shown_window(window) {
            Some(w) => w,
            None => {
                return None;
            },
        };
        self.windows[w].maximized = false;
        let kept = self.windows[w].old_geometry.restore();
        if let Some(geo) = kept {
            self.windows[w].geometry = geo;
        }
        kept
    }

    /// Makes the window with identifier `window` fullscreen: it covers all of
    /// its output, without decorations. Returns the rectangle to configure the
    /// window with. The request for a window that is not on show, or whose
    /// space has no output, is ignored.
    pub fn fullscreen_request(&mut self, window: u64) -> (r: Option<Rectangle>)
        requires
            old(self).wf(),
        ensures
            final(self).wf(),
            match r {
                Some(rect) => exists|k: int|
                    {
                        &&& #[trigger] old(self).target_of(window, k)
                        &&& rect == old(self).outputs[k].geometry()
                        &&& old(self).window_changed(
                            *final(self),
                            old(self).window_pos(window),
                            old(self).windows[old(self).window_pos(window)].fullscreened(rect),
                        )
                    },
                None => old(self).has_target(window, None) && *final(self) == *old(self),
            },
    {
        match self.window_and_target(window) {
            Some((w, k)) => {
                let area = self.outputs[k].output_geometry();
                self.windows[w].fullscreen = true;
                self.windows[w].ssd = false;
                self.windows[w].geometry = area;
                proof {
                    assert(old(self).target_of(window, k as int));
                }
                Some(area)
            },
            None => None,
        }
    }

    /// Takes the window with identifier `window` out of fullscreen: it is
    /// decorated by the server again unless it decorates itself, and goes
    /// into the nearest output that can hold it. Returns the rectangle to
    /// configure the window with. The request for a window that is not on show
    /// is ignored.
    pub fn unfullscreen_request(&mut self, window: u64) -> (r: Option<Rectangle>)
        requires
            old(self).wf(),
        ensures
            final(self).wf(),
            if old(self).on_show(window) {
                let w = old(self).window_pos(window);
                let s = old(self).windows[w].space.unwrap();
                &&& r matches Some(rect) && old(self).placed(s as int, w, false, None, true, rect)
                    && old(self).window_changed(
                    *final(self),
                    w,
                    old(self).windows[w].unfullscreened().with_geometry(rect),
                )
            } else {
                r is None && *final(self) == *old(self)
            },
    {
        let w = match self.shown_window(window) {
            Some(w) => w,
            None => {
                return None;
            },
        };
        let s = match self.windows[w].space {
            Some(s) => s,
            None => {
                return None;
            },
        };
        let rect = self.place_at(s, w, false, None, true);
        let decorated = self.windows[w].decorated;
        self.windows[w].fullscreen = false;
        self.windows[w].ssd = !decorated;
        proof {
            assert(self.windows[w as int] == old(
                self,
            ).windows[w as int].unfullscreened().with_geometry(rect));
        }
        Some(rect)
    }
}

impl State {
    /// `post` is `self` after the positions of space `s`, if one is given,
    /// were fixed up.
    pub open spec fn then_fixed(self, post: State, s: Option<usize>) -> bool {
        match s {
            Some(s) => self.fixed_up(post, s as int),
            None => post == self,
        }
    }

    /// An output appeared: it joins the registry, and the positions of its
    /// space are fixed up. Returns `false`, and changes nothing, where the
    /// identifier is taken or the output names a space that does not exist.
    pub fn output_added(&mut self, output: Output) -> (added: bool)
        requires
            old(self).wf(),
        ensures
            final(self).wf(),
            added == {
                &&& forall|k: int|
                    0 <= k < old(self).outputs.len() ==> old(self).outputs[k].id != output.id
                &&& output.space matches Some(s) ==> s < old(self).spaces.len()
            },
            added ==> exists|mid: State|
                {
                    &&& mid.outputs@ == old(self).outputs@.push(output)
                    &&& mid.spaces == old(self).spaces
                    &&& mid.windows == old(self).windows
                    &&& mid.surfaces == old(self).surfaces
                    &&& old(self).same_rest(mid)
                    &&& #[trigger] mid.then_fixed(*final(self), output.space)
                },
            !added ==> *final(self) == *old(self),
    {
        let space = output.space;
        if !self.add_output(output) {
            return false;
        }
        let ghost mid = *self;
        if let Some(s) = space {
            self.fixup_space(s);
        }
        assert(mid.then_fixed(*self, space));
        true
    }

    /// An output went away: it leaves the registry, and the positions of the
    /// space that it was mapped in are fixed up. Returns the output.
    pub fn output_removed(&mut self, id: u64) -> (removed: Option<Output>)
        requires
            old(self).wf(),
        ensures
            final(self).wf(),
            match removed {
                Some(o) => exists|k: int, mid: State|
                    {
                        &&& 0 <= k < old(self).outputs.len()
                        &&& old(self).outputs[k].id == id
                        &&& o == old(self).outputs[k]
                        &&& mid.outputs@ == old(self).outputs@.remove(k)
                        &&& mid.spaces == old(self).spaces
                        &&& mid.windows == old(self).windows
                        &&& mid.surfaces == old(self).surfaces
                        &&& old(self).same_rest(mid)
                        &&& #[trigger] mid.then_fixed(*final(self), old(self).outputs[k].space)
                    },
                None => *final(self) == *old(self) && forall|k: int|
                    0 <= k < old(self).outputs.len() ==> old(self).outputs[k].id != id,
            },
    {
        let k = match self.output_index(id) {
            Some(k) => k,
            None => {
                return None;
            },
        };
        let o = self.outputs.remove(k);
        proof {
            let before = old(self).outputs@;
            let after = self.outputs@;
            assert forall|i: int, j: int| 0 <= i < j < after.len() implies after[i].id
                != after[j].id by {
                let oi = if i < k {
                    i
                } else {
                    i + 1
                };
                let oj = if j < k {
                    j
                } else {
                    j + 1
                };
                assert(after[i] == before[oi]);
                assert(after[j] == before[oj]);
            }
            assert forall|i: int| 0 <= i < after.len() implies (
            #[trigger] after[i].space matches Some(s) ==> s < self.spaces.len()) by {
                let oi = if i < k {
                    i
                } else {
                    i + 1
                };
                assert(after[i] == before[oi]);
            }
        }
        let ghost mid = *self;
        if let Some(s) = o.space {
            self.fixup_space(s);
        }
        assert(mid.then_fixed(*self, o.space));
        Some(o)
    }

    /// The output with identifier `id` has another mode, of size `size`, and
    /// its layer surfaces leave `zone` of it free: both are noted, and the
    /// positions of its space are fixed up. Returns whether the output is
    /// known.
    pub fn output_mode_changed(&mut self, id: u64, size: Size, zone: Rectangle) -> (known: bool)
        requires
            old(self).wf(),
        ensures
            final(self).wf(),
            known == exists|k: int|
                0 <= k < old(self).outputs.len() && #[trigger] old(self).outputs[k].id == id,
            known ==> exists|k: int, mid: State|
                {
                    &&& 0 <= k < old(self).outputs.len()
                    &&& old(self).outputs[k].id == id
                    &&& mid.outputs@ == old(self).outputs@.update(
                        k,
                        Output { size, zone, ..old(self).outputs[k] },
                    )
                    &&& mid.spaces == old(self).spaces
                    &&& mid.windows == old(self).windows
                    &&& mid.surfaces == old(self).surfaces
                    &&& old(self).same_rest(mid)
                    &&& #[trigger] mid.then_fixed(*final(self), old(self).outputs[k].space)
                },
            !known ==> *final(self) == *old(self),
    {
        let k = match self.output_index(id) {
            Some(k) => k,
            None => {
                return false;
            },
        };
        self.outputs[k].size = size;
        self.outputs[k].zone = zone;
        let space = self.outputs[k].space;
        let ghost mid = *self;
        assert(mid.outputs@ =~= old(self).outputs@.update(
            k as int,
            Output { size, zone, ..old(self).outputs[k as int] },
        ));
        if let Some(s) = space {
            self.fixup_space(s);
        }
        assert(mid.then_fixed(*self, space));
        true
    }
}

} // verus!
