//! Where windows go: placement into zones and onto outputs, and the layout of
//! a space's outputs.

use crate::geometry::{clamp_int, clip, max_int, min_int, sat_add, Point, Rectangle, Size};
use crate::state::{Output, State};
use crate::window::Window;
use vstd::prelude::*;

verus! {

/// How far a new window is set off for each window that is already there.
pub const CASCADE_STEP: i32 = 32;

/// After how many windows the cascade starts over.
pub const CASCADE_SLOTS: usize = 8;

/// The width of `area` that lies inside the coordinate range.
pub open spec fn reach_w(area: Rectangle) -> int {
    area.right() - area.loc.x
}

/// The height of `area` that lies inside the coordinate range.
pub open spec fn reach_h(area: Rectangle) -> int {
    area.bottom() - area.loc.y
}

/// `win` brought into `area`: shrunk where it is larger, then moved by as
/// little as possible.
pub open spec fn fitted(win: Rectangle, area: Rectangle) -> Rectangle {
    let w = min_int(win.size.w as int, reach_w(area));
    let h = min_int(win.size.h as int, reach_h(area));
    Rectangle {
        loc: Point {
            x: clamp_int(win.loc.x as int, area.loc.x as int, area.right() - w) as i32,
            y: clamp_int(win.loc.y as int, area.loc.y as int, area.bottom() - h) as i32,
        },
        size: Size { w: w as i32, h: h as i32 },
    }
}

/// `area` has room for a window of `size` and for its top-left corner.
pub open spec fn can_hold(area: Rectangle, size: Size) -> bool {
    &&& reach_w(area) >= 1
    &&& reach_h(area) >= 1
    &&& size.w <= reach_w(area)
    &&& size.h <= reach_h(area)
}

/// `win` moved into `area` by as little as possible, its size kept.
pub open spec fn rehomed(win: Rectangle, area: Rectangle) -> Rectangle {
    Rectangle {
        loc: Point {
            x: clamp_int(
                win.loc.x as int,
                area.loc.x as int,
                area.right() - max_int(win.size.w as int, 1),
            ) as i32,
            y: clamp_int(
                win.loc.y as int,
                area.loc.y as int,
                area.bottom() - max_int(win.size.h as int, 1),
            ) as i32,
        },
        size: win.size,
    }
}

/// The distance between two coordinates.
pub open spec fn gap(a: int, b: int) -> int {
    if a >= b {
        a - b
    } else {
        b - a
    }
}

/// How far `win` has to move to come into `area`.
pub open spec fn travel(win: Rectangle, area: Rectangle) -> int {
    gap(rehomed(win, area).loc.x as int, win.loc.x as int) + gap(
        rehomed(win, area).loc.y as int,
        win.loc.y as int,
    )
}

/// The offset of a new window that finds `count` windows in its space.
pub open spec fn cascade(count: nat) -> Point {
    Point {
        x: (CASCADE_STEP * (count % (CASCADE_SLOTS as nat))) as i32,
        y: (CASCADE_STEP * (count % (CASCADE_SLOTS as nat))) as i32,
    }
}

/// How many of the first `upto` windows are mapped in space `s`, window `w`
/// not counted.
pub open spec fn others_in_space(windows: Seq<Window>, s: usize, w: int, upto: int) -> nat
    decreases upto,
{
    if upto <= 0 {
        0
    } else {
        others_in_space(windows, s, w, upto - 1) + if upto - 1 != w && windows[upto - 1].space
            == Some(s) {
            1nat
        } else {
            0nat
        }
    }
}

/// The saturating sum of the widths of the outputs of space `s` among the
/// first `k`.
pub open spec fn offset_before(outputs: Seq<Output>, s: usize, k: int) -> i32
    decreases k,
{
    if k <= 0 {
        0
    } else if outputs[k - 1].space == Some(s) {
        clip(offset_before(outputs, s, k - 1) + outputs[k - 1].size.w) as i32
    } else {
        offset_before(outputs, s, k - 1)
    }
}

/// A rectangle brought into an area lies inside it.
pub proof fn lemma_fitted_inside(win: Rectangle, area: Rectangle)
    ensures
        area.has_rect(fitted(win, area)),
{
}

/// Where the area can hold the window, the window moved into it has its
/// corner and all of its extent inside.
pub proof fn lemma_rehomed_inside(win: Rectangle, area: Rectangle)
    requires
        can_hold(area, win.size),
    ensures
        area.has_point(rehomed(win, area).loc),
        area.has_rect(rehomed(win, area)),
        rehomed(win, area).size == win.size,
{
}

/// A window that lies inside an area stays where it is when moved into it.
pub proof fn lemma_rehomed_fixed(win: Rectangle, area: Rectangle)
    requires
        can_hold(area, win.size),
        area.loc.x <= win.loc.x <= area.right() - max_int(win.size.w as int, 1),
        area.loc.y <= win.loc.y <= area.bottom() - max_int(win.size.h as int, 1),
    ensures
        rehomed(win, area) == win,
        travel(win, area) == 0,
{
}

/// `win` brought into `area`.
pub fn fit_rect(win: Rectangle, area: Rectangle) -> (r: Rectangle)
    ensures
        r == fitted(win, area),
        area.has_rect(r),
{
    let right: i64 = area.right_edge() as i64;
    let bottom: i64 = area.bottom_edge() as i64;
    let ew: i64 = right - area.loc.x as i64;
    let eh: i64 = bottom - area.loc.y as i64;
    let w: i64 = if (win.size.w as i64) <= ew {
        win.size.w as i64
    } else {
        ew
    };
    let h: i64 = if (win.size.h as i64) <= eh {
        win.size.h as i64
    } else {
        eh
    };
    let x = clamp_wide(win.loc.x, area.loc.x, right - w);
    let y = clamp_wide(win.loc.y, area.loc.y, bottom - h);
    proof {
        lemma_fitted_inside(win, area);
    }
    Rectangle { loc: Point { x, y }, size: Size { w: w as i32, h: h as i32 } }
}

/// `v` brought into `lo..=hi`, where `hi` may lie outside the coordinate range.
fn clamp_wide(v: i32, lo: i32, hi: i64) -> (r: i32)
    ensures
        r == clamp_int(v as int, lo as int, hi as int),
{
    let m: i64 = if (v as i64) <= hi {
        v as i64
    } else {
        hi
    };
    if (lo as i64) >= m {
        lo
    } else {
        m as i32
    }
}

/// Whether `area` has room for a window of `size`.
pub fn has_room(area: Rectangle, size: Size) -> (b: bool)
    ensures
        b == can_hold(area, size),
{
    let ew: i64 = area.right_edge() as i64 - area.loc.x as i64;
    let eh: i64 = area.bottom_edge() as i64 - area.loc.y as i64;
    ew >= 1 && eh >= 1 && (size.w as i64) <= ew && (size.h as i64) <= eh
}

/// `win` moved into `area`, with the distance it moved.
pub fn rehome_rect(win: Rectangle, area: Rectangle) -> (r: (Rectangle, i64))
    ensures
        r.0 == rehomed(win, area),
        r.1 == travel(win, area),
{
    let mw: i64 = if win.size.w >= 1 {
        win.size.w as i64
    } else {
        1
    };
    let mh: i64 = if win.size.h >= 1 {
        win.size.h as i64
    } else {
        1
    };
    let x = clamp_wide(win.loc.x, area.loc.x, area.right_edge() as i64 - mw);
    let y = clamp_wide(win.loc.y, area.loc.y, area.bottom_edge() as i64 - mh);
    let dx: i64 = if x >= win.loc.x {
        x as i64 - win.loc.x as i64
    } else {
        win.loc.x as i64 - x as i64
    };
    let dy: i64 = if y >= win.loc.y {
        y as i64 - win.loc.y as i64
    } else {
        win.loc.y as i64 - y as i64
    };
    (Rectangle { loc: Point { x, y }, size: win.size }, dx + dy)
}

/// Output `k` is mapped in space `s`.
pub open spec fn shows(outputs: Seq<Output>, k: int, s: int) -> bool {
    0 <= k < outputs.len() && outputs[k].space == Some(s as usize)
}

/// Output `k` is the first output of space `s`.
pub open spec fn first_output(outputs: Seq<Output>, s: int, k: int) -> bool {
    shows(outputs, k, s) && forall|j: int| 0 <= j < k ==> !shows(outputs, j, s)
}

/// Space `s` has no output.
pub open spec fn no_output(outputs: Seq<Output>, s: int) -> bool {
    forall|j: int| !shows(outputs, j, s)
}

/// Output `k` belongs to space `s` and its free area can hold `win`.
pub open spec fn is_candidate(outputs: Seq<Output>, s: int, win: Rectangle, k: int) -> bool {
    shows(outputs, k, s) && can_hold(outputs[k].usable(), win.size)
}

/// Output `k` is the nearest of space `s` that can hold `win`: the first of
/// those to which `win` has the shortest way.
pub open spec fn is_home(outputs: Seq<Output>, s: int, win: Rectangle, k: int) -> bool {
    &&& is_candidate(outputs, s, win, k)
    &&& forall|j: int| #[trigger]
        is_candidate(outputs, s, win, j) ==> {
            &&& travel(win, outputs[k].usable()) <= travel(win, outputs[j].usable())
            &&& j < k ==> travel(win, outputs[k].usable()) < travel(win, outputs[j].usable())
        }
}

/// No output of space `s` can hold `win`.
pub open spec fn homeless(outputs: Seq<Output>, s: int, win: Rectangle) -> bool {
    forall|j: int| !is_candidate(outputs, s, win, j)
}

/// `p` lies in the free area of no output of space `s`.
pub open spec fn orphaned(outputs: Seq<Output>, s: int, p: Point) -> bool {
    forall|j: int| shows(outputs, j, s) ==> !outputs[j].usable().has_point(p)
}

/// `after` is `before` once the windows of space `s` have been looked after:
/// a window of `s` whose corner lies on no output's free area is in the
/// nearest output that can hold it, where there is one; every other window is
/// as it was.
pub open spec fn resettled(outputs: Seq<Output>, s: int, before: Window, after: Window) -> bool {
    if before.space == Some(s as usize) && orphaned(outputs, s, before.geometry.loc) {
        ||| exists|k: int|
            is_home(outputs, s, before.geometry, k) && after == before.with_geometry(
                rehomed(before.geometry, outputs[k].usable()),
            )
        ||| homeless(outputs, s, before.geometry) && after == before
    } else {
        after == before
    }
}

impl State {
    /// `rect` is where window `w` goes in space `s`: into zone `zone` where
    /// one is given; else, a new window, beside the windows that are there, at
    /// the corner of the free area of the first output; else, where asked, into
    /// the nearest output that can hold it; else where it is.
    pub open spec fn placed(
        self,
        s: int,
        w: int,
        is_new: bool,
        zone: Option<int>,
        recenter: bool,
        rect: Rectangle,
    ) -> bool {
        let win = self.windows[w].geometry;
        let step = cascade(
            others_in_space(self.windows@, s as usize, w, self.windows.len() as int),
        );
        match zone {
            Some(z) => rect == fitted(win, self.spaces[s].zones[z].geometry),
            None => if is_new {
                &&& rect.size == win.size
                &&& {
                    ||| exists|k: int|
                        first_output(self.outputs@, s, k) && rect.loc
                            == self.outputs[k].usable().loc.plus(step)
                    ||| no_output(self.outputs@, s) && rect.loc == step
                }
            } else if recenter {
                ||| exists|k: int|
                    is_home(self.outputs@, s, win, k) && rect == rehomed(
                        win,
                        self.outputs[k].usable(),
                    )
                ||| homeless(self.outputs@, s, win) && rect == win
            } else {
                rect == win
            },
        }
    }

    /// The first output of space `s`.
    pub fn first_output_of(&self, s: usize) -> (r: Option<usize>)
        ensures
            match r {
                Some(k) => first_output(self.outputs@, s as int, k as int),
                None => no_output(self.outputs@, s as int),
            },
    {
        let mut k: usize = 0;
        while k < self.outputs.len()
            invariant
                k <= self.outputs.len(),
                forall|j: int| 0 <= j < k ==> !shows(self.outputs@, j, s as int),
            decreases self.outputs.len() - k,
        {
            if let Some(t) = self.outputs[k].space {
                if t == s {
                    return Some(k);
                }
            }
            k += 1;
        }
        None
    }

    /// The nearest output of space `s` that can hold `win`.
    pub fn find_home(&self, s: usize, win: Rectangle) -> (r: Option<usize>)
        ensures
            match r {
                Some(k) => is_home(self.outputs@, s as int, win, k as int),
                None => homeless(self.outputs@, s as int, win),
            },
    {
        let mut best: Option<(usize, i64)> = None;
        let mut k: usize = 0;
        while k < self.outputs.len()
            invariant
                k <= self.outputs.len(),
                match best {
                    Some((b, d)) => {
                        &&& b < k
                        &&& is_candidate(self.outputs@, s as int, win, b as int)
                        &&& d == travel(win, self.outputs[b as int].usable())
                        &&& forall|j: int|
                            0 <= j < k && #[trigger] is_candidate(
                                self.outputs@,
                                s as int,
                                win,
                                j,
                            ) ==> {
                                &&& d <= travel(win, self.outputs[j].usable())
                                &&& j < b ==> d < travel(win, self.outputs[j].usable())
                            }
                    },
                    None => forall|j: int|
                        0 <= j < k ==> !is_candidate(self.outputs@, s as int, win, j),
                },
            decreases self.outputs.len() - k,
        {
            let here = match self.outputs[k].space {
                Some(t) => t == s,
                None => false,
            };
            if here {
                let area = self.outputs[k].usable_geometry();
                if has_room(area, win.size) {
                    let (_, d) = rehome_rect(win, area);
                    match best {
                        Some((_, bd)) => {
                            if d < bd {
                                best = Some((k, d));
                            }
                        },
                        None => {
                            best = Some((k, d));
                        },
                    }
                }
            }
            k += 1;
        }
        match best {
            Some((b, _)) => Some(b),
            None => None,
        }
    }

    /// Whether `p` lies in the free area of no output of space `s`.
    pub fn is_orphaned(&self, s: usize, p: Point) -> (b: bool)
        ensures
            b == orphaned(self.outputs@, s as int, p),
    {
        let mut k: usize = 0;
        while k < self.outputs.len()
            invariant
                k <= self.outputs.len(),
                forall|j: int|
                    0 <= j < k && shows(self.outputs@, j, s as int)
                        ==> !self.outputs[j].usable().has_point(p),
            decreases self.outputs.len() - k,
        {
            let here = match self.outputs[k].space {
                Some(t) => t == s,
                None => false,
            };
            if here && self.outputs[k].usable_geometry().contains(p) {
                assert(shows(self.outputs@, k as int, s as int));
                return false;
            }
            k += 1;
        }
        true
    }

    /// How many windows are mapped in space `s`, window `w` not counted.
    pub fn count_others(&self, s: usize, w: usize) -> (n: usize)
        ensures
            n == others_in_space(self.windows@, s, w as int, self.windows.len() as int),
    {
        let mut n: usize = 0;
        let mut i: usize = 0;
        while i < self.windows.len()
            invariant
                i <= self.windows.len(),
                n <= i,
                n == others_in_space(self.windows@, s, w as int, i as int),
            decreases self.windows.len() - i,
        {
            let here = match self.windows[i].space {
                Some(t) => t == s,
                None => false,
            };
            if i != w && here {
                n += 1;
            }
            i += 1;
        }
        n
    }

    /// Places window `w` in space `s` and maps it there.
    pub(crate) fn place_at(
        &mut self,
        s: usize,
        w: usize,
        is_new: bool,
        zone: Option<usize>,
        recenter: bool,
    ) -> (rect: Rectangle)
        requires
            old(self).wf(),
            s < old(self).spaces.len(),
            w < old(self).windows.len(),
            zone matches Some(z) ==> z < old(self).spaces[s as int].zones.len(),
        ensures
            final(self).wf(),
            old(self).placed(
                s as int,
                w as int,
                is_new,
                match zone {
                    Some(z) => Some(z as int),
                    None => None,
                },
                recenter,
                rect,
            ),
            final(self).windows@ == old(self).windows@.update(
                w as int,
                old(self).windows[w as int].mapped_at(s as int, rect),
            ),
            final(self).spaces == old(self).spaces,
            final(self).outputs == old(self).outputs,
            final(self).surfaces == old(self).surfaces,
            old(self).same_rest(*final(self)),
    {
        let win = self.windows[w].geometry;
        let rect = match zone {
            Some(z) => fit_rect(win, self.spaces[s].zones[z].geometry),
            None => {
                if is_new {
                    let step = cascade_offset(self.count_others(s, w));
                    match self.first_output_of(s) {
                        Some(k) => Rectangle::new(
                            self.outputs[k].usable_geometry().loc.add(step),
                            win.size,
                        ),
                        None => Rectangle::new(step, win.size),
                    }
                } else if recenter {
                    match self.find_home(s, win) {
                        Some(k) => rehome_rect(win, self.outputs[k].usable_geometry()).0,
                        None => win,
                    }
                } else {
                    win
                }
            },
        };
        self.windows[w].geometry = rect;
        self.windows[w].space = Some(s);
        rect
    }

    /// Places the window with identifier `window` in the space called
    /// `space_name`, maps it there, and returns the rectangle that it was given.
    /// Nothing happens where the space or the window is unknown.
    pub fn place_window(
        &mut self,
        space_name: &str,
        window: u64,
        is_new: bool,
        requested_zone: Option<&str>,
        recenter: bool,
    ) -> (r: Option<Rectangle>)
        requires
            old(self).wf(),
        ensures
            final(self).wf(),
            match r {
                Some(rect) => old(self).window_placed(
                    final(self).windows@,
                    space_name,
                    window,
                    is_new,
                    requested_zone,
                    recenter,
                    rect,
                ),
                None => {
                    &&& final(self).windows == old(self).windows
                    &&& {
                        ||| forall|s: int|
                            0 <= s < old(self).spaces.len() ==> old(self).spaces[s].name@
                                != space_name@
                        ||| forall|w: int|
                            0 <= w < old(self).windows.len() ==> old(self).windows[w].id != window
                    }
                },
            },
            final(self).spaces == old(self).spaces,
            final(self).outputs == old(self).outputs,
            final(self).surfaces == old(self).surfaces,
            old(self).same_rest(*final(self)),
    {
        let s = match self.space_index(space_name) {
            Some(s) => s,
            None => {
                return None;
            },
        };
        let w = match self.window_index(window) {
            Some(w) => w,
            None => {
                return None;
            },
        };
        let zone = match requested_zone {
            Some(name) => self.spaces[s].zone_index(name),
            None => None,
        };
        let ghost zone_int: Option<int> = match zone {
            Some(z) => Some(z as int),
            None => None,
        };
        let rect = self.place_at(s, w, is_new, zone, recenter);
        proof {
            let (si, wi) = (s as int, w as int);
            assert(old(self).zone_choice(si, text_of(requested_zone), zone_int));
            assert(old(self).placed(si, wi, is_new, zone_int, recenter, rect));
        }
        Some(rect)
    }

    /// Placing the window with identifier `window` in the space called
    /// `space_name` gave it `rect` and left the windows `after`.
    pub open spec fn window_placed(
        self,
        after: Seq<Window>,
        space_name: &str,
        window: u64,
        is_new: bool,
        requested_zone: Option<&str>,
        recenter: bool,
        rect: Rectangle,
    ) -> bool {
        exists|s: int, w: int, zone: Option<int>|
            {
                &&& 0 <= s < self.spaces.len()
                &&& self.spaces[s].name@ == space_name@
                &&& 0 <= w < self.windows.len()
                &&& self.windows[w].id == window
                &&& self.zone_choice(s, text_of(requested_zone), zone)
                &&& #[trigger] self.placed(s, w, is_new, zone, recenter, rect)
                &&& after == self.windows@.update(w, self.windows[w].mapped_at(s, rect))
            }
    }

    /// `zone` is the zone of space `s` that `requested` names: none where no
    /// name is given or no zone has the name.
    pub open spec fn zone_choice(
        self,
        s: int,
        requested: Option<Seq<char>>,
        zone: Option<int>,
    ) -> bool {
        match zone {
            Some(z) => {
                &&& 0 <= z < self.spaces[s].zones.len()
                &&& requested matches Some(name) && self.spaces[s].zones[z].name@ == name
            },
            None => requested matches Some(name) ==> forall|z: int|
                0 <= z < self.spaces[s].zones.len() ==> self.spaces[s].zones[z].name@ != name,
        }
    }
}

/// The text of a name that may be given.
pub open spec fn text_of(name: Option<&str>) -> Option<Seq<char>> {
    match name {
        Some(n) => Some(n@),
        None => None,
    }
}

/// The offset of a new window that finds `count` windows in its space.
pub fn cascade_offset(count: usize) -> (p: Point)
    ensures
        p == cascade(count as nat),
{
    let slot: usize = count % CASCADE_SLOTS;
    let step: i32 = CASCADE_STEP * (slot as i32);
    Point { x: step, y: step }
}

/// A window placed by the name of a zone of its space lies inside that zone.
pub proof fn lemma_zone_placement_inside(
    pre: State,
    after: Seq<Window>,
    space_name: &str,
    window: u64,
    is_new: bool,
    zone_name: &str,
    recenter: bool,
    rect: Rectangle,
    s: int,
    z: int,
)
    requires
        pre.wf(),
        pre.window_placed(after, space_name, window, is_new, Some(zone_name), recenter, rect),
        0 <= s < pre.spaces.len(),
        pre.spaces[s].name@ == space_name@,
        0 <= z < pre.spaces[s].zones.len(),
        pre.spaces[s].zones[z].name@ == zone_name@,
    ensures
        pre.spaces[s].zones[z].geometry.has_rect(rect),
{
    let (s1, w1, zone1) = choose|s1: int, w1: int, zone1: Option<int>|
        {
            &&& 0 <= s1 < pre.spaces.len()
            &&& pre.spaces[s1].name@ == space_name@
            &&& 0 <= w1 < pre.windows.len()
            &&& pre.windows[w1].id == window
            &&& pre.zone_choice(s1, Some(zone_name@), zone1)
            &&& #[trigger] pre.placed(s1, w1, is_new, zone1, recenter, rect)
            &&& after == pre.windows@.update(w1, pre.windows[w1].mapped_at(s1, rect))
        };
    assert(s1 == s);
    assert(pre.spaces[s].zones_distinct());
    assert(zone1 == Some(z));
    lemma_fitted_inside(pre.windows[w1].geometry, pre.spaces[s].zones[z].geometry);
}

/// The outputs `post` are the outputs `pre` with those of space `s` set side
/// by side from the left, each as far right as those before it are wide.
pub open spec fn laid_out(pre: Seq<Output>, post: Seq<Output>, s: usize) -> bool {
    &&& post.len() == pre.len()
    &&& forall|k: int|
        0 <= k < pre.len() ==> #[trigger] post[k] == if pre[k].space == Some(s) {
            Output { location: Point { x: offset_before(pre, s, k), y: 0 }, ..pre[k] }
        } else {
            pre[k]
        }
}

impl State {
    /// `post` is `self` after the positions of space `s` have been fixed up.
    pub open spec fn fixed_up(self, post: State, s: int) -> bool {
        &&& post.spaces@ == self.spaces@
        &&& post.surfaces@ == self.surfaces@
        &&& self.same_rest(post)
        &&& laid_out(self.outputs@, post.outputs@, s as usize)
        &&& post.windows.len() == self.windows.len()
        &&& forall|i: int|
            0 <= i < self.windows.len() ==> resettled(post.outputs@, s,
                self.windows[i],
                #[trigger] post.windows[i],
            )
    }

    /// Sets the outputs of the space called `space_name` side by side from
    /// the left, in the order of the registry, and moves each of its windows
    /// whose corner then lies on no output's free area into the nearest output
    /// that can hold it. Nothing happens where the space is unknown.
    pub fn fixup_positions(&mut self, space_name: &str)
        requires
            old(self).wf(),
        ensures
            final(self).wf(),
            old(self).positions_fixed(*final(self), space_name),
    {
        match self.space_index(space_name) {
            Some(s) => {
                self.fixup_space(s);
            },
            None => {},
        }
    }

    /// Fixes up the positions of space `s`.
    pub(crate) fn fixup_space(&mut self, s: usize)
        requires
            old(self).wf(),
            s < old(self).spaces.len(),
        ensures
            final(self).wf(),
            old(self).fixed_up(*final(self), s as int),
    {
        let ghost pre = *self;
        let mut offset: i32 = 0;
        let mut k: usize = 0;
        while k < self.outputs.len()
            invariant
                k <= self.outputs.len(),
                self.outputs.len() == pre.outputs.len(),
                self.spaces == pre.spaces,
                self.windows == pre.windows,
                self.surfaces == pre.surfaces,
                pre.same_rest(*self),
                offset == offset_before(pre.outputs@, s, k as int),
                forall|j: int|
                    0 <= j < k ==> #[trigger] self.outputs[j] == if pre.outputs[j].space == Some(
                        s,
                    ) {
                        Output {
                            location: Point { x: offset_before(pre.outputs@, s, j), y: 0 },
                            ..pre.outputs[j]
                        }
                    } else {
                        pre.outputs[j]
                    },
                forall|j: int| k <= j < self.outputs.len() ==> self.outputs[j] == pre.outputs[j],
            decreases self.outputs.len() - k,
        {
            let here = match self.outputs[k].space {
                Some(t) => t == s,
                None => false,
            };
            if here {
                let width = self.outputs[k].size.w;
                self.outputs[k].location = Point { x: offset, y: 0 };
                offset = sat_add(offset, width);
            }
            k += 1;
        }
        let ghost mid = *self;
        let mut i: usize = 0;
        while i < self.windows.len()
            invariant
                i <= self.windows.len(),
                self.windows.len() == pre.windows.len(),
                self.spaces == pre.spaces,
                self.outputs == mid.outputs,
                self.surfaces == pre.surfaces,
                pre.same_rest(*self),
                s < self.spaces.len(),
                forall|j: int|
                    0 <= j < i ==> resettled(self.outputs@, s as int,
                        pre.windows[j],
                        #[trigger] self.windows[j],
                    ),
                forall|j: int| i <= j < self.windows.len() ==> self.windows[j] == pre.windows[j],
            decreases self.windows.len() - i,
        {
            let here = match self.windows[i].space {
                Some(t) => t == s,
                None => false,
            };
            if here {
                let geo = self.windows[i].geometry;
                if self.is_orphaned(s, geo.loc) {
                    if let Some(h) = self.find_home(s, geo) {
                        let (rect, _) = rehome_rect(geo, self.outputs[h].usable_geometry());
                        self.windows[i].geometry = rect;
                    }
                }
            }
            i += 1;
        }
    }

    /// `post` is `self` after the positions of the space called `space_name`
    /// have been fixed up: `self` itself where no space has the name.
    pub open spec fn positions_fixed(self, post: State, space_name: &str) -> bool {
        ||| exists|s: int|
            0 <= s < self.spaces.len() && self.spaces[s].name@ == space_name@
                && #[trigger] self.fixed_up(post, s)
        ||| {
            &&& forall|s: int| 0 <= s < self.spaces.len() ==> self.spaces[s].name@ != space_name@
            &&& post == self
        }
    }
}

/// The offsets of a layout depend only on which outputs belong to the space
/// and on their sizes.
pub proof fn lemma_offsets_agree(a: Seq<Output>, b: Seq<Output>, s: usize, k: int)
    requires
        a.len() == b.len(),
        0 <= k <= a.len(),
        forall|j: int| 0 <= j < a.len() ==> a[j].space == b[j].space && a[j].size == b[j].size,
    ensures
        offset_before(a, s, k) == offset_before(b, s, k),
    decreases k,
{
    if k > 0 {
        lemma_offsets_agree(a, b, s, k - 1);
    }
}

/// Fixing up the positions of a space a second time changes nothing.
pub proof fn lemma_fixup_idempotent(a: State, b: State, c: State, s: int)
    requires
        a.fixed_up(b, s),
        b.fixed_up(c, s),
    ensures
        c.spaces@ == b.spaces@,
        c.surfaces@ == b.surfaces@,
        c.outputs@ == b.outputs@,
        c.windows@ == b.windows@,
        b.same_rest(c),
{
    assert forall|k: int| 0 <= k < b.outputs.len() implies c.outputs[k] == b.outputs[k] by {
        lemma_offsets_agree(a.outputs@, b.outputs@, s as usize, k);
    }
    assert(c.outputs@ =~= b.outputs@);
    let outs = b.outputs@;
    assert forall|i: int| 0 <= i < b.windows.len() implies c.windows[i] == b.windows[i] by {
        let w0 = a.windows[i];
        let w1 = b.windows[i];
        assert(resettled(outs, s, w0, w1));
        assert(resettled(outs, s, w1, c.windows[i]));
        if w0.space == Some(s as usize) && orphaned(outs, s, w0.geometry.loc) {
            if homeless(outs, s, w0.geometry) {
                assert(w1 == w0);
                assert forall|k: int| !is_home(outs, s, w1.geometry, k) by {
                    assert(!is_candidate(outs, s, w1.geometry, k));
                }
            } else {
                let k = choose|k: int|
                    is_home(outs, s, w0.geometry, k) && w1 == w0.with_geometry(
                        rehomed(w0.geometry, outs[k].usable()),
                    );
                assert(is_candidate(outs, s, w0.geometry, k));
                lemma_rehomed_inside(w0.geometry, outs[k].usable());
                assert(shows(outs, k, s));
                assert(!orphaned(outs, s, w1.geometry.loc));
            }
        }
    }
    assert(c.windows@ =~= b.windows@);
}

/// Fixing up the positions of a space by its name a second time, with no
/// change between the two, leaves the state as the first time left it.
pub proof fn lemma_positions_fixed_twice(a: State, b: State, c: State, space_name: &str)
    requires
        a.wf(),
        a.positions_fixed(b, space_name),
        b.positions_fixed(c, space_name),
    ensures
        c.spaces@ == b.spaces@,
        c.surfaces@ == b.surfaces@,
        c.outputs@ == b.outputs@,
        c.windows@ == b.windows@,
        b.same_rest(c),
{
    if exists|s: int|
        0 <= s < a.spaces.len() && a.spaces[s].name@ == space_name@ && #[trigger] a.fixed_up(b, s) {
        let s = choose|s: int|
            0 <= s < a.spaces.len() && a.spaces[s].name@ == space_name@ && #[trigger] a.fixed_up(
                b,
                s,
            );
        assert(b.spaces@ == a.spaces@);
        assert(b.spaces[s].name@ == space_name@);
        let t = choose|t: int|
            0 <= t < b.spaces.len() && b.spaces[t].name@ == space_name@ && #[trigger] b.fixed_up(
                c,
                t,
            );
        assert(a.spaces[t] == b.spaces[t]);
        assert(t == s);
        lemma_fixup_idempotent(a, b, c, s);
    } else {
        assert(b == a);
        assert(c == b);
    }
}

} // verus!
