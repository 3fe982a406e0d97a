//! Surfaces and the pipeline that applies their commits.

use crate::geometry::Point;
use crate::state::{CursorImageStatus, DndIcon, Seat, State};
use crate::window::{ResizeState, Window, WindowKind};
use vstd::prelude::*;

verus! {

/// The two kinds of popup.
#[derive(Clone, Copy, Debug, PartialEq, Eq, Structural)]
pub enum PopupKind {
    /// A popup of the shell protocol, which takes a configure.
    Xdg,
    /// A popup of an input method, which takes none.
    InputMethod,
}

/// What a surface is used for.
#[derive(Clone, Copy, Debug, PartialEq, Eq, Structural)]
pub enum SurfaceRole {
    /// No role yet, or a subsurface.
    Plain,
    /// The root surface of a native window.
    Toplevel,
    Popup(PopupKind),
    /// A layer surface on the output with this identifier.
    Layer(u64),
}

/// How the readiness of a buffer is learnt.
#[derive(Clone, Copy, Debug, PartialEq, Eq, Structural)]
pub enum SyncKind {
    /// An explicit synchronization point that the client named.
    Explicit,
    /// The completion fence of the buffer itself.
    Implicit,
}

/// A pending readiness condition that keeps a commit from becoming visible.
#[derive(Clone, Copy, Debug, PartialEq, Eq, Structural)]
pub struct SyncBlocker {
    pub kind: SyncKind,
    /// The number of the commit that it gates, counted per surface.
    pub serial: u64,
}

/// A client's drawable.
#[derive(Clone, Copy, Debug, PartialEq, Eq, Structural)]
pub struct Surface {
    /// Stable identifier.
    pub id: u64,
    pub client: u64,
    pub parent: Option<u64>,
    /// A subsurface whose state is applied with its parent's.
    pub sync: bool,
    /// The index of the space that the surface was created in.
    pub space: usize,
    pub role: SurfaceRole,
    /// The initial configure of the role has been sent.
    pub configure_sent: bool,
    /// How many commits the surface has announced.
    pub commits: u64,
    pub blocker: Option<SyncBlocker>,
}

impl Surface {
    /// The blocker with number `serial` gates the surface.
    pub open spec fn gated_by(self, serial: u64) -> bool {
        self.blocker matches Some(b) && b.serial == serial
    }
}

/// What a client attached with a commit, as far as synchronization goes.
#[derive(Clone, Copy, Debug, PartialEq, Eq, Structural)]
pub struct PendingBuffer {
    /// The buffer lives in graphics memory.
    pub dmabuf: bool,
    /// The client named an explicit synchronization point to wait for.
    pub acquire_point: bool,
}

/// What to do next with a commit.
#[derive(Clone, Copy, Debug, PartialEq, Eq, Structural)]
pub enum SyncAction {
    /// Nothing gates the commit: apply it at once.
    Apply,
    /// Build a blocker of this kind and register its readiness source, then
    /// report how that went.
    Attempt(SyncKind),
    /// A blocker of this kind gates the commit: apply it when it clears.
    Wait(SyncKind),
}

/// The initial configure that a commit calls for.
#[derive(Clone, Copy, Debug, PartialEq, Eq, Structural)]
pub enum ConfigureAction {
    Nothing,
    /// Send the initial configure of the window with this identifier.
    Toplevel(u64),
    /// Send the initial configure of the popup with this surface.
    Popup(u64),
    /// Arrange the layers of the output and, where `configure` is set, send
    /// the initial configure of the layer surface.
    Layer { surface: u64, output: u64, configure: bool },
}

/// What the surroundings have to do after a commit.
#[derive(Clone, Copy, Debug, PartialEq, Eq, Structural)]
pub struct CommitOutcome {
    /// The window, by its index in the registry, whose tree the commit
    /// belongs to.
    pub window: Option<usize>,
    pub configure: ConfigureAction,
    /// The renderer has to draw again.
    pub redraw: bool,
}

/// The first step for a commit that attached `buffer`.
pub open spec fn first_step(buffer: PendingBuffer) -> SyncAction {
    if !buffer.dmabuf {
        SyncAction::Apply
    } else if buffer.acquire_point {
        SyncAction::Attempt(SyncKind::Explicit)
    } else {
        SyncAction::Attempt(SyncKind::Implicit)
    }
}

/// The step after an attempt of kind `tried` that went well or not.
pub open spec fn next_step(tried: SyncKind, ok: bool) -> SyncAction {
    if ok {
        SyncAction::Wait(tried)
    } else {
        match tried {
            SyncKind::Explicit => SyncAction::Attempt(SyncKind::Implicit),
            SyncKind::Implicit => SyncAction::Apply,
        }
    }
}

/// A commit is never dropped: whatever the attempts come to, after at most
/// two of them it is applied or waits for a blocker that was registered.
pub proof fn lemma_commit_never_dropped(buffer: PendingBuffer, ok1: bool, ok2: bool)
    ensures
        match first_step(buffer) {
            SyncAction::Apply => true,
            SyncAction::Wait(_) => false,
            SyncAction::Attempt(k1) => match next_step(k1, ok1) {
                SyncAction::Apply => !ok1 && k1 == SyncKind::Implicit,
                SyncAction::Wait(k) => ok1 && k == k1,
                SyncAction::Attempt(k2) => {
                    &&& !ok1 && k1 == SyncKind::Explicit && k2 == SyncKind::Implicit
                    &&& next_step(k2, ok2) == if ok2 {
                        SyncAction::Wait(SyncKind::Implicit)
                    } else {
                        SyncAction::Apply
                    }
                },
            },
        },
{
}

/// Some surface has the identifier `id`.
pub open spec fn has_surface(surfaces: Seq<Surface>, id: u64) -> bool {
    exists|i: int| 0 <= i < surfaces.len() && surfaces[i].id == id
}

/// The index of the surface with identifier `id`.
pub open spec fn surface_pos(surfaces: Seq<Surface>, id: u64) -> int {
    choose|i: int| 0 <= i < surfaces.len() && surfaces[i].id == id
}

/// The parent of the surface with identifier `id`.
pub open spec fn parent_of(surfaces: Seq<Surface>, id: u64) -> Option<u64> {
    if has_surface(surfaces, id) {
        surfaces[surface_pos(surfaces, id)].parent
    } else {
        None
    }
}

/// The surface reached from `id` by going to the parent `fuel` times at most.
pub open spec fn root_of(surfaces: Seq<Surface>, id: u64, fuel: nat) -> u64
    decreases fuel,
{
    if fuel == 0 {
        id
    } else {
        match parent_of(surfaces, id) {
            Some(p) => root_of(surfaces, p, (fuel - 1) as nat),
            None => id,
        }
    }
}

/// A surface without a parent is its own root.
pub proof fn lemma_root_of_parentless(surfaces: Seq<Surface>, id: u64, fuel: nat)
    requires
        parent_of(surfaces, id) is None,
    ensures
        root_of(surfaces, id, fuel) == id,
{
}

/// `o` with its index as a mathematical integer.
pub open spec fn as_int(o: Option<usize>) -> Option<int> {
    match o {
        Some(i) => Some(i as int),
        None => None,
    }
}

impl State {
    /// The index of the surface with identifier `id`.
    pub fn surface_index(&self, id: u64) -> (r: Option<usize>)
        ensures
            match r {
                Some(i) => i < self.surfaces.len() && self.surfaces[i as int].id == id && forall|
                    k: int,
                | 0 <= k < i ==> self.surfaces[k].id != id,
                None => !has_surface(self.surfaces@, id),
            },
            self.wf() ==> (r matches Some(i) ==> i == surface_pos(self.surfaces@, id)),
    {
        let mut i: usize = 0;
        while i < self.surfaces.len()
            invariant
                i <= self.surfaces.len(),
                forall|k: int| 0 <= k < i ==> self.surfaces[k].id != id,
            decreases self.surfaces.len() - i,
        {
            if self.surfaces[i].id == id {
                return Some(i);
            }
            i += 1;
        }
        None
    }

    /// Registers a surface that a client created, in the first space.
    /// Returns `false`, and changes nothing, where the identifier is taken.
    pub fn new_surface(&mut self, id: u64, client: u64, parent: Option<u64>) -> (added: bool)
        requires
            old(self).wf(),
        ensures
            final(self).wf(),
            added == !has_surface(old(self).surfaces@, id),
            added ==> final(self).surfaces@ == old(self).surfaces@.push(
                Surface {
                    id,
                    client,
                    parent,
                    sync: false,
                    space: 0,
                    role: SurfaceRole::Plain,
                    configure_sent: false,
                    commits: 0,
                    blocker: None,
                },
            ),
            !added ==> final(self).surfaces == old(self).surfaces,
            final(self).spaces == old(self).spaces,
            final(self).windows == old(self).windows,
            final(self).outputs == old(self).outputs,
            old(self).same_rest(*final(self)),
    {
        if self.surface_index(id).is_some() {
            return false;
        }
        self.surfaces.push(
            Surface {
                id,
                client,
                parent,
                sync: false,
                space: 0,
                role: SurfaceRole::Plain,
                configure_sent: false,
                commits: 0,
                blocker: None,
            },
        );
        true
    }

    /// The root of the tree that the surface with identifier `id` belongs to.
    pub fn root_surface(&self, id: u64) -> (root: u64)
        requires
            self.wf(),
        ensures
            root == root_of(self.surfaces@, id, self.surfaces.len() as nat),
    {
        let mut cur = id;
        let mut fuel: usize = self.surfaces.len();
        while fuel > 0
            invariant
                self.wf(),
                fuel <= self.surfaces.len(),
                root_of(self.surfaces@, id, self.surfaces.len() as nat) == root_of(
                    self.surfaces@,
                    cur,
                    fuel as nat,
                ),
            decreases fuel,
        {
            let parent = match self.surface_index(cur) {
                Some(i) => self.surfaces[i].parent,
                None => None,
            };
            match parent {
                Some(p) => {
                    cur = p;
                    fuel -= 1;
                },
                None => {
                    proof {
                        lemma_root_of_parentless(self.surfaces@, cur, fuel as nat);
                    }
                    return cur;
                },
            }
        }
        cur
    }

    /// A client announced a commit on `surface` with `buffer` attached: counts
    /// it and says how to synchronize it. An unknown surface has its commit
    /// applied at once.
    pub fn pre_commit(&mut self, surface: u64, buffer: PendingBuffer) -> (action: SyncAction)
        requires
            old(self).wf(),
        ensures
            final(self).wf(),
            action == first_step(buffer),
            final(self).surfaces.len() == old(self).surfaces.len(),
            forall|i: int|
                0 <= i < old(self).surfaces.len() ==> #[trigger] final(self).surfaces[i] == if old(
                    self,
                ).surfaces[i].id == surface {
                    Surface {
                        commits: if old(self).surfaces[i].commits < u64::MAX {
                            (old(self).surfaces[i].commits + 1) as u64
                        } else {
                            u64::MAX
                        },
                        ..old(self).surfaces[i]
                    }
                } else {
                    old(self).surfaces[i]
                },
            final(self).spaces == old(self).spaces,
            final(self).windows == old(self).windows,
            final(self).outputs == old(self).outputs,
            old(self).same_rest(*final(self)),
    {
        if let Some(i) = self.surface_index(surface) {
            let n = self.surfaces[i].commits;
            if n < u64::MAX {
                self.surfaces[i].commits = n + 1;
            }
        }
        if !buffer.dmabuf {
            SyncAction::Apply
        } else if buffer.acquire_point {
            SyncAction::Attempt(SyncKind::Explicit)
        } else {
            SyncAction::Attempt(SyncKind::Implicit)
        }
    }

    /// An attempt to gate the latest commit of `surface` went well or not. A
    /// blocker that was registered takes the place of an older one; after a
    /// failure the other path is tried, and after both the commit is applied.
    pub fn sync_result(&mut self, surface: u64, tried: SyncKind, ok: bool) -> (action: SyncAction)
        requires
            old(self).wf(),
        ensures
            final(self).wf(),
            action == if has_surface(old(self).surfaces@, surface) {
                next_step(tried, ok)
            } else {
                SyncAction::Apply
            },
            final(self).surfaces.len() == old(self).surfaces.len(),
            forall|i: int|
                0 <= i < old(self).surfaces.len() ==> #[trigger] final(self).surfaces[i] == if old(
                    self,
                ).surfaces[i].id == surface && ok {
                    Surface {
                        blocker: Some(
                            SyncBlocker { kind: tried, serial: old(self).surfaces[i].commits },
                        ),
                        ..old(self).surfaces[i]
                    }
                } else {
                    old(self).surfaces[i]
                },
            final(self).spaces == old(self).spaces,
            final(self).windows == old(self).windows,
            final(self).outputs == old(self).outputs,
            old(self).same_rest(*final(self)),
    {
        match self.surface_index(surface) {
            Some(i) => {
                if ok {
                    let serial = self.surfaces[i].commits;
                    self.surfaces[i].blocker = Some(SyncBlocker { kind: tried, serial });
                    SyncAction::Wait(tried)
                } else {
                    match tried {
                        SyncKind::Explicit => SyncAction::Attempt(SyncKind::Implicit),
                        SyncKind::Implicit => SyncAction::Apply,
                    }
                }
            },
            None => SyncAction::Apply,
        }
    }

    /// The readiness source of the blocker with number `serial` fired. Returns
    /// whether that blocker was the one gating `surface`, which is then free;
    /// one that a newer blocker has replaced frees nothing.
    pub fn blocker_cleared(&mut self, surface: u64, serial: u64) -> (cleared: bool)
        requires
            old(self).wf(),
        ensures
            final(self).wf(),
            cleared == exists|i: int|
                0 <= i < old(self).surfaces.len() && old(self).surfaces[i].id == surface && (
                #[trigger] old(self).surfaces[i]).gated_by(serial),
            final(self).surfaces.len() == old(self).surfaces.len(),
            forall|i: int|
                0 <= i < old(self).surfaces.len() ==> #[trigger] final(self).surfaces[i] == if old(
                    self,
                ).surfaces[i].id == surface && cleared {
                    Surface { blocker: None, ..old(self).surfaces[i] }
                } else {
                    old(self).surfaces[i]
                },
            final(self).spaces == old(self).spaces,
            final(self).windows == old(self).windows,
            final(self).outputs == old(self).outputs,
            old(self).same_rest(*final(self)),
    {
        if let Some(i) = self.surface_index(surface) {
            if let Some(b) = self.surfaces[i].blocker {
                if b.serial == serial {
                    self.surfaces[i].blocker = None;
                    return true;
                }
            }
        }
        false
    }
}

/// The offset left for the cursor, once a window that moved has taken its own.
pub open spec fn delta_after_window(delta: Option<Point>, moves: bool) -> Option<Point> {
    if moves {
        None
    } else {
        delta
    }
}

/// The cursor after a commit on `surface` that left `delta` for it: where
/// the cursor shows that surface, its hotspot goes back by the offset.
pub open spec fn cursor_after(
    cursor: CursorImageStatus,
    surface: u64,
    delta: Option<Point>,
) -> CursorImageStatus {
    match cursor {
        CursorImageStatus::Surface { surface: c, hotspot } => if c == surface && delta is Some {
            CursorImageStatus::Surface { surface: c, hotspot: hotspot.minus(delta.unwrap()) }
        } else {
            cursor
        },
        other => other,
    }
}

/// The offset left for the drag icon, once the cursor has taken its own.
pub open spec fn delta_after_cursor(
    cursor: CursorImageStatus,
    surface: u64,
    delta: Option<Point>,
) -> Option<Point> {
    match cursor {
        CursorImageStatus::Surface { surface: c, hotspot } => if c == surface {
            None
        } else {
            delta
        },
        other => delta,
    }
}

/// The drag icon after a commit on `surface` that left `delta` for it: where
/// the icon is that surface, it moves by the offset.
pub open spec fn icon_after(icon: Option<DndIcon>, surface: u64, delta: Option<Point>) -> Option<
    DndIcon,
> {
    match icon {
        Some(i) => if i.surface == surface {
            Some(
                DndIcon {
                    surface: i.surface,
                    offset: i.offset.plus(
                        match delta {
                            Some(d) => d,
                            None => Point { x: 0, y: 0 },
                        },
                    ),
                },
            )
        } else {
            icon
        },
        None => None,
    }
}

impl State {
    /// Window `w` is mapped in space `sp` and `surface` is its root surface.
    pub open spec fn shows_in(self, w: int, surface: u64, sp: usize) -> bool {
        0 <= w < self.windows.len() && self.windows[w].kind.root_surface() == Some(surface)
            && self.windows[w].space == Some(sp)
    }

    /// `w` is the window that a commit on `surface` is for: the lowest mapped
    /// window whose root surface is the root of the tree of `surface`; none
    /// where the surface is unknown or applies its state with its parent's.
    pub open spec fn tracks(self, surface: u64, w: Option<int>) -> bool {
        let root = root_of(self.surfaces@, surface, self.surfaces.len() as nat);
        let known = has_surface(self.surfaces@, surface) && !self.surfaces[surface_pos(
            self.surfaces@,
            surface,
        )].sync;
        match w {
            Some(i) => known && self.shows_surface(i, root) && forall|k: int|
                0 <= k < i ==> !self.shows_surface(k, root),
            None => !known || forall|k: int| !self.shows_surface(k, root),
        }
    }

    /// A commit on `surface` for window `w` moves a window: it is the root
    /// surface of `w` itself and its buffer came with an offset.
    pub open spec fn commit_moves(
        self,
        surface: u64,
        delta: Option<Point>,
        w: Option<int>,
    ) -> bool {
        w is Some && delta is Some && root_of(
            self.surfaces@,
            surface,
            self.surfaces.len() as nat,
        ) == surface
    }

    /// `post` is `self` after the offset `delta` of a commit on `surface`, for
    /// window `w`, has been handed on: to the window, else to the cursor, else
    /// to the drag icon.
    pub open spec fn offset_applied(
        self,
        post: State,
        surface: u64,
        delta: Option<Point>,
        w: Option<int>,
    ) -> bool {
        let moves = self.commit_moves(surface, delta, w);
        let d1 = delta_after_window(delta, moves);
        let d2 = delta_after_cursor(self.seat.cursor, surface, d1);
        &&& post.windows@ == if moves {
            self.windows@.update(
                w.unwrap(),
                self.windows[w.unwrap()].moved_to(
                    self.windows[w.unwrap()].geometry.loc.plus(delta.unwrap()),
                ),
            )
        } else {
            self.windows@
        }
        &&& post.seat == Seat {
            cursor: cursor_after(self.seat.cursor, surface, d1),
            dnd_icon: icon_after(self.seat.dnd_icon, surface, d2),
            ..self.seat
        }
        &&& post.spaces == self.spaces
        &&& post.outputs == self.outputs
        &&& post.surfaces == self.surfaces
        &&& post.selections == self.selections
        &&& post.config == self.config
        &&& post.running == self.running
    }

    /// Hands the offset of a commit on `surface` on, and returns the window
    /// that the commit is for, by its index.
    pub fn apply_buffer_offset(&mut self, surface: u64, buffer_delta: Option<Point>) -> (window:
        Option<usize>)
        requires
            old(self).wf(),
        ensures
            final(self).wf(),
            old(self).tracks(surface, as_int(window)),
            old(self).offset_applied(*final(self), surface, buffer_delta, as_int(window)),
    {
        let mut delta = buffer_delta;
        let mut window: Option<usize> = None;
        let sync = match self.surface_index(surface) {
            Some(i) => Some(self.surfaces[i].sync),
            None => None,
        };
        if let Some(false) = sync {
            let root = self.root_surface(surface);
            window = self.window_for_surface(root);
            if let Some(w) = window {
                if root == surface {
                    if let Some(d) = delta {
                        let loc = self.windows[w].geometry.loc;
                        self.windows[w].geometry.loc = loc.add(d);
                        delta = None;
                    }
                }
            }
        }
        if let CursorImageStatus::Surface { surface: c, hotspot } = self.seat.cursor {
            if c == surface {
                if let Some(d) = delta {
                    self.seat.cursor = CursorImageStatus::Surface {
                        surface: c,
                        hotspot: hotspot.sub(d),
                    };
                }
                delta = None;
            }
        }
        if let Some(icon) = self.seat.dnd_icon {
            if icon.surface == surface {
                let d = match delta {
                    Some(d) => d,
                    None => Point::origin(),
                };
                self.seat.dnd_icon = Some(
                    DndIcon { surface: icon.surface, offset: icon.offset.add(d) },
                );
            }
        }
        window
    }

    /// The lowest window mapped in space `sp` whose root surface is `surface`.
    pub fn window_in_space_for_surface(&self, surface: u64, sp: usize) -> (r: Option<usize>)
        ensures
            self.first_in(surface, sp, as_int(r)),
    {
        let mut i: usize = 0;
        while i < self.windows.len()
            invariant
                i <= self.windows.len(),
                forall|k: int| 0 <= k < i ==> !self.shows_in(k, surface, sp),
            decreases self.windows.len() - i,
        {
            let w = &self.windows[i];
            if let Some(t) = w.space {
                if t == sp {
                    if let Some(s) = w.wl_surface() {
                        if s == surface {
                            return Some(i);
                        }
                    }
                }
            }
            i += 1;
        }
        None
    }

    /// `w` is the lowest window mapped in space `sp` whose root surface is
    /// `surface`.
    pub open spec fn first_in(self, surface: u64, sp: usize, w: Option<int>) -> bool {
        match w {
            Some(i) => self.shows_in(i, surface, sp) && forall|k: int|
                0 <= k < i ==> !self.shows_in(k, surface, sp),
            None => forall|k: int| !self.shows_in(k, surface, sp),
        }
    }

    /// Output `k` has the identifier `id` and is mapped in space `sp`.
    pub open spec fn output_in(self, k: int, id: u64, sp: usize) -> bool {
        0 <= k < self.outputs.len() && self.outputs[k].id == id && self.outputs[k].space == Some(sp)
    }

    /// The initial configure that a commit on the surface at index `si` calls
    /// for, where `w` is the window of the surface's space that it is the root
    /// of: for a native window, a popup of the shell and a layer surface on an
    /// output of that space, the configure that has not been sent yet.
    pub open spec fn configure_for(self, si: int, w: Option<int>) -> ConfigureAction {
        let surface = self.surfaces[si];
        match w {
            Some(i) => if self.windows[i].kind is Native && !surface.configure_sent {
                ConfigureAction::Toplevel(self.windows[i].id)
            } else {
                ConfigureAction::Nothing
            },
            None => match surface.role {
                SurfaceRole::Popup(PopupKind::Xdg) => if !surface.configure_sent {
                    ConfigureAction::Popup(surface.id)
                } else {
                    ConfigureAction::Nothing
                },
                SurfaceRole::Layer(output) => if exists|k: int|
                    self.output_in(k, output, surface.space) {
                    ConfigureAction::Layer {
                        surface: surface.id,
                        output,
                        configure: !surface.configure_sent,
                    }
                } else {
                    ConfigureAction::Nothing
                },
                _ => ConfigureAction::Nothing,
            },
        }
    }

    /// `post` is `self` after the commit on `surface` has been looked at for
    /// its initial configure, which is `action`: the configure is marked as
    /// sent, and a resize of the surface's window that waited for the commit
    /// is over.
    pub open spec fn configured(self, post: State, surface: u64, action: ConfigureAction) -> bool {
        &&& post.spaces == self.spaces
        &&& post.outputs == self.outputs
        &&& self.same_rest(post)
        &&& if has_surface(self.surfaces@, surface) {
            let si = surface_pos(self.surfaces@, surface);
            exists|w: Option<int>|
                {
                    &&& #[trigger] self.first_in(surface, self.surfaces[si].space, w)
                    &&& action == self.configure_for(si, w)
                    &&& post.surfaces@ == self.surfaces@.update(
                        si,
                        Surface {
                            configure_sent: self.surfaces[si].configure_sent || action
                                != ConfigureAction::Nothing,
                            ..self.surfaces[si]
                        },
                    )
                    &&& post.windows@ == match w {
                        Some(i) => self.windows@.update(
                            i,
                            self.windows[i].with_resize(
                                self.windows[i].data.resize_state.after_commit(),
                            ),
                        ),
                        None => self.windows@,
                    }
                }
        } else {
            &&& action == ConfigureAction::Nothing
            &&& post.surfaces == self.surfaces
            &&& post.windows == self.windows
        }
    }

    /// Decides the initial configure that a commit on `surface` calls for and
    /// marks it as sent; ends a resize of the surface's window that waited for
    /// the commit.
    pub fn ensure_initial_configure(&mut self, surface: u64) -> (action: ConfigureAction)
        requires
            old(self).wf(),
        ensures
            final(self).wf(),
            old(self).configured(*final(self), surface, action),
    {
        let si = match self.surface_index(surface) {
            Some(si) => si,
            None => {
                return ConfigureAction::Nothing;
            },
        };
        let record = self.surfaces[si];
        let window = self.window_in_space_for_surface(surface, record.space);
        let action = match window {
            Some(i) => {
                let native = match self.windows[i].kind {
                    WindowKind::Native { .. } => true,
                    _ => false,
                };
                self.windows[i].data.finish_resize();
                if native && !record.configure_sent {
                    ConfigureAction::Toplevel(self.windows[i].id)
                } else {
                    ConfigureAction::Nothing
                }
            },
            None => match record.role {
                SurfaceRole::Popup(PopupKind::Xdg) => {
                    if !record.configure_sent {
                        ConfigureAction::Popup(surface)
                    } else {
                        ConfigureAction::Nothing
                    }
                },
                SurfaceRole::Layer(output) => {
                    if self.output_is_in(output, record.space) {
                        ConfigureAction::Layer {
                            surface,
                            output,
                            configure: !record.configure_sent,
                        }
                    } else {
                        ConfigureAction::Nothing
                    }
                },
                _ => ConfigureAction::Nothing,
            },
        };
        match action {
            ConfigureAction::Nothing => {},
            _ => {
                self.surfaces[si].configure_sent = true;
            },
        }
        proof {
            assert(self.surfaces@ =~= old(self).surfaces@.update(
                si as int,
                Surface {
                    configure_sent: record.configure_sent || action != ConfigureAction::Nothing,
                    ..record
                },
            ));
        }
        action
    }

    /// Whether the surface may be mapped: its initial configure has been
    /// sent.
    pub fn eligible_for_mapping(&self, surface: u64) -> (eligible: bool)
        requires
            self.wf(),
        ensures
            eligible == (has_surface(self.surfaces@, surface) && self.surfaces[surface_pos(
                self.surfaces@,
                surface,
            )].configure_sent),
    {
        match self.surface_index(surface) {
            Some(i) => self.surfaces[i].configure_sent,
            None => false,
        }
    }

    /// Whether the output with identifier `id` is mapped in space `sp`.
    pub fn output_is_in(&self, id: u64, sp: usize) -> (b: bool)
        ensures
            b == exists|k: int| self.output_in(k, id, sp),
    {
        let mut k: usize = 0;
        while k < self.outputs.len()
            invariant
                k <= self.outputs.len(),
                forall|j: int| 0 <= j < k ==> !self.output_in(j, id, sp),
            decreases self.outputs.len() - k,
        {
            if self.outputs[k].id == id {
                if let Some(t) = self.outputs[k].space {
                    if t == sp {
                        assert(self.output_in(k as int, id, sp));
                        return true;
                    }
                }
            }
            k += 1;
        }
        false
    }

    /// `post` and `out` are what a commit on `surface` with the buffer offset
    /// `delta` makes of `self`: the offset is handed on, then the initial
    /// configure is decided, and the renderer is asked to draw.
    pub open spec fn committed(
        self,
        post: State,
        surface: u64,
        delta: Option<Point>,
        out: CommitOutcome,
    ) -> bool {
        &&& out.redraw
        &&& self.tracks(surface, as_int(out.window))
        &&& exists|mid: State|
            {
                &&& #[trigger] self.offset_applied(mid, surface, delta, as_int(out.window))
                &&& mid.configured(post, surface, out.configure)
            }
    }

    /// Applies a commit on `surface` whose buffer came with the offset
    /// `buffer_delta`, and says what is left to do outside.
    pub fn commit(&mut self, surface: u64, buffer_delta: Option<Point>) -> (out: CommitOutcome)
        requires
            old(self).wf(),
        ensures
            final(self).wf(),
            old(self).committed(*final(self), surface, buffer_delta, out),
    {
        let window = self.apply_buffer_offset(surface, buffer_delta);
        let ghost mid = *self;
        let configure = self.ensure_initial_configure(surface);
        proof {
            assert(old(self).offset_applied(mid, surface, buffer_delta, as_int(window)));
            assert(mid.configured(*self, surface, configure));
        }
        CommitOutcome { window, configure, redraw: true }
    }
}

/// A commit that carries an offset for the root surface of a mapped window
/// moves the window by that offset, and by exactly that where the coordinates
/// stay in range.
pub proof fn lemma_commit_moves_window(
    pre: State,
    post: State,
    surface: u64,
    delta: Point,
    w: int,
)
    requires
        pre.tracks(surface, Some(w)),
        root_of(pre.surfaces@, surface, pre.surfaces.len() as nat) == surface,
        pre.offset_applied(post, surface, Some(delta), Some(w)),
    ensures
        post.windows[w].geometry.loc == pre.windows[w].geometry.loc.plus(delta),
        post.windows[w].geometry.size == pre.windows[w].geometry.size,
        i32::MIN <= pre.windows[w].geometry.loc.x + delta.x <= i32::MAX
            ==> post.windows[w].geometry.loc.x == pre.windows[w].geometry.loc.x + delta.x,
        i32::MIN <= pre.windows[w].geometry.loc.y + delta.y <= i32::MAX
            ==> post.windows[w].geometry.loc.y == pre.windows[w].geometry.loc.y + delta.y,
{
}

/// Looking at a commit for its initial configure moves no window.
pub proof fn lemma_configure_keeps_geometry(
    pre: State,
    post: State,
    surface: u64,
    action: ConfigureAction,
    w: int,
)
    requires
        pre.configured(post, surface, action),
        0 <= w < pre.windows.len(),
    ensures
        post.windows.len() == pre.windows.len(),
        post.windows[w].geometry == pre.windows[w].geometry,
        post.windows[w].id == pre.windows[w].id,
        post.windows[w].space == pre.windows[w].space,
{
}

/// After a commit that carries an offset for the root surface of a mapped
/// window, the window has moved by that offset, and its size is as it was.
pub proof fn lemma_commit_translates(
    pre: State,
    post: State,
    surface: u64,
    delta: Point,
    out: CommitOutcome,
    w: int,
)
    requires
        pre.committed(post, surface, Some(delta), out),
        as_int(out.window) == Some(w),
        root_of(pre.surfaces@, surface, pre.surfaces.len() as nat) == surface,
    ensures
        post.windows[w].geometry.loc == pre.windows[w].geometry.loc.plus(delta),
        post.windows[w].geometry.size == pre.windows[w].geometry.size,
{
    let mid = choose|mid: State|
        {
            &&& #[trigger] pre.offset_applied(mid, surface, Some(delta), as_int(out.window))
            &&& mid.configured(post, surface, out.configure)
        };
    lemma_commit_moves_window(pre, mid, surface, delta, w);
    lemma_configure_keeps_geometry(mid, post, surface, out.configure, w);
}

/// A commit on the root surface of a window of the surface's space ends a
/// resize of that window that waited for it, and so, after the release of the
/// grab, any resize.
pub proof fn lemma_commit_ends_resize(
    pre: State,
    post: State,
    surface: u64,
    action: ConfigureAction,
    w: int,
)
    requires
        pre.wf(),
        pre.configured(post, surface, action),
        has_surface(pre.surfaces@, surface),
        pre.first_in(
            surface,
            pre.surfaces[surface_pos(pre.surfaces@, surface)].space,
            Some(w),
        ),
    ensures
        post.windows[w].data.resize_state == pre.windows[w].data.resize_state.after_commit(),
        pre.windows[w].data.resize_state is WaitingForCommit ==> post.windows[w].data.resize_state
            == ResizeState::NotResizing,
        pre.windows[w].data.resize_state == ResizeState::NotResizing
            ==> post.windows[w].data.resize_state == ResizeState::NotResizing,
{
    let si = surface_pos(pre.surfaces@, surface);
    let sp = pre.surfaces[si].space;
    let v = choose|v: Option<int>|
        {
            &&& #[trigger] pre.first_in(surface, sp, v)
            &&& action == pre.configure_for(si, v)
            &&& post.surfaces@ == pre.surfaces@.update(
                si,
                Surface {
                    configure_sent: pre.surfaces[si].configure_sent || action
                        != ConfigureAction::Nothing,
                    ..pre.surfaces[si]
                },
            )
            &&& post.windows@ == match v {
                Some(i) => pre.windows@.update(
                    i,
                    pre.windows[i].with_resize(pre.windows[i].data.resize_state.after_commit()),
                ),
                None => pre.windows@,
            }
        };
    assert(pre.shows_in(w, surface, sp));
    match v {
        Some(i) => {
            if i < w {
                assert(!pre.shows_in(i, surface, sp));
            }
            if w < i {
                assert(!pre.shows_in(w, surface, sp));
            }
            assert(i == w);
        },
        None => {
            assert(!pre.shows_in(w, surface, sp));
        },
    }
}

} // verus!
