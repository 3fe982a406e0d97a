//! Windows and the per-surface bookkeeping that interactive resizing needs.

use crate::focus::{
    EguiWindow, SurfaceHandle, WindowHandle, WindowSurface, WorkspaceWindow, X11Handle,
};
use crate::geometry::{Point, Rectangle, Size};
use vstd::prelude::*;

verus! {

/// What backs a window.
#[allow(inconsistent_fields)]
#[derive(Clone, Copy, Debug, PartialEq, Eq)]
pub enum WindowKind {
    /// A surface tree of the native protocol, by its root surface.
    Native { surface: u64 },
    /// A surface of the legacy window-manager protocol, with the native
    /// surface that carries its content once there is one.
    Legacy { surface: Option<u64> },
    /// A window drawn by the overlay user interface.
    Overlay,
}

impl WindowKind {
    /// The native surface behind the window.
    pub open spec fn root_surface(self) -> Option<u64> {
        match self {
            WindowKind::Native { surface } => Some(surface),
            WindowKind::Legacy { surface } => surface,
            WindowKind::Overlay => None,
        }
    }
}

/// Where a window stands between map and unmap.
#[derive(Clone, Copy, Debug, PartialEq, Eq, Structural)]
pub enum WindowStage {
    Unmapped,
    Mapped,
    Maximized,
    Fullscreen,
}

/// The edges that an interactive resize moves.
#[derive(Clone, Copy, Debug, PartialEq, Eq, Structural)]
pub struct ResizeEdge {
    pub top: bool,
    pub bottom: bool,
    pub left: bool,
    pub right: bool,
}

/// What a resize grab recorded when it began.
#[derive(Clone, Copy, Debug, PartialEq, Eq, Structural)]
pub struct ResizeData {
    pub edges: ResizeEdge,
    pub initial_window_location: Point,
    pub initial_window_size: Size,
}

/// Where a surface stands in an interactive resize.
#[derive(Clone, Copy, Debug, PartialEq, Eq, Structural)]
pub enum ResizeState {
    /// No resize is under way.
    NotResizing,
    /// The pointer is being dragged.
    Resizing(ResizeData),
    /// A new size was proposed and the client has not committed since.
    WaitingForCommit(ResizeData),
}

/// Per-surface data of a window's root surface.
#[derive(Clone, Copy, Debug, PartialEq, Eq, Structural)]
pub struct SurfaceData {
    pub geometry: Option<Rectangle>,
    pub resize_state: ResizeState,
}

impl SurfaceData {
    /// No geometry recorded, no resize under way.
    pub fn new() -> (d: SurfaceData)
        ensures
            d.geometry is None,
            d.resize_state == ResizeState::NotResizing,
    {
        SurfaceData { geometry: None, resize_state: ResizeState::NotResizing }
    }

    /// A commit arrived: a resize that waited for it is over.
    pub fn finish_resize(&mut self)
        ensures
            final(self).geometry == old(self).geometry,
            final(self).resize_state == old(self).resize_state.after_commit(),
    {
        if let ResizeState::WaitingForCommit(_) = self.resize_state {
            self.resize_state = ResizeState::NotResizing;
        }
    }
}

impl Default for ResizeState {
    fn default() -> (state: ResizeState)
        ensures
            state == ResizeState::NotResizing,
    {
        ResizeState::NotResizing
    }
}

impl Default for SurfaceData {
    fn default() -> (data: SurfaceData)
        ensures
            data.geometry is None,
            data.resize_state == ResizeState::NotResizing,
    {
        SurfaceData::new()
    }
}

impl Default for OldGeometry {
    fn default() -> (kept: OldGeometry)
        ensures
            kept.0 is None,
    {
        OldGeometry::empty()
    }
}

impl ResizeState {
    /// The state after the surface committed.
    pub open spec fn after_commit(self) -> ResizeState {
        match self {
            ResizeState::WaitingForCommit(_) => ResizeState::NotResizing,
            other => other,
        }
    }

    /// The state after the grab was released.
    pub open spec fn after_release(self) -> ResizeState {
        match self {
            ResizeState::Resizing(data) => ResizeState::WaitingForCommit(data),
            other => other,
        }
    }
}

/// The geometry a window had before it was maximized, kept for the way back.
#[derive(Clone, Copy, Debug, PartialEq, Eq, Structural)]
pub struct OldGeometry(pub Option<Rectangle>);

impl OldGeometry {
    /// Nothing saved.
    pub fn empty() -> (g: OldGeometry)
        ensures
            g.0 is None,
    {
        OldGeometry(None)
    }

    /// Keeps `geo`, replacing what was kept before.
    pub fn save(&mut self, geo: Rectangle)
        ensures
            final(self).0 == Some(geo),
    {
        self.0 = Some(geo);
    }

    /// Hands out what was kept and keeps nothing.
    pub fn restore(&mut self) -> (geo: Option<Rectangle>)
        ensures
            geo == old(self).0,
            final(self).0 is None,
    {
        let geo = self.0;
        self.0 = None;
        geo
    }
}

/// A window: its identity, its place and the flags that the shell keeps.
#[derive(Clone, Debug, PartialEq, Eq)]
pub struct Window {
    /// Stable identifier.
    pub id: u64,
    pub kind: WindowKind,
    /// The client that the window belongs to.
    pub client: u64,
    /// The application's identifier, by which commands name the window.
    pub app_id: String,
    /// The index of the owning space while the window is mapped.
    pub space: Option<usize>,
    /// Location and size in the owning space's logical coordinates.
    pub geometry: Rectangle,
    /// The client draws its own decorations.
    pub decorated: bool,
    /// The server draws the decorations.
    pub ssd: bool,
    pub maximized: bool,
    pub fullscreen: bool,
    pub old_geometry: OldGeometry,
    /// The window asked to stay out of window management.
    pub override_redirect: bool,
    /// The underlying resource has not been destroyed.
    pub alive: bool,
    pub data: SurfaceData,
}

impl Window {
    /// This window with another geometry.
    pub open spec fn with_geometry(self, geometry: Rectangle) -> Window {
        Window { geometry, ..self }
    }

    /// This window mapped in space `s` with geometry `geometry`.
    pub open spec fn mapped_at(self, s: int, geometry: Rectangle) -> Window {
        Window { space: Some(s as usize), geometry, ..self }
    }

    /// This window maximized onto `area`, its geometry kept for the way back.
    pub open spec fn maximized_to(self, area: Rectangle) -> Window {
        Window {
            maximized: true,
            old_geometry: OldGeometry(Some(self.geometry)),
            geometry: area,
            ..self
        }
    }

    /// This window no longer maximized, with the geometry that was kept, if
    /// one was.
    pub open spec fn unmaximized(self) -> Window {
        match self.old_geometry.0 {
            Some(geo) => Window {
                maximized: false,
                old_geometry: OldGeometry(None),
                geometry: geo,
                ..self
            },
            None => Window { maximized: false, ..self },
        }
    }

    /// This window covering `area`, without decorations.
    pub open spec fn fullscreened(self, area: Rectangle) -> Window {
        Window { fullscreen: true, ssd: false, geometry: area, ..self }
    }

    /// This window out of fullscreen, decorated by the server unless it
    /// decorates itself.
    pub open spec fn unfullscreened(self) -> Window {
        Window { fullscreen: false, ssd: !self.decorated, ..self }
    }

    /// This window taken out of its space: it is neither maximized nor
    /// fullscreen any more, and no geometry is kept for it.
    pub open spec fn unmapped(self) -> Window {
        Window {
            space: None,
            maximized: false,
            fullscreen: false,
            old_geometry: OldGeometry(None),
            ..self
        }
    }

    /// Where the window stands between map and unmap.
    pub open spec fn stage(self) -> WindowStage {
        if self.space is None {
            WindowStage::Unmapped
        } else if self.fullscreen {
            WindowStage::Fullscreen
        } else if self.maximized {
            WindowStage::Maximized
        } else {
            WindowStage::Mapped
        }
    }

    /// This window with another location.
    pub open spec fn moved_to(self, loc: Point) -> Window {
        Window { geometry: Rectangle { loc, size: self.geometry.size }, ..self }
    }

    /// This window with another resize state.
    pub open spec fn with_resize(self, resize_state: ResizeState) -> Window {
        Window { data: SurfaceData { geometry: self.data.geometry, resize_state }, ..self }
    }

    /// An unmapped, undecorated window at the origin.
    pub fn new(id: u64, kind: WindowKind, client: u64, app_id: String, size: Size) -> (w: Window)
        ensures
            w.id == id,
            w.kind == kind,
            w.client == client,
            w.app_id == app_id,
            w.space is None,
            w.geometry == (Rectangle { loc: Point { x: 0, y: 0 }, size }),
            !w.decorated && !w.ssd && !w.maximized && !w.fullscreen && !w.override_redirect,
            w.old_geometry.0 is None,
            w.alive,
            w.data.geometry is None,
            w.data.resize_state == ResizeState::NotResizing,
    {
        Window {
            id,
            kind,
            client,
            app_id,
            space: None,
            geometry: Rectangle::new(Point::origin(), size),
            decorated: false,
            ssd: false,
            maximized: false,
            fullscreen: false,
            old_geometry: OldGeometry::empty(),
            override_redirect: false,
            alive: true,
            data: SurfaceData::new(),
        }
    }

    /// The reference by which the window is handed about.
    pub open spec fn handle_of(self) -> WorkspaceWindow {
        match self.kind {
            WindowKind::Native { surface } => WorkspaceWindow::ApplicationWindow(
                WindowHandle {
                    id: self.id,
                    surface: WindowSurface::Wayland(
                        SurfaceHandle { id: surface, client: self.client, alive: self.alive },
                    ),
                },
            ),
            WindowKind::Legacy { surface } => WorkspaceWindow::ApplicationWindow(
                WindowHandle {
                    id: self.id,
                    surface: WindowSurface::X11(
                        X11Handle {
                            window: self.id,
                            surface: match surface {
                                Some(s) => Some(
                                    SurfaceHandle { id: s, client: self.client, alive: self.alive },
                                ),
                                None => None,
                            },
                            alive: self.alive,
                        },
                    ),
                },
            ),
            WindowKind::Overlay => WorkspaceWindow::EguiWindow(EguiWindow { id: self.id }),
        }
    }

    /// The reference by which the window is handed about.
    pub fn handle(&self) -> (h: WorkspaceWindow)
        ensures
            h == self.handle_of(),
    {
        match self.kind {
            WindowKind::Native { surface } => WorkspaceWindow::ApplicationWindow(
                WindowHandle {
                    id: self.id,
                    surface: WindowSurface::Wayland(
                        SurfaceHandle { id: surface, client: self.client, alive: self.alive },
                    ),
                },
            ),
            WindowKind::Legacy { surface } => WorkspaceWindow::ApplicationWindow(
                WindowHandle {
                    id: self.id,
                    surface: WindowSurface::X11(
                        X11Handle {
                            window: self.id,
                            surface: match surface {
                                Some(s) => Some(
                                    SurfaceHandle { id: s, client: self.client, alive: self.alive },
                                ),
                                None => None,
                            },
                            alive: self.alive,
                        },
                    ),
                },
            ),
            WindowKind::Overlay => WorkspaceWindow::EguiWindow(EguiWindow { id: self.id }),
        }
    }

    /// Where the window stands between map and unmap.
    pub fn state(&self) -> (s: WindowStage)
        ensures
            s == self.stage(),
    {
        if self.space.is_none() {
            WindowStage::Unmapped
        } else if self.fullscreen {
            WindowStage::Fullscreen
        } else if self.maximized {
            WindowStage::Maximized
        } else {
            WindowStage::Mapped
        }
    }

    /// Whether the window is backed by the legacy protocol.
    pub fn is_x11(&self) -> (b: bool)
        ensures
            b == (self.kind is Legacy),
    {
        match self.kind {
            WindowKind::Legacy { .. } => true,
            _ => false,
        }
    }

    /// The native surface behind the window.
    pub fn wl_surface(&self) -> (s: Option<u64>)
        ensures
            s == self.kind.root_surface(),
    {
        match self.kind {
            WindowKind::Native { surface } => Some(surface),
            WindowKind::Legacy { surface } => surface,
            WindowKind::Overlay => None,
        }
    }
}

/// Maximizing a window and taking that back gives it the geometry that it
/// had, and gives back the window itself where it was not maximized before.
pub proof fn lemma_maximize_round_trip(window: Window, area: Rectangle)
    ensures
        window.maximized_to(area).unmaximized().geometry == window.geometry,
        !window.maximized && window.old_geometry.0 is None ==> window.maximized_to(
            area,
        ).unmaximized() == window,
{
}

/// The steps of a window between map and unmap: a mapped window is
/// maximized and comes back, is made fullscreen and comes back, and from
/// wherever it stands an unmap leaves it unmapped.
pub proof fn lemma_window_stages(window: Window, area: Rectangle, s: int)
    ensures
        window.unmapped().stage() == WindowStage::Unmapped,
        window.unmapped().mapped_at(s, area).stage() == WindowStage::Mapped,
        window.stage() == WindowStage::Mapped ==> {
            &&& window.maximized_to(area).stage() == WindowStage::Maximized
            &&& window.maximized_to(area).unmaximized().stage() == WindowStage::Mapped
            &&& window.fullscreened(area).stage() == WindowStage::Fullscreen
            &&& window.fullscreened(area).unfullscreened().stage() == WindowStage::Mapped
        },
{
}

/// After the release of a grab and the commit that follows it, no resize is
/// under way, whatever went on before.
pub proof fn lemma_resize_ends(state: ResizeState)
    ensures
        state.after_release().after_commit() == ResizeState::NotResizing,
        ResizeState::NotResizing.after_commit() == ResizeState::NotResizing,
{
}

} // verus!
