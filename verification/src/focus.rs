//! Focus targets: what keyboard, pointer and touch input can be sent to.
//!
//! A target owns nothing. It is a typed reference to a resource, carrying the
//! identifiers by which the resource is found and whether it is still alive.

use vstd::prelude::*;

verus! {

/// A reference to a surface of the native protocol.
#[derive(Clone, Copy, Debug, PartialEq, Eq, Structural)]
pub struct SurfaceHandle {
    pub id: u64,
    pub client: u64,
    pub alive: bool,
}

/// A reference to a surface of the legacy protocol.
#[derive(Clone, Copy, Debug, PartialEq, Eq)]
pub struct X11Handle {
    pub window: u64,
    /// The native surface that carries the window's content, once there is one.
    pub surface: Option<SurfaceHandle>,
    pub alive: bool,
}

/// What a window is made of.
#[derive(Clone, Copy, Debug, PartialEq, Eq)]
pub enum WindowSurface {
    Wayland(SurfaceHandle),
    X11(X11Handle),
}

/// A reference to an application's window.
#[derive(Clone, Copy, Debug, PartialEq, Eq)]
pub struct WindowHandle {
    pub id: u64,
    pub surface: WindowSurface,
}

/// A reference to a window of the overlay user interface.
#[derive(Clone, Copy, Debug, PartialEq, Eq, Structural)]
pub struct EguiWindow {
    pub id: u64,
}

/// A reference to the decorations that the server draws round a window.
#[derive(Clone, Copy, Debug, PartialEq, Eq)]
pub struct SSD {
    pub window: WindowHandle,
}

/// A reference to a popup.
#[derive(Clone, Copy, Debug, PartialEq, Eq, Structural)]
pub enum PopupHandle {
    Xdg(SurfaceHandle),
    InputMethod(SurfaceHandle),
}

/// What can hold the keyboard focus.
#[derive(Clone, Copy, Debug, PartialEq, Eq)]
pub enum KeyboardFocusTarget {
    Window(WindowHandle),
    LayerSurface(SurfaceHandle),
    Popup(PopupHandle),
    LockScreen(SurfaceHandle),
    Egui(EguiWindow),
}

/// What can hold the pointer or a touch point.
#[derive(Clone, Copy, Debug, PartialEq, Eq)]
pub enum PointerFocusTarget {
    WlSurface(SurfaceHandle),
    X11Surface(X11Handle),
    SSD(SSD),
    Egui(EguiWindow),
}

/// A window of a space, as the shell hands it about.
#[derive(Clone, Copy, Debug, PartialEq, Eq)]
pub enum WorkspaceWindow {
    ApplicationWindow(WindowHandle),
    EguiWindow(EguiWindow),
}

/// The failure of turning a focus target that is no window into a window.
#[derive(Clone, Copy, Debug, PartialEq, Eq, Structural)]
pub struct NotAWindow;

/// What a pointer can tell its target.
#[derive(Clone, Copy, Debug, PartialEq, Eq, Structural)]
pub enum PointerEventKind {
    Enter,
    Motion,
    RelativeMotion,
    Button,
    Axis,
    Frame,
    Leave,
    GestureSwipeBegin,
    GestureSwipeUpdate,
    GestureSwipeEnd,
    GesturePinchBegin,
    GesturePinchUpdate,
    GesturePinchEnd,
    GestureHoldBegin,
    GestureHoldEnd,
}

/// What a keyboard can tell its target.
#[derive(Clone, Copy, Debug, PartialEq, Eq, Structural)]
pub enum KeyboardEventKind {
    Enter,
    Leave,
    Key,
    Modifiers,
}

/// What a touch screen can tell its target.
#[derive(Clone, Copy, Debug, PartialEq, Eq, Structural)]
pub enum TouchEventKind {
    Down,
    Up,
    Motion,
    Frame,
    Cancel,
    Shape,
    Orientation,
}

/// The concrete receiver of an event.
#[derive(Clone, Copy, Debug, PartialEq, Eq, Structural)]
pub enum Route {
    /// The native surface with this identifier.
    Surface(u64),
    /// The legacy window with this identifier.
    X11(u64),
    /// The decorations of the window with this identifier.
    Decoration(u64),
    /// The overlay window with this identifier.
    Overlay(u64),
    /// Nobody: the event is dropped.
    Nowhere,
}

impl X11Handle {
    /// This handle, its resource destroyed.
    pub open spec fn killed(self) -> X11Handle {
        X11Handle {
            window: self.window,
            surface: match self.surface {
                Some(s) => Some(SurfaceHandle { alive: false, ..s }),
                None => None,
            },
            alive: false,
        }
    }
}

impl WindowSurface {
    pub open spec fn is_alive(self) -> bool {
        match self {
            WindowSurface::Wayland(s) => s.alive,
            WindowSurface::X11(x) => x.alive,
        }
    }

    /// The native surface behind the window.
    pub open spec fn surface(self) -> Option<SurfaceHandle> {
        match self {
            WindowSurface::Wayland(s) => Some(s),
            WindowSurface::X11(x) => x.surface,
        }
    }

    /// The receiver of what is sent to the window.
    pub open spec fn receiver(self) -> Route {
        match self {
            WindowSurface::Wayland(s) => Route::Surface(s.id),
            WindowSurface::X11(x) => Route::X11(x.window),
        }
    }

    /// This handle, its resource destroyed.
    pub open spec fn killed(self) -> WindowSurface {
        match self {
            WindowSurface::Wayland(s) => WindowSurface::Wayland(
                SurfaceHandle { alive: false, ..s },
            ),
            WindowSurface::X11(x) => WindowSurface::X11(x.killed()),
        }
    }
}

impl WindowHandle {
    /// Whether the window's resource still exists.
    pub fn alive(&self) -> (b: bool)
        ensures
            b == self.surface.is_alive(),
    {
        match self.surface {
            WindowSurface::Wayland(s) => s.alive,
            WindowSurface::X11(x) => x.alive,
        }
    }

    /// The native surface behind the window.
    pub fn wl_surface(&self) -> (s: Option<SurfaceHandle>)
        ensures
            s == self.surface.surface(),
    {
        match self.surface {
            WindowSurface::Wayland(s) => Some(s),
            WindowSurface::X11(x) => x.surface,
        }
    }

    /// Whether the window is backed by the legacy protocol.
    pub fn is_x11(&self) -> (b: bool)
        ensures
            b == (self.surface is X11),
    {
        match self.surface {
            WindowSurface::X11(_) => true,
            WindowSurface::Wayland(_) => false,
        }
    }
}

impl PopupHandle {
    /// The surface of the popup.
    pub open spec fn surface(self) -> SurfaceHandle {
        match self {
            PopupHandle::Xdg(s) => s,
            PopupHandle::InputMethod(s) => s,
        }
    }

    /// The surface of the popup.
    pub fn wl_surface(&self) -> (s: SurfaceHandle)
        ensures
            s == self.surface(),
    {
        match self {
            PopupHandle::Xdg(s) => *s,
            PopupHandle::InputMethod(s) => *s,
        }
    }
}

impl KeyboardFocusTarget {
    /// The underlying resource has not been destroyed.
    pub open spec fn is_alive(self) -> bool {
        match self {
            KeyboardFocusTarget::Window(w) => w.surface.is_alive(),
            KeyboardFocusTarget::LayerSurface(l) => l.alive,
            KeyboardFocusTarget::Popup(p) => p.surface().alive,
            KeyboardFocusTarget::LockScreen(l) => l.alive,
            KeyboardFocusTarget::Egui(_) => true,
        }
    }

    /// The native surface behind the target.
    pub open spec fn surface(self) -> Option<SurfaceHandle> {
        match self {
            KeyboardFocusTarget::Window(w) => w.surface.surface(),
            KeyboardFocusTarget::LayerSurface(l) => Some(l),
            KeyboardFocusTarget::Popup(p) => Some(p.surface()),
            KeyboardFocusTarget::LockScreen(l) => Some(l),
            KeyboardFocusTarget::Egui(_) => None,
        }
    }

    /// The concrete receiver behind the target.
    pub open spec fn receiver(self) -> Route {
        match self {
            KeyboardFocusTarget::Window(w) => w.surface.receiver(),
            KeyboardFocusTarget::LayerSurface(l) => Route::Surface(l.id),
            KeyboardFocusTarget::Popup(p) => Route::Surface(p.surface().id),
            KeyboardFocusTarget::LockScreen(l) => Route::Surface(l.id),
            KeyboardFocusTarget::Egui(e) => Route::Overlay(e.id),
        }
    }

    /// Where a keyboard event for the target goes: to the receiver behind
    /// it, whatever the event; nowhere once the target is not alive.
    pub open spec fn route(self, kind: KeyboardEventKind) -> Route {
        if self.is_alive() {
            self.receiver()
        } else {
            Route::Nowhere
        }
    }

    /// The window that the target stands for. Only a target that a window
    /// backs stands for one: the overlay, a layer surface, a popup and a lock
    /// screen do not.
    pub open spec fn window(self) -> Result<WorkspaceWindow, NotAWindow> {
        match self {
            KeyboardFocusTarget::Window(w) => Ok(WorkspaceWindow::ApplicationWindow(w)),
            _ => Err(NotAWindow),
        }
    }

    /// The target that a window makes.
    pub open spec fn of_window(window: WorkspaceWindow) -> KeyboardFocusTarget {
        match window {
            WorkspaceWindow::ApplicationWindow(w) => KeyboardFocusTarget::Window(w),
            WorkspaceWindow::EguiWindow(e) => KeyboardFocusTarget::Egui(e),
        }
    }

    /// The pointer target for the same resource.
    pub open spec fn pointer_target(self) -> PointerFocusTarget {
        match self {
            KeyboardFocusTarget::Window(w) => match w.surface {
                WindowSurface::Wayland(s) => PointerFocusTarget::WlSurface(s),
                WindowSurface::X11(x) => PointerFocusTarget::X11Surface(x),
            },
            KeyboardFocusTarget::LayerSurface(l) => PointerFocusTarget::WlSurface(l),
            KeyboardFocusTarget::Popup(p) => PointerFocusTarget::WlSurface(p.surface()),
            KeyboardFocusTarget::LockScreen(l) => PointerFocusTarget::WlSurface(l),
            KeyboardFocusTarget::Egui(e) => PointerFocusTarget::Egui(e),
        }
    }

    /// This target, its resource destroyed. The overlay is never destroyed.
    pub open spec fn killed(self) -> KeyboardFocusTarget {
        match self {
            KeyboardFocusTarget::Window(w) => KeyboardFocusTarget::Window(
                WindowHandle { id: w.id, surface: w.surface.killed() },
            ),
            KeyboardFocusTarget::LayerSurface(l) => KeyboardFocusTarget::LayerSurface(
                SurfaceHandle { alive: false, ..l },
            ),
            KeyboardFocusTarget::Popup(PopupHandle::Xdg(s)) => KeyboardFocusTarget::Popup(
                PopupHandle::Xdg(SurfaceHandle { alive: false, ..s }),
            ),
            KeyboardFocusTarget::Popup(PopupHandle::InputMethod(s)) => KeyboardFocusTarget::Popup(
                PopupHandle::InputMethod(SurfaceHandle { alive: false, ..s }),
            ),
            KeyboardFocusTarget::LockScreen(l) => KeyboardFocusTarget::LockScreen(
                SurfaceHandle { alive: false, ..l },
            ),
            KeyboardFocusTarget::Egui(e) => KeyboardFocusTarget::Egui(e),
        }
    }

    /// Whether the underlying resource still exists.
    pub fn alive(&self) -> (b: bool)
        ensures
            b == self.is_alive(),
    {
        match self {
            KeyboardFocusTarget::Window(w) => w.alive(),
            KeyboardFocusTarget::LayerSurface(l) => l.alive,
            KeyboardFocusTarget::Popup(p) => p.wl_surface().alive,
            KeyboardFocusTarget::LockScreen(l) => l.alive,
            KeyboardFocusTarget::Egui(_) => true,
        }
    }

    /// The native surface behind the target.
    pub fn wl_surface(&self) -> (s: Option<SurfaceHandle>)
        ensures
            s == self.surface(),
    {
        match self {
            KeyboardFocusTarget::Window(w) => w.wl_surface(),
            KeyboardFocusTarget::LayerSurface(l) => Some(*l),
            KeyboardFocusTarget::Popup(p) => Some(p.wl_surface()),
            KeyboardFocusTarget::LockScreen(l) => Some(*l),
            KeyboardFocusTarget::Egui(_) => None,
        }
    }

    /// Whether the target belongs to the client `client`.
    pub fn same_client_as(&self, client: u64) -> (b: bool)
        ensures
            b == (self.surface() matches Some(s) && s.client == client),
    {
        match self.wl_surface() {
            Some(s) => s.client == client,
            None => false,
        }
    }

    /// Where the coming of the keyboard focus goes: to the receiver behind a live
    /// target, nowhere once the target is not alive.
    pub fn enter(&self) -> (r: Route)
        ensures
            r == self.route(KeyboardEventKind::Enter),
            self.is_alive() ==> r == self.receiver(),
            !self.is_alive() ==> r == Route::Nowhere,
    {
        self.dispatch(KeyboardEventKind::Enter)
    }

    /// Where the going of the keyboard focus goes: to the receiver behind a live
    /// target, nowhere once the target is not alive.
    pub fn leave(&self) -> (r: Route)
        ensures
            r == self.route(KeyboardEventKind::Leave),
            self.is_alive() ==> r == self.receiver(),
            !self.is_alive() ==> r == Route::Nowhere,
    {
        self.dispatch(KeyboardEventKind::Leave)
    }

    /// Where a press or release of a key goes: to the receiver behind a live
    /// target, nowhere once the target is not alive.
    pub fn key(&self) -> (r: Route)
        ensures
            r == self.route(KeyboardEventKind::Key),
            self.is_alive() ==> r == self.receiver(),
            !self.is_alive() ==> r == Route::Nowhere,
    {
        self.dispatch(KeyboardEventKind::Key)
    }

    /// Where a change of the modifiers goes: to the receiver behind a live target,
    /// nowhere once the target is not alive.
    pub fn modifiers(&self) -> (r: Route)
        ensures
            r == self.route(KeyboardEventKind::Modifiers),
            self.is_alive() ==> r == self.receiver(),
            !self.is_alive() ==> r == Route::Nowhere,
    {
        self.dispatch(KeyboardEventKind::Modifiers)
    }

    /// Where a keyboard event of kind `kind` for this target goes.
    pub fn dispatch(&self, kind: KeyboardEventKind) -> (r: Route)
        ensures
            r == self.route(kind),
            !self.is_alive() ==> r == Route::Nowhere,
    {
        if !self.alive() {
            return Route::Nowhere;
        }
        match self {
            KeyboardFocusTarget::Window(w) => match w.surface {
                WindowSurface::Wayland(s) => Route::Surface(s.id),
                WindowSurface::X11(x) => Route::X11(x.window),
            },
            KeyboardFocusTarget::LayerSurface(l) => Route::Surface(l.id),
            KeyboardFocusTarget::Popup(p) => Route::Surface(p.wl_surface().id),
            KeyboardFocusTarget::LockScreen(l) => Route::Surface(l.id),
            KeyboardFocusTarget::Egui(e) => Route::Overlay(e.id),
        }
    }

    /// The target that `window` makes.
    pub fn from_window(window: WorkspaceWindow) -> (t: KeyboardFocusTarget)
        ensures
            t == KeyboardFocusTarget::of_window(window),
            window is ApplicationWindow ==> t.window() == Ok::<WorkspaceWindow, NotAWindow>(
                window,
            ),
            window is EguiWindow ==> t.window() is Err,
    {
        match window {
            WorkspaceWindow::ApplicationWindow(w) => KeyboardFocusTarget::Window(w),
            WorkspaceWindow::EguiWindow(e) => KeyboardFocusTarget::Egui(e),
        }
    }

    /// The window that the target stands for; the overlay, a layer surface,
    /// a popup and a lock screen are no windows.
    pub fn try_into_window(self) -> (r: Result<WorkspaceWindow, NotAWindow>)
        ensures
            r == self.window(),
            r is Ok <==> self is Window,
            r matches Ok(w) ==> KeyboardFocusTarget::of_window(w) == self,
    {
        match self {
            KeyboardFocusTarget::Window(w) => Ok(WorkspaceWindow::ApplicationWindow(w)),
            _ => Err(NotAWindow),
        }
    }

    /// The pointer target for the same resource.
    pub fn into_pointer_target(self) -> (t: PointerFocusTarget)
        ensures
            t == self.pointer_target(),
            t.is_alive() == self.is_alive(),
    {
        match self {
            KeyboardFocusTarget::Window(w) => match w.surface {
                WindowSurface::Wayland(s) => PointerFocusTarget::WlSurface(s),
                WindowSurface::X11(x) => PointerFocusTarget::X11Surface(x),
            },
            KeyboardFocusTarget::LayerSurface(l) => PointerFocusTarget::WlSurface(l),
            KeyboardFocusTarget::Popup(p) => PointerFocusTarget::WlSurface(p.wl_surface()),
            KeyboardFocusTarget::LockScreen(l) => PointerFocusTarget::WlSurface(l),
            KeyboardFocusTarget::Egui(e) => PointerFocusTarget::Egui(e),
        }
    }

    /// This target after its resource was destroyed.
    pub fn mark_dead(self) -> (t: KeyboardFocusTarget)
        ensures
            t == self.killed(),
            !(self is Egui) ==> !t.is_alive(),
            t.receiver() == self.receiver(),
    {
        match self {
            KeyboardFocusTarget::Window(w) => {
                let surface = match w.surface {
                    WindowSurface::Wayland(s) => WindowSurface::Wayland(
                        SurfaceHandle { id: s.id, client: s.client, alive: false },
                    ),
                    WindowSurface::X11(x) => WindowSurface::X11(
                        X11Handle {
                            window: x.window,
                            surface: match x.surface {
                                Some(s) => Some(
                                    SurfaceHandle { id: s.id, client: s.client, alive: false },
                                ),
                                None => None,
                            },
                            alive: false,
                        },
                    ),
                };
                KeyboardFocusTarget::Window(WindowHandle { id: w.id, surface })
            },
            KeyboardFocusTarget::LayerSurface(l) => KeyboardFocusTarget::LayerSurface(
                SurfaceHandle { id: l.id, client: l.client, alive: false },
            ),
            KeyboardFocusTarget::Popup(PopupHandle::Xdg(s)) => KeyboardFocusTarget::Popup(
                PopupHandle::Xdg(SurfaceHandle { id: s.id, client: s.client, alive: false }),
            ),
            KeyboardFocusTarget::Popup(PopupHandle::InputMethod(s)) => KeyboardFocusTarget::Popup(
                PopupHandle::InputMethod(
                    SurfaceHandle { id: s.id, client: s.client, alive: false },
                ),
            ),
            KeyboardFocusTarget::LockScreen(l) => KeyboardFocusTarget::LockScreen(
                SurfaceHandle { id: l.id, client: l.client, alive: false },
            ),
            KeyboardFocusTarget::Egui(e) => KeyboardFocusTarget::Egui(e),
        }
    }
}

impl PointerFocusTarget {
    /// The underlying resource has not been destroyed.
    pub open spec fn is_alive(self) -> bool {
        match self {
            PointerFocusTarget::WlSurface(s) => s.alive,
            PointerFocusTarget::X11Surface(x) => x.alive,
            PointerFocusTarget::SSD(d) => d.window.surface.is_alive(),
            PointerFocusTarget::Egui(_) => true,
        }
    }

    /// The native surface behind the target. Decorations and the overlay
    /// have none.
    pub open spec fn surface(self) -> Option<SurfaceHandle> {
        match self {
            PointerFocusTarget::WlSurface(s) => Some(s),
            PointerFocusTarget::X11Surface(x) => x.surface,
            PointerFocusTarget::SSD(_) => None,
            PointerFocusTarget::Egui(_) => None,
        }
    }

    /// The client that the target belongs to.
    pub open spec fn client(self) -> Option<u64> {
        match self {
            PointerFocusTarget::WlSurface(s) => Some(s.client),
            PointerFocusTarget::X11Surface(x) => match x.surface {
                Some(s) => Some(s.client),
                None => None,
            },
            PointerFocusTarget::SSD(d) => match d.window.surface.surface() {
                Some(s) => Some(s.client),
                None => None,
            },
            PointerFocusTarget::Egui(_) => None,
        }
    }

    /// The concrete receiver behind the target.
    pub open spec fn receiver(self) -> Route {
        match self {
            PointerFocusTarget::WlSurface(s) => Route::Surface(s.id),
            PointerFocusTarget::X11Surface(x) => Route::X11(x.window),
            PointerFocusTarget::SSD(d) => Route::Decoration(d.window.id),
            PointerFocusTarget::Egui(e) => Route::Overlay(e.id),
        }
    }

    /// Where a pointer event for the target goes: to the receiver behind it,
    /// whatever the event; nowhere once the target is not alive.
    pub open spec fn pointer_route(self, kind: PointerEventKind) -> Route {
        if self.is_alive() {
            self.receiver()
        } else {
            Route::Nowhere
        }
    }

    /// Where a touch event for the target goes: as a pointer event does, but
    /// that the overlay takes no touch input and lets the event pass.
    pub open spec fn touch_route(self, kind: TouchEventKind) -> Route {
        if self.is_alive() && !(self is Egui) {
            self.receiver()
        } else {
            Route::Nowhere
        }
    }

    /// Whether the underlying resource still exists.
    pub fn alive(&self) -> (b: bool)
        ensures
            b == self.is_alive(),
    {
        match self {
            PointerFocusTarget::WlSurface(s) => s.alive,
            PointerFocusTarget::X11Surface(x) => x.alive,
            PointerFocusTarget::SSD(d) => d.window.alive(),
            PointerFocusTarget::Egui(_) => true,
        }
    }

    /// The native surface behind the target.
    pub fn wl_surface(&self) -> (s: Option<SurfaceHandle>)
        ensures
            s == self.surface(),
    {
        match self {
            PointerFocusTarget::WlSurface(s) => Some(*s),
            PointerFocusTarget::X11Surface(x) => x.surface,
            PointerFocusTarget::SSD(_) => None,
            PointerFocusTarget::Egui(_) => None,
        }
    }

    /// Whether the target belongs to the client `client`.
    pub fn same_client_as(&self, client: u64) -> (b: bool)
        ensures
            b == (self.client() == Some(client)),
    {
        match self {
            PointerFocusTarget::WlSurface(s) => s.client == client,
            PointerFocusTarget::X11Surface(x) => match x.surface {
                Some(s) => s.client == client,
                None => false,
            },
            PointerFocusTarget::SSD(d) => match d.window.wl_surface() {
                Some(s) => s.client == client,
                None => false,
            },
            PointerFocusTarget::Egui(_) => false,
        }
    }

    /// The target for a native surface.
    pub fn from_surface(surface: SurfaceHandle) -> (t: PointerFocusTarget)
        ensures
            t == PointerFocusTarget::WlSurface(surface),
    {
        PointerFocusTarget::WlSurface(surface)
    }

    /// The target for the surface of a popup.
    pub fn from_popup(popup: PopupHandle) -> (t: PointerFocusTarget)
        ensures
            t == PointerFocusTarget::WlSurface(popup.surface()),
    {
        PointerFocusTarget::WlSurface(popup.wl_surface())
    }

    /// The target for a legacy surface.
    pub fn from_x11(surface: X11Handle) -> (t: PointerFocusTarget)
        ensures
            t == PointerFocusTarget::X11Surface(surface),
    {
        PointerFocusTarget::X11Surface(surface)
    }

    /// Where the pointer's entering goes: to the receiver behind a live target,
    /// nowhere once the target is not alive.
    pub fn enter(&self) -> (r: Route)
        ensures
            r == self.pointer_route(PointerEventKind::Enter),
            self.is_alive() ==> r == self.receiver(),
            !self.is_alive() ==> r == Route::Nowhere,
    {
        self.dispatch(PointerEventKind::Enter)
    }

    /// Where a motion of the pointer goes: to the receiver behind a live target,
    /// nowhere once the target is not alive.
    pub fn motion(&self) -> (r: Route)
        ensures
            r == self.pointer_route(PointerEventKind::Motion),
            self.is_alive() ==> r == self.receiver(),
            !self.is_alive() ==> r == Route::Nowhere,
    {
        self.dispatch(PointerEventKind::Motion)
    }

    /// Where a relative motion of the pointer goes: to the receiver behind a live
    /// target, nowhere once the target is not alive.
    pub fn relative_motion(&self) -> (r: Route)
        ensures
            r == self.pointer_route(PointerEventKind::RelativeMotion),
            self.is_alive() ==> r == self.receiver(),
            !self.is_alive() ==> r == Route::Nowhere,
    {
        self.dispatch(PointerEventKind::RelativeMotion)
    }

    /// Where a press or release of a button goes: to the receiver behind a live
    /// target, nowhere once the target is not alive.
    pub fn button(&self) -> (r: Route)
        ensures
            r == self.pointer_route(PointerEventKind::Button),
            self.is_alive() ==> r == self.receiver(),
            !self.is_alive() ==> r == Route::Nowhere,
    {
        self.dispatch(PointerEventKind::Button)
    }

    /// Where a turn of the wheel goes: to the receiver behind a live target,
    /// nowhere once the target is not alive.
    pub fn axis(&self) -> (r: Route)
        ensures
            r == self.pointer_route(PointerEventKind::Axis),
            self.is_alive() ==> r == self.receiver(),
            !self.is_alive() ==> r == Route::Nowhere,
    {
        self.dispatch(PointerEventKind::Axis)
    }

    /// Where the end of a group of pointer events goes: to the receiver behind a
    /// live target, nowhere once the target is not alive.
    pub fn frame(&self) -> (r: Route)
        ensures
            r == self.pointer_route(PointerEventKind::Frame),
            self.is_alive() ==> r == self.receiver(),
            !self.is_alive() ==> r == Route::Nowhere,
    {
        self.dispatch(PointerEventKind::Frame)
    }

    /// Where the pointer's leaving goes: to the receiver behind a live target,
    /// nowhere once the target is not alive.
    pub fn leave(&self) -> (r: Route)
        ensures
            r == self.pointer_route(PointerEventKind::Leave),
            self.is_alive() ==> r == self.receiver(),
            !self.is_alive() ==> r == Route::Nowhere,
    {
        self.dispatch(PointerEventKind::Leave)
    }

    /// Where the start of a swipe goes: to the receiver behind a live target,
    /// nowhere once the target is not alive.
    pub fn gesture_swipe_begin(&self) -> (r: Route)
        ensures
            r == self.pointer_route(PointerEventKind::GestureSwipeBegin),
            self.is_alive() ==> r == self.receiver(),
            !self.is_alive() ==> r == Route::Nowhere,
    {
        self.dispatch(PointerEventKind::GestureSwipeBegin)
    }

    /// Where the progress of a swipe goes: to the receiver behind a live target,
    /// nowhere once the target is not alive.
    pub fn gesture_swipe_update(&self) -> (r: Route)
        ensures
            r == self.pointer_route(PointerEventKind::GestureSwipeUpdate),
            self.is_alive() ==> r == self.receiver(),
            !self.is_alive() ==> r == Route::Nowhere,
    {
        self.dispatch(PointerEventKind::GestureSwipeUpdate)
    }

    /// Where the end of a swipe goes: to the receiver behind a live target,
    /// nowhere once the target is not alive.
    pub fn gesture_swipe_end(&self) -> (r: Route)
        ensures
            r == self.pointer_route(PointerEventKind::GestureSwipeEnd),
            self.is_alive() ==> r == self.receiver(),
            !self.is_alive() ==> r == Route::Nowhere,
    {
        self.dispatch(PointerEventKind::GestureSwipeEnd)
    }

    /// Where the start of a pinch goes: to the receiver behind a live target,
    /// nowhere once the target is not alive.
    pub fn gesture_pinch_begin(&self) -> (r: Route)
        ensures
            r == self.pointer_route(PointerEventKind::GesturePinchBegin),
            self.is_alive() ==> r == self.receiver(),
            !self.is_alive() ==> r == Route::Nowhere,
    {
        self.dispatch(PointerEventKind::GesturePinchBegin)
    }

    /// Where the progress of a pinch goes: to the receiver behind a live target,
    /// nowhere once the target is not alive.
    pub fn gesture_pinch_update(&self) -> (r: Route)
        ensures
            r == self.pointer_route(PointerEventKind::GesturePinchUpdate),
            self.is_alive() ==> r == self.receiver(),
            !self.is_alive() ==> r == Route::Nowhere,
    {
        self.dispatch(PointerEventKind::GesturePinchUpdate)
    }

    /// Where the end of a pinch goes: to the receiver behind a live target,
    /// nowhere once the target is not alive.
    pub fn gesture_pinch_end(&self) -> (r: Route)
        ensures
            r == self.pointer_route(PointerEventKind::GesturePinchEnd),
            self.is_alive() ==> r == self.receiver(),
            !self.is_alive() ==> r == Route::Nowhere,
    {
        self.dispatch(PointerEventKind::GesturePinchEnd)
    }

    /// Where the start of a hold goes: to the receiver behind a live target,
    /// nowhere once the target is not alive.
    pub fn gesture_hold_begin(&self) -> (r: Route)
        ensures
            r == self.pointer_route(PointerEventKind::GestureHoldBegin),
            self.is_alive() ==> r == self.receiver(),
            !self.is_alive() ==> r == Route::Nowhere,
    {
        self.dispatch(PointerEventKind::GestureHoldBegin)
    }

    /// Where the end of a hold goes: to the receiver behind a live target, nowhere
    /// once the target is not alive.
    pub fn gesture_hold_end(&self) -> (r: Route)
        ensures
            r == self.pointer_route(PointerEventKind::GestureHoldEnd),
            self.is_alive() ==> r == self.receiver(),
            !self.is_alive() ==> r == Route::Nowhere,
    {
        self.dispatch(PointerEventKind::GestureHoldEnd)
    }

    /// Where a finger's coming down goes: to the receiver behind a live target
    /// that takes touch input, nowhere for the overlay and once the target is not
    /// alive.
    pub fn down(&self) -> (r: Route)
        ensures
            r == self.touch_route(TouchEventKind::Down),
            self.is_alive() && !(self is Egui) ==> r == self.receiver(),
            !self.is_alive() || self is Egui ==> r == Route::Nowhere,
    {
        self.dispatch_touch(TouchEventKind::Down)
    }

    /// Where a finger's lifting goes: to the receiver behind a live target that
    /// takes touch input, nowhere for the overlay and once the target is not
    /// alive.
    pub fn up(&self) -> (r: Route)
        ensures
            r == self.touch_route(TouchEventKind::Up),
            self.is_alive() && !(self is Egui) ==> r == self.receiver(),
            !self.is_alive() || self is Egui ==> r == Route::Nowhere,
    {
        self.dispatch_touch(TouchEventKind::Up)
    }

    /// Where a motion of a finger goes: to the receiver behind a live target that
    /// takes touch input, nowhere for the overlay and once the target is not
    /// alive.
    pub fn touch_motion(&self) -> (r: Route)
        ensures
            r == self.touch_route(TouchEventKind::Motion),
            self.is_alive() && !(self is Egui) ==> r == self.receiver(),
            !self.is_alive() || self is Egui ==> r == Route::Nowhere,
    {
        self.dispatch_touch(TouchEventKind::Motion)
    }

    /// Where the end of a group of touch events goes: to the receiver behind a
    /// live target that takes touch input, nowhere for the overlay and once the
    /// target is not alive.
    pub fn touch_frame(&self) -> (r: Route)
        ensures
            r == self.touch_route(TouchEventKind::Frame),
            self.is_alive() && !(self is Egui) ==> r == self.receiver(),
            !self.is_alive() || self is Egui ==> r == Route::Nowhere,
    {
        self.dispatch_touch(TouchEventKind::Frame)
    }

    /// Where the cancelling of a touch goes: to the receiver behind a live target
    /// that takes touch input, nowhere for the overlay and once the target is not
    /// alive.
    pub fn cancel(&self) -> (r: Route)
        ensures
            r == self.touch_route(TouchEventKind::Cancel),
            self.is_alive() && !(self is Egui) ==> r == self.receiver(),
            !self.is_alive() || self is Egui ==> r == Route::Nowhere,
    {
        self.dispatch_touch(TouchEventKind::Cancel)
    }

    /// Where the shape of a touch goes: to the receiver behind a live target that
    /// takes touch input, nowhere for the overlay and once the target is not
    /// alive.
    pub fn shape(&self) -> (r: Route)
        ensures
            r == self.touch_route(TouchEventKind::Shape),
            self.is_alive() && !(self is Egui) ==> r == self.receiver(),
            !self.is_alive() || self is Egui ==> r == Route::Nowhere,
    {
        self.dispatch_touch(TouchEventKind::Shape)
    }

    /// Where the orientation of a touch goes: to the receiver behind a live target
    /// that takes touch input, nowhere for the overlay and once the target is not
    /// alive.
    pub fn orientation(&self) -> (r: Route)
        ensures
            r == self.touch_route(TouchEventKind::Orientation),
            self.is_alive() && !(self is Egui) ==> r == self.receiver(),
            !self.is_alive() || self is Egui ==> r == Route::Nowhere,
    {
        self.dispatch_touch(TouchEventKind::Orientation)
    }

    /// Where a pointer event of kind `kind` for this target goes.
    pub fn dispatch(&self, kind: PointerEventKind) -> (r: Route)
        ensures
            r == self.pointer_route(kind),
            !self.is_alive() ==> r == Route::Nowhere,
    {
        if !self.alive() {
            return Route::Nowhere;
        }
        match self {
            PointerFocusTarget::WlSurface(s) => Route::Surface(s.id),
            PointerFocusTarget::X11Surface(x) => Route::X11(x.window),
            PointerFocusTarget::SSD(d) => Route::Decoration(d.window.id),
            PointerFocusTarget::Egui(e) => Route::Overlay(e.id),
        }
    }

    /// Where a touch event of kind `kind` for this target goes.
    pub fn dispatch_touch(&self, kind: TouchEventKind) -> (r: Route)
        ensures
            r == self.touch_route(kind),
            !self.is_alive() ==> r == Route::Nowhere,
    {
        if !self.alive() {
            return Route::Nowhere;
        }
        match self {
            PointerFocusTarget::WlSurface(s) => Route::Surface(s.id),
            PointerFocusTarget::X11Surface(x) => Route::X11(x.window),
            PointerFocusTarget::SSD(d) => Route::Decoration(d.window.id),
            PointerFocusTarget::Egui(_) => Route::Nowhere,
        }
    }
}

impl From<WorkspaceWindow> for KeyboardFocusTarget {
    fn from(window: WorkspaceWindow) -> (target: KeyboardFocusTarget) {
        KeyboardFocusTarget::from_window(window)
    }
}

impl vstd::std_specs::convert::FromSpecImpl<WorkspaceWindow> for KeyboardFocusTarget {
    open spec fn obeys_from_spec() -> bool {
        true
    }

    open spec fn from_spec(window: WorkspaceWindow) -> KeyboardFocusTarget {
        KeyboardFocusTarget::of_window(window)
    }
}

impl From<KeyboardFocusTarget> for PointerFocusTarget {
    fn from(target: KeyboardFocusTarget) -> (pointer: PointerFocusTarget) {
        target.into_pointer_target()
    }
}

impl vstd::std_specs::convert::FromSpecImpl<KeyboardFocusTarget> for PointerFocusTarget {
    open spec fn obeys_from_spec() -> bool {
        true
    }

    open spec fn from_spec(target: KeyboardFocusTarget) -> PointerFocusTarget {
        target.pointer_target()
    }
}

impl TryFrom<KeyboardFocusTarget> for WorkspaceWindow {
    type Error = NotAWindow;

    fn try_from(target: KeyboardFocusTarget) -> (r: Result<WorkspaceWindow, NotAWindow>) {
        target.try_into_window()
    }
}

impl vstd::std_specs::convert::TryFromSpecImpl<KeyboardFocusTarget> for WorkspaceWindow {
    open spec fn obeys_try_from_spec() -> bool {
        true
    }

    open spec fn try_from_spec(target: KeyboardFocusTarget) -> Result<WorkspaceWindow, NotAWindow> {
        target.window()
    }
}

/// A target that is not alive receives nothing, whatever the event.
pub proof fn lemma_dead_target_receives_nothing(
    keyboard: KeyboardFocusTarget,
    pointer: PointerFocusTarget,
    key: KeyboardEventKind,
    event: PointerEventKind,
    touch: TouchEventKind,
)
    ensures
        !keyboard.is_alive() ==> keyboard.route(key) == Route::Nowhere,
        !pointer.is_alive() ==> pointer.pointer_route(event) == Route::Nowhere,
        !pointer.is_alive() ==> pointer.touch_route(touch) == Route::Nowhere,
{
}

/// An application's window turned into a focus target and back is the same
/// window, and a target that stands for a window is the target that its
/// window makes. Every other target, the overlay too, stands for no window.
pub proof fn lemma_window_round_trip(window: WorkspaceWindow, target: KeyboardFocusTarget)
    ensures
        window is ApplicationWindow ==> KeyboardFocusTarget::of_window(window).window() == Ok::<
            WorkspaceWindow,
            NotAWindow,
        >(window),
        window is EguiWindow ==> KeyboardFocusTarget::of_window(window).window() is Err,
        target.window() matches Ok(w) ==> KeyboardFocusTarget::of_window(w) == target,
        target.window() is Err <==> !(target is Window),
{
}

} // verus!
