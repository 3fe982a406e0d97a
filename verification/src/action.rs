//! The actions that key bindings and the script ask for.

use crate::commit::as_int;
use crate::focus::KeyboardFocusTarget;
use crate::geometry::Rectangle;
use crate::state::{text_eq, Seat, State};
use crate::window::Window;
use vstd::prelude::*;

verus! {

/// Something to do.
#[derive(Clone, Debug, PartialEq, Eq)]
pub enum Action {
    /// Quit the compositor
    Quit,
    /// Trigger a vt-switch
    VtSwitch(i32),
    /// Spawn a command
    Spawn { command: String },
    /// Focus or spawn a command
    FocusOrSpawn { app_id: String, command: String },
    /// Scales output up/down
    ChangeScale { percentage_points: isize },
    /// Sets output scale
    SetScale { percentage: usize },
    /// Rotate output
    RotateOutput { output: usize, rotation: usize },
    /// Move window to zone
    MoveWindow { window: Option<usize>, zone: String },
    /// Run the script's callback with this handle
    Callback(u64),
    /// Tab through windows
    Tab { index: usize },
    /// Do nothing more
    Nothing,
}

/// What is left to do outside once an action has been executed.
#[derive(Clone, Debug, PartialEq, Eq)]
pub enum Effect {
    Nothing,
    /// Stop the event loop.
    StopLoop,
    /// Switch to the virtual terminal.
    SwitchVt(i32),
    /// Start the program.
    Spawn(String),
    /// Call the script's callback with this handle.
    RunCallback(u64),
    /// Configure the window with this identifier with the rectangle.
    Configure { window: u64, rect: Rectangle },
    /// The window with this identifier got the keyboard focus.
    Focused(u64),
}

/// How many windows above window `w` are mapped in space `s`.
pub open spec fn above_in_space(windows: Seq<Window>, s: usize, w: int) -> nat
    decreases windows.len() - w,
{
    if w + 1 >= windows.len() {
        0
    } else {
        above_in_space(windows, s, w + 1) + if windows[w + 1].space == Some(s) {
            1nat
        } else {
            0nat
        }
    }
}

impl State {
    /// Window `w` is mapped and alive and its application is called `app_id`.
    pub open spec fn is_app(self, w: int, app_id: Seq<char>) -> bool {
        &&& 0 <= w < self.windows.len()
        &&& self.windows[w].app_id@ == app_id
        &&& self.windows[w].alive
        &&& self.windows[w].space is Some
    }

    /// `w` is the lowest mapped, live window of the application `app_id`.
    pub open spec fn first_app(self, app_id: Seq<char>, w: Option<int>) -> bool {
        match w {
            Some(i) => self.is_app(i, app_id) && forall|k: int|
                0 <= k < i ==> !self.is_app(k, app_id),
            None => forall|k: int| !self.is_app(k, app_id),
        }
    }

    /// `w` is the window of space `s` with `n` of the space's windows above
    /// it.
    pub open spec fn nth_from_top(self, s: usize, n: nat, w: Option<int>) -> bool {
        match w {
            Some(i) => self.in_space(i, s as int) && above_in_space(self.windows@, s, i) == n,
            None => forall|k: int|
                self.in_space(k, s as int) ==> above_in_space(self.windows@, s, k) != n,
        }
    }

    /// The lowest mapped window that is alive and whose application is called
    /// `app_id`, by its index.
    pub fn window_by_name(&self, app_id: &str) -> (r: Option<usize>)
        ensures
            self.first_app(app_id@, as_int(r)),
    {
        let mut i: usize = 0;
        while i < self.windows.len()
            invariant
                i <= self.windows.len(),
                forall|k: int| 0 <= k < i ==> !self.is_app(k, app_id@),
            decreases self.windows.len() - i,
        {
            let w = &self.windows[i];
            if w.alive && w.space.is_some() && text_eq(&w.app_id, app_id) {
                return Some(i);
            }
            i += 1;
        }
        None
    }

    /// The window of space `s` that has `n` of the space's windows above it,
    /// by its index.
    pub fn window_from_top(&self, s: usize, n: usize) -> (r: Option<usize>)
        ensures
            self.nth_from_top(s, n as nat, as_int(r)),
    {
        let mut seen: usize = 0;
        let mut i: usize = self.windows.len();
        while i > 0
            invariant
                i <= self.windows.len(),
                seen <= self.windows.len() - i,
                seen <= n,
                i < self.windows.len() ==> seen == above_in_space(self.windows@, s, i as int)
                    + if self.windows[i as int].space == Some(s) {
                    1nat
                } else {
                    0nat
                },
                i == self.windows.len() ==> seen == 0,
                forall|k: int|
                    i <= k < self.windows.len() && self.in_space(k, s as int) ==> above_in_space(
                        self.windows@,
                        s,
                        k,
                    ) != n,
            decreases i,
        {
            i -= 1;
            let here = match self.windows[i].space {
                Some(t) => t == s,
                None => false,
            };
            if here {
                if seen == n {
                    return Some(i);
                }
                seen += 1;
            }
        }
        None
    }

    /// `post` and `effect` are what executing `action` makes of `self`.
    /// Quitting stops the loop; a switch of terminal, a program to start and a
    /// callback are handed out to be done; moving a window places the topmost
    /// window of the first space in the zone, or where there is no such zone in
    /// the nearest output; tabbing focuses the window of the first space that
    /// many from the top; focusing an application finds its window or, where
    /// there is none, has its program started. Scaling and rotating do nothing.
    pub open spec fn executed(self, post: State, action: Action, effect: Effect) -> bool {
        match action {
            Action::Quit => effect == Effect::StopLoop && self.stopped(post),
            Action::VtSwitch(vt) => effect == Effect::SwitchVt(vt) && post == self,
            Action::Spawn { command } => effect == Effect::Spawn(command) && post == self,
            Action::Callback(callback) => effect == Effect::RunCallback(callback) && post == self,
            Action::MoveWindow { window, zone } => self.moved_to_zone(post, zone@, effect),
            Action::Tab { index } => exists|w: Option<int>|
                {
                    &&& #[trigger] self.nth_from_top(0, index as nat, w)
                    &&& self.focused(post, w, effect)
                },
            Action::FocusOrSpawn { app_id, command } => exists|w: Option<int>|
                {
                    &&& #[trigger] self.first_app(app_id@, w)
                    &&& match w {
                        Some(i) => self.focused(post, w, effect),
                        None => effect == Effect::Spawn(command) && post == self,
                    }
                },
            _ => effect == Effect::Nothing && post == self,
        }
    }

    /// `post` is `self` with the event loop told to stop.
    pub open spec fn stopped(self, post: State) -> bool {
        &&& !post.running
        &&& post.spaces == self.spaces
        &&& post.windows == self.windows
        &&& post.outputs == self.outputs
        &&& post.surfaces == self.surfaces
        &&& post.seat == self.seat
        &&& post.selections == self.selections
        &&& post.config == self.config
    }

    /// `post` is `self` after the topmost window of the first space was
    /// placed in the zone called `zone`, or in the nearest output where the
    /// space has no such zone; `effect` tells how to configure it. In a space
    /// without windows nothing happened.
    pub open spec fn moved_to_zone(self, post: State, zone: Seq<char>, effect: Effect) -> bool {
        if self.is_empty_space(0) {
            effect == Effect::Nothing && post == self
        } else {
            exists|i: int, z: Option<int>, rect: Rectangle|
                {
                    &&& self.is_top(0, i)
                    &&& self.zone_choice(0, Some(zone), z)
                    &&& #[trigger] self.placed(0, i, false, z, true, rect)
                    &&& effect == Effect::Configure { window: self.windows[i].id, rect }
                    &&& self.changed(
                        post,
                        self.windows@.update(i, self.windows[i].mapped_at(0, rect)),
                        self.seat,
                    )
                }
        }
    }

    /// `post` is `self` after window `w` was raised and given the keyboard
    /// focus, which `effect` reports; without a window nothing happened.
    pub open spec fn focused(self, post: State, w: Option<int>, effect: Effect) -> bool {
        match w {
            Some(i) => {
                &&& 0 <= i < self.windows.len()
                &&& effect == Effect::Focused(self.windows[i].id)
                &&& self.changed(
                    post,
                    self.windows@.remove(i).push(self.windows[i]),
                    Seat {
                        keyboard_focus: Some(
                            KeyboardFocusTarget::of_window(self.windows[i].handle_of()),
                        ),
                        ..self.seat
                    },
                )
            },
            None => effect == Effect::Nothing && post == self,
        }
    }

    /// Executes `action` and says what is left to do outside.
    pub fn execute(&mut self, action: Action) -> (effect: Effect)
        requires
            old(self).wf(),
        ensures
            final(self).wf(),
            old(self).executed(*final(self), action, effect),
    {
        match action {
            Action::Quit => {
                self.running = false;
                Effect::StopLoop
            },
            Action::VtSwitch(vt) => Effect::SwitchVt(vt),
            Action::Spawn { command } => Effect::Spawn(command),
            Action::Callback(callback) => Effect::RunCallback(callback),
            Action::MoveWindow { window, zone } => {
                let top = self.top_window_of(0);
                match top {
                    Some(w) => {
                        let z = self.spaces[0].zone_index(zone.as_str());
                        let id = self.windows[w].id;
                        let rect = self.place_at(0, w, false, z, true);
                        proof {
                            assert(old(self).is_top(0, w as int));
                            assert(old(self).zone_choice(0, Some(zone@), as_int(z)));
                            assert(old(self).placed(0, w as int, false, as_int(z), true, rect));
                            assert(!old(self).is_empty_space(0)) by {
                                assert(old(self).in_space(w as int, 0));
                            }
                        }
                        Effect::Configure { window: id, rect }
                    },
                    None => Effect::Nothing,
                }
            },
            Action::Tab { index } => {
                let w = self.window_from_top(0, index);
                let effect = self.focus_index(w);
                proof {
                    assert(old(self).nth_from_top(0, index as nat, as_int(w)));
                }
                effect
            },
            Action::FocusOrSpawn { app_id, command } => {
                let w = self.window_by_name(app_id.as_str());
                proof {
                    assert(old(self).first_app(app_id@, as_int(w)));
                }
                match w {
                    Some(_) => self.focus_index(w),
                    None => Effect::Spawn(command),
                }
            },
            _ => Effect::Nothing,
        }
    }

    /// Raises window `w` and gives it the keyboard focus.
    pub(crate) fn focus_index(&mut self, w: Option<usize>) -> (effect: Effect)
        requires
            old(self).wf(),
            w matches Some(i) ==> i < old(self).windows.len(),
        ensures
            final(self).wf(),
            old(self).focused(*final(self), as_int(w), effect),
    {
        match w {
            Some(i) => {
                let id = self.windows[i].id;
                self.focus_at(i);
                Effect::Focused(id)
            },
            None => Effect::Nothing,
        }
    }
}

} // verus!
