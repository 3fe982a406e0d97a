//! Core of a display server: surfaces, windows, spaces and outputs as plain
//! data, with the rules that place windows, apply commits, route input and
//! bridge the legacy window protocol.

pub mod action;
pub mod args;
pub mod commit;
pub mod config;
pub mod focus;
pub mod geometry;
pub mod grabs;
pub mod keys;
pub mod overlay;
pub mod placement;
pub mod seat;
pub mod selection;
pub mod state;
pub mod window;
pub mod xwayland;
