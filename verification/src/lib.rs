//! A windowing backend that adapts the SDL2 multimedia library to the
//! engine's windowing and input model. The library holds the decisions of
//! that adaptation over plain values: the keyboard, mouse and cursor
//! translation tables, the window identity table, the translation of native
//! events into engine events, the diff pass that mirrors engine-side window
//! changes back onto native windows, and the frame-pacing limiter. A thin
//! layer around it performs the native calls and the engine plumbing that
//! these decisions ask for.

pub mod cursor;
pub mod events;
pub mod keyboard;
pub mod limiter;
pub mod mouse;
pub mod sync;
pub mod window;
pub mod windows;

use vstd::prelude::*;

verus! {

/// Marker for the SDL2 windowing backend. Registering it replaces the
/// engine's default windowing backend with the SDL2-driven run loop and
/// the window-state synchronization systems.
pub struct Sdl2WindowBackendPlugin;

} // verus!
