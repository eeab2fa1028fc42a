//! The state and the decisions of a terminal tab: the queue of events between the window and the
//! terminal emulator, the selection, vi mode, the mouse, hyperlinks, the task that runs in the
//! tab, and the colours it answers with.
//!
//! The emulator is `alacritty_terminal`, called from the module `alac`. Whatever takes a window, a
//! clock, a clipboard, a process or a float is done by the application, which hands plain values
//! in and takes plain values out.
use vstd::prelude::*;

pub mod alac;
pub mod batch;
pub mod builder;
pub mod color;
pub mod content;
pub mod env;
pub mod error;
pub mod events;
pub mod fitness;
pub mod geometry;
pub mod grid;
pub mod input;
pub mod laws;
pub mod lines;
pub mod links;
pub mod mouse;
pub mod paths;
pub mod process;
pub mod sync;
pub mod task;
pub mod terminal;
pub mod text;
pub mod title;

verus! {

} // verus!
