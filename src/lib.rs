//! The interactive core of a four-window text terminal: per-window documents
//! with a cursor and scroll state machine, the editor that dispatches key
//! events to them, the render pass that turns its state into glyph plots, and
//! the single-slot mailbox that hands keys and timer ticks to the main loop.
use vstd::prelude::*;

pub mod layout;
pub mod document;
pub mod editor;
pub mod render;
pub mod mailbox;
pub mod kernel;

verus! {

} // verus!
