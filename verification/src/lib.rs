//! Core logic of the Helide editor front end: pane layout, key and mouse
//! translation, terminal escape sequences, colour resolution and glyph
//! atlas packing.
use vstd::prelude::*;

pub mod app;
pub mod atlas;
pub mod backend;
pub mod config;
pub mod direnv;
pub mod event;
pub mod events;
pub mod glyph_cache;
pub mod input;
pub mod layout;
pub mod palette;
pub mod renderer;
pub mod shell_env;
pub mod terminal;

verus! {

} // verus!
