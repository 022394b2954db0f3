//! The top-level destinations of the player's navigation model.

use vstd::prelude::*;

verus! {

/// Top-level destinations (the "what am I looking at").
#[derive(Debug, Clone, Copy, PartialEq, Eq, Structural)]
pub enum View {
    Dashboard,
    Library,
    NowPlaying,
    Lyrics,
    Visualizer,
    Queue,
    Search,
    Settings,
}

} // verus!
