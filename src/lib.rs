//! Navigation and command-dispatch core of a launcher: shortcuts, actions,
//! the per-view action registry and the navigation stack of view frames.

pub mod actions;
pub mod shortcut;
pub mod state;
