//! Verified core of an X11 window manager: frame geometry, size hints,
//! placement state, the frame interaction reducer and the frame resource
//! registry.

pub mod arith;
pub mod geometry;
pub mod cursor;
pub mod event_pump;
pub mod frame;
pub mod size_hints;
pub mod snap_preview;
pub mod wm;
pub mod chrome;
pub mod client;
pub mod decoration;
pub mod runtime;
pub mod desktop;
