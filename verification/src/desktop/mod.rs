//! The desktop services over the X server (windows, workspaces, work areas,
//! displays, session): every decision they make, over plain values read
//! from EWMH properties and RandR replies. The round-trips themselves are
//! the caller's.

pub mod error;
pub mod generations;
pub mod area;
pub mod windows;
pub mod workspaces;
pub mod display;
pub mod modes;
pub mod session;
