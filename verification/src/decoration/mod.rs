//! Decoration decisions: frame policy, button targets, drag geometry.

pub mod cache;
pub mod interaction;
pub mod manager;
pub mod layout;
pub mod model;
pub mod paint;
pub mod policy;
