//! Frame model: coordinates, geometry planning, layout, resources and the
//! interaction reducer.

pub mod coords;
pub mod model;
pub mod geometry;
pub mod layout;
pub mod session;
pub mod input;
pub mod resources;
pub mod controller;
