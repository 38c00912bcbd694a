//! Movement and orbit controller for a single grid-bound actor and the
//! cameras that circle it.
pub mod bindings;
pub mod controller;
pub mod facing;
pub mod geometry;
