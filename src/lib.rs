//! Event routing for a terminal build-progress reporter: build-step actions
//! are delivered to a set of handlers, each owning widgets on a render surface.
pub mod action;
pub mod handler;
pub mod label;
pub mod laws;
pub mod state;
pub mod style;
pub mod surface;
