//! Verified core of a small real-time renderer: the layout of the shared light
//! buffer, the intent state of the camera controllers, and mesh topology.

pub mod controller;
pub mod geometry;
pub mod light;
