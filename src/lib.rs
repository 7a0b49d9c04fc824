//! Render scheduling and surface lifecycle for a single frame-paced window.
//!
//! The library decides when a surface may be drawn, what the next frame looks
//! like and how configuration events change the surface; the caller owns the
//! display-server connection and carries out the actions it is handed.

pub mod canvas;
pub mod surface;
pub mod laws;
