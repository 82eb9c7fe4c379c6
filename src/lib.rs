//! Placement, image storage and draw bookkeeping for a reference-image viewer.
//!
//! Everything here works on plain values: the graphics device and the window
//! are driven by the caller, which hands results back to these functions.
pub mod geometry;
pub mod library;
pub mod registry;
pub mod frame;
