//! Core of a single-image viewer: the display transform, the pixel buffer that
//! follows the window's size, and the decisions of the event loop.
//!
//! The library touches no window and no file. Whoever drives it reads the
//! image, owns the window and carries out the actions that the event loop
//! asks for.

pub mod event_loop;
pub mod input;
pub mod raster;
pub mod startup;
pub mod surface;
