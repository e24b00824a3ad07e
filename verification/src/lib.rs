//! A small pixel-buffer animation framework.
//!
//! A [`screen::Screen`] owns a flat raster of packed 32-bit colours and an
//! ordered list of components, each placed at an offset. Components keep their
//! own state, advance it on `tick`, and report what they show as a list of
//! pixels in their own coordinates; the screen alone writes to the raster.
pub mod components;
pub mod screen;
