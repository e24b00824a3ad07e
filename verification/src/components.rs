//! The visual components a screen can show.
mod blinker;
mod breather;
mod direction;
mod falling_sand;
mod laser;
mod sprite;

pub use blinker::{blinker_pixels, Blinker, BLINKER_OFF, BLINKER_ON};
pub use breather::{stepped, Breather, BreatherView};
pub use direction::Direction;
pub use falling_sand::{lemma_map_keeps_multiset, FallingSand, FallingSandView, SAND_COLOR};
pub use laser::{Laser, LaserView, TRAIL_CAPACITY};
pub use sprite::Sprite;
