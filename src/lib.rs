//! Color conversion and manipulation.
//!
//! - `color`: RGB and HSV value triples, with the in-place update of saturation
//!   and value that keeps hue.
//! - `sector`: the HSV hexagon, the sector of a hue and the channel layout of each sector.
//! - `exact`: RGB to HSV and back on 8-bit colors, held exactly, with the round trip proved.
//! - `gradient`: the evenly spaced positions at which a gradient samples its two colors.

pub mod color;
pub mod exact;
pub mod gradient;
pub mod sector;
