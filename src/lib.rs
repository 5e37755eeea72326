//! Builds fixed-grid CP437 glyph atlases: the font-size search, the placement
//! of each glyph in its cell, and the bit packing of the finished raster.

pub mod cp437;
pub mod dump;
pub mod layout;
pub mod packer;
pub mod solver;
