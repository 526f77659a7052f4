//! Animated sprite sheets rendered as coloured glyph art: luminance and
//! Sobel-edge glyph textures, cyclic frame sequences, a generic property
//! animation engine and a scene compositor that yields the cells to draw.
pub mod animation;
pub mod debug;
pub mod framevec;
pub mod position;
pub mod raster;
pub mod sobel;
pub mod sprite;
pub mod state;
pub mod texture;
