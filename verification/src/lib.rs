//! Style resolution and drawing dispatch for a static vector-graphics
//! renderer, on exact integer geometry.
//!
//! A scene (shapes, embedded images and nested documents, gradient
//! definitions) is turned into the sequence of primitives that a rasterizer
//! has to draw. Every length and coordinate is an integer number of units;
//! what a unit is (a pixel, a fraction of one) is the caller's choice.
//! Viewport fits are computed as exact fractions, so that containment and
//! alignment hold without rounding.

pub mod canvas;
pub mod geom;
pub mod image;
pub mod path;
pub mod render;
pub mod style;
pub mod tree;
pub mod util;
pub mod viewbox;
