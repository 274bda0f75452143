//! Verified core of a stat-card renderer: a tolerant colour-markup parser,
//! a glyph-coverage run segmenter, text metrics and shadow colours, and a
//! content-box layout engine that records drawing operations on a canvas.
//!
//! Lengths and positions are integers in hundredths of a pixel.

pub mod cache;
pub mod canvas;
pub mod chars;
pub mod color;
pub mod content_box;
pub mod markup;
pub mod metrics;
pub mod numbers;
pub mod palette;
pub mod prestige;
pub mod rank;
pub mod runs;
pub mod stats;
